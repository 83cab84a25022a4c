use weasel::ordered_map::OrderedMap;

#[test]
fn keeps_insertion_order() {
    let mut m: OrderedMap<u64> = OrderedMap::new();
    assert_eq!(m.insert(30, 3), None);
    assert_eq!(m.insert(10, 1), None);
    assert_eq!(m.insert(20, 2), None);
    assert_eq!(m.len(), 3);
    assert_eq!(m.id_at(0), 30);
    assert_eq!(m.id_at(1), 10);
    assert_eq!(m.id_at(2), 20);
    assert_eq!(m.index_of(20), Some(2));
    assert_eq!(m.index_of(40), None);
}

#[test]
fn replacing_keeps_the_place() {
    let mut m: OrderedMap<u64> = OrderedMap::new();
    m.insert(30, 3);
    m.insert(10, 1);
    assert_eq!(m.insert(30, 33), Some(3));
    assert_eq!(m.id_at(0), 30);
    assert_eq!(m.get(30), Some(&33));
    assert_eq!(m.len(), 2);
}

#[test]
fn removing_keeps_the_order_of_the_rest() {
    let mut m: OrderedMap<u64> = OrderedMap::new();
    m.insert(1, 10);
    m.insert(2, 20);
    m.insert(3, 30);
    m.insert(4, 40);
    assert_eq!(m.remove(2), Some(20));
    assert_eq!(m.remove(2), None);
    assert_eq!(m.len(), 3);
    assert_eq!(m.id_at(0), 1);
    assert_eq!(m.id_at(1), 3);
    assert_eq!(m.id_at(2), 4);
    assert_eq!(m.entry_at(1), (3, &30));
    assert!(!m.contains_key(2));
    assert!(m.contains_key(4));
}

#[test]
fn mutable_value_by_position() {
    let mut m: OrderedMap<u64> = OrderedMap::new();
    m.insert(5, 50);
    m.insert(6, 60);
    *m.value_mut_at(1) = 61;
    assert_eq!(m.get(6), Some(&61));
    assert_eq!(m.get(5), Some(&50));
}
