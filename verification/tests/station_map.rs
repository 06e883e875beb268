use guibiao_backend::station_map::StationMap;

#[test]
fn insert_then_get() {
    let mut m: StationMap<u32> = StationMap::new();
    let a = "a".to_string();
    let b = "b".to_string();
    assert_eq!(m.get(&a), None);
    m.insert(a.clone(), 1);
    m.insert(b.clone(), 2);
    assert_eq!(m.get(&a), Some(&1));
    assert_eq!(m.get(&b), Some(&2));
    m.insert(a.clone(), 3);
    assert_eq!(m.get(&a), Some(&3));
    assert_eq!(m.get(&b), Some(&2));
    assert_eq!(m.get(&"c".to_string()), None);
}
