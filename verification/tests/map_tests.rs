use strata::ordered_map::OrderedMap;
use strata::process::Pid;

#[test]
fn ordered_map_insert_and_get() {
    let mut m: OrderedMap<Pid, &str> = OrderedMap::new();
    assert_eq!(m.len(), 0);
    assert_eq!(m.get(&Pid::from_raw(7)), None);
    assert_eq!(m.insert(Pid::from_raw(7), "a"), None);
    assert_eq!(m.insert(Pid::from_raw(9), "b"), None);
    assert_eq!(m.len(), 2);
    assert!(m.contains_key(&Pid::from_raw(9)));
    assert!(!m.contains_key(&Pid::from_raw(8)));
    assert_eq!(m.get(&Pid::from_raw(7)), Some(&"a"));
    assert_eq!(m.insert(Pid::from_raw(7), "c"), Some("a"));
    assert_eq!(m.len(), 2);
    assert_eq!(m.get(&Pid::from_raw(7)), Some(&"c"));
    assert_eq!(m.get(&Pid::from_raw(9)), Some(&"b"));
}
