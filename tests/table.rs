use defmacro::table::MacroTable;

#[test]
fn empty_table_has_nothing() {
    let t: MacroTable<u8> = MacroTable::new();
    assert_eq!(t.get(&"x".to_string()), None);
    assert!(!t.contains(&"".to_string()));
}

#[test]
fn last_registration_wins() {
    let mut t: MacroTable<u8> = MacroTable::new();
    t.insert("a".to_string(), 1);
    t.insert("b".to_string(), 2);
    t.insert("a".to_string(), 3);
    assert_eq!(t.get(&"a".to_string()), Some(&3));
    assert_eq!(t.get(&"b".to_string()), Some(&2));
    assert_eq!(t.get(&"c".to_string()), None);
}

#[test]
fn names_are_compared_exactly() {
    let mut t: MacroTable<u8> = MacroTable::new();
    t.insert("rn".to_string(), 1);
    assert!(t.contains(&"rn".to_string()));
    assert!(!t.contains(&"RN".to_string()));
    assert!(!t.contains(&"rn ".to_string()));
}
