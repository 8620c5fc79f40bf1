use earbuds::directory::Directory;

#[test]
fn new_directory_is_empty() {
    let d: Directory<u8> = Directory::new();
    assert_eq!(d.len(), 0);
    assert!(!d.contains_key("AA:BB"));
    assert_eq!(d.get("AA:BB"), None);
    assert_eq!(d.sole_entry(), None);
    assert!(d.keys().is_empty());
}

#[test]
fn insert_adds_an_entry_once() {
    let mut d: Directory<u8> = Directory::new();
    assert!(d.insert("AA:BB".to_string(), 1));
    assert_eq!(d.len(), 1);
    assert!(d.contains_key("AA:BB"));
    assert_eq!(d.get("AA:BB"), Some(&1));
    assert!(!d.insert("AA:BB".to_string(), 2));
    assert_eq!(d.len(), 1);
    assert_eq!(d.get("AA:BB"), Some(&1));
}

#[test]
fn set_replaces_only_an_existing_entry() {
    let mut d: Directory<u8> = Directory::new();
    d.insert("AA".to_string(), 1);
    d.insert("BB".to_string(), 2);
    assert!(d.set("AA", 7));
    assert_eq!(d.get("AA"), Some(&7));
    assert_eq!(d.get("BB"), Some(&2));
    assert!(!d.set("CC", 9));
    assert_eq!(d.get("CC"), None);
    assert_eq!(d.len(), 2);
}

#[test]
fn sole_entry_needs_exactly_one_entry() {
    let mut d: Directory<u8> = Directory::new();
    assert_eq!(d.sole_entry(), None);
    d.insert("AA".to_string(), 1);
    assert_eq!(d.sole_entry(), Some((&"AA".to_string(), &1)));
    d.insert("BB".to_string(), 2);
    assert_eq!(d.sole_entry(), None);
    d.remove("AA");
    assert_eq!(d.sole_entry(), Some((&"BB".to_string(), &2)));
}

#[test]
fn remove_takes_out_one_entry() {
    let mut d: Directory<u8> = Directory::new();
    d.insert("AA".to_string(), 1);
    d.insert("BB".to_string(), 2);
    d.insert("CC".to_string(), 3);
    assert_eq!(d.remove("BB"), Some(2));
    assert_eq!(d.remove("BB"), None);
    assert_eq!(d.remove("DD"), None);
    assert_eq!(d.len(), 2);
    assert_eq!(d.get("AA"), Some(&1));
    assert_eq!(d.get("BB"), None);
    assert_eq!(d.get("CC"), Some(&3));
    assert!(d.insert("BB".to_string(), 4));
    assert_eq!(d.get("BB"), Some(&4));
    assert_eq!(d.remove("AA"), Some(1));
    assert_eq!(d.remove("CC"), Some(3));
    assert_eq!(d.remove("BB"), Some(4));
    assert_eq!(d.len(), 0);
}

#[test]
fn keys_lists_every_address_once() {
    let mut d: Directory<u8> = Directory::new();
    d.insert("BB".to_string(), 2);
    d.insert("AA".to_string(), 1);
    d.insert("BB".to_string(), 3);
    d.insert("CC".to_string(), 3);
    let mut keys = d.keys();
    keys.sort();
    assert_eq!(keys, vec!["AA".to_string(), "BB".to_string(), "CC".to_string()]);
}

#[test]
fn addresses_are_compared_exactly() {
    let mut d: Directory<u8> = Directory::new();
    d.insert("aa:bb".to_string(), 1);
    assert!(!d.contains_key("AA:BB"));
    assert!(!d.contains_key("aa:b"));
    assert!(!d.contains_key(""));
    assert!(d.insert("".to_string(), 2));
    assert!(d.contains_key(""));
}
