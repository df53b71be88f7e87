use buildme::string_map::StringMap;

#[test]
fn a_new_map_is_empty() {
    let map = StringMap::new();
    assert_eq!(map.len(), 0);
    assert_eq!(map.get("-DX"), None);
    assert_eq!(map.find("-DX"), 0);
}

#[test]
fn entries_keep_the_order_of_insertion() {
    let mut map = StringMap::new();
    map.insert("-DB".to_string(), "ON".to_string());
    map.insert("-DA".to_string(), "OFF".to_string());
    assert_eq!(map.len(), 2);
    assert_eq!(map.key_at(0), "-DB");
    assert_eq!(map.value_at(0), "ON");
    assert_eq!(map.key_at(1), "-DA");
    assert_eq!(map.value_at(1), "OFF");
    assert_eq!(map.find("-DA"), 1);
    assert_eq!(map.find("-DC"), 2);
}

#[test]
fn a_second_value_replaces_the_first_in_place() {
    let mut map = StringMap::new();
    map.insert("-DB".to_string(), "ON".to_string());
    map.insert("-DA".to_string(), "OFF".to_string());
    map.insert("-DB".to_string(), "OFF".to_string());
    assert_eq!(map.len(), 2);
    assert_eq!(map.key_at(0), "-DB");
    assert_eq!(map.get("-DB"), Some("OFF"));
    assert_eq!(map.get("-DA"), Some("OFF"));
    assert_eq!(map.get("-DC"), None);
}
