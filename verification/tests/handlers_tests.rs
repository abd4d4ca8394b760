use raws::handlers;
use raws::store::{Properties, Store};

fn put(store: &mut Store, section: &str, key: &str, value: &str) {
    store.set_to(Some(section.to_string()), key.to_string(), value.to_string());
}

#[test]
fn section_is_not_default_compares_the_exact_word() {
    assert!(handlers::section_is_not_default(&Some("work".to_string())));
    assert!(handlers::section_is_not_default(&Some("Default".to_string())));
    assert!(!handlers::section_is_not_default(&Some("default".to_string())));
    assert!(!handlers::section_is_not_default(&None));
}

#[test]
fn section_has_same_access_key_id_reads_the_fingerprint() {
    let mut properties = Properties::new();
    properties.insert("aws_access_key_id".to_string(), "K".to_string());

    assert!(handlers::section_has_same_access_key_id(&"K".to_string(), &properties));
    assert!(!handlers::section_has_same_access_key_id(&"other".to_string(), &properties));
    assert!(!handlers::section_has_same_access_key_id(&"K".to_string(), &Properties::new()));
}

#[test]
fn find_default_section_matches_the_exact_name_only() {
    let mut store = Store::new();
    put(&mut store, "DEFAULT", "aws_access_key_id", "upper");
    put(&mut store, "default", "aws_access_key_id", "lower");

    let section = handlers::find_default_section(&store).unwrap();
    assert_eq!(section.name, Some("default".to_string()));
    assert_eq!(
        handlers::get_default_access_key_id(&section),
        Some("lower".to_string())
    );
}

#[test]
fn find_section_with_same_access_key_skips_the_default_section() {
    let mut store = Store::new();
    put(&mut store, "default", "aws_access_key_id", "K");
    put(&mut store, "mine", "aws_access_key_id", "K");

    let section = handlers::find_section_with_same_access_key(&"K".to_string(), &store).unwrap();
    assert_eq!(section.name, Some("mine".to_string()));

    let missing = handlers::find_section_with_same_access_key(&"absent".to_string(), &store);
    assert!(missing.is_none());
}
