use raws::handlers::common;
use raws::store::{Properties, Store};

fn set(store: &mut Store, section: &str, key: &str, value: &str) {
    store.set_to(Some(section.to_string()), key.to_string(), value.to_string());
}

#[test]
fn return_none_if_profile_not_found() {
    let mut conf = Store::new();
    set(&mut conf, "first_section", "some_key", "some_value");
    set(&mut conf, "second_section", "some_key", "some_other_value");

    let result = common::find_profile_with_name(&conf, &String::from("default"));
    assert!(result.is_none());
}

#[test]
fn return_some_if_profile_found() {
    let default_section_name = "dEfAult";
    let mut conf = Store::new();
    set(&mut conf, "fist_section", "some_key", "some_value");
    set(&mut conf, default_section_name, "some_key", "some_other_value");

    let result = common::find_profile_with_name(&conf, &String::from("default"));
    assert!(result.is_some());
    let section = result.unwrap();
    assert_eq!(section.name.clone().unwrap(), default_section_name.to_string());
}

#[test]
fn return_none_if_role_arn_not_found() {
    let mut properties = Properties::new();
    properties.insert("source_profile".to_string(), "some_profile".to_string());

    let result = common::get_assume_settings(&properties);

    assert!(result.is_none());
}

#[test]
fn return_none_if_source_profile_not_found() {
    let mut properties = Properties::new();
    properties.insert("role_arn".to_string(), "some_arn".to_string());

    let result = common::get_assume_settings(&properties);

    assert!(result.is_none());
}

#[test]
fn common_return_some_if_both_role_arn_and_source_profile_available() {
    let mut properties = Properties::new();
    properties.insert("role_arn".to_string(), "some_arn".to_string());
    properties.insert("source_profile".to_string(), "some_profile".to_string());

    let result = common::get_assume_settings(&properties);

    assert_eq!(result, Some(("some_arn".to_string(), "some_profile".to_string())));
}

#[test]
fn get_value_of_tuple_hands_back_the_properties() {
    let mut conf = Store::new();
    set(&mut conf, "some_section", "some_key", "some_value");
    let section = common::find_profile_with_name(&conf, &String::from("some_section")).unwrap();

    let properties = common::get_value_of_tuple(&section);

    assert_eq!(properties.get("some_key"), Some("some_value".to_string()));
}

#[test]
fn compose_applies_both_functions_in_order() {
    let add_suffix = |s: String| format!("{}!", s);
    let count = |s: String| s.len();
    let composed = common::compose(add_suffix, count);

    assert_eq!(composed("abc".to_string()), 4);
}
