use raws::store::Store;

fn set_kv(store: &mut Store, section: &str, key: &str, value: &str) {
    store.set_to(Some(section.to_string()), key.to_string(), value.to_string());
}

fn get_from(store: &Store, section: &str, key: &str) -> Option<String> {
    raws::handlers::set::find_profile_with_exact_name(store, &section.to_string())
        .and_then(|sec| sec.properties.get(key))
}

fn names(store: &Store) -> Vec<String> {
    raws::handlers::set::get_all_profile_names_except_default(store)
}

fn set_config_store() -> Store {
    let mut conf = Store::new();
    set_kv(&mut conf, "default", "role_arn", "arn_default");
    set_kv(&mut conf, "default", "source_profile", "source_profile_default");
    set_kv(&mut conf, "profile first_assumed_profile", "role_arn", "1");
    set_kv(&mut conf, "profile first_assumed_profile", "source_profile", "1");
    set_kv(&mut conf, "profile second_assumed_profile", "role_arn", "2");
    set_kv(&mut conf, "profile second_assumed_profile", "source_profile", "2");
    conf
}

fn set_credentials_store() -> Store {
    let mut creds = Store::new();
    set_kv(&mut creds, "default", "aws_access_key_id", "0");
    set_kv(&mut creds, "default", "aws_secret_access_key", "0");
    set_kv(&mut creds, "first_profile", "aws_access_key_id", "1");
    set_kv(&mut creds, "first_profile", "aws_secret_access_key", "1");
    set_kv(&mut creds, "second_profile", "aws_access_key_id", "2");
    set_kv(&mut creds, "second_profile", "aws_secret_access_key", "2");
    creds
}

#[test]
fn return_all_profile_names_except_default_in_sorted_order() {
    let mut conf = Store::new();
    set_kv(&mut conf, "b", "role_arn", "arn_b");
    set_kv(&mut conf, "default", "role_arn", "arn_default");
    set_kv(&mut conf, "a", "role_arn", "arn_a");
    set_kv(&mut conf, "c", "role_arn", "arn_c");

    let profiles = raws::handlers::set::get_all_profile_names_except_default(&conf);

    assert_eq!(vec!["a", "b", "c"], profiles)
}

#[test]
fn assume_set_default_profile_with_provided_values() {
    let mut conf = Store::new();
    set_kv(&mut conf, "default", "role_arn", "arn_default");
    set_kv(&mut conf, "default", "source_profile", "source_profile_default");

    let updated_conf = raws::handlers::set::set_default_assume_settings(
        &conf,
        (&"updated_arn".to_string(), &"updated_source_profile".to_string()),
    );

    assert_eq!(Some("updated_arn".to_string()), get_from(&updated_conf, "default", "role_arn"));
    assert_eq!(
        Some("updated_source_profile".to_string()),
        get_from(&updated_conf, "default", "source_profile")
    );
}

#[test]
fn credentials_set_default_profile_with_provided_values() {
    let mut conf = Store::new();
    set_kv(&mut conf, "default", "aws_access_key_id", "default_key_id");
    set_kv(&mut conf, "default", "aws_secret_access_key", "default_secret_access_key");

    let updated_conf = raws::handlers::set::set_default_settings(
        &conf,
        (&"updated_key_id".to_string(), &"updated_secret_access_key".to_string()),
    );

    assert_eq!(
        Some("updated_key_id".to_string()),
        get_from(&updated_conf, "default", "aws_access_key_id")
    );
    assert_eq!(
        Some("updated_secret_access_key".to_string()),
        get_from(&updated_conf, "default", "aws_secret_access_key")
    );
}

#[test]
fn return_some_if_both_access_key_id_and_secret_access_key_available() {
    let mut section_properties = raws::store::Properties::new();
    section_properties.insert("aws_access_key_id".to_string(), "access_key_id_1".to_string());
    section_properties.insert(
        "aws_secret_access_key".to_string(),
        "secret_access_key_1".to_string(),
    );
    let result = raws::handlers::set::get_profile_settings(&section_properties);

    assert!(result.is_some());
    let (aws_access_key_id, aws_secret_access_key) = result.unwrap();
    assert_eq!("access_key_id_1", aws_access_key_id);
    assert_eq!("secret_access_key_1", aws_secret_access_key);
}

#[test]
fn return_none_if_access_key_id_not_available() {
    let mut section_properties = raws::store::Properties::new();
    section_properties.insert(
        "aws_secret_access_key".to_string(),
        "secret_access_key_1".to_string(),
    );

    let result = raws::handlers::set::get_profile_settings(&section_properties);

    assert!(result.is_none());
}

#[test]
fn return_none_if_secret_access_key_not_available() {
    let mut section_properties = raws::store::Properties::new();
    section_properties.insert("aws_access_key_id".to_string(), "access_key_id_1".to_string());

    let result = raws::handlers::set::get_profile_settings(&section_properties);

    assert!(result.is_none());
}

#[test]
fn call_fzf_with_profile_names_from_both_config_and_credentials() {
    let config_file = set_config_store();
    let credentials_file = set_credentials_store();

    let mut profiles_to_choose = names(&credentials_file);
    profiles_to_choose.extend(names(&config_file));

    let expected_profiles = vec![
        "first_profile".to_string(),
        "second_profile".to_string(),
        "profile first_assumed_profile".to_string(),
        "profile second_assumed_profile".to_string(),
    ];
    assert_eq!(profiles_to_choose, expected_profiles);
}

#[test]
fn all_profile_names_are_sorted_across_both_stores() {
    let config_file = set_config_store();
    let credentials_file = set_credentials_store();

    let profiles = raws::handlers::set::all_profile_names(&config_file, &credentials_file);

    let expected_profiles = vec![
        "first_profile".to_string(),
        "profile first_assumed_profile".to_string(),
        "profile second_assumed_profile".to_string(),
        "second_profile".to_string(),
    ];
    assert_eq!(profiles, expected_profiles);
}

#[test]
fn set_config_file_default_section_if_selected_profile_can_be_found_in_config() {
    let config_file = set_config_store();
    let credentials_file = set_credentials_store();

    let result = raws::handlers::set::promote(
        &config_file,
        &credentials_file,
        &"profile first_assumed_profile".to_string(),
    );

    let (updated_config_file, _) = result.unwrap();
    assert_eq!(get_from(&updated_config_file, "default", "role_arn"), Some("1".to_string()));
    assert_eq!(get_from(&updated_config_file, "default", "source_profile"), Some("1".to_string()));
}

#[test]
fn set_credentials_file_default_section_if_selected_profile_can_only_be_found_in_credentials() {
    let config_file = set_config_store();
    let credentials_file = set_credentials_store();

    assert!(!raws::handlers::set::delegation_promotion_applies(&config_file, &"first_profile".to_string()));
    let result = raws::handlers::set::promote(&config_file, &credentials_file, &"first_profile".to_string());
    let (updated_config_file, updated_credentials_file) = result.unwrap();

    // the config file default section is reset
    assert_eq!(get_from(&updated_config_file, "default", "role_arn"), Some("".to_string()));
    assert_eq!(get_from(&updated_config_file, "default", "source_profile"), Some("".to_string()));

    assert_eq!(
        get_from(&updated_credentials_file, "default", "aws_access_key_id"),
        Some("1".to_string())
    );
    assert_eq!(
        get_from(&updated_credentials_file, "default", "aws_secret_access_key"),
        Some("1".to_string())
    );
}

#[test]
fn return_error_result_if_profile_is_not_in_both_config_and_credentials() {
    let config_file = set_config_store();
    let credentials_file = set_credentials_store();

    let result = raws::handlers::set::promote(&config_file, &credentials_file, &"third_profile".to_string());

    let error = result.unwrap_err();
    assert_eq!(error, raws::handlers::set::PromotionError::ProfileNotFound("third_profile".to_string()));
    assert!(error.message().contains("profile [third_profile] not found"));
}

#[test]
fn return_early_if_select_profiles_action_is_cancelled() {
    let config_file = set_config_store();
    let credentials_file = set_credentials_store();

    // when the user cancels the picker, the chosen profile is an empty string
    let result = raws::handlers::set::apply_selection(&config_file, &credentials_file, &"".to_string());

    assert!(matches!(result, Ok(None)));
}

#[test]
fn promoting_a_credentials_only_profile_copies_both_credential_keys() {
    let mut config_file = Store::new();
    set_kv(&mut config_file, "default", "role_arn", "stale_arn");
    set_kv(&mut config_file, "default", "source_profile", "stale_profile");
    let mut credentials_file = Store::new();
    set_kv(&mut credentials_file, "staging", "aws_access_key_id", "K2");
    set_kv(&mut credentials_file, "staging", "aws_secret_access_key", "S2");

    let result = raws::handlers::set::promote(&config_file, &credentials_file, &"staging".to_string());

    let (updated_config_file, updated_credentials_file) = result.unwrap();
    assert_eq!(get_from(&updated_config_file, "default", "role_arn"), Some("".to_string()));
    assert_eq!(get_from(&updated_config_file, "default", "source_profile"), Some("".to_string()));
    assert_eq!(
        get_from(&updated_credentials_file, "default", "aws_access_key_id"),
        Some("K2".to_string())
    );
    assert_eq!(
        get_from(&updated_credentials_file, "default", "aws_secret_access_key"),
        Some("S2".to_string())
    );
}

#[test]
fn delegation_promotion_applies_exactly_when_both_keys_stand_in_config() {
    let config_file = set_config_store();
    assert!(raws::handlers::set::delegation_promotion_applies(
        &config_file,
        &"profile second_assumed_profile".to_string()
    ));
    assert!(!raws::handlers::set::delegation_promotion_applies(&config_file, &"missing".to_string()));
}

#[test]
fn promotion_matches_the_target_name_case_sensitively() {
    let config_file = set_config_store();
    let credentials_file = set_credentials_store();

    let result = raws::handlers::set::promote(&config_file, &credentials_file, &"First_Profile".to_string());

    assert_eq!(
        result.unwrap_err(),
        raws::handlers::set::PromotionError::ProfileNotFound("First_Profile".to_string())
    );
}

#[test]
fn promotion_creates_a_default_section_when_none_exists() {
    let mut config_file = Store::new();
    set_kv(&mut config_file, "work", "role_arn", "A");
    set_kv(&mut config_file, "work", "source_profile", "P");
    let credentials_file = Store::new();

    let result = raws::handlers::set::promote(&config_file, &credentials_file, &"work".to_string());

    let (updated_config_file, _) = result.unwrap();
    assert_eq!(get_from(&updated_config_file, "default", "role_arn"), Some("A".to_string()));
    assert_eq!(get_from(&updated_config_file, "default", "source_profile"), Some("P".to_string()));
}

#[test]
fn promoting_twice_yields_the_same_stores_as_promoting_once() {
    let config_file = set_config_store();
    let credentials_file = set_credentials_store();
    let target = "first_profile".to_string();

    let (config_once, credentials_once) =
        raws::handlers::set::promote(&config_file, &credentials_file, &target).unwrap();
    let (config_twice, credentials_twice) =
        raws::handlers::set::promote(&config_once, &credentials_once, &target).unwrap();

    for section in ["default", "first_profile", "second_profile"] {
        for key in ["role_arn", "source_profile", "aws_access_key_id", "aws_secret_access_key"] {
            assert_eq!(get_from(&config_once, section, key), get_from(&config_twice, section, key));
            assert_eq!(
                get_from(&credentials_once, section, key),
                get_from(&credentials_twice, section, key)
            );
        }
    }
}

#[test]
fn candidate_names_exclude_only_the_exact_word_default() {
    let mut conf = Store::new();
    set_kv(&mut conf, "default", "role_arn", "arn_default");
    set_kv(&mut conf, "Default", "role_arn", "arn_capital");

    let profiles = raws::handlers::set::get_all_profile_names_except_default(&conf);

    assert_eq!(vec!["Default"], profiles);
}
