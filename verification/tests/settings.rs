use whispercrabs::settings::{
    Settings, KEY_CUSTOM_KEY, KEY_CUSTOM_MODEL, KEY_CUSTOM_URL, KEY_MODE, KEY_PROVIDER_KEY_PREFIX,
};

#[test]
fn a_new_table_remembers_nothing() {
    let table = Settings::new();
    assert_eq!(table.get_setting("transcription_mode"), None);
    assert_eq!(table.get_setting(""), None);
}

#[test]
fn what_was_set_is_what_is_got() {
    let mut table = Settings::new();
    table.set_setting("transcription_mode", "ollama");
    table.set_setting("api_custom_url", "http://localhost:1/v1");
    assert_eq!(table.get_setting("transcription_mode"), Some("ollama".to_string()));
    assert_eq!(table.get_setting("api_custom_url"), Some("http://localhost:1/v1".to_string()));
    assert_eq!(table.get_setting("api_custom_model"), None);
}

#[test]
fn setting_a_key_again_replaces_its_value_and_no_other() {
    let mut table = Settings::new();
    table.set_setting("a", "1");
    table.set_setting("b", "2");
    table.set_setting("a", "3");
    table.set_setting("c", "4");
    table.set_setting("b", "5");
    assert_eq!(table.get_setting("a"), Some("3".to_string()));
    assert_eq!(table.get_setting("b"), Some("5".to_string()));
    assert_eq!(table.get_setting("c"), Some("4".to_string()));
}

#[test]
fn keys_are_told_apart_exactly() {
    let mut table = Settings::new();
    table.set_setting("key", "v");
    assert_eq!(table.get_setting("Key"), None);
    assert_eq!(table.get_setting("key "), None);
    assert_eq!(table.get_setting("ke"), None);
    table.set_setting("", "empty");
    assert_eq!(table.get_setting(""), Some("empty".to_string()));
}

#[test]
fn the_keys_of_the_remembered_settings() {
    assert_eq!(KEY_MODE, "transcription_mode");
    assert_eq!(KEY_CUSTOM_URL, "api_custom_url");
    assert_eq!(KEY_CUSTOM_KEY, "api_custom_key");
    assert_eq!(KEY_CUSTOM_MODEL, "api_custom_model");
    assert_eq!(KEY_PROVIDER_KEY_PREFIX, "api_key_");
}
