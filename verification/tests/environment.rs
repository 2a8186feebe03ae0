use whispercrabs::config::{
    service_from_name, Config, Environment, TranscriptionService, DEFAULT_API_BASE_URL,
    DEFAULT_API_MODEL,
};
use whispercrabs::text::{eq_ignoring_ascii_case, joined};

fn text(s: &str) -> Option<String> {
    Some(s.to_string())
}

fn config_of(env: &Environment) -> Config {
    Config::from_environment(env, "/data/history.db".to_string(), "/data/models".to_string())
}

#[test]
fn an_empty_environment_gives_the_defaults() {
    let config = config_of(&Environment::default());
    assert_eq!(config.transcription_service, TranscriptionService::Api);
    assert_eq!(config.api_base_url, "https://api.groq.com/openai/v1");
    assert_eq!(config.api_base_url, DEFAULT_API_BASE_URL);
    assert_eq!(config.api_key, None);
    assert_eq!(config.api_model, "whisper-large-v3-turbo");
    assert_eq!(config.api_model, DEFAULT_API_MODEL);
    assert_eq!(config.db_path, "/data/history.db");
    assert_eq!(config.models_dir, "/data/models");
    assert!(!config.sound_notification);
}

#[test]
fn the_service_name_is_read_without_regard_to_case() {
    for name in ["local", "LOCAL", "Local", "lOcAl"] {
        let env = Environment { primary_transcription_service: text(name), ..Environment::default() };
        assert_eq!(config_of(&env).transcription_service, TranscriptionService::Local, "{name}");
    }
    for name in ["api", "groq", "", "locale", " local"] {
        let env = Environment { primary_transcription_service: text(name), ..Environment::default() };
        assert_eq!(config_of(&env).transcription_service, TranscriptionService::Api, "{name}");
    }
}

#[test]
fn a_lower_cased_name_selects_the_service() {
    assert_eq!(service_from_name("local"), TranscriptionService::Local);
    assert_eq!(service_from_name("LOCAL"), TranscriptionService::Api);
    assert_eq!(service_from_name("api"), TranscriptionService::Api);
}

#[test]
fn the_newer_variables_come_before_the_older_ones() {
    let env = Environment {
        api_base_url: text("http://localhost:9000/v1"),
        api_key: text("new-key"),
        groq_api_key: text("old-key"),
        api_model: text("new-model"),
        groq_stt_model: text("old-model"),
        ..Environment::default()
    };
    let config = config_of(&env);
    assert_eq!(config.api_base_url, "http://localhost:9000/v1");
    assert_eq!(config.api_key, text("new-key"));
    assert_eq!(config.api_model, "new-model");
}

#[test]
fn the_older_variables_apply_where_the_newer_are_unset() {
    let env = Environment {
        groq_api_key: text("old-key"),
        groq_stt_model: text("old-model"),
        ..Environment::default()
    };
    let config = config_of(&env);
    assert_eq!(config.api_key, text("old-key"));
    assert_eq!(config.api_model, "old-model");
}

#[test]
fn the_sound_flag_is_on_for_true_and_for_one() {
    for value in ["true", "TRUE", "True", "tRuE", "1"] {
        let env = Environment {
            sound_notification_on_completion: text(value),
            ..Environment::default()
        };
        assert!(config_of(&env).sound_notification, "{value}");
    }
    for value in ["", "0", "yes", "on", "true ", "11", "truе"] {
        let env = Environment {
            sound_notification_on_completion: text(value),
            ..Environment::default()
        };
        assert!(!config_of(&env).sound_notification, "{value}");
    }
}

#[test]
fn texts_compare_without_regard_to_ascii_case_only() {
    assert!(eq_ignoring_ascii_case("", ""));
    assert!(eq_ignoring_ascii_case("Terminal", "tERMINAL"));
    assert!(eq_ignoring_ascii_case("a-Z_09", "A-z_09"));
    assert!(!eq_ignoring_ascii_case("abc", "abcd"));
    assert!(!eq_ignoring_ascii_case("abc", "abd"));
    assert!(!eq_ignoring_ascii_case("[", "{"));
    assert!(!eq_ignoring_ascii_case("@", "`"));
    assert!(!eq_ignoring_ascii_case("É", "é"));
    assert!(eq_ignoring_ascii_case("Éa", "ÉA"));
}

#[test]
fn joined_puts_one_text_behind_the_other() {
    assert_eq!(joined("api_key_", "groq"), "api_key_groq");
    assert_eq!(joined("", ""), "");
    assert_eq!(joined("é", "ü"), "éü");
}
