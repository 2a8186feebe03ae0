use whispercrabs::backend::{
    api_config_from_members, interpret_response, parse_api_config, parse_reply, reply_from_parts,
    snapshot_target, ApiConfigError, BackendError, CustomApi, ParsedReply, Target, FILE_FIELD,
    FORMAT_FIELD, MODEL_FIELD, RESPONSE_FORMAT, TEXT_MEMBER, TRANSCRIPTIONS_PATH,
    UPLOAD_FILE_NAME, UPLOAD_MIME,
};
use whispercrabs::config::{find_local_model, find_preset};
use whispercrabs::runtime::{Provider, RuntimeState};

fn runtime(active: Provider, key: Option<&str>, resident: bool) -> RuntimeState {
    RuntimeState {
        active,
        api_base_url: "https://api.example.com/v1".to_string(),
        api_key: key.map(|k| k.to_string()),
        api_model: "whisper-x".to_string(),
        model_resident: resident,
        downloading: false,
    }
}

#[test]
fn a_successful_reply_gives_the_text_member_as_it_is() {
    assert_eq!(
        interpret_response(200, "{\"text\":\"hello world\"}"),
        Ok("hello world".to_string())
    );
    assert_eq!(
        interpret_response(201, "{ \"x\": 1, \"text\" : \" spaced  out \" }"),
        Ok(" spaced  out ".to_string())
    );
    assert_eq!(interpret_response(299, "{\"text\":\"\"}"), Ok(String::new()));
    assert_eq!(
        interpret_response(200, "{\"text\":\"caf\\u00e9 \\\"q\\\"\"}"),
        Ok("café \"q\"".to_string())
    );
}

#[test]
fn a_status_outside_the_two_hundreds_is_an_error_with_status_and_body() {
    for code in [0u16, 100, 199, 300, 301, 401, 404, 429, 500, 503, 65535] {
        assert_eq!(
            interpret_response(code, "{\"text\":\"hello\"}"),
            Err(BackendError::Status { code, body: "{\"text\":\"hello\"}".to_string() }),
            "{code}"
        );
    }
    assert_eq!(
        interpret_response(401, "no key"),
        Err(BackendError::Status { code: 401, body: "no key".to_string() })
    );
}

#[test]
fn a_body_that_is_not_json_is_a_malformed_reply() {
    for body in ["", "hello", "{\"text\":", "{text: 1}", "{\"text\":\"a\"} trailing"] {
        assert_eq!(
            interpret_response(200, body),
            Err(BackendError::MalformedReply { body: body.to_string() }),
            "{body}"
        );
    }
}

#[test]
fn a_document_without_a_text_member_is_an_error_with_the_compact_document() {
    assert_eq!(
        interpret_response(200, "{ \"error\" : \"nope\" }"),
        Err(BackendError::MissingText { document: "{\"error\":\"nope\"}".to_string() })
    );
    assert_eq!(
        interpret_response(200, "{\"text\": 5}"),
        Err(BackendError::MissingText { document: "{\"text\":5}".to_string() })
    );
    assert_eq!(
        interpret_response(200, "{\"text\": null}"),
        Err(BackendError::MissingText { document: "{\"text\":null}".to_string() })
    );
    assert_eq!(
        interpret_response(200, "[ \"text\" ]"),
        Err(BackendError::MissingText { document: "[\"text\"]".to_string() })
    );
    assert_eq!(
        interpret_response(200, "\"text\""),
        Err(BackendError::MissingText { document: "\"text\"".to_string() })
    );
}

#[test]
fn a_parsed_reply_holds_the_text_member_and_the_compact_form() {
    assert_eq!(
        parse_reply("{ \"text\" : \"hi\", \"n\" : [1, 2] }"),
        Some(ParsedReply {
            text: Some("hi".to_string()),
            compact: "{\"n\":[1,2],\"text\":\"hi\"}".to_string()
        })
    );
    assert_eq!(
        parse_reply(" [ ] "),
        Some(ParsedReply { text: None, compact: "[]".to_string() })
    );
    assert_eq!(parse_reply("{"), None);
}

#[test]
fn a_reply_is_read_from_its_parts() {
    let parsed = Some(ParsedReply { text: Some("t".to_string()), compact: "c".to_string() });
    assert_eq!(reply_from_parts(200, "body", parsed.clone()), Ok("t".to_string()));
    assert_eq!(
        reply_from_parts(500, "body", parsed),
        Err(BackendError::Status { code: 500, body: "body".to_string() })
    );
    assert_eq!(
        reply_from_parts(200, "body", None),
        Err(BackendError::MalformedReply { body: "body".to_string() })
    );
    assert_eq!(
        reply_from_parts(200, "body", Some(ParsedReply { text: None, compact: "c".to_string() })),
        Err(BackendError::MissingText { document: "c".to_string() })
    );
}

#[test]
fn a_remote_target_is_the_endpoint_with_the_key_as_bearer() {
    let groq = Provider::Preset(find_preset("groq").unwrap());
    assert_eq!(
        snapshot_target(&runtime(groq, Some("k"), false)),
        Ok(Target::Remote {
            url: "https://api.example.com/v1/audio/transcriptions".to_string(),
            bearer: Some("k".to_string()),
            model: "whisper-x".to_string(),
        })
    );
    assert_eq!(
        snapshot_target(&runtime(Provider::Custom, None, false)),
        Ok(Target::Remote {
            url: "https://api.example.com/v1/audio/transcriptions".to_string(),
            bearer: None,
            model: "whisper-x".to_string(),
        })
    );
}

#[test]
fn a_provider_that_needs_no_key_sends_no_bearer() {
    let ollama = Provider::Preset(find_preset("ollama").unwrap());
    assert_eq!(
        snapshot_target(&runtime(ollama, Some("stray"), false)),
        Ok(Target::Remote {
            url: "https://api.example.com/v1/audio/transcriptions".to_string(),
            bearer: None,
            model: "whisper-x".to_string(),
        })
    );
}

#[test]
fn a_local_target_needs_a_resident_model() {
    let base = find_local_model("local-base").unwrap();
    assert_eq!(
        snapshot_target(&runtime(Provider::Local(base), Some("k"), true)),
        Ok(Target::Local(base))
    );
    assert_eq!(
        snapshot_target(&runtime(Provider::Local(base), Some("k"), false)),
        Err(BackendError::ModelNotLoaded)
    );
}

#[test]
fn the_words_of_the_upload() {
    assert_eq!(TRANSCRIPTIONS_PATH, "/audio/transcriptions");
    assert_eq!(MODEL_FIELD, "model");
    assert_eq!(FORMAT_FIELD, "response_format");
    assert_eq!(RESPONSE_FORMAT, "json");
    assert_eq!(FILE_FIELD, "file");
    assert_eq!(UPLOAD_FILE_NAME, "audio.wav");
    assert_eq!(UPLOAD_MIME, "audio/wav");
    assert_eq!(TEXT_MEMBER, "text");
}

#[test]
fn a_custom_provider_is_read_from_json() {
    assert_eq!(
        parse_api_config(
            "{\"base_url\":\"http://h/v1\",\"model\":\"m\",\"api_key\":\"secret\"}"
        ),
        Ok(CustomApi {
            base_url: "http://h/v1".to_string(),
            api_key: Some("secret".to_string()),
            model: "m".to_string(),
        })
    );
    assert_eq!(
        parse_api_config("{\"model\":\"m\",\"base_url\":\"http://h/v1\"}"),
        Ok(CustomApi { base_url: "http://h/v1".to_string(), api_key: None, model: "m".to_string() })
    );
    assert_eq!(
        parse_api_config("{\"model\":\"m\",\"base_url\":\"\",\"api_key\":7}"),
        Ok(CustomApi { base_url: String::new(), api_key: None, model: "m".to_string() })
    );
}

#[test]
fn a_custom_provider_without_endpoint_or_model_is_refused() {
    assert_eq!(parse_api_config("not json"), Err(ApiConfigError::InvalidJson));
    assert_eq!(parse_api_config(""), Err(ApiConfigError::InvalidJson));
    assert_eq!(parse_api_config("{\"model\":\"m\"}"), Err(ApiConfigError::MissingBaseUrl));
    assert_eq!(
        parse_api_config("{\"base_url\":5,\"model\":\"m\"}"),
        Err(ApiConfigError::MissingBaseUrl)
    );
    assert_eq!(
        parse_api_config("{\"base_url\":\"u\"}"),
        Err(ApiConfigError::MissingModel)
    );
    assert_eq!(parse_api_config("{}"), Err(ApiConfigError::MissingBaseUrl));
    assert_eq!(parse_api_config("[]"), Err(ApiConfigError::MissingBaseUrl));
}

#[test]
fn a_custom_provider_is_made_of_its_members() {
    assert_eq!(
        api_config_from_members(Some("u".to_string()), Some("m".to_string()), None),
        Ok(CustomApi { base_url: "u".to_string(), api_key: None, model: "m".to_string() })
    );
    assert_eq!(
        api_config_from_members(None, None, Some("k".to_string())),
        Err(ApiConfigError::MissingBaseUrl)
    );
    assert_eq!(
        api_config_from_members(Some("u".to_string()), None, None),
        Err(ApiConfigError::MissingModel)
    );
}
