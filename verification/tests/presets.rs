use whispercrabs::config::{
    api_presets, default_local_model, find_local_model, find_preset, first_api_preset,
    local_model_presets, model_url, DEFAULT_LOCAL_MODEL,
};

#[test]
fn groq_is_a_preset_that_needs_a_key() {
    let p = find_preset("groq").expect("groq is listed");
    assert_eq!(p.id, "groq");
    assert_eq!(p.label, "Groq");
    assert_eq!(p.base_url, "https://api.groq.com/openai/v1");
    assert_eq!(p.default_model, "whisper-large-v3-turbo");
    assert!(p.needs_key);
}

#[test]
fn every_remote_preset_is_found_by_its_id() {
    let ollama = find_preset("ollama").expect("ollama is listed");
    assert_eq!(ollama.label, "Ollama");
    assert_eq!(ollama.base_url, "http://localhost:11434/v1");
    assert_eq!(ollama.default_model, "whisper");
    assert!(!ollama.needs_key);

    let openrouter = find_preset("openrouter").expect("openrouter is listed");
    assert_eq!(openrouter.label, "OpenRouter");
    assert_eq!(openrouter.base_url, "https://openrouter.ai/api/v1");
    assert_eq!(openrouter.default_model, "openai/whisper-1");
    assert!(openrouter.needs_key);

    let lmstudio = find_preset("lmstudio").expect("lmstudio is listed");
    assert_eq!(lmstudio.label, "LM Studio");
    assert_eq!(lmstudio.base_url, "http://localhost:1234/v1");
    assert_eq!(lmstudio.default_model, "whisper-1");
    assert!(!lmstudio.needs_key);
}

#[test]
fn the_table_of_remote_presets_keeps_menu_order() {
    let ids: Vec<&str> = api_presets().iter().map(|p| p.id).collect();
    assert_eq!(ids, vec!["groq", "ollama", "openrouter", "lmstudio"]);
    assert_eq!(first_api_preset(), api_presets()[0]);
}

#[test]
fn an_unknown_id_names_no_remote_preset() {
    assert_eq!(find_preset(""), None);
    assert_eq!(find_preset("Groq"), None);
    assert_eq!(find_preset("groq "), None);
    assert_eq!(find_preset("custom"), None);
    assert_eq!(find_preset("local-tiny"), None);
}

#[test]
fn every_local_model_is_found_by_its_id() {
    let tiny = find_local_model("local-tiny").expect("tiny is listed");
    assert_eq!(tiny.label, "Tiny");
    assert_eq!(tiny.file_name, "ggml-tiny.en.bin");
    assert_eq!(tiny.size_label, "~75 MB");

    let base = find_local_model("local-base").expect("base is listed");
    assert_eq!(base.label, "Base");
    assert_eq!(base.file_name, "ggml-base.en.bin");
    assert_eq!(base.size_label, "~142 MB");

    let small = find_local_model("local-small").expect("small is listed");
    assert_eq!(small.label, "Small");
    assert_eq!(small.file_name, "ggml-small.en.bin");
    assert_eq!(small.size_label, "~466 MB");

    let medium = find_local_model("local-medium").expect("medium is listed");
    assert_eq!(medium.label, "Medium");
    assert_eq!(medium.file_name, "ggml-medium.en.bin");
    assert_eq!(medium.size_label, "~1.5 GB");
}

#[test]
fn the_table_of_local_models_keeps_menu_order() {
    let ids: Vec<&str> = local_model_presets().iter().map(|m| m.id).collect();
    assert_eq!(ids, vec!["local-tiny", "local-base", "local-small", "local-medium"]);
}

#[test]
fn an_unknown_id_names_no_local_model() {
    assert_eq!(find_local_model("local"), None);
    assert_eq!(find_local_model("local-large"), None);
    assert_eq!(find_local_model("groq"), None);
    assert_eq!(find_local_model(""), None);
}

#[test]
fn the_default_local_model_is_the_tiny_one() {
    assert_eq!(DEFAULT_LOCAL_MODEL, "local-tiny");
    assert_eq!(Some(default_local_model()), find_local_model(DEFAULT_LOCAL_MODEL));
}

#[test]
fn model_url_puts_the_file_name_behind_the_repository() {
    assert_eq!(
        model_url("ggml-tiny.en.bin"),
        "https://huggingface.co/ggerganov/whisper.cpp/resolve/main/ggml-tiny.en.bin"
    );
    assert_eq!(
        model_url(""),
        "https://huggingface.co/ggerganov/whisper.cpp/resolve/main/"
    );
}
