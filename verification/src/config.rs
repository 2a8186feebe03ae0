//! The provider registry: the remote presets, the on-device model presets,
//! and the process-level defaults that apply where nothing was remembered.

use vstd::prelude::*;
use crate::text::{copy_opt, eq_ignoring_ascii_case, lowercase, lowercase_of, opt_view, str_eq, fold_ascii};

verus! {

/// Which kind of backend turns audio into text.
#[derive(Clone, Copy, Debug, PartialEq, Eq, Structural)]
pub enum TranscriptionService {
    Api,
    Local,
}

/// A named, pre-filled remote provider.
#[derive(Clone, Copy, Debug, PartialEq, Eq)]
pub struct ApiPreset {
    pub id: &'static str,
    pub label: &'static str,
    pub base_url: &'static str,
    pub default_model: &'static str,
    pub needs_key: bool,
}

/// A named on-device model and the file that backs it.
#[derive(Clone, Copy, Debug, PartialEq, Eq)]
pub struct LocalModelPreset {
    pub id: &'static str,
    pub label: &'static str,
    pub file_name: &'static str,
    pub size_label: &'static str,
}

/// The on-device model that stands for a bare "local" selection.
pub const DEFAULT_LOCAL_MODEL: &'static str = "local-tiny";

/// Directory, below the user's local data directory, that holds everything
/// the program keeps on disk.
pub const APP_DIR_NAME: &'static str = "whispercrabs";

/// File, inside the program's directory, that holds history and settings.
pub const HISTORY_FILE_NAME: &'static str = "history.db";

/// Directory, inside the program's directory, that holds model artifacts.
pub const MODELS_DIR_NAME: &'static str = "models";

/// Endpoint used where the process names none.
pub const DEFAULT_API_BASE_URL: &'static str = "https://api.groq.com/openai/v1";

/// Remote model used where the process names none.
pub const DEFAULT_API_MODEL: &'static str = "whisper-large-v3-turbo";

/// The Groq preset.
pub open spec fn groq() -> ApiPreset {
    ApiPreset {
        id: "groq",
        label: "Groq",
        base_url: "https://api.groq.com/openai/v1",
        default_model: "whisper-large-v3-turbo",
        needs_key: true,
    }
}

/// The Ollama preset.
pub open spec fn ollama() -> ApiPreset {
    ApiPreset {
        id: "ollama",
        label: "Ollama",
        base_url: "http://localhost:11434/v1",
        default_model: "whisper",
        needs_key: false,
    }
}

/// The OpenRouter preset.
pub open spec fn openrouter() -> ApiPreset {
    ApiPreset {
        id: "openrouter",
        label: "OpenRouter",
        base_url: "https://openrouter.ai/api/v1",
        default_model: "openai/whisper-1",
        needs_key: true,
    }
}

/// The LM Studio preset.
pub open spec fn lmstudio() -> ApiPreset {
    ApiPreset {
        id: "lmstudio",
        label: "LM Studio",
        base_url: "http://localhost:1234/v1",
        default_model: "whisper-1",
        needs_key: false,
    }
}

/// The remote presets, in menu order. The first one is the fallback.
pub open spec fn api_preset_table() -> Seq<ApiPreset> {
    seq![groq(), ollama(), openrouter(), lmstudio()]
}

/// The tiny on-device model.
pub open spec fn local_tiny() -> LocalModelPreset {
    LocalModelPreset {
        id: "local-tiny",
        label: "Tiny",
        file_name: "ggml-tiny.en.bin",
        size_label: "~75 MB",
    }
}

/// The base on-device model.
pub open spec fn local_base() -> LocalModelPreset {
    LocalModelPreset {
        id: "local-base",
        label: "Base",
        file_name: "ggml-base.en.bin",
        size_label: "~142 MB",
    }
}

/// The small on-device model.
pub open spec fn local_small() -> LocalModelPreset {
    LocalModelPreset {
        id: "local-small",
        label: "Small",
        file_name: "ggml-small.en.bin",
        size_label: "~466 MB",
    }
}

/// The medium on-device model.
pub open spec fn local_medium() -> LocalModelPreset {
    LocalModelPreset {
        id: "local-medium",
        label: "Medium",
        file_name: "ggml-medium.en.bin",
        size_label: "~1.5 GB",
    }
}

/// The on-device models, in menu order.
pub open spec fn local_model_table() -> Seq<LocalModelPreset> {
    seq![local_tiny(), local_base(), local_small(), local_medium()]
}

/// The first preset of `table` whose id is `id`.
pub open spec fn first_preset_with_id(table: Seq<ApiPreset>, id: Seq<char>) -> Option<ApiPreset>
    decreases table.len(),
{
    if table.len() == 0 {
        None
    } else if table.first().id@ == id {
        Some(table.first())
    } else {
        first_preset_with_id(table.drop_first(), id)
    }
}

/// The first model of `table` whose id is `id`.
pub open spec fn first_model_with_id(table: Seq<LocalModelPreset>, id: Seq<char>) -> Option<
    LocalModelPreset,
>
    decreases table.len(),
{
    if table.len() == 0 {
        None
    } else if table.first().id@ == id {
        Some(table.first())
    } else {
        first_model_with_id(table.drop_first(), id)
    }
}

/// The remote preset that `id` names, if it names one.
pub open spec fn preset_with_id(id: Seq<char>) -> Option<ApiPreset> {
    first_preset_with_id(api_preset_table(), id)
}

/// The on-device model that `id` names, if it names one.
pub open spec fn local_model_with_id(id: Seq<char>) -> Option<LocalModelPreset> {
    first_model_with_id(local_model_table(), id)
}

/// Where the artifact called `file_name` is downloaded from.
pub open spec fn model_url_of(file_name: Seq<char>) -> Seq<char> {
    "https://huggingface.co/ggerganov/whisper.cpp/resolve/main/"@ + file_name
}

/// The remote presets, in menu order.
pub fn api_presets() -> (table: Vec<ApiPreset>)
    ensures
        table@ == api_preset_table(),
{
    let mut table: Vec<ApiPreset> = Vec::new();
    table.push(
        ApiPreset {
            id: "groq",
            label: "Groq",
            base_url: "https://api.groq.com/openai/v1",
            default_model: "whisper-large-v3-turbo",
            needs_key: true,
        },
    );
    table.push(
        ApiPreset {
            id: "ollama",
            label: "Ollama",
            base_url: "http://localhost:11434/v1",
            default_model: "whisper",
            needs_key: false,
        },
    );
    table.push(
        ApiPreset {
            id: "openrouter",
            label: "OpenRouter",
            base_url: "https://openrouter.ai/api/v1",
            default_model: "openai/whisper-1",
            needs_key: true,
        },
    );
    table.push(
        ApiPreset {
            id: "lmstudio",
            label: "LM Studio",
            base_url: "http://localhost:1234/v1",
            default_model: "whisper-1",
            needs_key: false,
        },
    );
    assert(table@ =~= api_preset_table());
    table
}

/// The on-device models, in menu order.
pub fn local_model_presets() -> (table: Vec<LocalModelPreset>)
    ensures
        table@ == local_model_table(),
{
    let mut table: Vec<LocalModelPreset> = Vec::new();
    table.push(
        LocalModelPreset {
            id: "local-tiny",
            label: "Tiny",
            file_name: "ggml-tiny.en.bin",
            size_label: "~75 MB",
        },
    );
    table.push(
        LocalModelPreset {
            id: "local-base",
            label: "Base",
            file_name: "ggml-base.en.bin",
            size_label: "~142 MB",
        },
    );
    table.push(
        LocalModelPreset {
            id: "local-small",
            label: "Small",
            file_name: "ggml-small.en.bin",
            size_label: "~466 MB",
        },
    );
    table.push(
        LocalModelPreset {
            id: "local-medium",
            label: "Medium",
            file_name: "ggml-medium.en.bin",
            size_label: "~1.5 GB",
        },
    );
    assert(table@ =~= local_model_table());
    table
}

/// The on-device model that stands for a bare "local" selection.
pub fn default_local_model() -> (model: LocalModelPreset)
    ensures
        model == local_tiny(),
        model.id@ == DEFAULT_LOCAL_MODEL@,
{
    LocalModelPreset {
        id: "local-tiny",
        label: "Tiny",
        file_name: "ggml-tiny.en.bin",
        size_label: "~75 MB",
    }
}

/// The fallback remote provider: the first preset of the table.
pub fn first_api_preset() -> (preset: ApiPreset)
    ensures
        preset == api_preset_table()[0],
        preset == groq(),
{
    ApiPreset {
        id: "groq",
        label: "Groq",
        base_url: "https://api.groq.com/openai/v1",
        default_model: "whisper-large-v3-turbo",
        needs_key: true,
    }
}

/// Looks a remote preset up by its id.
pub fn find_preset(id: &str) -> (found: Option<ApiPreset>)
    ensures
        found == preset_with_id(id@),
{
    let table = api_presets();
    let mut i: usize = 0;
    assert(table@.skip(0) =~= table@);
    while i < table.len()
        invariant
            i <= table.len(),
            table@ == api_preset_table(),
            preset_with_id(id@) == first_preset_with_id(table@.skip(i as int), id@),
        decreases table.len() - i,
    {
        let candidate = table[i];
        assert(table@.skip(i as int).first() == candidate);
        assert(table@.skip(i as int).drop_first() =~= table@.skip(i + 1));
        if str_eq(candidate.id, id) {
            return Some(candidate);
        }
        i += 1;
    }
    None
}

/// Looks an on-device model up by its id.
pub fn find_local_model(id: &str) -> (found: Option<LocalModelPreset>)
    ensures
        found == local_model_with_id(id@),
{
    let table = local_model_presets();
    let mut i: usize = 0;
    assert(table@.skip(0) =~= table@);
    while i < table.len()
        invariant
            i <= table.len(),
            table@ == local_model_table(),
            local_model_with_id(id@) == first_model_with_id(table@.skip(i as int), id@),
        decreases table.len() - i,
    {
        let candidate = table[i];
        assert(table@.skip(i as int).first() == candidate);
        assert(table@.skip(i as int).drop_first() =~= table@.skip(i + 1));
        if str_eq(candidate.id, id) {
            return Some(candidate);
        }
        i += 1;
    }
    None
}

/// The address from which the artifact called `file_name` is fetched.
pub fn model_url(file_name: &str) -> (url: String)
    ensures
        url@ == model_url_of(file_name@),
{
    let base = "https://huggingface.co/ggerganov/whisper.cpp/resolve/main/".to_owned();
    base.concat(file_name)
}

/// What a lookup in the remote table gives for each id, written out.
pub proof fn lemma_preset_lookup(id: Seq<char>)
    ensures
        preset_with_id(id) == (if id == "groq"@ {
            Some(groq())
        } else if id == "ollama"@ {
            Some(ollama())
        } else if id == "openrouter"@ {
            Some(openrouter())
        } else if id == "lmstudio"@ {
            Some(lmstudio())
        } else {
            None
        }),
{
    reveal_with_fuel(first_preset_with_id, 5);
    let t = api_preset_table();
    assert(t.drop_first() =~= seq![ollama(), openrouter(), lmstudio()]);
    assert(t.drop_first().drop_first() =~= seq![openrouter(), lmstudio()]);
    assert(t.drop_first().drop_first().drop_first() =~= seq![lmstudio()]);
    assert(t.drop_first().drop_first().drop_first().drop_first() =~= Seq::<ApiPreset>::empty());
}

/// What a lookup in the on-device table gives for each id, written out.
pub proof fn lemma_local_model_lookup(id: Seq<char>)
    ensures
        local_model_with_id(id) == (if id == "local-tiny"@ {
            Some(local_tiny())
        } else if id == "local-base"@ {
            Some(local_base())
        } else if id == "local-small"@ {
            Some(local_small())
        } else if id == "local-medium"@ {
            Some(local_medium())
        } else {
            None
        }),
{
    reveal_with_fuel(first_model_with_id, 5);
    let t = local_model_table();
    assert(t.drop_first() =~= seq![local_base(), local_small(), local_medium()]);
    assert(t.drop_first().drop_first() =~= seq![local_small(), local_medium()]);
    assert(t.drop_first().drop_first().drop_first() =~= seq![local_medium()]);
    assert(t.drop_first().drop_first().drop_first().drop_first() =~= Seq::<
        LocalModelPreset,
    >::empty());
}

/// The ids of the two tables are pairwise different, so an id names at most
/// one provider, and the reserved words "custom" and "local" name none.
pub proof fn lemma_ids_are_distinct()
    ensures
        forall|i: int, j: int|
            0 <= i < j < api_preset_table().len() ==> api_preset_table()[i].id@
                != api_preset_table()[j].id@,
        forall|i: int, j: int|
            0 <= i < j < local_model_table().len() ==> local_model_table()[i].id@
                != local_model_table()[j].id@,
        forall|i: int, j: int|
            0 <= i < api_preset_table().len() && 0 <= j < local_model_table().len()
                ==> api_preset_table()[i].id@ != local_model_table()[j].id@,
        forall|i: int|
            0 <= i < api_preset_table().len() ==> api_preset_table()[i].id@ != "custom"@
                && api_preset_table()[i].id@ != "local"@,
        forall|j: int|
            0 <= j < local_model_table().len() ==> local_model_table()[j].id@ != "custom"@
                && local_model_table()[j].id@ != "local"@,
{
    reveal_ids();
}

/// Makes the characters of every id of the two tables known.
pub proof fn reveal_ids()
    ensures
        "groq"@.len() == 4 && "groq"@[0] == 'g',
        "ollama"@.len() == 6 && "ollama"@[1] == 'l',
        "openrouter"@.len() == 10 && "openrouter"@[0] == 'o',
        "lmstudio"@.len() == 8 && "lmstudio"@[0] == 'l',
        "custom"@.len() == 6 && "custom"@[1] == 'u',
        "local"@.len() == 5,
        "local-tiny"@.len() == 10 && "local-tiny"@[0] == 'l' && "local-tiny"@[6] == 't',
        "local-base"@.len() == 10 && "local-base"@[0] == 'l' && "local-base"@[6] == 'b',
        "local-small"@.len() == 11 && "local-small"@[6] == 's',
        "local-medium"@.len() == 12,
{
    reveal_strlit("groq");
    reveal_strlit("ollama");
    reveal_strlit("openrouter");
    reveal_strlit("lmstudio");
    reveal_strlit("custom");
    reveal_strlit("local");
    reveal_strlit("local-tiny");
    reveal_strlit("local-base");
    reveal_strlit("local-small");
    reveal_strlit("local-medium");
}

/// A lookup that succeeds returns an entry of the table that carries the id
/// asked for; one that fails shows that no entry carries it.
pub proof fn lemma_lookup_is_sound(id: Seq<char>)
    ensures
        match preset_with_id(id) {
            Some(p) => p.id@ == id && api_preset_table().contains(p),
            None => forall|i: int|
                0 <= i < api_preset_table().len() ==> api_preset_table()[i].id@ != id,
        },
        match local_model_with_id(id) {
            Some(m) => m.id@ == id && local_model_table().contains(m),
            None => forall|j: int|
                0 <= j < local_model_table().len() ==> local_model_table()[j].id@ != id,
        },
{
    lemma_preset_lookup(id);
    lemma_local_model_lookup(id);
    let t = api_preset_table();
    assert(t[0] == groq() && t[1] == ollama() && t[2] == openrouter() && t[3] == lmstudio());
    let m = local_model_table();
    assert(m[0] == local_tiny() && m[1] == local_base() && m[2] == local_small() && m[3]
        == local_medium());
}

/// The values of the process environment that the configuration is made of.
/// A variable that is unset, or whose value is not text, is `None`.
#[derive(Clone, Debug, Default, PartialEq, Eq)]
pub struct Environment {
    /// `PRIMARY_TRANSCRIPTION_SERVICE`
    pub primary_transcription_service: Option<String>,
    /// `API_BASE_URL`
    pub api_base_url: Option<String>,
    /// `API_KEY`
    pub api_key: Option<String>,
    /// `GROQ_API_KEY`, the older name of `API_KEY`
    pub groq_api_key: Option<String>,
    /// `API_MODEL`
    pub api_model: Option<String>,
    /// `GROQ_STT_MODEL`, the older name of `API_MODEL`
    pub groq_stt_model: Option<String>,
    /// `SOUND_NOTIFICATION_ON_COMPLETION`
    pub sound_notification_on_completion: Option<String>,
}

/// The process-level defaults.
#[derive(Clone, Debug, PartialEq, Eq)]
pub struct Config {
    pub transcription_service: TranscriptionService,
    pub api_base_url: String,
    pub api_key: Option<String>,
    pub api_model: String,
    pub db_path: String,
    pub models_dir: String,
    pub sound_notification: bool,
}

/// The process-level defaults as plain texts.
pub struct ConfigView {
    pub transcription_service: TranscriptionService,
    pub api_base_url: Seq<char>,
    pub api_key: Option<Seq<char>>,
    pub api_model: Seq<char>,
    pub db_path: Seq<char>,
    pub models_dir: Seq<char>,
    pub sound_notification: bool,
}

impl View for Config {
    type V = ConfigView;

    open spec fn view(&self) -> ConfigView {
        ConfigView {
            transcription_service: self.transcription_service,
            api_base_url: self.api_base_url@,
            api_key: opt_view(self.api_key),
            api_model: self.api_model@,
            db_path: self.db_path@,
            models_dir: self.models_dir@,
            sound_notification: self.sound_notification,
        }
    }
}

/// The service that a lower-cased service name selects: "local" selects the
/// on-device backend, every other word the remote one.
pub open spec fn service_named(lowercased: Seq<char>) -> TranscriptionService {
    if lowercased == "local"@ {
        TranscriptionService::Local
    } else {
        TranscriptionService::Api
    }
}

/// The service that the process asks for.
pub open spec fn service_wanted(name: Option<Seq<char>>) -> TranscriptionService {
    match name {
        Some(n) => service_named(lowercase_of(n)),
        None => TranscriptionService::Api,
    }
}

/// The first of two optional texts that is there.
pub open spec fn first_of(a: Option<Seq<char>>, b: Option<Seq<char>>) -> Option<Seq<char>> {
    if a is Some {
        a
    } else {
        b
    }
}

/// Whether a flag's text switches the flag on: "true" in any mix of ASCII
/// upper and lower case, or "1".
pub open spec fn flag_is_on(value: Option<Seq<char>>) -> bool {
    match value {
        Some(v) => fold_ascii(v) == fold_ascii("true"@) || v == "1"@,
        None => false,
    }
}

/// The service that a lower-cased service name selects.
pub fn service_from_name(lowercased: &str) -> (service: TranscriptionService)
    ensures
        service == service_named(lowercased@),
{
    if str_eq(lowercased, "local") {
        TranscriptionService::Local
    } else {
        TranscriptionService::Api
    }
}

impl Config {
    /// Builds the process-level defaults from the environment's values and
    /// from the two places on disk that the caller has settled on.
    pub fn from_environment(env: &Environment, db_path: String, models_dir: String) -> (config:
        Config)
        ensures
            config.transcription_service == service_wanted(
                opt_view(env.primary_transcription_service),
            ),
            config.api_base_url@ == (match env.api_base_url {
                Some(u) => u@,
                None => DEFAULT_API_BASE_URL@,
            }),
            opt_view(config.api_key) == first_of(
                opt_view(env.api_key),
                opt_view(env.groq_api_key),
            ),
            config.api_model@ == (match first_of(
                opt_view(env.api_model),
                opt_view(env.groq_stt_model),
            ) {
                Some(m) => m,
                None => DEFAULT_API_MODEL@,
            }),
            config.db_path@ == db_path@,
            config.models_dir@ == models_dir@,
            config.sound_notification == flag_is_on(
                opt_view(env.sound_notification_on_completion),
            ),
    {
        let transcription_service = match &env.primary_transcription_service {
            Some(name) => {
                let folded = lowercase(name.as_str());
                service_from_name(folded.as_str())
            },
            None => TranscriptionService::Api,
        };
        let api_base_url = match &env.api_base_url {
            Some(u) => u.clone(),
            None => DEFAULT_API_BASE_URL.to_owned(),
        };
        let api_key = match &env.api_key {
            Some(k) => Some(k.clone()),
            None => copy_opt(&env.groq_api_key),
        };
        let api_model = match &env.api_model {
            Some(m) => m.clone(),
            None => match &env.groq_stt_model {
                Some(m) => m.clone(),
                None => DEFAULT_API_MODEL.to_owned(),
            },
        };
        let sound_notification = match &env.sound_notification_on_completion {
            Some(v) => eq_ignoring_ascii_case(v.as_str(), "true") || str_eq(v.as_str(), "1"),
            None => false,
        };
        Config {
            transcription_service,
            api_base_url,
            api_key,
            api_model,
            db_path,
            models_dir,
            sound_notification,
        }
    }
}

} // verus!
