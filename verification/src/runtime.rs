//! The runtime configuration: which provider is active, with which
//! connection parameters, whether an on-device model is resident and whether
//! a model download is under way.

use vstd::prelude::*;
use crate::config::{
    default_local_model, find_local_model, find_preset, first_api_preset, first_of, groq,
    lemma_local_model_lookup, lemma_lookup_is_sound, lemma_preset_lookup, local_model_with_id,
    local_tiny, preset_with_id, ApiPreset, Config, ConfigView, LocalModelPreset,
    TranscriptionService,
};
use crate::settings::{
    provider_key_name, setting, Settings, KEY_CUSTOM_KEY, KEY_CUSTOM_MODEL, KEY_CUSTOM_URL,
    KEY_MODE, KEY_PROVIDER_KEY_PREFIX,
};
use crate::text::{copy_opt, joined, opt_view, str_eq};

verus! {

/// The id under which the custom remote provider is selected and remembered.
pub const CUSTOM_PROVIDER_ID: &'static str = "custom";

/// The older word for "the default on-device model" in remembered settings.
pub const LEGACY_LOCAL_ID: &'static str = "local";

/// The provider that is active.
#[derive(Clone, Copy, Debug, PartialEq, Eq)]
pub enum Provider {
    /// One of the listed remote providers.
    Preset(ApiPreset),
    /// The remote provider that the user described.
    Custom,
    /// One of the listed on-device models.
    Local(LocalModelPreset),
}

impl Provider {
    /// The kind of backend that the provider is.
    pub open spec fn service_of(self) -> TranscriptionService {
        match self {
            Provider::Local(_) => TranscriptionService::Local,
            _ => TranscriptionService::Api,
        }
    }

    /// The id under which the provider is selected and remembered.
    pub open spec fn id_of(self) -> Seq<char> {
        match self {
            Provider::Preset(p) => p.id@,
            Provider::Custom => CUSTOM_PROVIDER_ID@,
            Provider::Local(m) => m.id@,
        }
    }

    /// Whether recording with this provider asks for an API key. The custom
    /// provider counts as one that needs a key.
    pub open spec fn requires_key(self) -> bool {
        match self {
            Provider::Preset(p) => p.needs_key,
            Provider::Custom => true,
            Provider::Local(_) => false,
        }
    }

    /// Whether the provider is one that the registry lists.
    pub open spec fn listed(self) -> bool {
        match self {
            Provider::Preset(p) => preset_with_id(p.id@) == Some(p),
            Provider::Custom => true,
            Provider::Local(m) => local_model_with_id(m.id@) == Some(m),
        }
    }

    /// The kind of backend that the provider is.
    pub fn service(&self) -> (service: TranscriptionService)
        ensures
            service == self.service_of(),
    {
        match self {
            Provider::Local(_) => TranscriptionService::Local,
            _ => TranscriptionService::Api,
        }
    }

    /// The id under which the provider is selected and remembered.
    pub fn id(&self) -> (id: &'static str)
        ensures
            id@ == self.id_of(),
    {
        match self {
            Provider::Preset(p) => p.id,
            Provider::Custom => CUSTOM_PROVIDER_ID,
            Provider::Local(m) => m.id,
        }
    }

    /// Whether recording with this provider asks for an API key.
    pub fn needs_key(&self) -> (needed: bool)
        ensures
            needed == self.requires_key(),
    {
        match self {
            Provider::Preset(p) => p.needs_key,
            Provider::Custom => true,
            Provider::Local(_) => false,
        }
    }
}

/// The runtime configuration.
#[derive(Clone, Debug, PartialEq, Eq)]
pub struct RuntimeState {
    pub active: Provider,
    pub api_base_url: String,
    pub api_key: Option<String>,
    pub api_model: String,
    /// Whether the active on-device model is loaded and ready.
    pub model_resident: bool,
    /// Whether a model download is under way.
    pub downloading: bool,
}

/// The runtime configuration as plain texts.
pub struct RuntimeView {
    pub active: Provider,
    pub api_base_url: Seq<char>,
    pub api_key: Option<Seq<char>>,
    pub api_model: Seq<char>,
    pub model_resident: bool,
    pub downloading: bool,
}

impl View for RuntimeState {
    type V = RuntimeView;

    open spec fn view(&self) -> RuntimeView {
        RuntimeView {
            active: self.active,
            api_base_url: self.api_base_url@,
            api_key: opt_view(self.api_key),
            api_model: self.api_model@,
            model_resident: self.model_resident,
            downloading: self.downloading,
        }
    }
}

impl RuntimeView {
    /// What every reachable runtime configuration satisfies: the active
    /// provider is a listed one; a model is resident only in on-device mode;
    /// a download runs only in on-device mode and only while no model is
    /// resident; a listed remote provider that needs no key has none.
    pub open spec fn wf(self) -> bool {
        &&& self.active.listed()
        &&& self.model_resident ==> self.active is Local
        &&& self.downloading ==> self.active is Local && !self.model_resident
        &&& (self.active matches Provider::Preset(p) && !p.needs_key) ==> self.api_key is None
    }

    /// Whether a recording could be transcribed as things stand.
    pub open spec fn usable(self) -> bool {
        match self.active {
            Provider::Local(_) => self.model_resident,
            _ => !self.active.requires_key() || self.api_key is Some,
        }
    }
}

/// The key that goes with a listed remote provider: none where it needs
/// none, else the one remembered for that provider, else the process's.
pub open spec fn key_for_preset(
    preset: ApiPreset,
    remembered: Map<Seq<char>, Seq<char>>,
    process_key: Option<Seq<char>>,
) -> Option<Seq<char>> {
    if preset.needs_key {
        first_of(setting(remembered, provider_key_name(preset.id@)), process_key)
    } else {
        None
    }
}

/// A text that was remembered under `key`, or else `fallback`.
pub open spec fn remembered_or(
    remembered: Map<Seq<char>, Seq<char>>,
    key: Seq<char>,
    fallback: Seq<char>,
) -> Seq<char> {
    match setting(remembered, key) {
        Some(v) => v,
        None => fallback,
    }
}

/// The configuration that the process-level defaults alone give.
pub open spec fn from_defaults(config: ConfigView) -> RuntimeView {
    RuntimeView {
        active: if config.transcription_service == TranscriptionService::Local {
            Provider::Local(local_tiny())
        } else {
            Provider::Preset(groq())
        },
        api_base_url: config.api_base_url,
        api_key: config.api_key,
        api_model: config.api_model,
        model_resident: false,
        downloading: false,
    }
}

/// The configuration with which a session starts. What was remembered comes
/// first: the legacy word for the default on-device model, the custom remote
/// provider with its remembered endpoint, key and model, a listed remote
/// provider with its own endpoint, model and key, or a listed on-device
/// model. Where nothing was remembered, or the remembered id names no
/// provider, the process-level defaults apply.
pub open spec fn initial_runtime(
    remembered: Map<Seq<char>, Seq<char>>,
    config: ConfigView,
) -> RuntimeView {
    match setting(remembered, KEY_MODE@) {
        None => from_defaults(config),
        Some(mode) => if mode == LEGACY_LOCAL_ID@ {
            RuntimeView { active: Provider::Local(local_tiny()), ..from_defaults(config) }
        } else if mode == CUSTOM_PROVIDER_ID@ {
            RuntimeView {
                active: Provider::Custom,
                api_base_url: remembered_or(remembered, KEY_CUSTOM_URL@, config.api_base_url),
                api_key: first_of(setting(remembered, KEY_CUSTOM_KEY@), config.api_key),
                api_model: remembered_or(remembered, KEY_CUSTOM_MODEL@, config.api_model),
                model_resident: false,
                downloading: false,
            }
        } else {
            match preset_with_id(mode) {
                Some(preset) => RuntimeView {
                    active: Provider::Preset(preset),
                    api_base_url: preset.base_url@,
                    api_key: key_for_preset(preset, remembered, config.api_key),
                    api_model: preset.default_model@,
                    model_resident: false,
                    downloading: false,
                },
                None => match local_model_with_id(mode) {
                    Some(model) => RuntimeView {
                        active: Provider::Local(model),
                        ..from_defaults(config)
                    },
                    None => from_defaults(config),
                },
            }
        },
    }
}

/// The configuration after a listed remote provider became active.
pub open spec fn with_preset(
    before: RuntimeView,
    preset: ApiPreset,
    remembered: Map<Seq<char>, Seq<char>>,
    config: ConfigView,
) -> RuntimeView {
    RuntimeView {
        active: Provider::Preset(preset),
        api_base_url: preset.base_url@,
        api_key: key_for_preset(preset, remembered, config.api_key),
        api_model: preset.default_model@,
        model_resident: false,
        downloading: before.downloading,
    }
}

/// The configuration after the custom remote provider became active.
pub open spec fn with_custom(
    before: RuntimeView,
    base_url: Seq<char>,
    api_key: Option<Seq<char>>,
    model: Seq<char>,
) -> RuntimeView {
    RuntimeView {
        active: Provider::Custom,
        api_base_url: base_url,
        api_key: api_key,
        api_model: model,
        model_resident: false,
        downloading: before.downloading,
    }
}

/// The configuration after an on-device model was chosen and before it is
/// loaded: the connection parameters of the remote side stay as they are.
pub open spec fn with_local(before: RuntimeView, model: LocalModelPreset) -> RuntimeView {
    RuntimeView { active: Provider::Local(model), model_resident: false, ..before }
}

/// The configuration after falling back to the first remote preset: its
/// endpoint and model apply, the key stays as it is, nothing is resident and
/// nothing is being downloaded.
pub open spec fn reverted(before: RuntimeView) -> RuntimeView {
    RuntimeView {
        active: Provider::Preset(groq()),
        api_base_url: groq().base_url@,
        api_key: before.api_key,
        api_model: groq().default_model@,
        model_resident: false,
        downloading: false,
    }
}

/// A session starts with a well-formed configuration, whatever was
/// remembered and whatever the process asks for.
pub proof fn lemma_initial_runtime_is_well_formed(
    remembered: Map<Seq<char>, Seq<char>>,
    config: ConfigView,
)
    ensures
        initial_runtime(remembered, config).wf(),
{
    lemma_preset_lookup(groq().id@);
    lemma_local_model_lookup(local_tiny().id@);
    match setting(remembered, KEY_MODE@) {
        Some(mode) => {
            lemma_lookup_is_sound(mode);
            match preset_with_id(mode) {
                Some(p) => {
                    lemma_preset_lookup(p.id@);
                },
                None => {},
            }
            match local_model_with_id(mode) {
                Some(m) => {
                    lemma_local_model_lookup(m.id@);
                },
                None => {},
            }
        },
        None => {},
    }
}

impl RuntimeState {
    /// The configuration that the process-level defaults alone give.
    fn defaults(config: &Config) -> (runtime: RuntimeState)
        ensures
            runtime@ == from_defaults(config@),
    {
        let active = match config.transcription_service {
            TranscriptionService::Local => Provider::Local(default_local_model()),
            TranscriptionService::Api => Provider::Preset(first_api_preset()),
        };
        RuntimeState {
            active,
            api_base_url: config.api_base_url.clone(),
            api_key: copy_opt(&config.api_key),
            api_model: config.api_model.clone(),
            model_resident: false,
            downloading: false,
        }
    }

    /// The key that goes with a listed remote provider.
    fn preset_key(preset: &ApiPreset, remembered: &Settings, config: &Config) -> (key: Option<
        String,
    >)
        ensures
            opt_view(key) == key_for_preset(*preset, remembered@, config@.api_key),
    {
        if preset.needs_key {
            let name = joined(KEY_PROVIDER_KEY_PREFIX, preset.id);
            match remembered.get_setting(name.as_str()) {
                Some(k) => Some(k),
                None => copy_opt(&config.api_key),
            }
        } else {
            None
        }
    }

    /// Determines the configuration with which a session starts, from what
    /// was remembered and from the process-level defaults.
    pub fn resolve_initial(remembered: &Settings, config: &Config) -> (runtime: RuntimeState)
        ensures
            runtime@ == initial_runtime(remembered@, config@),
            runtime@.wf(),
    {
        proof {
            lemma_initial_runtime_is_well_formed(remembered@, config@);
        }
        let mode = match remembered.get_setting(KEY_MODE) {
            Some(mode) => mode,
            None => {
                return RuntimeState::defaults(config);
            },
        };
        if str_eq(mode.as_str(), LEGACY_LOCAL_ID) {
            let mut runtime = RuntimeState::defaults(config);
            runtime.active = Provider::Local(default_local_model());
            return runtime;
        }
        if str_eq(mode.as_str(), CUSTOM_PROVIDER_ID) {
            let api_base_url = match remembered.get_setting(KEY_CUSTOM_URL) {
                Some(u) => u,
                None => config.api_base_url.clone(),
            };
            let api_key = match remembered.get_setting(KEY_CUSTOM_KEY) {
                Some(k) => Some(k),
                None => copy_opt(&config.api_key),
            };
            let api_model = match remembered.get_setting(KEY_CUSTOM_MODEL) {
                Some(m) => m,
                None => config.api_model.clone(),
            };
            return RuntimeState {
                active: Provider::Custom,
                api_base_url,
                api_key,
                api_model,
                model_resident: false,
                downloading: false,
            };
        }
        if let Some(preset) = find_preset(mode.as_str()) {
            let api_key = RuntimeState::preset_key(&preset, remembered, config);
            return RuntimeState {
                active: Provider::Preset(preset),
                api_base_url: preset.base_url.to_owned(),
                api_key,
                api_model: preset.default_model.to_owned(),
                model_resident: false,
                downloading: false,
            };
        }
        if let Some(model) = find_local_model(mode.as_str()) {
            let mut runtime = RuntimeState::defaults(config);
            runtime.active = Provider::Local(model);
            return runtime;
        }
        RuntimeState::defaults(config)
    }

    /// Makes a listed remote provider the active one.
    pub fn activate_preset(&mut self, preset: ApiPreset, remembered: &Settings, config: &Config)
        ensures
            final(self)@ == with_preset(old(self)@, preset, remembered@, config@),
    {
        let key = RuntimeState::preset_key(&preset, remembered, config);
        self.active = Provider::Preset(preset);
        self.api_base_url = preset.base_url.to_owned();
        self.api_model = preset.default_model.to_owned();
        self.api_key = key;
        self.model_resident = false;
    }

    /// Makes the custom remote provider the active one.
    pub fn activate_custom(&mut self, base_url: &str, api_key: &Option<String>, model: &str)
        ensures
            final(self)@ == with_custom(old(self)@, base_url@, opt_view(*api_key), model@),
    {
        self.active = Provider::Custom;
        self.api_base_url = base_url.to_owned();
        self.api_key = copy_opt(api_key);
        self.api_model = model.to_owned();
        self.model_resident = false;
    }

    /// Makes an on-device model the active one, not yet loaded.
    pub fn activate_local(&mut self, model: LocalModelPreset)
        ensures
            final(self)@ == with_local(old(self)@, model),
    {
        self.active = Provider::Local(model);
        self.model_resident = false;
    }

    /// Falls back to the first remote preset.
    pub fn revert_to_first_preset(&mut self)
        ensures
            final(self)@ == reverted(old(self)@),
    {
        let preset = first_api_preset();
        self.active = Provider::Preset(preset);
        self.api_base_url = preset.base_url.to_owned();
        self.api_model = preset.default_model.to_owned();
        self.model_resident = false;
        self.downloading = false;
    }
}

} // verus!
