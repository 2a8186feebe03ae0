//! The two transcription backends as data: what is sent to a remote
//! provider, what is handed to the on-device model, and how a remote reply
//! is read.

use vstd::prelude::*;
use crate::audio::EncodedAudio;
use crate::config::LocalModelPreset;
use crate::json::{json_parse, json_reading, json_render, json_text_member};
use crate::runtime::{Provider, RuntimeState, RuntimeView};
use crate::text::{copy_opt, joined, opt_view};

verus! {

/// What follows a provider's base address to reach its transcription call.
pub const TRANSCRIPTIONS_PATH: &'static str = "/audio/transcriptions";

/// Name of the upload's field that carries the model's id.
pub const MODEL_FIELD: &'static str = "model";

/// Name of the upload's field that carries the wanted reply format.
pub const FORMAT_FIELD: &'static str = "response_format";

/// The reply format asked for.
pub const RESPONSE_FORMAT: &'static str = "json";

/// Name of the upload's part that carries the audio.
pub const FILE_FIELD: &'static str = "file";

/// File name given to the audio part.
pub const UPLOAD_FILE_NAME: &'static str = "audio.wav";

/// Media type given to the audio part.
pub const UPLOAD_MIME: &'static str = "audio/wav";

/// Member of a reply that carries the transcribed text.
pub const TEXT_MEMBER: &'static str = "text";

/// Where a request goes.
#[derive(Clone, Debug, PartialEq, Eq)]
pub enum Target {
    /// One upload to `url`, with `bearer` as bearer token where there is one.
    Remote { url: String, bearer: Option<String>, model: String },
    /// One run of the resident on-device model.
    Local(LocalModelPreset),
}

/// A target as plain texts.
pub enum TargetView {
    Remote { url: Seq<char>, bearer: Option<Seq<char>>, model: Seq<char> },
    Local(LocalModelPreset),
}

impl View for Target {
    type V = TargetView;

    open spec fn view(&self) -> TargetView {
        match self {
            Target::Remote { url, bearer, model } => TargetView::Remote {
                url: url@,
                bearer: opt_view(*bearer),
                model: model@,
            },
            Target::Local(m) => TargetView::Local(*m),
        }
    }
}

/// One transcription request: the encoded capture and where it goes, fixed
/// at the moment of dispatch.
pub struct TranscriptionRequest {
    pub audio: EncodedAudio,
    pub target: Target,
}

/// Why a transcription failed.
#[derive(Clone, Debug, PartialEq, Eq)]
pub enum BackendError {
    /// The request did not get through.
    Network { detail: String },
    /// The provider answered with a status outside 200 to 299.
    Status { code: u16, body: String },
    /// The provider's answer is not JSON.
    MalformedReply { body: String },
    /// The provider's answer is JSON without a text member named "text".
    MissingText { document: String },
    /// On-device mode is active and no model is resident.
    ModelNotLoaded,
    /// The on-device model failed on the audio.
    Inference { detail: String },
}

/// A backend error as plain texts.
pub enum BackendErrorView {
    Network { detail: Seq<char> },
    Status { code: u16, body: Seq<char> },
    MalformedReply { body: Seq<char> },
    MissingText { document: Seq<char> },
    ModelNotLoaded,
    Inference { detail: Seq<char> },
}

impl View for BackendError {
    type V = BackendErrorView;

    open spec fn view(&self) -> BackendErrorView {
        match self {
            BackendError::Network { detail } => BackendErrorView::Network { detail: detail@ },
            BackendError::Status { code, body } => BackendErrorView::Status {
                code: *code,
                body: body@,
            },
            BackendError::MalformedReply { body } => BackendErrorView::MalformedReply {
                body: body@,
            },
            BackendError::MissingText { document } => BackendErrorView::MissingText {
                document: document@,
            },
            BackendError::ModelNotLoaded => BackendErrorView::ModelNotLoaded,
            BackendError::Inference { detail } => BackendErrorView::Inference { detail: detail@ },
        }
    }
}

/// The outcome of a transcription as plain texts.
pub open spec fn outcome_view(outcome: Result<String, BackendError>) -> Result<
    Seq<char>,
    BackendErrorView,
> {
    match outcome {
        Ok(text) => Ok(text@),
        Err(e) => Err(e@),
    }
}

/// Where a request goes as things stand: to the resident on-device model in
/// on-device mode, and nowhere if none is resident; else to the active
/// endpoint's transcription call, with the active model, and with the key as
/// bearer token where the provider asks for one.
pub open spec fn target_for(runtime: RuntimeView) -> Result<TargetView, BackendErrorView> {
    match runtime.active {
        Provider::Local(m) => if runtime.model_resident {
            Ok(TargetView::Local(m))
        } else {
            Err(BackendErrorView::ModelNotLoaded)
        },
        _ => Ok(
            TargetView::Remote {
                url: runtime.api_base_url + TRANSCRIPTIONS_PATH@,
                bearer: if runtime.active.requires_key() {
                    runtime.api_key
                } else {
                    None
                },
                model: runtime.api_model,
            },
        ),
    }
}

/// Fixes where a request goes, from the runtime configuration as it stands.
pub fn snapshot_target(runtime: &RuntimeState) -> (target: Result<Target, BackendError>)
    ensures
        match target {
            Ok(t) => target_for(runtime@) == Ok::<TargetView, BackendErrorView>(t@),
            Err(e) => target_for(runtime@) == Err::<TargetView, BackendErrorView>(e@),
        },
{
    match runtime.active {
        Provider::Local(m) => {
            if runtime.model_resident {
                Ok(Target::Local(m))
            } else {
                Err(BackendError::ModelNotLoaded)
            }
        },
        _ => {
            let bearer = if runtime.active.needs_key() {
                copy_opt(&runtime.api_key)
            } else {
                None
            };
            Ok(
                Target::Remote {
                    url: joined(runtime.api_base_url.as_str(), TRANSCRIPTIONS_PATH),
                    bearer,
                    model: runtime.api_model.clone(),
                },
            )
        },
    }
}

/// Whether a status code reports success: 200 to 299.
pub open spec fn is_success(status: u16) -> bool {
    200 <= status < 300
}

/// What a parsed reply holds of what the reading of replies looks at.
#[derive(Clone, Debug, PartialEq, Eq)]
pub struct ParsedReply {
    /// The member named "text", where it is a text.
    pub text: Option<String>,
    /// The document in compact form.
    pub compact: String,
}

/// What a remote reply amounts to, given its status, its body and what
/// parsing the body gave: a status outside 200 to 299 is an error that
/// carries status and body; a body that is no JSON is an error that carries
/// the body; a document without a text member "text" is an error that
/// carries the document; else the result is that member, as it is.
pub open spec fn reply_outcome(
    status: u16,
    body: Seq<char>,
    parsed: Option<(Option<Seq<char>>, Seq<char>)>,
) -> Result<Seq<char>, BackendErrorView> {
    if !is_success(status) {
        Err(BackendErrorView::Status { code: status, body: body })
    } else {
        match parsed {
            None => Err(BackendErrorView::MalformedReply { body: body }),
            Some((None, compact)) => Err(BackendErrorView::MissingText { document: compact }),
            Some((Some(text), _)) => Ok(text),
        }
    }
}

/// What the reading of a body shows of the member "text" and of the compact
/// form.
pub open spec fn reply_reading(body: Seq<char>) -> Option<(Option<Seq<char>>, Seq<char>)> {
    match json_reading(body) {
        None => None,
        Some((members, compact)) => Some(
            (
                if members.contains_key(TEXT_MEMBER@) {
                    Some(members[TEXT_MEMBER@])
                } else {
                    None
                },
                compact,
            ),
        ),
    }
}

/// The view of a parsed reply, as `reply_outcome` takes it.
pub open spec fn parsed_view(parsed: Option<ParsedReply>) -> Option<
    (Option<Seq<char>>, Seq<char>),
> {
    match parsed {
        None => None,
        Some(p) => Some((opt_view(p.text), p.compact@)),
    }
}

/// Reads a remote reply whose body has been parsed already.
pub fn reply_from_parts(status: u16, body: &str, parsed: Option<ParsedReply>) -> (outcome: Result<
    String,
    BackendError,
>)
    ensures
        outcome_view(outcome) == reply_outcome(status, body@, parsed_view(parsed)),
{
    if status < 200 || status >= 300 {
        return Err(BackendError::Status { code: status, body: body.to_owned() });
    }
    match parsed {
        None => Err(BackendError::MalformedReply { body: body.to_owned() }),
        Some(p) => match p.text {
            Some(text) => Ok(text),
            None => Err(BackendError::MissingText { document: p.compact }),
        },
    }
}

/// Parses a reply's body and takes from the document what the reading of
/// replies looks at.
pub fn parse_reply(body: &str) -> (parsed: Option<ParsedReply>)
    ensures
        parsed_view(parsed) == reply_reading(body@),
{
    match json_parse(body) {
        Ok(doc) => {
            let text = json_text_member(&doc, TEXT_MEMBER);
            let compact = json_render(&doc);
            Some(ParsedReply { text, compact })
        },
        Err(_) => None,
    }
}

/// Reads a remote reply: the transcribed text, or why there is none.
pub fn interpret_response(status: u16, body: &str) -> (outcome: Result<String, BackendError>)
    ensures
        outcome_view(outcome) == reply_outcome(status, body@, reply_reading(body@)),
{
    let parsed = if status < 200 || status >= 300 {
        None
    } else {
        parse_reply(body)
    };
    let outcome = reply_from_parts(status, body, parsed);
    outcome
}

/// The custom remote provider as a caller describes it.
#[derive(Clone, Debug, PartialEq, Eq)]
pub struct CustomApi {
    pub base_url: String,
    pub api_key: Option<String>,
    pub model: String,
}

/// Why a description of the custom remote provider was not taken.
#[derive(Clone, Copy, Debug, PartialEq, Eq, Structural)]
pub enum ApiConfigError {
    /// The description is not JSON.
    InvalidJson,
    /// There is no text member "base_url".
    MissingBaseUrl,
    /// There is no text member "model".
    MissingModel,
}

/// The custom remote provider as plain texts.
pub struct CustomApiView {
    pub base_url: Seq<char>,
    pub api_key: Option<Seq<char>>,
    pub model: Seq<char>,
}

impl View for CustomApi {
    type V = CustomApiView;

    open spec fn view(&self) -> CustomApiView {
        CustomApiView {
            base_url: self.base_url@,
            api_key: opt_view(self.api_key),
            model: self.model@,
        }
    }
}

/// The description that three optional members make: endpoint and model have
/// to be there, the key may be missing.
pub open spec fn api_config_of(
    base_url: Option<Seq<char>>,
    model: Option<Seq<char>>,
    api_key: Option<Seq<char>>,
) -> Result<CustomApiView, ApiConfigError> {
    match base_url {
        None => Err(ApiConfigError::MissingBaseUrl),
        Some(u) => match model {
            None => Err(ApiConfigError::MissingModel),
            Some(m) => Ok(CustomApiView { base_url: u, api_key: api_key, model: m }),
        },
    }
}

/// The description that a JSON text gives, by what its reading holds.
pub open spec fn api_config_reading(text: Seq<char>) -> Result<CustomApiView, ApiConfigError> {
    match json_reading(text) {
        None => Err(ApiConfigError::InvalidJson),
        Some((members, _)) => api_config_of(
            crate::settings::setting(members, "base_url"@),
            crate::settings::setting(members, "model"@),
            crate::settings::setting(members, "api_key"@),
        ),
    }
}

/// The view of a description or of its refusal.
pub open spec fn api_config_view(r: Result<CustomApi, ApiConfigError>) -> Result<
    CustomApiView,
    ApiConfigError,
> {
    match r {
        Ok(c) => Ok(c@),
        Err(e) => Err(e),
    }
}

/// Makes a description of the custom remote provider from its three members.
pub fn api_config_from_members(
    base_url: Option<String>,
    model: Option<String>,
    api_key: Option<String>,
) -> (config: Result<CustomApi, ApiConfigError>)
    ensures
        api_config_view(config) == api_config_of(
            opt_view(base_url),
            opt_view(model),
            opt_view(api_key),
        ),
{
    match base_url {
        None => Err(ApiConfigError::MissingBaseUrl),
        Some(u) => match model {
            None => Err(ApiConfigError::MissingModel),
            Some(m) => Ok(CustomApi { base_url: u, api_key, model: m }),
        },
    }
}

/// Reads a description of the custom remote provider that arrives as JSON:
/// an object with the text members "base_url" and "model" and, if a key is
/// wanted, "api_key".
pub fn parse_api_config(text: &str) -> (config: Result<CustomApi, ApiConfigError>)
    ensures
        api_config_view(config) == api_config_reading(text@),
{
    match json_parse(text) {
        Ok(doc) => {
            let base_url = json_text_member(&doc, "base_url");
            let model = json_text_member(&doc, "model");
            let api_key = json_text_member(&doc, "api_key");
            api_config_from_members(base_url, model, api_key)
        },
        Err(_) => Err(ApiConfigError::InvalidJson),
    }
}

} // verus!
