//! The orchestrator: the state machine that takes a session from idle through
//! recording and processing back to idle, and that lets the provider change
//! only while nothing else is going on.
//!
//! The orchestrator performs no capture, no transport and no file work. Each
//! of its functions takes what happened and answers with what is to be done.

use vstd::prelude::*;
use crate::audio::{CaptureError, EncodeError, EncodedAudio, RecordingError};
use crate::backend::{
    outcome_view, snapshot_target, target_for, BackendError, BackendErrorView,
    TranscriptionRequest,
};
use crate::config::{
    find_local_model, find_preset, local_model_with_id, preset_with_id, ApiPreset, Config,
    ConfigView, LocalModelPreset,
};
use crate::download::DownloadMsg;
use crate::effect::{all_deletions, delete_all_local_models, Effect, Notice};
use crate::runtime::{
    reverted, with_custom, with_local, with_preset, Provider, RuntimeState, RuntimeView,
    CUSTOM_PROVIDER_ID,
};
use crate::settings::{
    Settings, KEY_CUSTOM_KEY, KEY_CUSTOM_MODEL, KEY_CUSTOM_URL, KEY_MODE,
};
use crate::text::{opt_view, str_eq};

verus! {

/// The three phases of a session.
#[derive(Clone, Copy, Debug, PartialEq, Eq, Structural)]
pub enum State {
    Idle,
    Recording,
    Processing,
}

/// The orchestrator's whole state: the phase and the runtime configuration.
pub struct Orchestrator {
    pub state: State,
    pub runtime: RuntimeState,
}

/// The orchestrator's state as plain texts.
pub struct OrchestratorView {
    pub state: State,
    pub runtime: RuntimeView,
}

impl View for Orchestrator {
    type V = OrchestratorView;

    open spec fn view(&self) -> OrchestratorView {
        OrchestratorView { state: self.state, runtime: self.runtime@ }
    }
}

impl OrchestratorView {
    /// What every reachable state satisfies: the runtime configuration is
    /// well formed, and outside `Idle` it is usable and no download runs.
    pub open spec fn wf(self) -> bool {
        &&& self.runtime.wf()
        &&& self.state != State::Idle ==> self.runtime.usable() && !self.runtime.downloading
    }
}

/// Why a recording is not started.
#[derive(Clone, Copy, Debug, PartialEq, Eq, Structural)]
pub enum Block {
    /// A model download is under way.
    Downloading,
    /// On-device mode is active and no model is resident.
    NoLocalModel,
    /// The remote provider needs a key and none is set.
    NoApiKey,
}

impl Block {
    /// The notice that reports the block.
    pub open spec fn notice_of(self) -> Notice {
        match self {
            Block::Downloading => Notice::DownloadInProgress,
            Block::NoLocalModel => Notice::NoLocalModel,
            Block::NoApiKey => Notice::NoApiKey,
        }
    }

    /// The notice that reports the block.
    pub fn notice(&self) -> (notice: Notice)
        ensures
            notice == self.notice_of(),
    {
        match self {
            Block::Downloading => Notice::DownloadInProgress,
            Block::NoLocalModel => Notice::NoLocalModel,
            Block::NoApiKey => Notice::NoApiKey,
        }
    }
}

/// What stands in the way of a recording, if anything: first a running
/// download, then a missing on-device model, then a missing key.
pub open spec fn recording_block(runtime: RuntimeView) -> Option<Block> {
    if runtime.downloading {
        Some(Block::Downloading)
    } else if runtime.active is Local {
        if runtime.model_resident {
            None
        } else {
            Some(Block::NoLocalModel)
        }
    } else if runtime.active.requires_key() && runtime.api_key is None {
        Some(Block::NoApiKey)
    } else {
        None
    }
}

/// What a trigger asks for.
#[derive(Clone, Copy, Debug, PartialEq, Eq, Structural)]
pub enum TriggerAction {
    /// Start capturing, and report how that went.
    StartCapture,
    /// Stop capturing, and report what was captured.
    StopCapture,
    /// Nothing is started, for this reason.
    Refused(Block),
    /// A transcription is in flight: the trigger is dropped.
    Ignored,
}

/// What a trigger asks for in each state.
pub open spec fn trigger_action(o: OrchestratorView) -> TriggerAction {
    match o.state {
        State::Idle => match recording_block(o.runtime) {
            Some(block) => TriggerAction::Refused(block),
            None => TriggerAction::StartCapture,
        },
        State::Recording => TriggerAction::StopCapture,
        State::Processing => TriggerAction::Ignored,
    }
}

/// How the start of a capture was taken.
#[derive(Clone, Copy, Debug, PartialEq, Eq, Structural)]
pub enum StartOutcome {
    /// The session is recording.
    Began,
    /// The capture did not start; the session stays idle.
    Failed(CaptureError),
    /// No capture was asked for: nothing changes.
    Ignored,
}

/// What the start of a capture leads to.
pub open spec fn start_outcome(o: OrchestratorView, started: Result<(), CaptureError>) -> (
    State,
    StartOutcome,
) {
    if trigger_action(o) != TriggerAction::StartCapture {
        (o.state, StartOutcome::Ignored)
    } else {
        match started {
            Ok(_) => (State::Recording, StartOutcome::Began),
            Err(e) => (State::Idle, StartOutcome::Failed(e)),
        }
    }
}

/// Why stopping a recording led to no request.
#[derive(Clone, Copy, Debug, PartialEq, Eq, Structural)]
pub enum StopFailure {
    Capture(CaptureError),
    Encode(EncodeError),
    /// On-device mode is active and no model is resident.
    ModelNotLoaded,
}

/// The failure that a recording error is.
pub open spec fn stop_failure_of(e: RecordingError) -> StopFailure {
    match e {
        RecordingError::Capture(c) => StopFailure::Capture(c),
        RecordingError::Encode(c) => StopFailure::Encode(c),
    }
}

/// What the end of a capture asks for.
pub enum StopAction {
    /// Run this one request in the background and poll for its result.
    Dispatch(TranscriptionRequest),
    /// There is nothing to transcribe; the session is idle again.
    Failed(StopFailure),
    /// No recording was under way: nothing changes.
    Ignored,
}

/// The state after the end of a capture: processing if there is audio and
/// somewhere to send it, idle if not; unchanged if nothing was recording.
pub open spec fn state_after_stop(o: OrchestratorView, captured: bool) -> State {
    if o.state != State::Recording {
        o.state
    } else if captured && target_for(o.runtime) is Ok {
        State::Processing
    } else {
        State::Idle
    }
}

/// What a look at the result channel found.
#[derive(Debug, PartialEq, Eq)]
pub enum Poll {
    /// Nothing yet.
    Pending,
    /// The background task's one message.
    Finished(Result<String, BackendError>),
    /// The sender is gone and has sent nothing.
    Abandoned,
}

/// What a look at the result channel found, as plain texts.
pub enum PollView {
    Pending,
    Finished(Result<Seq<char>, BackendErrorView>),
    Abandoned,
}

impl View for Poll {
    type V = PollView;

    open spec fn view(&self) -> PollView {
        match self {
            Poll::Pending => PollView::Pending,
            Poll::Finished(outcome) => PollView::Finished(outcome_view(*outcome)),
            Poll::Abandoned => PollView::Abandoned,
        }
    }
}

/// What a look at the result channel asks for.
#[derive(Clone, Debug, PartialEq, Eq)]
pub enum ResultAction {
    /// Look again after the polling interval.
    KeepPolling,
    /// Hand the text to history and clipboard.
    Deliver(String),
    /// Report the failure; nothing is delivered.
    Failed(BackendError),
    /// The task vanished without a result; nothing is delivered.
    Abandoned,
    /// No transcription was in flight: nothing changes.
    Ignored,
}

/// What a look at the result channel asks for, as plain texts.
pub enum ResultActionView {
    KeepPolling,
    Deliver(Seq<char>),
    Failed(BackendErrorView),
    Abandoned,
    Ignored,
}

impl View for ResultAction {
    type V = ResultActionView;

    open spec fn view(&self) -> ResultActionView {
        match self {
            ResultAction::KeepPolling => ResultActionView::KeepPolling,
            ResultAction::Deliver(text) => ResultActionView::Deliver(text@),
            ResultAction::Failed(e) => ResultActionView::Failed(e@),
            ResultAction::Abandoned => ResultActionView::Abandoned,
            ResultAction::Ignored => ResultActionView::Ignored,
        }
    }
}

/// What a look at the result channel leads to.
pub open spec fn poll_outcome(state: State, poll: PollView) -> (State, ResultActionView) {
    if state != State::Processing {
        (state, ResultActionView::Ignored)
    } else {
        match poll {
            PollView::Pending => (State::Processing, ResultActionView::KeepPolling),
            PollView::Finished(Ok(text)) => (State::Idle, ResultActionView::Deliver(text)),
            PollView::Finished(Err(e)) => (State::Idle, ResultActionView::Failed(e)),
            PollView::Abandoned => (State::Idle, ResultActionView::Abandoned),
        }
    }
}

/// Something that happens to the orchestrator.
pub enum Event {
    /// The user's trigger.
    Trigger,
    /// The start of a capture reported back.
    CaptureStarted(Result<(), CaptureError>),
    /// The end of a capture reported back, with encoded audio or without.
    CaptureStopped { captured: bool },
    /// A look at the result channel.
    Polled(PollView),
    /// A switch, a model load or a download message left the runtime
    /// configuration like this. None of them changes the phase.
    Reconfigured(RuntimeView),
}

/// The orchestrator after an event.
pub open spec fn step(o: OrchestratorView, e: Event) -> OrchestratorView {
    match e {
        Event::Trigger => o,
        Event::CaptureStarted(started) => OrchestratorView {
            state: start_outcome(o, started).0,
            ..o
        },
        Event::CaptureStopped { captured } => OrchestratorView {
            state: state_after_stop(o, captured),
            ..o
        },
        Event::Polled(poll) => OrchestratorView { state: poll_outcome(o.state, poll).0, ..o },
        Event::Reconfigured(runtime) => OrchestratorView { runtime: runtime, ..o },
    }
}

/// Whether the event makes the orchestrator hand out a request.
pub open spec fn dispatches(o: OrchestratorView, e: Event) -> bool {
    e matches Event::CaptureStopped { captured } && o.state == State::Recording && captured
        && target_for(o.runtime) is Ok
}

/// Whether the event brings the request in flight to its end.
pub open spec fn settles(o: OrchestratorView, e: Event) -> bool {
    e matches Event::Polled(poll) && o.state == State::Processing && !(poll is Pending)
}

/// Why a change of provider was not made.
#[derive(Clone, Copy, Debug, PartialEq, Eq, Structural)]
pub enum Refusal {
    /// The session is recording or processing.
    Busy,
    /// A model download is under way.
    Downloading,
    /// The provider asked for is the active one.
    AlreadyActive,
    /// The id names no provider.
    UnknownProvider,
    /// The custom provider's endpoint is empty.
    EmptyUrl,
    /// The custom provider's model is empty.
    EmptyModel,
}

/// What forbids any change of provider: a session that is not idle, or a
/// download under way.
pub open spec fn switch_refusal(o: OrchestratorView) -> Option<Refusal> {
    if o.state != State::Idle {
        Some(Refusal::Busy)
    } else if o.runtime.downloading {
        Some(Refusal::Downloading)
    } else {
        None
    }
}

/// The provider that an id selects: a listed on-device model, the custom
/// provider, or a listed remote provider.
pub open spec fn selection_target(chosen: Seq<char>) -> Option<Provider> {
    match local_model_with_id(chosen) {
        Some(m) => Some(Provider::Local(m)),
        None => if chosen == CUSTOM_PROVIDER_ID@ {
            Some(Provider::Custom)
        } else {
            match preset_with_id(chosen) {
                Some(p) => Some(Provider::Preset(p)),
                None => None,
            }
        },
    }
}

/// What forbids the selection of the provider with this id.
pub open spec fn selection_refusal(o: OrchestratorView, chosen: Seq<char>) -> Option<Refusal> {
    match switch_refusal(o) {
        Some(r) => Some(r),
        None => if chosen == o.runtime.active.id_of() {
            Some(Refusal::AlreadyActive)
        } else if selection_target(chosen) is None {
            Some(Refusal::UnknownProvider)
        } else {
            None
        },
    }
}

/// What forbids the switch to the custom provider with these parameters.
pub open spec fn custom_refusal(o: OrchestratorView, base_url: Seq<char>, model: Seq<char>)
    -> Option<Refusal> {
    match switch_refusal(o) {
        Some(r) => Some(r),
        None => if base_url.len() == 0 {
            Some(Refusal::EmptyUrl)
        } else if model.len() == 0 {
            Some(Refusal::EmptyModel)
        } else {
            None
        },
    }
}

/// The runtime configuration after the switch to an on-device model: the
/// model is active and not resident, and a download is under way exactly if
/// its artifact is not on disk.
pub open spec fn after_local_switch(
    before: RuntimeView,
    model: LocalModelPreset,
    artifact_present: bool,
) -> RuntimeView {
    RuntimeView { downloading: !artifact_present, ..with_local(before, model) }
}

/// What the switch to an on-device model asks for: the artifact of another
/// on-device model that was active is removed; then the chosen model is
/// loaded if its artifact is on disk, and fetched if not.
pub open spec fn local_switch_effects(
    before: RuntimeView,
    model: LocalModelPreset,
    artifact_present: bool,
) -> Seq<Effect> {
    let removal = match before.active {
        Provider::Local(old) => if old.id@ != model.id@ {
            seq![Effect::DeleteArtifact(old)]
        } else {
            Seq::<Effect>::empty()
        },
        _ => Seq::<Effect>::empty(),
    };
    if artifact_present {
        removal + seq![Effect::Announce(Notice::LoadingModel), Effect::LoadModel(model)]
    } else {
        removal + seq![Effect::Announce(Notice::DownloadingModel), Effect::DownloadModel(model)]
    }
}

/// The runtime configuration after a switch to `target`. Choosing the custom
/// provider changes nothing yet: its parameters are asked for first.
pub open spec fn runtime_after_switch(
    before: RuntimeView,
    target: Provider,
    remembered: Map<Seq<char>, Seq<char>>,
    config: ConfigView,
    artifact_present: bool,
) -> RuntimeView {
    match target {
        Provider::Local(m) => after_local_switch(before, m, artifact_present),
        Provider::Custom => before,
        Provider::Preset(p) => with_preset(before, p, remembered, config),
    }
}

/// What is remembered after a switch to `target`: the id of a listed
/// provider, under the key of the active mode.
pub open spec fn settings_after_switch(remembered: Map<Seq<char>, Seq<char>>, target: Provider)
    -> Map<Seq<char>, Seq<char>> {
    match target {
        Provider::Custom => remembered,
        _ => remembered.insert(KEY_MODE@, target.id_of()),
    }
}

/// What a switch to `target` asks for.
pub open spec fn switch_effects(before: RuntimeView, target: Provider, artifact_present: bool)
    -> Seq<Effect> {
    match target {
        Provider::Local(m) => local_switch_effects(before, m, artifact_present),
        Provider::Custom => seq![Effect::OpenCustomDialog],
        Provider::Preset(p) => all_deletions().push(Effect::Announce(Notice::PresetActive(p))),
    }
}

/// What is remembered after the switch to the custom provider: its endpoint,
/// its key where it has one, its model, and that it is the active mode.
pub open spec fn settings_after_custom(
    remembered: Map<Seq<char>, Seq<char>>,
    base_url: Seq<char>,
    api_key: Option<Seq<char>>,
    model: Seq<char>,
) -> Map<Seq<char>, Seq<char>> {
    let with_url = remembered.insert(KEY_CUSTOM_URL@, base_url);
    let with_key = match api_key {
        Some(k) => with_url.insert(KEY_CUSTOM_KEY@, k),
        None => with_url,
    };
    with_key.insert(KEY_CUSTOM_MODEL@, model).insert(KEY_MODE@, CUSTOM_PROVIDER_ID@)
}

/// Whether the outcome of loading the model with this id is awaited: that
/// model is the active one, it is not resident and it is not being fetched.
pub open spec fn awaits_load(runtime: RuntimeView, model_id: Seq<char>) -> bool {
    &&& runtime.active matches Provider::Local(m)
    &&& m.id@ == model_id
    &&& !runtime.model_resident
    &&& !runtime.downloading
}

/// Whether messages of the download of the model with this id are awaited:
/// that model is the active one and a download is under way.
pub open spec fn awaits_download(runtime: RuntimeView, model_id: Seq<char>) -> bool {
    &&& runtime.active matches Provider::Local(m)
    &&& m.id@ == model_id
    &&& runtime.downloading
}

/// The runtime configuration after a model load reported back. An outcome
/// that is not awaited changes nothing. A loaded model becomes resident; a
/// failed load makes the first remote preset the active provider.
pub open spec fn runtime_after_load(runtime: RuntimeView, model_id: Seq<char>, loaded: bool)
    -> RuntimeView {
    if !awaits_load(runtime, model_id) {
        runtime
    } else if loaded {
        RuntimeView { model_resident: true, ..runtime }
    } else {
        reverted(runtime)
    }
}

/// What a model load that reported back asks for.
pub open spec fn load_effects(runtime: RuntimeView, model_id: Seq<char>, loaded: bool) -> Seq<
    Effect,
> {
    if !awaits_load(runtime, model_id) {
        Seq::<Effect>::empty()
    } else if loaded {
        seq![Effect::Announce(Notice::LocalReady)]
    } else {
        seq![Effect::Announce(Notice::ModelLoadFailed)]
    }
}

/// The runtime configuration after a download message. A message that is
/// not awaited changes nothing, and neither does a progress count. The end
/// of the download clears the flag; its failure clears the flag and makes
/// the first remote preset the active provider.
pub open spec fn runtime_after_download(
    runtime: RuntimeView,
    model_id: Seq<char>,
    message: DownloadMsg,
) -> RuntimeView {
    if !awaits_download(runtime, model_id) {
        runtime
    } else {
        match message {
            DownloadMsg::Progress(_, _) => runtime,
            DownloadMsg::Done => RuntimeView { downloading: false, ..runtime },
            DownloadMsg::Error(_) => reverted(runtime),
        }
    }
}

/// What a download message asks for: the count is shown; at the end the
/// model is loaded; a failure is announced.
pub open spec fn download_effects(runtime: RuntimeView, model_id: Seq<char>, message: DownloadMsg)
    -> Seq<Effect> {
    if !awaits_download(runtime, model_id) {
        Seq::<Effect>::empty()
    } else {
        match message {
            DownloadMsg::Progress(downloaded, total) => seq![
                Effect::ShowProgress { downloaded, total },
            ],
            DownloadMsg::Done => seq![
                Effect::Announce(Notice::LoadingModel),
                Effect::LoadModel(runtime.active->Local_0),
            ],
            DownloadMsg::Error(_) => seq![Effect::Announce(Notice::DownloadFailed)],
        }
    }
}

/// The notice after the text was handed to the clipboard.
pub fn delivery_notice(copied: bool) -> (notice: Notice)
    ensures
        notice == (if copied {
            Notice::Copied
        } else {
            Notice::Failed
        }),
{
    if copied {
        Notice::Copied
    } else {
        Notice::Failed
    }
}

/// Whether the completion sound is played: only after a delivery that
/// succeeded, and only where the configuration asks for it.
pub fn plays_sound(copied: bool, config: &Config) -> (sound: bool)
    ensures
        sound == (copied && config.sound_notification),
{
    copied && config.sound_notification
}

/// The key that the custom provider's dialog gives: none where the field was
/// left empty.
pub fn key_from_entry(entry: &str) -> (key: Option<String>)
    ensures
        opt_view(key) == (if entry@.len() == 0 {
            None
        } else {
            Some(entry@)
        }),
{
    if entry.is_empty() {
        None
    } else {
        Some(entry.to_owned())
    }
}

impl Orchestrator {
    /// A session at its start: idle, with the given runtime configuration.
    pub fn new(runtime: RuntimeState) -> (o: Orchestrator)
        ensures
            o.state == State::Idle,
            o.runtime == runtime,
            runtime@.wf() && !runtime@.downloading ==> o@.wf(),
    {
        Orchestrator { state: State::Idle, runtime }
    }

    /// What stands in the way of a recording, if anything.
    pub fn recording_block(&self) -> (block: Option<Block>)
        ensures
            block == recording_block(self@.runtime),
    {
        if self.runtime.downloading {
            return Some(Block::Downloading);
        }
        match self.runtime.active {
            Provider::Local(_) => {
                if self.runtime.model_resident {
                    None
                } else {
                    Some(Block::NoLocalModel)
                }
            },
            _ => {
                if self.runtime.active.needs_key() && self.runtime.api_key.is_none() {
                    Some(Block::NoApiKey)
                } else {
                    None
                }
            },
        }
    }

    /// Takes a trigger. In `Idle` a recording is asked for unless something
    /// stands in its way; in `Recording` its end is asked for; in
    /// `Processing` the trigger is dropped. The state changes only when the
    /// caller reports how the capture went.
    pub fn on_trigger(&self) -> (action: TriggerAction)
        ensures
            action == trigger_action(self@),
            action == TriggerAction::StartCapture ==> self.state == State::Idle,
    {
        match self.state {
            State::Idle => match self.recording_block() {
                Some(block) => TriggerAction::Refused(block),
                None => TriggerAction::StartCapture,
            },
            State::Recording => TriggerAction::StopCapture,
            State::Processing => TriggerAction::Ignored,
        }
    }

    /// Takes in how the start of the capture went.
    pub fn on_capture_started(&mut self, started: Result<(), CaptureError>) -> (outcome:
        StartOutcome)
        ensures
            final(self).state == start_outcome(old(self)@, started).0,
            outcome == start_outcome(old(self)@, started).1,
            final(self).runtime == old(self).runtime,
            final(self)@ == step(old(self)@, Event::CaptureStarted(started)),
            old(self)@.wf() ==> final(self)@.wf(),
    {
        match self.on_trigger() {
            TriggerAction::StartCapture => match started {
                Ok(_) => {
                    self.state = State::Recording;
                    StartOutcome::Began
                },
                Err(e) => StartOutcome::Failed(e),
            },
            _ => StartOutcome::Ignored,
        }
    }

    /// Takes in what stopping the capture yielded. With encoded audio and
    /// somewhere to send it, exactly one request is made, from the runtime
    /// configuration as it stands now, and the session is processing. With
    /// anything else the session is idle again.
    pub fn on_capture_stopped(&mut self, audio: Result<EncodedAudio, RecordingError>) -> (action:
        StopAction)
        ensures
            final(self).runtime == old(self).runtime,
            final(self).state == state_after_stop(old(self)@, audio is Ok),
            final(self)@ == step(old(self)@, Event::CaptureStopped { captured: audio is Ok }),
            action is Dispatch <==> dispatches(
                old(self)@,
                Event::CaptureStopped { captured: audio is Ok },
            ),
            old(self).state != State::Recording ==> action is Ignored,
            old(self).state == State::Recording ==> match audio {
                Err(e) => action matches StopAction::Failed(f) && f == stop_failure_of(e),
                Ok(a) => match target_for(old(self)@.runtime) {
                    Err(_) => action matches StopAction::Failed(f) && f
                        == StopFailure::ModelNotLoaded,
                    Ok(t) => action matches StopAction::Dispatch(request) && request.target@ == t
                        && request.audio.bytes_of() == a.bytes_of() && request.audio.rate_of()
                        == a.rate_of() && request.audio.samples_of() == a.samples_of(),
                },
            },
            old(self)@.wf() ==> final(self)@.wf(),
            old(self)@.wf() && old(self).state == State::Recording && audio is Ok ==> action is Dispatch,
    {
        if self.state != State::Recording {
            return StopAction::Ignored;
        }
        let audio = match audio {
            Ok(a) => a,
            Err(e) => {
                self.state = State::Idle;
                return StopAction::Failed(
                    match e {
                        RecordingError::Capture(c) => StopFailure::Capture(c),
                        RecordingError::Encode(c) => StopFailure::Encode(c),
                    },
                );
            },
        };
        match snapshot_target(&self.runtime) {
            Ok(target) => {
                self.state = State::Processing;
                StopAction::Dispatch(TranscriptionRequest { audio, target })
            },
            Err(_) => {
                self.state = State::Idle;
                StopAction::Failed(StopFailure::ModelNotLoaded)
            },
        }
    }

    /// Takes in what a look at the result channel found. A result, a
    /// failure and an abandoned channel each end the processing; only a
    /// result delivers a text.
    pub fn on_transcription_polled(&mut self, poll: Poll) -> (action: ResultAction)
        ensures
            final(self).runtime == old(self).runtime,
            final(self).state == poll_outcome(old(self).state, poll@).0,
            action@ == poll_outcome(old(self).state, poll@).1,
            final(self)@ == step(old(self)@, Event::Polled(poll@)),
            (action is Deliver || action is Failed || action is Abandoned) <==> settles(
                old(self)@,
                Event::Polled(poll@),
            ),
            old(self)@.wf() ==> final(self)@.wf(),
    {
        if self.state != State::Processing {
            return ResultAction::Ignored;
        }
        match poll {
            Poll::Pending => ResultAction::KeepPolling,
            Poll::Finished(Ok(text)) => {
                self.state = State::Idle;
                ResultAction::Deliver(text)
            },
            Poll::Finished(Err(e)) => {
                self.state = State::Idle;
                ResultAction::Failed(e)
            },
            Poll::Abandoned => {
                self.state = State::Idle;
                ResultAction::Abandoned
            },
        }
    }

    /// What forbids any change of provider, if anything.
    pub fn switch_refusal(&self) -> (refusal: Option<Refusal>)
        ensures
            refusal == switch_refusal(self@),
    {
        if self.state != State::Idle {
            Some(Refusal::Busy)
        } else if self.runtime.downloading {
            Some(Refusal::Downloading)
        } else {
            None
        }
    }

    /// Switches to a listed remote provider. Its endpoint and model apply;
    /// its key is the one remembered for it, else the process's, and none
    /// if it needs none. No model stays resident, every on-device model's
    /// artifact is removed, and the choice is remembered.
    pub fn switch_to_preset(
        &mut self,
        preset: ApiPreset,
        remembered: &mut Settings,
        config: &Config,
    ) -> (outcome: Result<Vec<Effect>, Refusal>)
        ensures
            final(self).state == old(self).state,
            match switch_refusal(old(self)@) {
                Some(r) => outcome == Err::<Vec<Effect>, Refusal>(r) && final(self)@ == old(self)@
                    && final(remembered)@ == old(remembered)@,
                None => outcome is Ok && outcome->Ok_0@ == switch_effects(
                    old(self)@.runtime,
                    Provider::Preset(preset),
                    false,
                ) && final(self)@.runtime == with_preset(
                    old(self)@.runtime,
                    preset,
                    old(remembered)@,
                    config@,
                ) && final(remembered)@ == old(remembered)@.insert(KEY_MODE@, preset.id@),
            },
            old(self)@.wf() && Provider::Preset(preset).listed() ==> final(self)@.wf(),
    {
        if let Some(r) = self.switch_refusal() {
            return Err(r);
        }
        self.runtime.activate_preset(preset, remembered, config);
        let mut effects: Vec<Effect> = Vec::new();
        delete_all_local_models(&mut effects);
        remembered.set_setting(KEY_MODE, preset.id);
        effects.push(Effect::Announce(Notice::PresetActive(preset)));
        assert(effects@ =~= all_deletions().push(Effect::Announce(Notice::PresetActive(preset))));
        Ok(effects)
    }

    /// Switches to an on-device model. The artifact of another on-device
    /// model that was active is removed and no model stays resident. The
    /// choice is remembered. The chosen model is loaded if its artifact is
    /// on disk; if not, it is fetched first and the download flag is set.
    pub fn switch_to_local(
        &mut self,
        model: LocalModelPreset,
        remembered: &mut Settings,
        artifact_present: bool,
    ) -> (outcome: Result<Vec<Effect>, Refusal>)
        ensures
            final(self).state == old(self).state,
            match switch_refusal(old(self)@) {
                Some(r) => outcome == Err::<Vec<Effect>, Refusal>(r) && final(self)@ == old(self)@
                    && final(remembered)@ == old(remembered)@,
                None => outcome is Ok && outcome->Ok_0@ == local_switch_effects(
                    old(self)@.runtime,
                    model,
                    artifact_present,
                ) && final(self)@.runtime == after_local_switch(
                    old(self)@.runtime,
                    model,
                    artifact_present,
                ) && final(remembered)@ == old(remembered)@.insert(KEY_MODE@, model.id@),
            },
            old(self)@.wf() && Provider::Local(model).listed() ==> final(self)@.wf(),
    {
        if let Some(r) = self.switch_refusal() {
            return Err(r);
        }
        let mut effects: Vec<Effect> = Vec::new();
        match self.runtime.active {
            Provider::Local(old_model) => {
                if !str_eq(old_model.id, model.id) {
                    effects.push(Effect::DeleteArtifact(old_model));
                }
            },
            _ => {},
        }
        self.runtime.activate_local(model);
        remembered.set_setting(KEY_MODE, model.id);
        if artifact_present {
            effects.push(Effect::Announce(Notice::LoadingModel));
            effects.push(Effect::LoadModel(model));
        } else {
            self.runtime.downloading = true;
            effects.push(Effect::Announce(Notice::DownloadingModel));
            effects.push(Effect::DownloadModel(model));
        }
        assert(effects@ =~= local_switch_effects(old(self)@.runtime, model, artifact_present));
        Ok(effects)
    }

    /// Switches to the custom remote provider with the given parameters.
    /// An empty endpoint or an empty model is refused. Otherwise the
    /// parameters are remembered and apply at once, no model stays resident
    /// and every on-device model's artifact is removed.
    pub fn switch_to_custom_remote(
        &mut self,
        base_url: &str,
        api_key: &Option<String>,
        model: &str,
        remembered: &mut Settings,
    ) -> (outcome: Result<Vec<Effect>, Refusal>)
        ensures
            final(self).state == old(self).state,
            match custom_refusal(old(self)@, base_url@, model@) {
                Some(r) => outcome == Err::<Vec<Effect>, Refusal>(r) && final(self)@ == old(self)@
                    && final(remembered)@ == old(remembered)@,
                None => outcome is Ok && outcome->Ok_0@ == all_deletions().push(
                    Effect::Announce(Notice::CustomActive),
                ) && final(self)@.runtime == with_custom(
                    old(self)@.runtime,
                    base_url@,
                    opt_view(*api_key),
                    model@,
                ) && final(remembered)@ == settings_after_custom(
                    old(remembered)@,
                    base_url@,
                    opt_view(*api_key),
                    model@,
                ),
            },
            old(self)@.wf() ==> final(self)@.wf(),
    {
        if let Some(r) = self.switch_refusal() {
            return Err(r);
        }
        if base_url.is_empty() {
            return Err(Refusal::EmptyUrl);
        }
        if model.is_empty() {
            return Err(Refusal::EmptyModel);
        }
        remembered.set_setting(KEY_CUSTOM_URL, base_url);
        match api_key {
            Some(k) => {
                remembered.set_setting(KEY_CUSTOM_KEY, k.as_str());
            },
            None => {},
        }
        remembered.set_setting(KEY_CUSTOM_MODEL, model);
        remembered.set_setting(KEY_MODE, CUSTOM_PROVIDER_ID);
        self.runtime.activate_custom(base_url, api_key, model);
        let mut effects: Vec<Effect> = Vec::new();
        delete_all_local_models(&mut effects);
        effects.push(Effect::Announce(Notice::CustomActive));
        assert(effects@ =~= all_deletions().push(Effect::Announce(Notice::CustomActive)));
        Ok(effects)
    }

    /// Switches to `target`. The switch is made only while the session is
    /// idle and no download is under way; otherwise nothing changes.
    /// Choosing the custom provider only asks for its parameters.
    pub fn switch(
        &mut self,
        target: Provider,
        remembered: &mut Settings,
        config: &Config,
        artifact_present: bool,
    ) -> (outcome: Result<Vec<Effect>, Refusal>)
        ensures
            final(self).state == old(self).state,
            match switch_refusal(old(self)@) {
                Some(r) => outcome == Err::<Vec<Effect>, Refusal>(r) && final(self)@ == old(self)@
                    && final(remembered)@ == old(remembered)@,
                None => outcome is Ok && outcome->Ok_0@ == switch_effects(
                    old(self)@.runtime,
                    target,
                    artifact_present,
                ) && final(self)@.runtime == runtime_after_switch(
                    old(self)@.runtime,
                    target,
                    old(remembered)@,
                    config@,
                    artifact_present,
                ) && final(remembered)@ == settings_after_switch(old(remembered)@, target),
            },
            old(self)@.wf() && target.listed() ==> final(self)@.wf(),
    {
        match target {
            Provider::Local(m) => self.switch_to_local(m, remembered, artifact_present),
            Provider::Preset(p) => self.switch_to_preset(p, remembered, config),
            Provider::Custom => {
                if let Some(r) = self.switch_refusal() {
                    return Err(r);
                }
                let mut effects: Vec<Effect> = Vec::new();
                effects.push(Effect::OpenCustomDialog);
                assert(effects@ =~= seq![Effect::OpenCustomDialog]);
                Ok(effects)
            },
        }
    }

    /// The provider that an id selects.
    pub fn selection_target(chosen: &str) -> (target: Option<Provider>)
        ensures
            target == selection_target(chosen@),
    {
        if let Some(m) = find_local_model(chosen) {
            return Some(Provider::Local(m));
        }
        if str_eq(chosen, CUSTOM_PROVIDER_ID) {
            return Some(Provider::Custom);
        }
        match find_preset(chosen) {
            Some(p) => Some(Provider::Preset(p)),
            None => None,
        }
    }

    /// Selects the provider with the id `chosen`, as the menu does. Nothing
    /// changes while the session is not idle or a download is under way,
    /// nor when the id is that of the active provider or names none.
    /// `artifact_present` says whether the artifact of the on-device model
    /// that `chosen` names, if it names one, is on disk.
    pub fn select_provider(
        &mut self,
        chosen: &str,
        remembered: &mut Settings,
        config: &Config,
        artifact_present: bool,
    ) -> (outcome: Result<Vec<Effect>, Refusal>)
        ensures
            final(self).state == old(self).state,
            match selection_refusal(old(self)@, chosen@) {
                Some(r) => outcome == Err::<Vec<Effect>, Refusal>(r) && final(self)@ == old(self)@
                    && final(remembered)@ == old(remembered)@,
                None => outcome is Ok && outcome->Ok_0@ == switch_effects(
                    old(self)@.runtime,
                    selection_target(chosen@)->0,
                    artifact_present,
                ) && final(self)@.runtime == runtime_after_switch(
                    old(self)@.runtime,
                    selection_target(chosen@)->0,
                    old(remembered)@,
                    config@,
                    artifact_present,
                ) && final(remembered)@ == settings_after_switch(
                    old(remembered)@,
                    selection_target(chosen@)->0,
                ),
            },
            old(self)@.wf() ==> final(self)@.wf(),
    {
        if let Some(r) = self.switch_refusal() {
            return Err(r);
        }
        if str_eq(chosen, self.runtime.active.id()) {
            return Err(Refusal::AlreadyActive);
        }
        proof {
            crate::config::lemma_lookup_is_sound(chosen@);
        }
        match Orchestrator::selection_target(chosen) {
            Some(target) => self.switch(target, remembered, config, artifact_present),
            None => Err(Refusal::UnknownProvider),
        }
    }

    /// What is to be done before the first trigger: the active on-device
    /// model, if there is one and its artifact is on disk, is loaded.
    pub fn startup_effects(&self, artifact_present: bool) -> (effects: Vec<Effect>)
        ensures
            effects@ == (match self@.runtime.active {
                Provider::Local(m) => if artifact_present && !self@.runtime.model_resident {
                    seq![Effect::LoadModel(m)]
                } else {
                    Seq::<Effect>::empty()
                },
                _ => Seq::<Effect>::empty(),
            }),
    {
        let mut effects: Vec<Effect> = Vec::new();
        match self.runtime.active {
            Provider::Local(m) => {
                if artifact_present && !self.runtime.model_resident {
                    effects.push(Effect::LoadModel(m));
                }
            },
            _ => {},
        }
        effects
    }

    /// Whether the outcome of loading the model with this id is awaited.
    fn awaits_load(&self, model_id: &str) -> (awaited: bool)
        ensures
            awaited == awaits_load(self@.runtime, model_id@),
    {
        match self.runtime.active {
            Provider::Local(m) => str_eq(m.id, model_id) && !self.runtime.model_resident
                && !self.runtime.downloading,
            _ => false,
        }
    }

    /// Whether messages of the download of the model with this id are
    /// awaited.
    fn awaits_download(&self, model_id: &str) -> (awaited: bool)
        ensures
            awaited == awaits_download(self@.runtime, model_id@),
    {
        match self.runtime.active {
            Provider::Local(m) => str_eq(m.id, model_id) && self.runtime.downloading,
            _ => false,
        }
    }

    /// Takes in how loading the model with the id `model_id` went. A loaded
    /// model becomes resident. A failed load makes the first remote preset
    /// the active provider, so that on-device mode never stays active
    /// without a model after a failure. An outcome for a model that is not
    /// awaited is dropped.
    pub fn on_model_loaded(&mut self, model_id: &str, loaded: bool) -> (effects: Vec<Effect>)
        ensures
            final(self).state == old(self).state,
            final(self)@.runtime == runtime_after_load(old(self)@.runtime, model_id@, loaded),
            effects@ == load_effects(old(self)@.runtime, model_id@, loaded),
            old(self)@.wf() ==> final(self)@.wf(),
    {
        let mut effects: Vec<Effect> = Vec::new();
        if !self.awaits_load(model_id) {
            return effects;
        }
        if loaded {
            self.runtime.model_resident = true;
            effects.push(Effect::Announce(Notice::LocalReady));
        } else {
            self.runtime.revert_to_first_preset();
            effects.push(Effect::Announce(Notice::ModelLoadFailed));
            proof {
                crate::config::lemma_preset_lookup(crate::config::groq().id@);
            }
        }
        effects
    }

    /// Takes in a message of the download of the model with the id
    /// `model_id`. The end of the download clears the download flag and
    /// asks for the model to be loaded; a failure clears the flag and makes
    /// the first remote preset the active provider. A message for a
    /// download that is not awaited is dropped.
    pub fn on_download_message(&mut self, model_id: &str, message: DownloadMsg) -> (effects: Vec<
        Effect,
    >)
        ensures
            final(self).state == old(self).state,
            final(self)@.runtime == runtime_after_download(
                old(self)@.runtime,
                model_id@,
                message,
            ),
            effects@ == download_effects(old(self)@.runtime, model_id@, message),
            old(self)@.wf() ==> final(self)@.wf(),
    {
        let mut effects: Vec<Effect> = Vec::new();
        if !self.awaits_download(model_id) {
            return effects;
        }
        match message {
            DownloadMsg::Progress(downloaded, total) => {
                effects.push(Effect::ShowProgress { downloaded, total });
            },
            DownloadMsg::Done => {
                self.runtime.downloading = false;
                effects.push(Effect::Announce(Notice::LoadingModel));
                match self.runtime.active {
                    Provider::Local(m) => {
                        effects.push(Effect::LoadModel(m));
                    },
                    _ => {},
                }
            },
            DownloadMsg::Error(_) => {
                self.runtime.revert_to_first_preset();
                effects.push(Effect::Announce(Notice::DownloadFailed));
                proof {
                    crate::config::lemma_preset_lookup(crate::config::groq().id@);
                }
            },
        }
        effects
    }
}

} // verus!
