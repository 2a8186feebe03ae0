//! What holds of the orchestration as a whole: statements over every state,
//! every input and every run of events, proved from the definitions that the
//! contracts of the other modules use.

use vstd::prelude::*;
use crate::config::{
    lemma_ids_are_distinct, lemma_local_model_lookup, lemma_lookup_is_sound, lemma_preset_lookup,
    reveal_ids, ApiPreset, ConfigView, LocalModelPreset,
};
use crate::effect::Effect;
use crate::orchestrator::{
    custom_refusal, dispatches, recording_block, runtime_after_switch, selection_refusal,
    settings_after_custom, settings_after_switch, settles, step, switch_effects, switch_refusal,
    trigger_action, Event, OrchestratorView, State, TriggerAction,
};
use crate::runtime::{
    initial_runtime, with_custom, with_preset, Provider, RuntimeView, CUSTOM_PROVIDER_ID,
    LEGACY_LOCAL_ID,
};
use crate::settings::{
    setting, KEY_CUSTOM_KEY, KEY_CUSTOM_MODEL, KEY_CUSTOM_URL, KEY_MODE,
};

verus! {

/// The orchestrator after a run of events.
pub open spec fn run(start: OrchestratorView, events: Seq<Event>) -> OrchestratorView
    decreases events.len(),
{
    if events.len() == 0 {
        start
    } else {
        step(run(start, events.drop_last()), events.last())
    }
}

/// The number of requests handed out in a run and not yet brought to their
/// end.
pub open spec fn in_flight(start: OrchestratorView, events: Seq<Event>) -> int
    decreases events.len(),
{
    if events.len() == 0 {
        0
    } else {
        let before = run(start, events.drop_last());
        in_flight(start, events.drop_last()) + (if dispatches(before, events.last()) {
            1int
        } else {
            0int
        }) - (if settles(before, events.last()) {
            1int
        } else {
            0int
        })
    }
}

/// A recording is started only from `Idle`, and only while no download is
/// under way; no event but the reported start of a capture that was asked
/// for makes the session record.
pub proof fn law_recording_starts_only_when_idle(o: OrchestratorView, e: Event)
    ensures
        trigger_action(o) == TriggerAction::StartCapture ==> o.state == State::Idle
            && !o.runtime.downloading && recording_block(o.runtime) is None,
        o.state != State::Idle ==> trigger_action(o) != TriggerAction::StartCapture,
        o.runtime.downloading ==> trigger_action(o) != TriggerAction::StartCapture,
        step(o, e).state == State::Recording && o.state != State::Recording ==> o.state
            == State::Idle && !o.runtime.downloading && e is CaptureStarted,
{
}

/// No change of provider is made while the session is not idle or while a
/// download is under way, whichever provider is asked for and however.
pub proof fn law_switch_only_when_idle_and_not_downloading(
    o: OrchestratorView,
    chosen: Seq<char>,
    base_url: Seq<char>,
    model: Seq<char>,
)
    ensures
        (o.state != State::Idle || o.runtime.downloading) <==> switch_refusal(o) is Some,
        switch_refusal(o) is Some ==> selection_refusal(o, chosen) == switch_refusal(o)
            && custom_refusal(o, base_url, model) == switch_refusal(o),
{
}

/// At most one request is in flight, after every run of events from an idle
/// start: there is one exactly while the session is processing. A trigger
/// never hands out a request, so triggers during processing add none.
pub proof fn law_at_most_one_request_in_flight(start: OrchestratorView, events: Seq<Event>)
    requires
        start.state == State::Idle,
    ensures
        in_flight(start, events) == (if run(start, events).state == State::Processing {
            1int
        } else {
            0int
        }),
        0 <= in_flight(start, events) <= 1,
        forall|o: OrchestratorView| !dispatches(o, Event::Trigger) && step(o, Event::Trigger) == o,
    decreases events.len(),
{
    if events.len() > 0 {
        law_at_most_one_request_in_flight(start, events.drop_last());
    }
}

/// Switching from one on-device model to another asks for the removal of the
/// first one's artifact before anything else, and leaves no model resident.
pub proof fn law_switch_between_local_models(
    o: OrchestratorView,
    from: LocalModelPreset,
    to: LocalModelPreset,
    remembered: Map<Seq<char>, Seq<char>>,
    config: ConfigView,
    artifact_present: bool,
)
    requires
        o.runtime.active == Provider::Local(from),
        from.id@ != to.id@,
    ensures
        switch_effects(o.runtime, Provider::Local(to), artifact_present)[0]
            == Effect::DeleteArtifact(from),
        !runtime_after_switch(
            o.runtime,
            Provider::Local(to),
            remembered,
            config,
            artifact_present,
        ).model_resident,
        runtime_after_switch(
            o.runtime,
            Provider::Local(to),
            remembered,
            config,
            artifact_present,
        ).active == Provider::Local(to),
{
}

/// A switch to a remote provider leaves no model resident and asks for the
/// removal of every listed on-device model's artifact.
pub proof fn law_remote_switch_keeps_no_model(
    o: OrchestratorView,
    preset: ApiPreset,
    remembered: Map<Seq<char>, Seq<char>>,
    config: ConfigView,
    model: LocalModelPreset,
)
    requires
        Provider::Local(model).listed(),
    ensures
        !with_preset(o.runtime, preset, remembered, config).model_resident,
        switch_effects(o.runtime, Provider::Preset(preset), false).contains(
            Effect::DeleteArtifact(model),
        ),
{
    lemma_lookup_is_sound(model.id@);
    let table = crate::config::local_model_table();
    let i = choose|i: int| 0 <= i < table.len() && table[i] == model;
    let effects = switch_effects(o.runtime, Provider::Preset(preset), false);
    assert(effects[i] == Effect::DeleteArtifact(model));
}

/// A switch to a listed provider survives a restart: what is remembered
/// after the switch makes the next session start with that provider, and,
/// for a remote one, with the endpoint, model and key that the switch gave.
pub proof fn law_listed_switch_survives_restart(
    before: RuntimeView,
    target: Provider,
    remembered: Map<Seq<char>, Seq<char>>,
    config: ConfigView,
    artifact_present: bool,
)
    requires
        target.listed(),
        !(target is Custom),
    ensures
        initial_runtime(settings_after_switch(remembered, target), config).active == target,
        target matches Provider::Preset(p) ==> ({
            let next = initial_runtime(settings_after_switch(remembered, target), config);
            let now = runtime_after_switch(before, target, remembered, config, artifact_present);
            next.api_base_url == now.api_base_url && next.api_model == now.api_model
                && next.api_key == now.api_key
        }),
{
    reveal_ids();
    lemma_ids_are_distinct();
    lemma_lookup_is_sound(target.id_of());
    lemma_preset_lookup(target.id_of());
    lemma_local_model_lookup(target.id_of());
    reveal_strlit("transcription_mode");
    reveal_strlit("api_key_");
    let after_switch = settings_after_switch(remembered, target);
    assert(setting(after_switch, KEY_MODE@) == Some(target.id_of()));
    match target {
        Provider::Preset(p) => {
            let name = crate::settings::provider_key_name(p.id@);
            assert(name.len() == 8 + p.id@.len());
            assert(name[7] == '_');
            assert(KEY_MODE@[7] == 'i');
            assert(name != KEY_MODE@);
            assert(setting(after_switch, name) == setting(remembered, name));
        },
        _ => {},
    }
}

/// A switch to the custom provider survives a restart: the next session
/// starts with the custom provider, with the endpoint and the model given,
/// and with the key given where one was given.
pub proof fn law_custom_switch_survives_restart(
    before: RuntimeView,
    remembered: Map<Seq<char>, Seq<char>>,
    config: ConfigView,
    base_url: Seq<char>,
    api_key: Option<Seq<char>>,
    model: Seq<char>,
)
    ensures
        ({
            let next = initial_runtime(
                settings_after_custom(remembered, base_url, api_key, model),
                config,
            );
            let now = with_custom(before, base_url, api_key, model);
            next.active == now.active && next.api_base_url == now.api_base_url && next.api_model
                == now.api_model && (api_key is Some ==> next.api_key == now.api_key)
        }),
{
    reveal_ids();
    reveal_strlit("transcription_mode");
    reveal_strlit("api_custom_url");
    reveal_strlit("api_custom_key");
    reveal_strlit("api_custom_model");
    let s = settings_after_custom(remembered, base_url, api_key, model);
    assert(KEY_MODE@.len() == 18);
    assert(KEY_CUSTOM_URL@.len() == 14 && KEY_CUSTOM_URL@[11] == 'u');
    assert(KEY_CUSTOM_KEY@.len() == 14 && KEY_CUSTOM_KEY@[11] == 'k');
    assert(KEY_CUSTOM_MODEL@.len() == 16);
    assert(setting(s, KEY_MODE@) == Some(CUSTOM_PROVIDER_ID@));
    assert(setting(s, KEY_CUSTOM_URL@) == Some(base_url));
    assert(setting(s, KEY_CUSTOM_MODEL@) == Some(model));
    assert(CUSTOM_PROVIDER_ID@ != LEGACY_LOCAL_ID@);
}

} // verus!
