//! What the orchestration asks of its surroundings: files to delete, models
//! to load or fetch, and the short notices shown to the user.

use vstd::prelude::*;
use crate::config::{local_model_presets, local_model_table, ApiPreset, LocalModelPreset};
use crate::text::joined;

verus! {

/// A short text for the user.
#[derive(Clone, Copy, Debug, PartialEq, Eq)]
pub enum Notice {
    /// Recording was refused because a model download is under way.
    DownloadInProgress,
    /// Recording was refused because no on-device model is loaded.
    NoLocalModel,
    /// Recording was refused because the provider needs a key and none is set.
    NoApiKey,
    /// Capture could not be started or yielded nothing.
    CaptureFailed,
    Recording,
    Transcribing,
    /// The text was delivered.
    Copied,
    /// Transcription or delivery failed.
    Failed,
    /// A listed remote provider became active.
    PresetActive(ApiPreset),
    /// The custom remote provider became active.
    CustomActive,
    LoadingModel,
    DownloadingModel,
    /// The on-device model is loaded.
    LocalReady,
    ModelLoadFailed,
    DownloadFailed,
}

impl Notice {
    /// The words of the notice.
    pub open spec fn label_of(self) -> Seq<char> {
        match self {
            Notice::DownloadInProgress => "Downloading model..."@,
            Notice::NoLocalModel => "No local model loaded"@,
            Notice::NoApiKey => "No API key set"@,
            Notice::CaptureFailed => "Err: "@,
            Notice::Recording => "Recording..."@,
            Notice::Transcribing => "Transcribing..."@,
            Notice::Copied => "Copied!"@,
            Notice::Failed => "Error!"@,
            Notice::PresetActive(p) => p.label@ + " mode"@,
            Notice::CustomActive => "Custom API mode"@,
            Notice::LoadingModel => "Loading model..."@,
            Notice::DownloadingModel => "Downloading model..."@,
            Notice::LocalReady => "Local mode ready"@,
            Notice::ModelLoadFailed => "Model load failed"@,
            Notice::DownloadFailed => "Download failed"@,
        }
    }

    /// After how many seconds the notice clears itself; `None` where it stays
    /// until the next one replaces it.
    pub open spec fn clears_after(self) -> Option<u64> {
        match self {
            Notice::Copied | Notice::PresetActive(_) | Notice::CustomActive | Notice::LocalReady => Some(
                2,
            ),
            Notice::Failed | Notice::ModelLoadFailed | Notice::DownloadFailed => Some(3),
            _ => None,
        }
    }

    /// Whether the notice reports a failure or a refusal.
    pub open spec fn is_failure(self) -> bool {
        match self {
            Notice::DownloadInProgress
            | Notice::NoLocalModel
            | Notice::NoApiKey
            | Notice::CaptureFailed
            | Notice::Failed
            | Notice::ModelLoadFailed
            | Notice::DownloadFailed => true,
            _ => false,
        }
    }

    /// The words of the notice. For `CaptureFailed` these are the opening
    /// words, to which the caller adds what the audio device reported.
    pub fn label(&self) -> (words: String)
        ensures
            words@ == self.label_of(),
    {
        match self {
            Notice::DownloadInProgress => "Downloading model...".to_owned(),
            Notice::NoLocalModel => "No local model loaded".to_owned(),
            Notice::NoApiKey => "No API key set".to_owned(),
            Notice::CaptureFailed => "Err: ".to_owned(),
            Notice::Recording => "Recording...".to_owned(),
            Notice::Transcribing => "Transcribing...".to_owned(),
            Notice::Copied => "Copied!".to_owned(),
            Notice::Failed => "Error!".to_owned(),
            Notice::PresetActive(p) => joined(p.label, " mode"),
            Notice::CustomActive => "Custom API mode".to_owned(),
            Notice::LoadingModel => "Loading model...".to_owned(),
            Notice::DownloadingModel => "Downloading model...".to_owned(),
            Notice::LocalReady => "Local mode ready".to_owned(),
            Notice::ModelLoadFailed => "Model load failed".to_owned(),
            Notice::DownloadFailed => "Download failed".to_owned(),
        }
    }

    /// After how many seconds the notice clears itself.
    pub fn clears_after_secs(&self) -> (secs: Option<u64>)
        ensures
            secs == self.clears_after(),
            self.is_failure() && secs is Some ==> secs == Some(3u64),
            !self.is_failure() && secs is Some ==> secs == Some(2u64),
    {
        match self {
            Notice::Copied | Notice::PresetActive(_) | Notice::CustomActive | Notice::LocalReady => Some(
                2,
            ),
            Notice::Failed | Notice::ModelLoadFailed | Notice::DownloadFailed => Some(3),
            _ => None,
        }
    }
}

/// Something for the surroundings to do.
#[derive(Clone, Copy, Debug, PartialEq, Eq)]
pub enum Effect {
    /// Remove the model's artifact from disk, if it is there.
    DeleteArtifact(LocalModelPreset),
    /// Load the model from its artifact, in the background, and report back.
    LoadModel(LocalModelPreset),
    /// Fetch the model's artifact, in the background, and report back.
    DownloadModel(LocalModelPreset),
    /// Ask the user for the custom provider's endpoint, key and model.
    OpenCustomDialog,
    /// Show how far the download has come: so many bytes, of so many where
    /// the size is known.
    ShowProgress { downloaded: u64, total: Option<u64> },
    /// Show the notice.
    Announce(Notice),
}

/// The removal of every listed on-device model's artifact, in table order.
pub open spec fn all_deletions() -> Seq<Effect> {
    Seq::new(local_model_table().len(), |i: int| Effect::DeleteArtifact(local_model_table()[i]))
}

/// Appends the removal of every listed on-device model's artifact: a remote
/// provider keeps no model on disk.
pub fn delete_all_local_models(effects: &mut Vec<Effect>)
    ensures
        final(effects)@ == old(effects)@ + all_deletions(),
{
    let table = local_model_presets();
    let ghost before = effects@;
    let mut i: usize = 0;
    while i < table.len()
        invariant
            i <= table.len(),
            table@ == local_model_table(),
            effects@ == before + all_deletions().take(i as int),
        decreases table.len() - i,
    {
        effects.push(Effect::DeleteArtifact(table[i]));
        assert(all_deletions().take(i + 1) =~= all_deletions().take(i as int).push(
            Effect::DeleteArtifact(table@[i as int]),
        ));
        i += 1;
    }
    assert(all_deletions().take(i as int) =~= all_deletions());
}

} // verus!
