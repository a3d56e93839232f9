//! The dictation engine as the app drives it: recording, the model it
//! loads, the errors it reports, and what gets typed.

use vstd::prelude::*;
use crate::audio::{AudioRecorder, RecordedAudio, has_audio_spec, recording_result};
use crate::config::{LocalModelConfig, QuantizationMode};
use crate::text::{is_blank, trim_seq};

verus! {

/// Which Whisper model the engine loads.
#[derive(Debug, Clone)]
pub struct EngineConfig {
    pub whisper_repo_id: String,
    pub whisper_revision: String,
}

/// Errors the engine reports.
#[derive(Debug, Clone, PartialEq, Eq)]
pub enum OttexError {
    SetupFailed(String),
    RecordingFailed(String),
    InferenceFailed(String),
    GeneralError(String),
}

/// The message of an error, as it is displayed.
pub open spec fn error_message(e: OttexError) -> Seq<char> {
    match e {
        OttexError::SetupFailed(m) => "Setup failed: "@ + m@,
        OttexError::RecordingFailed(m) => "Recording failed: "@ + m@,
        OttexError::InferenceFailed(m) => "Inference failed: "@ + m@,
        OttexError::GeneralError(m) => "General error: "@ + m@,
    }
}

impl OttexError {
    /// The message of the error, as it is displayed.
    pub fn message(&self) -> (r: String)
        ensures
            r@ == error_message(*self),
    {
        match self {
            OttexError::SetupFailed(m) => {
                let mut r = "Setup failed: ".to_owned();
                r.append(m.as_str());
                r
            },
            OttexError::RecordingFailed(m) => {
                let mut r = "Recording failed: ".to_owned();
                r.append(m.as_str());
                r
            },
            OttexError::InferenceFailed(m) => {
                let mut r = "Inference failed: ".to_owned();
                r.append(m.as_str());
                r
            },
            OttexError::GeneralError(m) => {
                let mut r = "General error: ".to_owned();
                r.append(m.as_str());
                r
            },
        }
    }
}

/// The dictation engine: its model settings and its recorder.
#[derive(Debug)]
pub struct OttexEngine {
    config: EngineConfig,
    recorder: AudioRecorder,
}

impl OttexEngine {
    /// The engine's model settings.
    pub closed spec fn spec_config(&self) -> EngineConfig {
        self.config
    }

    /// Whether a recording is under way.
    pub closed spec fn spec_recording(&self) -> bool {
        self.recorder.spec_recording()
    }

    /// An engine for the given model that is not recording.
    pub fn new(config: EngineConfig) -> (e: OttexEngine)
        ensures
            e.spec_config() == config,
            !e.spec_recording(),
    {
        OttexEngine { config, recorder: AudioRecorder::new() }
    }

    /// The settings the Whisper model is loaded with: the configured repo
    /// and revision, cached under `~/.cache/ottex/models`, full-precision
    /// weights, greedy decoding.
    pub fn whisper_model_config(&self) -> (c: LocalModelConfig)
        ensures
            c.model_cache_dir@ == "~/.cache/ottex/models"@,
            c.repo_id@ == self.spec_config().whisper_repo_id@,
            c.revision@ == self.spec_config().whisper_revision@,
            c.quantization == QuantizationMode::F32,
            c.temperature_bits == 0,
    {
        LocalModelConfig {
            model_cache_dir: "~/.cache/ottex/models".to_owned(),
            repo_id: self.config.whisper_repo_id.clone(),
            revision: self.config.whisper_revision.clone(),
            quantization: QuantizationMode::F32,
            temperature_bits: 0,
        }
    }

    /// The error for a model that failed to load.
    pub fn model_load_failed(message: &str) -> (e: OttexError)
        ensures
            e matches OttexError::SetupFailed(m) && m@ == "Whisper Error: "@ + message@,
    {
        let mut m = "Whisper Error: ".to_owned();
        m.append(message);
        OttexError::SetupFailed(m)
    }

    /// Starts recording.
    pub fn start_recording(&mut self) -> (r: Result<(), OttexError>)
        ensures
            r is Ok,
            final(self).spec_recording(),
            final(self).spec_config() == old(self).spec_config(),
    {
        match self.recorder.start_recording() {
            Ok(()) => Ok(()),
            Err(e) => Err(OttexError::RecordingFailed(e)),
        }
    }

    /// Stops the recording under way; with none, `RecordingFailed("No active recording")`.
    pub fn stop_recording(&mut self) -> (r: Result<(), OttexError>)
        ensures
            !final(self).spec_recording(),
            final(self).spec_config() == old(self).spec_config(),
            r is Ok <==> old(self).spec_recording(),
            r matches Err(e) ==> (e matches OttexError::RecordingFailed(m) && m@ == "No active recording"@),
    {
        match self.recorder.stop() {
            Ok(()) => Ok(()),
            Err(e) => Err(OttexError::RecordingFailed(e)),
        }
    }

    /// What a stopped recording comes to: its audio when it is worth
    /// transcribing, `None` when it is too short or silent (the transcript is
    /// then empty), or the capture's error as `RecordingFailed`.
    pub fn recorded_audio(received: Option<Result<RecordedAudio, String>>) -> (r: Result<Option<RecordedAudio>, OttexError>)
        ensures
            received is None ==> (r matches Err(OttexError::RecordingFailed(m)) && m@ == "Recording thread crashed"@),
            received matches Some(Err(e)) ==> r == Err::<Option<RecordedAudio>, OttexError>(OttexError::RecordingFailed(e)),
            received matches Some(Ok(a)) ==> (if has_audio_spec(a.samples@) {
                r == Ok::<Option<RecordedAudio>, OttexError>(Some(a))
            } else {
                r == Ok::<Option<RecordedAudio>, OttexError>(None)
            }),
    {
        match recording_result(received) {
            Err(e) => Err(OttexError::RecordingFailed(e)),
            Ok(a) => {
                if a.has_audio() {
                    Ok(Some(a))
                } else {
                    Ok(None)
                }
            },
        }
    }

    /// The text to type: `None` when it is blank, so nothing is typed.
    pub fn type_text(&self, text: String) -> (r: Option<String>)
        ensures
            trim_seq(text@).len() == 0 ==> r is None,
            trim_seq(text@).len() != 0 ==> r == Some(text),
    {
        if is_blank(text.as_str()) {
            None
        } else {
            Some(text)
        }
    }
}

} // verus!
