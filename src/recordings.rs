//! Live recording snapshots.
use vstd::prelude::*;

use crate::json::{Json, JsonValue};
use crate::schema::{FromJson, is_object, optional, optional_is, read_optional, read_required, required, required_is};
use crate::json::same_text;

verus! {

///
/// A recording that is in progress
#[derive(Debug, PartialEq)]
pub struct LiveRecording {
    /// Base name for the recording
    pub name: String,
    /// Recording format (wav, gsm, etc.)
    pub format: String,
    /// URI for the channel or bridge being recorded
    pub target_uri: String,
    pub state: LiveRecordingState,
    /// Duration in seconds of the recording.
    pub duration: Option<u32>,
    /// Duration of talking, in seconds, detected in the recording.
    /// This is only available if the recording was initiated with a non-zero maxSilenceSeconds.
    pub talking_duration: Option<u32>,
    /// Duration of silence, in seconds, detected in the recording.
    /// This is only available if the recording was initiated with a non-zero maxSilenceSeconds.,
    pub silence_duration: Option<u32>,
    /// Cause for recording failure if failed
    pub cause: Option<String>,
}

impl FromJson for LiveRecording {
    open spec fn accepts(j: Json) -> bool {
        &&& j is Object
        &&& required::<String>(j, "name"@)
        &&& required::<String>(j, "format"@)
        &&& required::<String>(j, "target_uri"@)
        &&& required::<LiveRecordingState>(j, "state"@)
        &&& optional::<u32>(j, "duration"@)
        &&& optional::<u32>(j, "talking_duration"@)
        &&& optional::<u32>(j, "silence_duration"@)
        &&& optional::<String>(j, "cause"@)
    }

    open spec fn decodes(j: Json, v: LiveRecording) -> bool {
        &&& j is Object
        &&& required_is::<String>(j, "name"@, v.name)
        &&& required_is::<String>(j, "format"@, v.format)
        &&& required_is::<String>(j, "target_uri"@, v.target_uri)
        &&& required_is::<LiveRecordingState>(j, "state"@, v.state)
        &&& optional_is::<u32>(j, "duration"@, v.duration)
        &&& optional_is::<u32>(j, "talking_duration"@, v.talking_duration)
        &&& optional_is::<u32>(j, "silence_duration"@, v.silence_duration)
        &&& optional_is::<String>(j, "cause"@, v.cause)
    }

    fn from_json(j: &JsonValue) -> (r: Option<LiveRecording>) {
        if !is_object(j) {
            return None;
        }
        let name = read_required::<String>(j, "name")?;
        let format = read_required::<String>(j, "format")?;
        let target_uri = read_required::<String>(j, "target_uri")?;
        let state = read_required::<LiveRecordingState>(j, "state")?;
        let duration = read_optional::<u32>(j, "duration")?;
        let talking_duration = read_optional::<u32>(j, "talking_duration")?;
        let silence_duration = read_optional::<u32>(j, "silence_duration")?;
        let cause = read_optional::<String>(j, "cause")?;
        Some(LiveRecording {
            name,
            format,
            target_uri,
            state,
            duration,
            talking_duration,
            silence_duration,
            cause,
        })
    }
}

/// The state of a live recording.
#[derive(Clone, Copy, Debug, PartialEq, Eq, Structural, Default)]
pub enum LiveRecordingState {
    #[default]
    Recording,
    Paused,
    Done,
    Failed,
}

impl LiveRecordingState {
    /// The value that the feed writes as `s`.
    pub open spec fn from_wire(s: Seq<char>) -> Option<LiveRecordingState> {
        if s == "recording"@ {
            Some(LiveRecordingState::Recording)
        } else if s == "paused"@ {
            Some(LiveRecordingState::Paused)
        } else if s == "done"@ {
            Some(LiveRecordingState::Done)
        } else if s == "failed"@ {
            Some(LiveRecordingState::Failed)
        } else {
            None
        }
    }
}

impl FromJson for LiveRecordingState {
    open spec fn accepts(j: Json) -> bool {
        j matches Json::Str(s) && LiveRecordingState::from_wire(s) is Some
    }

    open spec fn decodes(j: Json, v: LiveRecordingState) -> bool {
        j matches Json::Str(s) && LiveRecordingState::from_wire(s) == Some(v)
    }

    fn from_json(j: &JsonValue) -> (r: Option<LiveRecordingState>) {
        let s = match j {
            JsonValue::Str(s) => s.as_str(),
            _ => return None,
        };
        if same_text(s, "recording") {
            Some(LiveRecordingState::Recording)
        } else if same_text(s, "paused") {
            Some(LiveRecordingState::Paused)
        } else if same_text(s, "done") {
            Some(LiveRecordingState::Done)
        } else if same_text(s, "failed") {
            Some(LiveRecordingState::Failed)
        } else {
            None
        }
    }
}
///
/// A past recording that may be played back.
#[derive(Debug, PartialEq)]
pub struct StoredRecording {
    pub name: String,
    pub format: String,
}

impl FromJson for StoredRecording {
    open spec fn accepts(j: Json) -> bool {
        &&& j is Object
        &&& required::<String>(j, "name"@)
        &&& required::<String>(j, "format"@)
    }

    open spec fn decodes(j: Json, v: StoredRecording) -> bool {
        &&& j is Object
        &&& required_is::<String>(j, "name"@, v.name)
        &&& required_is::<String>(j, "format"@, v.format)
    }

    fn from_json(j: &JsonValue) -> (r: Option<StoredRecording>) {
        if !is_object(j) {
            return None;
        }
        let name = read_required::<String>(j, "name")?;
        let format = read_required::<String>(j, "format")?;
        Some(StoredRecording {
            name,
            format,
        })
    }
}
} // verus!
