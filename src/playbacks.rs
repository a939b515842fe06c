//! Playback snapshots: a media playback operation.
use vstd::prelude::*;

use crate::json::{Json, JsonValue};
use crate::schema::{FromJson, is_object, optional, optional_is, read_optional, read_required, required, required_is};
use crate::json::same_text;

verus! {

/// Object representing the playback of media to a channel
#[derive(Debug, PartialEq)]
pub struct Playback {
    /// ID for this playback operation
    pub id: Option<String>,
    /// The URI for the media currently being played back.
    pub media_uri: Option<String>,
    /// If a list of URIs is being played, the next media URI to be played back.
    pub next_media_uri: Option<String>,
    /// URI for the channel or bridge to play the media on
    pub target_uri: Option<String>,
    /// For media types that support multiple languages, the language requested for playback.
    pub language: Option<String>,
    /// Current state of the playback operation.
    pub state: PlaybackState,
}

impl FromJson for Playback {
    open spec fn accepts(j: Json) -> bool {
        &&& j is Object
        &&& optional::<String>(j, "id"@)
        &&& optional::<String>(j, "media_uri"@)
        &&& optional::<String>(j, "next_media_uri"@)
        &&& optional::<String>(j, "target_uri"@)
        &&& optional::<String>(j, "language"@)
        &&& required::<PlaybackState>(j, "state"@)
    }

    open spec fn decodes(j: Json, v: Playback) -> bool {
        &&& j is Object
        &&& optional_is::<String>(j, "id"@, v.id)
        &&& optional_is::<String>(j, "media_uri"@, v.media_uri)
        &&& optional_is::<String>(j, "next_media_uri"@, v.next_media_uri)
        &&& optional_is::<String>(j, "target_uri"@, v.target_uri)
        &&& optional_is::<String>(j, "language"@, v.language)
        &&& required_is::<PlaybackState>(j, "state"@, v.state)
    }

    fn from_json(j: &JsonValue) -> (r: Option<Playback>) {
        if !is_object(j) {
            return None;
        }
        let id = read_optional::<String>(j, "id")?;
        let media_uri = read_optional::<String>(j, "media_uri")?;
        let next_media_uri = read_optional::<String>(j, "next_media_uri")?;
        let target_uri = read_optional::<String>(j, "target_uri")?;
        let language = read_optional::<String>(j, "language")?;
        let state = read_required::<PlaybackState>(j, "state")?;
        Some(Playback {
            id,
            media_uri,
            next_media_uri,
            target_uri,
            language,
            state,
        })
    }
}

/// The state of a playback.
#[derive(Clone, Copy, Debug, PartialEq, Eq, Structural, Default)]
pub enum PlaybackState {
    #[default]
    Queued,
    Playing,
    Continuing,
    Done,
    Failed,
}

impl PlaybackState {
    /// The value that the feed writes as `s`.
    pub open spec fn from_wire(s: Seq<char>) -> Option<PlaybackState> {
        if s == "queued"@ {
            Some(PlaybackState::Queued)
        } else if s == "playing"@ {
            Some(PlaybackState::Playing)
        } else if s == "continuing"@ {
            Some(PlaybackState::Continuing)
        } else if s == "done"@ {
            Some(PlaybackState::Done)
        } else if s == "failed"@ {
            Some(PlaybackState::Failed)
        } else {
            None
        }
    }
}

impl FromJson for PlaybackState {
    open spec fn accepts(j: Json) -> bool {
        j matches Json::Str(s) && PlaybackState::from_wire(s) is Some
    }

    open spec fn decodes(j: Json, v: PlaybackState) -> bool {
        j matches Json::Str(s) && PlaybackState::from_wire(s) == Some(v)
    }

    fn from_json(j: &JsonValue) -> (r: Option<PlaybackState>) {
        let s = match j {
            JsonValue::Str(s) => s.as_str(),
            _ => return None,
        };
        if same_text(s, "queued") {
            Some(PlaybackState::Queued)
        } else if same_text(s, "playing") {
            Some(PlaybackState::Playing)
        } else if same_text(s, "continuing") {
            Some(PlaybackState::Continuing)
        } else if same_text(s, "done") {
            Some(PlaybackState::Done)
        } else if same_text(s, "failed") {
            Some(PlaybackState::Failed)
        } else {
            None
        }
    }
}
} // verus!
