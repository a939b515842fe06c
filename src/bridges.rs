//! Bridge snapshots: a mixing bridge as the feed describes it.
use vstd::prelude::*;

use crate::json::{Json, JsonValue};
use crate::schema::{FromJson, is_object, optional, optional_is, read_optional, read_required, required, required_is};
use crate::json::same_text;
use crate::time::Timestamp;

verus! {

///
/// The merging of media from one or more channels.
/// Everyone on the bridge receives the same audio.
#[derive(Debug, PartialEq)]
pub struct Bridge {
    /// Unique identifier for this bridge
    pub id: String,
    /// Name of the current bridging technology
    pub technology: String,
    /// Type of bridge technology
    pub bridge_type: BridgeType,
    /// Bridging class
    pub bridge_class: String,
    /// Entity that created the bridge
    pub creator: String,
    /// Name the creator gave the bridge
    pub name: String,
    pub channels: Vec<String>,
    /// The video mode the bridge is using. One of 'none', 'talker', 'sfu', or 'single'.
    pub video_mode: Option<VideoMode>,
    /// The ID of the channel that is the source of video in this bridge, if one exists.
    pub video_source_id: Option<String>,
    pub creation_time: Timestamp,
}

impl FromJson for Bridge {
    open spec fn accepts(j: Json) -> bool {
        &&& j is Object
        &&& required::<String>(j, "id"@)
        &&& required::<String>(j, "technology"@)
        &&& required::<BridgeType>(j, "bridge_type"@)
        &&& required::<String>(j, "bridge_class"@)
        &&& required::<String>(j, "creator"@)
        &&& required::<String>(j, "name"@)
        &&& required::<Vec<String>>(j, "channels"@)
        &&& optional::<VideoMode>(j, "video_mode"@)
        &&& optional::<String>(j, "video_source_id"@)
        &&& required::<Timestamp>(j, "creationtime"@)
    }

    open spec fn decodes(j: Json, v: Bridge) -> bool {
        &&& j is Object
        &&& required_is::<String>(j, "id"@, v.id)
        &&& required_is::<String>(j, "technology"@, v.technology)
        &&& required_is::<BridgeType>(j, "bridge_type"@, v.bridge_type)
        &&& required_is::<String>(j, "bridge_class"@, v.bridge_class)
        &&& required_is::<String>(j, "creator"@, v.creator)
        &&& required_is::<String>(j, "name"@, v.name)
        &&& required_is::<Vec<String>>(j, "channels"@, v.channels)
        &&& optional_is::<VideoMode>(j, "video_mode"@, v.video_mode)
        &&& optional_is::<String>(j, "video_source_id"@, v.video_source_id)
        &&& required_is::<Timestamp>(j, "creationtime"@, v.creation_time)
    }

    fn from_json(j: &JsonValue) -> (r: Option<Bridge>) {
        if !is_object(j) {
            return None;
        }
        let id = read_required::<String>(j, "id")?;
        let technology = read_required::<String>(j, "technology")?;
        let bridge_type = read_required::<BridgeType>(j, "bridge_type")?;
        let bridge_class = read_required::<String>(j, "bridge_class")?;
        let creator = read_required::<String>(j, "creator")?;
        let name = read_required::<String>(j, "name")?;
        let channels = read_required::<Vec<String>>(j, "channels")?;
        let video_mode = read_optional::<VideoMode>(j, "video_mode")?;
        let video_source_id = read_optional::<String>(j, "video_source_id")?;
        let creation_time = read_required::<Timestamp>(j, "creationtime")?;
        Some(Bridge {
            id,
            technology,
            bridge_type,
            bridge_class,
            creator,
            name,
            channels,
            video_mode,
            video_source_id,
            creation_time,
        })
    }
}

/// The kind of a bridge.
#[derive(Clone, Copy, Debug, PartialEq, Eq, Structural, Default)]
pub enum BridgeType {
    #[default]
    Mixing,
    Holding,
    DtmfEvents,
    ProxyMedia,
    VideoSFU,
    VideoSingle,
    SDPLabel,
}

impl BridgeType {
    /// The value that the feed writes as `s`.
    pub open spec fn from_wire(s: Seq<char>) -> Option<BridgeType> {
        if s == "mixing"@ {
            Some(BridgeType::Mixing)
        } else if s == "holding"@ {
            Some(BridgeType::Holding)
        } else if s == "dtmf_events"@ {
            Some(BridgeType::DtmfEvents)
        } else if s == "proxy_media"@ {
            Some(BridgeType::ProxyMedia)
        } else if s == "video_sfu"@ {
            Some(BridgeType::VideoSFU)
        } else if s == "video_single"@ {
            Some(BridgeType::VideoSingle)
        } else if s == "sdp_label"@ {
            Some(BridgeType::SDPLabel)
        } else {
            None
        }
    }
}

impl FromJson for BridgeType {
    open spec fn accepts(j: Json) -> bool {
        j matches Json::Str(s) && BridgeType::from_wire(s) is Some
    }

    open spec fn decodes(j: Json, v: BridgeType) -> bool {
        j matches Json::Str(s) && BridgeType::from_wire(s) == Some(v)
    }

    fn from_json(j: &JsonValue) -> (r: Option<BridgeType>) {
        let s = match j {
            JsonValue::Str(s) => s.as_str(),
            _ => return None,
        };
        if same_text(s, "mixing") {
            Some(BridgeType::Mixing)
        } else if same_text(s, "holding") {
            Some(BridgeType::Holding)
        } else if same_text(s, "dtmf_events") {
            Some(BridgeType::DtmfEvents)
        } else if same_text(s, "proxy_media") {
            Some(BridgeType::ProxyMedia)
        } else if same_text(s, "video_sfu") {
            Some(BridgeType::VideoSFU)
        } else if same_text(s, "video_single") {
            Some(BridgeType::VideoSingle)
        } else if same_text(s, "sdp_label") {
            Some(BridgeType::SDPLabel)
        } else {
            None
        }
    }
}

/// How a bridge picks its video source.
#[derive(Clone, Copy, Debug, PartialEq, Eq, Structural, Default)]
pub enum VideoMode {
    #[default]
    NoVideo,
    Talker,
    Sfu,
    Single,
}

impl VideoMode {
    /// The value that the feed writes as `s`.
    pub open spec fn from_wire(s: Seq<char>) -> Option<VideoMode> {
        if s == "none"@ {
            Some(VideoMode::NoVideo)
        } else if s == "talker"@ {
            Some(VideoMode::Talker)
        } else if s == "sfu"@ {
            Some(VideoMode::Sfu)
        } else if s == "single"@ {
            Some(VideoMode::Single)
        } else {
            None
        }
    }
}

impl FromJson for VideoMode {
    open spec fn accepts(j: Json) -> bool {
        j matches Json::Str(s) && VideoMode::from_wire(s) is Some
    }

    open spec fn decodes(j: Json, v: VideoMode) -> bool {
        j matches Json::Str(s) && VideoMode::from_wire(s) == Some(v)
    }

    fn from_json(j: &JsonValue) -> (r: Option<VideoMode>) {
        let s = match j {
            JsonValue::Str(s) => s.as_str(),
            _ => return None,
        };
        if same_text(s, "none") {
            Some(VideoMode::NoVideo)
        } else if same_text(s, "talker") {
            Some(VideoMode::Talker)
        } else if same_text(s, "sfu") {
            Some(VideoMode::Sfu)
        } else if same_text(s, "single") {
            Some(VideoMode::Single)
        } else {
            None
        }
    }
}
} // verus!
