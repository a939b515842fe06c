//! Device state snapshots.
use vstd::prelude::*;

use crate::json::{Json, JsonValue};
use crate::schema::{FromJson, is_object, optional, optional_is, read_optional, read_required, required, required_is};
use crate::json::same_text;

verus! {

/// Represents the state of a device.
#[derive(Debug, PartialEq)]
pub struct DeviceState {
    /// Name of the device.
    pub name: String,
    /// Device's state
    pub state: DeviceStateState,
}

impl FromJson for DeviceState {
    open spec fn accepts(j: Json) -> bool {
        &&& j is Object
        &&& required::<String>(j, "name"@)
        &&& required::<DeviceStateState>(j, "state"@)
    }

    open spec fn decodes(j: Json, v: DeviceState) -> bool {
        &&& j is Object
        &&& required_is::<String>(j, "name"@, v.name)
        &&& required_is::<DeviceStateState>(j, "state"@, v.state)
    }

    fn from_json(j: &JsonValue) -> (r: Option<DeviceState>) {
        if !is_object(j) {
            return None;
        }
        let name = read_required::<String>(j, "name")?;
        let state = read_required::<DeviceStateState>(j, "state")?;
        Some(DeviceState {
            name,
            state,
        })
    }
}

/// The state of a device.
#[derive(Clone, Copy, Debug, PartialEq, Eq, Structural, Default)]
pub enum DeviceStateState {
    #[default]
    Unknown,
    NotInuse,
    Inuse,
    Busy,
    Invalid,
    Unavailable,
    Ringing,
    Ringinuse,
    Onhold,
}

impl DeviceStateState {
    /// The value that the feed writes as `s`.
    pub open spec fn from_wire(s: Seq<char>) -> Option<DeviceStateState> {
        if s == "UNKNOWN"@ {
            Some(DeviceStateState::Unknown)
        } else if s == "NOT_INUSE"@ {
            Some(DeviceStateState::NotInuse)
        } else if s == "INUSE"@ {
            Some(DeviceStateState::Inuse)
        } else if s == "BUSY"@ {
            Some(DeviceStateState::Busy)
        } else if s == "INVALID"@ {
            Some(DeviceStateState::Invalid)
        } else if s == "UNAVAILABLE"@ {
            Some(DeviceStateState::Unavailable)
        } else if s == "RINGING"@ {
            Some(DeviceStateState::Ringing)
        } else if s == "RINGINUSE"@ {
            Some(DeviceStateState::Ringinuse)
        } else if s == "ONHOLD"@ {
            Some(DeviceStateState::Onhold)
        } else {
            None
        }
    }
}

impl FromJson for DeviceStateState {
    open spec fn accepts(j: Json) -> bool {
        j matches Json::Str(s) && DeviceStateState::from_wire(s) is Some
    }

    open spec fn decodes(j: Json, v: DeviceStateState) -> bool {
        j matches Json::Str(s) && DeviceStateState::from_wire(s) == Some(v)
    }

    fn from_json(j: &JsonValue) -> (r: Option<DeviceStateState>) {
        let s = match j {
            JsonValue::Str(s) => s.as_str(),
            _ => return None,
        };
        if same_text(s, "UNKNOWN") {
            Some(DeviceStateState::Unknown)
        } else if same_text(s, "NOT_INUSE") {
            Some(DeviceStateState::NotInuse)
        } else if same_text(s, "INUSE") {
            Some(DeviceStateState::Inuse)
        } else if same_text(s, "BUSY") {
            Some(DeviceStateState::Busy)
        } else if same_text(s, "INVALID") {
            Some(DeviceStateState::Invalid)
        } else if same_text(s, "UNAVAILABLE") {
            Some(DeviceStateState::Unavailable)
        } else if same_text(s, "RINGING") {
            Some(DeviceStateState::Ringing)
        } else if same_text(s, "RINGINUSE") {
            Some(DeviceStateState::Ringinuse)
        } else if same_text(s, "ONHOLD") {
            Some(DeviceStateState::Onhold)
        } else {
            None
        }
    }
}
} // verus!
