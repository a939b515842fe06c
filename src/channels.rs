//! Channel snapshots: a call leg as the feed describes it.
use vstd::prelude::*;

use crate::json::{Json, JsonValue};
use crate::schema::{FromJson, JsonNumber, is_object, optional, optional_is, read_optional, read_required, required, required_is};
use crate::json::same_text;
use crate::time::Timestamp;

verus! {

/// A specific communication connection between Asterisk and an Endpoint.
#[derive(Debug, PartialEq)]
pub struct Channel {
    /// Unique identifier of the channel.  This is the same as the Uniqueid field in AMI.
    pub id: String,
    /// Protocol id from underlying channel driver (i.e. Call-ID for chan_pjsip; will be empty if not applicable or not implemented by driver).
    pub protocol_id: Option<String>,
    /// Name of the channel (i.e. SIP/foo-0000a7e3)
    pub name: String,
    pub state: ChannelState,
    pub caller: CallerId,
    pub connected: CallerId,
    pub account_code: String,
    pub dialplan: DialplanCep,
    pub creation_time: Timestamp,
    /// The default spoken language
    pub language: String,
    /// Channel variables
    pub channel_vars: Option<JsonValue>,
    /// The Caller ID RDNIS
    pub caller_rdnis: Option<String>,
    /// The Tenant ID for the channel
    pub tenant_id: Option<String>,
}

impl FromJson for Channel {
    open spec fn accepts(j: Json) -> bool {
        &&& j is Object
        &&& required::<String>(j, "id"@)
        &&& optional::<String>(j, "protocol_id"@)
        &&& required::<String>(j, "name"@)
        &&& required::<ChannelState>(j, "state"@)
        &&& required::<CallerId>(j, "caller"@)
        &&& required::<CallerId>(j, "connected"@)
        &&& required::<String>(j, "accountcode"@)
        &&& required::<DialplanCep>(j, "dialplan"@)
        &&& required::<Timestamp>(j, "creationtime"@)
        &&& required::<String>(j, "language"@)
        &&& optional::<JsonValue>(j, "channelvars"@)
        &&& optional::<String>(j, "caller_rdnis"@)
        &&& optional::<String>(j, "tenantid"@)
    }

    open spec fn decodes(j: Json, v: Channel) -> bool {
        &&& j is Object
        &&& required_is::<String>(j, "id"@, v.id)
        &&& optional_is::<String>(j, "protocol_id"@, v.protocol_id)
        &&& required_is::<String>(j, "name"@, v.name)
        &&& required_is::<ChannelState>(j, "state"@, v.state)
        &&& required_is::<CallerId>(j, "caller"@, v.caller)
        &&& required_is::<CallerId>(j, "connected"@, v.connected)
        &&& required_is::<String>(j, "accountcode"@, v.account_code)
        &&& required_is::<DialplanCep>(j, "dialplan"@, v.dialplan)
        &&& required_is::<Timestamp>(j, "creationtime"@, v.creation_time)
        &&& required_is::<String>(j, "language"@, v.language)
        &&& optional_is::<JsonValue>(j, "channelvars"@, v.channel_vars)
        &&& optional_is::<String>(j, "caller_rdnis"@, v.caller_rdnis)
        &&& optional_is::<String>(j, "tenantid"@, v.tenant_id)
    }

    fn from_json(j: &JsonValue) -> (r: Option<Channel>) {
        if !is_object(j) {
            return None;
        }
        let id = read_required::<String>(j, "id")?;
        let protocol_id = read_optional::<String>(j, "protocol_id")?;
        let name = read_required::<String>(j, "name")?;
        let state = read_required::<ChannelState>(j, "state")?;
        let caller = read_required::<CallerId>(j, "caller")?;
        let connected = read_required::<CallerId>(j, "connected")?;
        let account_code = read_required::<String>(j, "accountcode")?;
        let dialplan = read_required::<DialplanCep>(j, "dialplan")?;
        let creation_time = read_required::<Timestamp>(j, "creationtime")?;
        let language = read_required::<String>(j, "language")?;
        let channel_vars = read_optional::<JsonValue>(j, "channelvars")?;
        let caller_rdnis = read_optional::<String>(j, "caller_rdnis")?;
        let tenant_id = read_optional::<String>(j, "tenantid")?;
        Some(Channel {
            id,
            protocol_id,
            name,
            state,
            caller,
            connected,
            account_code,
            dialplan,
            creation_time,
            language,
            channel_vars,
            caller_rdnis,
            tenant_id,
        })
    }
}

/// Caller identification
#[derive(Debug, PartialEq)]
pub struct CallerId {
    pub name: String,
    pub number: String,
}

impl FromJson for CallerId {
    open spec fn accepts(j: Json) -> bool {
        &&& j is Object
        &&& required::<String>(j, "name"@)
        &&& required::<String>(j, "number"@)
    }

    open spec fn decodes(j: Json, v: CallerId) -> bool {
        &&& j is Object
        &&& required_is::<String>(j, "name"@, v.name)
        &&& required_is::<String>(j, "number"@, v.number)
    }

    fn from_json(j: &JsonValue) -> (r: Option<CallerId>) {
        if !is_object(j) {
            return None;
        }
        let name = read_required::<String>(j, "name")?;
        let number = read_required::<String>(j, "number")?;
        Some(CallerId {
            name,
            number,
        })
    }
}

/// Dialplan location (context/extension/priority)
#[derive(Debug, PartialEq)]
pub struct DialplanCep {
    /// Context in the dialplan
    pub context: String,
    /// Extension in the dialplan
    pub extension: String,
    /// Priority in the dialplan,
    pub priority: JsonNumber,
    pub app_name: App,
}

impl FromJson for DialplanCep {
    open spec fn accepts(j: Json) -> bool {
        &&& j is Object
        &&& required::<String>(j, "context"@)
        &&& required::<String>(j, "exten"@)
        &&& required::<JsonNumber>(j, "priority"@)
        &&& App::accepts(j)
    }

    open spec fn decodes(j: Json, v: DialplanCep) -> bool {
        &&& j is Object
        &&& required_is::<String>(j, "context"@, v.context)
        &&& required_is::<String>(j, "exten"@, v.extension)
        &&& required_is::<JsonNumber>(j, "priority"@, v.priority)
        &&& App::decodes(j, v.app_name)
    }

    fn from_json(j: &JsonValue) -> (r: Option<DialplanCep>) {
        if !is_object(j) {
            return None;
        }
        let context = read_required::<String>(j, "context")?;
        let extension = read_required::<String>(j, "exten")?;
        let priority = read_required::<JsonNumber>(j, "priority")?;
        let app_name = App::from_json(j)?;
        Some(DialplanCep {
            context,
            extension,
            priority,
            app_name,
        })
    }
}

#[derive(Debug, PartialEq)]
pub struct App {
    /// Name of current dialplan application
    pub name: String,
    /// Parameter of current dialplan application
    pub data: Option<String>,
}

impl FromJson for App {
    open spec fn accepts(j: Json) -> bool {
        &&& j is Object
        &&& required::<String>(j, "app_name"@)
        &&& optional::<String>(j, "app_data"@)
    }

    open spec fn decodes(j: Json, v: App) -> bool {
        &&& j is Object
        &&& required_is::<String>(j, "app_name"@, v.name)
        &&& optional_is::<String>(j, "app_data"@, v.data)
    }

    fn from_json(j: &JsonValue) -> (r: Option<App>) {
        if !is_object(j) {
            return None;
        }
        let name = read_required::<String>(j, "app_name")?;
        let data = read_optional::<String>(j, "app_data")?;
        Some(App {
            name,
            data,
        })
    }
}

/// The state of a channel.
#[derive(Clone, Copy, Debug, PartialEq, Eq, Structural, Default)]
pub enum ChannelState {
    Down,
    Rsrved,
    Reserved,
    OffHook,
    Dialing,
    Ring,
    Ringing,
    Up,
    Busy,
    DialingOffhook,
    PreRing,
    #[default]
    Unknown,
}

impl ChannelState {
    /// The value that the feed writes as `s`.
    pub open spec fn from_wire(s: Seq<char>) -> Option<ChannelState> {
        if s == "Down"@ {
            Some(ChannelState::Down)
        } else if s == "Rsrved"@ {
            Some(ChannelState::Rsrved)
        } else if s == "Reserved"@ {
            Some(ChannelState::Reserved)
        } else if s == "OffHook"@ {
            Some(ChannelState::OffHook)
        } else if s == "Dialing"@ {
            Some(ChannelState::Dialing)
        } else if s == "Ring"@ {
            Some(ChannelState::Ring)
        } else if s == "Ringing"@ {
            Some(ChannelState::Ringing)
        } else if s == "Up"@ {
            Some(ChannelState::Up)
        } else if s == "Busy"@ {
            Some(ChannelState::Busy)
        } else if s == "Dialing Offhook"@ {
            Some(ChannelState::DialingOffhook)
        } else if s == "Pre-ring"@ {
            Some(ChannelState::PreRing)
        } else if s == "Unknown"@ {
            Some(ChannelState::Unknown)
        } else {
            None
        }
    }
}

impl FromJson for ChannelState {
    open spec fn accepts(j: Json) -> bool {
        j matches Json::Str(s) && ChannelState::from_wire(s) is Some
    }

    open spec fn decodes(j: Json, v: ChannelState) -> bool {
        j matches Json::Str(s) && ChannelState::from_wire(s) == Some(v)
    }

    fn from_json(j: &JsonValue) -> (r: Option<ChannelState>) {
        let s = match j {
            JsonValue::Str(s) => s.as_str(),
            _ => return None,
        };
        if same_text(s, "Down") {
            Some(ChannelState::Down)
        } else if same_text(s, "Rsrved") {
            Some(ChannelState::Rsrved)
        } else if same_text(s, "Reserved") {
            Some(ChannelState::Reserved)
        } else if same_text(s, "OffHook") {
            Some(ChannelState::OffHook)
        } else if same_text(s, "Dialing") {
            Some(ChannelState::Dialing)
        } else if same_text(s, "Ring") {
            Some(ChannelState::Ring)
        } else if same_text(s, "Ringing") {
            Some(ChannelState::Ringing)
        } else if same_text(s, "Up") {
            Some(ChannelState::Up)
        } else if same_text(s, "Busy") {
            Some(ChannelState::Busy)
        } else if same_text(s, "Dialing Offhook") {
            Some(ChannelState::DialingOffhook)
        } else if same_text(s, "Pre-ring") {
            Some(ChannelState::PreRing)
        } else if same_text(s, "Unknown") {
            Some(ChannelState::Unknown)
        } else {
            None
        }
    }
}
} // verus!
