//! Endpoint snapshots and text messages.
use vstd::prelude::*;

use crate::json::{Json, JsonValue};
use crate::schema::{FromJson, is_object, optional, optional_is, read_optional, read_required, required, required_is};
use crate::json::same_text;

verus! {

/// An external device that may offer/accept calls to/from Asterisk.
///
/// Unlike most resources, which have a single unique identifier, an endpoint is uniquely identified by the technology/resource pair.
#[derive(Debug, PartialEq)]
pub struct Endpoint {
    /// Technology of the endpoint
    pub technology: String,
    /// Identifier of the endpoint, specific to the given technology.
    pub resource: String,
    /// Endpoint's state
    pub state: Option<State>,
    /// Id's of channels associated with this endpoint
    pub channel_ids: Vec<String>,
}

impl FromJson for Endpoint {
    open spec fn accepts(j: Json) -> bool {
        &&& j is Object
        &&& required::<String>(j, "technology"@)
        &&& required::<String>(j, "resource"@)
        &&& optional::<State>(j, "state"@)
        &&& required::<Vec<String>>(j, "channel_ids"@)
    }

    open spec fn decodes(j: Json, v: Endpoint) -> bool {
        &&& j is Object
        &&& required_is::<String>(j, "technology"@, v.technology)
        &&& required_is::<String>(j, "resource"@, v.resource)
        &&& optional_is::<State>(j, "state"@, v.state)
        &&& required_is::<Vec<String>>(j, "channel_ids"@, v.channel_ids)
    }

    fn from_json(j: &JsonValue) -> (r: Option<Endpoint>) {
        if !is_object(j) {
            return None;
        }
        let technology = read_required::<String>(j, "technology")?;
        let resource = read_required::<String>(j, "resource")?;
        let state = read_optional::<State>(j, "state")?;
        let channel_ids = read_required::<Vec<String>>(j, "channel_ids")?;
        Some(Endpoint {
            technology,
            resource,
            state,
            channel_ids,
        })
    }
}

/// The state of an endpoint.
#[derive(Clone, Copy, Debug, PartialEq, Eq, Structural, Default)]
pub enum State {
    #[default]
    Unknown,
    Offline,
    Online,
}

impl State {
    /// The value that the feed writes as `s`.
    pub open spec fn from_wire(s: Seq<char>) -> Option<State> {
        if s == "unknown"@ {
            Some(State::Unknown)
        } else if s == "offline"@ {
            Some(State::Offline)
        } else if s == "online"@ {
            Some(State::Online)
        } else {
            None
        }
    }
}

impl FromJson for State {
    open spec fn accepts(j: Json) -> bool {
        j matches Json::Str(s) && State::from_wire(s) is Some
    }

    open spec fn decodes(j: Json, v: State) -> bool {
        j matches Json::Str(s) && State::from_wire(s) == Some(v)
    }

    fn from_json(j: &JsonValue) -> (r: Option<State>) {
        let s = match j {
            JsonValue::Str(s) => s.as_str(),
            _ => return None,
        };
        if same_text(s, "unknown") {
            Some(State::Unknown)
        } else if same_text(s, "offline") {
            Some(State::Offline)
        } else if same_text(s, "online") {
            Some(State::Online)
        } else {
            None
        }
    }
}

/// A text message.
#[derive(Debug, PartialEq)]
pub struct TextMessage {
    /// A technology specific URI specifying the source of the message. For pjsip technology, any SIP URI can be specified. For xmpp, the URI must correspond to the client connection being used to send the message.
    pub from: Option<String>,
    /// A technology specific URI specifying the destination of the message. Valid technologies include pjsip, and xmp. The destination of a message should be an endpoint.
    pub to: Option<String>,
    /// The text of the message.
    pub body: Option<String>,
    /// Technology specific key/value pairs (JSON object) associated with the message.
    pub variables: Option<JsonValue>,
}

impl FromJson for TextMessage {
    open spec fn accepts(j: Json) -> bool {
        &&& j is Object
        &&& optional::<String>(j, "from"@)
        &&& optional::<String>(j, "to"@)
        &&& optional::<String>(j, "body"@)
        &&& optional::<JsonValue>(j, "variables"@)
    }

    open spec fn decodes(j: Json, v: TextMessage) -> bool {
        &&& j is Object
        &&& optional_is::<String>(j, "from"@, v.from)
        &&& optional_is::<String>(j, "to"@, v.to)
        &&& optional_is::<String>(j, "body"@, v.body)
        &&& optional_is::<JsonValue>(j, "variables"@, v.variables)
    }

    fn from_json(j: &JsonValue) -> (r: Option<TextMessage>) {
        if !is_object(j) {
            return None;
        }
        let from = read_optional::<String>(j, "from")?;
        let to = read_optional::<String>(j, "to")?;
        let body = read_optional::<String>(j, "body")?;
        let variables = read_optional::<JsonValue>(j, "variables")?;
        Some(TextMessage {
            from,
            to,
            body,
            variables,
        })
    }
}
} // verus!
