//! The events of the feed, and their decoding from text frames.
use vstd::prelude::*;

use crate::bridges::Bridge;
use crate::channels::Channel;
use crate::device_stats::DeviceState;
use crate::endpoints::{Endpoint, TextMessage};
use crate::json::{find_member, json_document, member, parse_json, same_text, Json, JsonValue};
use crate::playbacks::Playback;
use crate::recordings::LiveRecording;
use crate::schema::{is_object, optional, optional_is, read_optional, read_required, required, required_is, FromJson};
use crate::time::Timestamp;

verus! {

/// The envelope of every event: the server that raised it, the application that
/// receives it, and when; the fields of the event's kind stand beside these
/// in the same object.
#[derive(Debug, PartialEq)]
pub struct BaseEvent<T> {
    /// The unique ID for the Asterisk instance that raised this event.
    pub asterisk_id: Option<String>,
    /// Name of the application receiving the event.
    pub application: String,
    /// Time at which this event was created. E.g. 2020-11-22T20:12:51.214+0000
    pub timestamp: Timestamp,
    /// The event data.
    pub data: T,
}

impl<T: FromJson> FromJson for BaseEvent<T> {
    open spec fn accepts(j: Json) -> bool {
        &&& j is Object
        &&& optional::<String>(j, "asterisk_id"@)
        &&& required::<String>(j, "application"@)
        &&& required::<Timestamp>(j, "timestamp"@)
        &&& T::accepts(j)
    }

    open spec fn decodes(j: Json, v: BaseEvent<T>) -> bool {
        &&& j is Object
        &&& optional_is::<String>(j, "asterisk_id"@, v.asterisk_id)
        &&& required_is::<String>(j, "application"@, v.application)
        &&& required_is::<Timestamp>(j, "timestamp"@, v.timestamp)
        &&& T::decodes(j, v.data)
    }

    fn from_json(j: &JsonValue) -> (r: Option<BaseEvent<T>>) {
        if !is_object(j) {
            return None;
        }
        let asterisk_id = read_optional::<String>(j, "asterisk_id")?;
        let application = read_required::<String>(j, "application")?;
        let timestamp = read_required::<Timestamp>(j, "timestamp")?;
        let data = T::from_json(j)?;
        Some(BaseEvent {
            asterisk_id,
            application,
            timestamp,
            data,
        })
    }
}

/// Notification that trying to move a channel to another Stasis application failed.
#[derive(Debug, PartialEq)]
pub struct ApplicationMoveFailed {
    pub channel: Channel,
    pub destination: String,
    pub args: Vec<String>,
}

impl FromJson for ApplicationMoveFailed {
    open spec fn accepts(j: Json) -> bool {
        &&& j is Object
        &&& required::<Channel>(j, "channel"@)
        &&& required::<String>(j, "destination"@)
        &&& required::<Vec<String>>(j, "args"@)
    }

    open spec fn decodes(j: Json, v: ApplicationMoveFailed) -> bool {
        &&& j is Object
        &&& required_is::<Channel>(j, "channel"@, v.channel)
        &&& required_is::<String>(j, "destination"@, v.destination)
        &&& required_is::<Vec<String>>(j, "args"@, v.args)
    }

    fn from_json(j: &JsonValue) -> (r: Option<ApplicationMoveFailed>) {
        if !is_object(j) {
            return None;
        }
        let channel = read_required::<Channel>(j, "channel")?;
        let destination = read_required::<String>(j, "destination")?;
        let args = read_required::<Vec<String>>(j, "args")?;
        Some(ApplicationMoveFailed {
            channel,
            destination,
            args,
        })
    }
}

/// Notification that another WebSocket has taken over for an application.
#[derive(Debug, PartialEq)]
pub struct ApplicationReplaced {}

impl FromJson for ApplicationReplaced {
    open spec fn accepts(j: Json) -> bool {
        j is Object
    }

    open spec fn decodes(j: Json, v: ApplicationReplaced) -> bool {
        j is Object
    }

    fn from_json(j: &JsonValue) -> (r: Option<ApplicationReplaced>) {
        if !is_object(j) {
            return None;
        }
        Some(ApplicationReplaced {})
    }
}

/// Notification that an attended transfer has occurred.
#[derive(Debug, PartialEq)]
pub struct BridgeAttendedTransfer {
    /// First leg of the transferer
    pub transferer_first_leg: Channel,
    /// Second leg of the transferer
    pub transferer_second_leg: Channel,
    /// The channel that is replacing transferer_first_leg in the swap
    pub replace_channel: Option<Channel>,
    /// The channel that is being transferred
    pub transferee: Option<Channel>,
    /// The channel that is being transferred to
    pub transfer_target: Option<Channel>,
    /// The result of the transfer attempt
    pub result: String,
    /// Whether the transfer was externally initiated or not
    pub is_external: bool,
    /// Bridge the transferer first leg is in
    pub transferer_first_leg_bridge: Option<Bridge>,
    /// Bridge the transferer second leg is in
    pub transferer_second_leg_bridge: Option<Bridge>,
    /// How the transfer was accomplished
    pub destination_type: String,
    /// Bridge that survived the merge result
    pub destination_bridge: Option<String>,
    /// Application that has been transferred into
    pub destination_application: Option<String>,
    /// First leg of a link transfer result
    pub destination_link_first_leg: Option<Channel>,
    /// Second leg of a link transfer result
    pub destination_link_second_leg: Option<Channel>,
    /// Transferer channel that survived the threeway result
    pub destination_threeway_channel: Option<Channel>,
    /// Bridge that survived the threeway result
    pub destination_threeway_bridge: Option<Bridge>,
}

impl FromJson for BridgeAttendedTransfer {
    open spec fn accepts(j: Json) -> bool {
        &&& j is Object
        &&& required::<Channel>(j, "transferer_first_leg"@)
        &&& required::<Channel>(j, "transferer_second_leg"@)
        &&& optional::<Channel>(j, "replace_channel"@)
        &&& optional::<Channel>(j, "transferee"@)
        &&& optional::<Channel>(j, "transfer_target"@)
        &&& required::<String>(j, "result"@)
        &&& required::<bool>(j, "is_external"@)
        &&& optional::<Bridge>(j, "transferer_first_leg_bridge"@)
        &&& optional::<Bridge>(j, "transferer_second_leg_bridge"@)
        &&& required::<String>(j, "destination_type"@)
        &&& optional::<String>(j, "destination_bridge"@)
        &&& optional::<String>(j, "destination_application"@)
        &&& optional::<Channel>(j, "destination_link_first_leg"@)
        &&& optional::<Channel>(j, "destination_link_second_leg"@)
        &&& optional::<Channel>(j, "destination_threeway_channel"@)
        &&& optional::<Bridge>(j, "destination_threeway_bridge"@)
    }

    open spec fn decodes(j: Json, v: BridgeAttendedTransfer) -> bool {
        &&& j is Object
        &&& required_is::<Channel>(j, "transferer_first_leg"@, v.transferer_first_leg)
        &&& required_is::<Channel>(j, "transferer_second_leg"@, v.transferer_second_leg)
        &&& optional_is::<Channel>(j, "replace_channel"@, v.replace_channel)
        &&& optional_is::<Channel>(j, "transferee"@, v.transferee)
        &&& optional_is::<Channel>(j, "transfer_target"@, v.transfer_target)
        &&& required_is::<String>(j, "result"@, v.result)
        &&& required_is::<bool>(j, "is_external"@, v.is_external)
        &&& optional_is::<Bridge>(j, "transferer_first_leg_bridge"@, v.transferer_first_leg_bridge)
        &&& optional_is::<Bridge>(j, "transferer_second_leg_bridge"@, v.transferer_second_leg_bridge)
        &&& required_is::<String>(j, "destination_type"@, v.destination_type)
        &&& optional_is::<String>(j, "destination_bridge"@, v.destination_bridge)
        &&& optional_is::<String>(j, "destination_application"@, v.destination_application)
        &&& optional_is::<Channel>(j, "destination_link_first_leg"@, v.destination_link_first_leg)
        &&& optional_is::<Channel>(j, "destination_link_second_leg"@, v.destination_link_second_leg)
        &&& optional_is::<Channel>(j, "destination_threeway_channel"@, v.destination_threeway_channel)
        &&& optional_is::<Bridge>(j, "destination_threeway_bridge"@, v.destination_threeway_bridge)
    }

    fn from_json(j: &JsonValue) -> (r: Option<BridgeAttendedTransfer>) {
        if !is_object(j) {
            return None;
        }
        let transferer_first_leg = read_required::<Channel>(j, "transferer_first_leg")?;
        let transferer_second_leg = read_required::<Channel>(j, "transferer_second_leg")?;
        let replace_channel = read_optional::<Channel>(j, "replace_channel")?;
        let transferee = read_optional::<Channel>(j, "transferee")?;
        let transfer_target = read_optional::<Channel>(j, "transfer_target")?;
        let result = read_required::<String>(j, "result")?;
        let is_external = read_required::<bool>(j, "is_external")?;
        let transferer_first_leg_bridge = read_optional::<Bridge>(j, "transferer_first_leg_bridge")?;
        let transferer_second_leg_bridge = read_optional::<Bridge>(j, "transferer_second_leg_bridge")?;
        let destination_type = read_required::<String>(j, "destination_type")?;
        let destination_bridge = read_optional::<String>(j, "destination_bridge")?;
        let destination_application = read_optional::<String>(j, "destination_application")?;
        let destination_link_first_leg = read_optional::<Channel>(j, "destination_link_first_leg")?;
        let destination_link_second_leg = read_optional::<Channel>(j, "destination_link_second_leg")?;
        let destination_threeway_channel = read_optional::<Channel>(j, "destination_threeway_channel")?;
        let destination_threeway_bridge = read_optional::<Bridge>(j, "destination_threeway_bridge")?;
        Some(BridgeAttendedTransfer {
            transferer_first_leg,
            transferer_second_leg,
            replace_channel,
            transferee,
            transfer_target,
            result,
            is_external,
            transferer_first_leg_bridge,
            transferer_second_leg_bridge,
            destination_type,
            destination_bridge,
            destination_application,
            destination_link_first_leg,
            destination_link_second_leg,
            destination_threeway_channel,
            destination_threeway_bridge,
        })
    }
}

/// Notification that a blind transfer has occurred.
#[derive(Debug, PartialEq)]
pub struct BridgeBlindTransfer {
    /// The channel performing the blind transfer
    pub channel: Channel,
    /// The channel that is replacing transferer when the transferee(s) can not be transferred directly
    pub replace_channel: Option<Channel>,
    /// The channel that is being transferred
    pub transferee: Option<Channel>,
    /// The extension transferred to
    pub exten: String,
    /// The context transferred to
    pub context: String,
    /// The result of the transfer attempt
    pub result: String,
    /// Whether the transfer was externally initiated or not
    pub is_external: bool,
    /// The bridge being transferred
    pub bridge: Option<Bridge>,
}

impl FromJson for BridgeBlindTransfer {
    open spec fn accepts(j: Json) -> bool {
        &&& j is Object
        &&& required::<Channel>(j, "channel"@)
        &&& optional::<Channel>(j, "replace_channel"@)
        &&& optional::<Channel>(j, "transferee"@)
        &&& required::<String>(j, "exten"@)
        &&& required::<String>(j, "context"@)
        &&& required::<String>(j, "result"@)
        &&& required::<bool>(j, "is_external"@)
        &&& optional::<Bridge>(j, "bridge"@)
    }

    open spec fn decodes(j: Json, v: BridgeBlindTransfer) -> bool {
        &&& j is Object
        &&& required_is::<Channel>(j, "channel"@, v.channel)
        &&& optional_is::<Channel>(j, "replace_channel"@, v.replace_channel)
        &&& optional_is::<Channel>(j, "transferee"@, v.transferee)
        &&& required_is::<String>(j, "exten"@, v.exten)
        &&& required_is::<String>(j, "context"@, v.context)
        &&& required_is::<String>(j, "result"@, v.result)
        &&& required_is::<bool>(j, "is_external"@, v.is_external)
        &&& optional_is::<Bridge>(j, "bridge"@, v.bridge)
    }

    fn from_json(j: &JsonValue) -> (r: Option<BridgeBlindTransfer>) {
        if !is_object(j) {
            return None;
        }
        let channel = read_required::<Channel>(j, "channel")?;
        let replace_channel = read_optional::<Channel>(j, "replace_channel")?;
        let transferee = read_optional::<Channel>(j, "transferee")?;
        let exten = read_required::<String>(j, "exten")?;
        let context = read_required::<String>(j, "context")?;
        let result = read_required::<String>(j, "result")?;
        let is_external = read_required::<bool>(j, "is_external")?;
        let bridge = read_optional::<Bridge>(j, "bridge")?;
        Some(BridgeBlindTransfer {
            channel,
            replace_channel,
            transferee,
            exten,
            context,
            result,
            is_external,
            bridge,
        })
    }
}

/// Notification that a bridge has been created.
#[derive(Debug, PartialEq)]
pub struct BridgeCreated {
    pub bridge: Bridge,
}

impl FromJson for BridgeCreated {
    open spec fn accepts(j: Json) -> bool {
        &&& j is Object
        &&& required::<Bridge>(j, "bridge"@)
    }

    open spec fn decodes(j: Json, v: BridgeCreated) -> bool {
        &&& j is Object
        &&& required_is::<Bridge>(j, "bridge"@, v.bridge)
    }

    fn from_json(j: &JsonValue) -> (r: Option<BridgeCreated>) {
        if !is_object(j) {
            return None;
        }
        let bridge = read_required::<Bridge>(j, "bridge")?;
        Some(BridgeCreated {
            bridge,
        })
    }
}

/// Notification that a bridge has been destroyed.
#[derive(Debug, PartialEq)]
pub struct BridgeDestroyed {
    pub bridge: Bridge,
}

impl FromJson for BridgeDestroyed {
    open spec fn accepts(j: Json) -> bool {
        &&& j is Object
        &&& required::<Bridge>(j, "bridge"@)
    }

    open spec fn decodes(j: Json, v: BridgeDestroyed) -> bool {
        &&& j is Object
        &&& required_is::<Bridge>(j, "bridge"@, v.bridge)
    }

    fn from_json(j: &JsonValue) -> (r: Option<BridgeDestroyed>) {
        if !is_object(j) {
            return None;
        }
        let bridge = read_required::<Bridge>(j, "bridge")?;
        Some(BridgeDestroyed {
            bridge,
        })
    }
}

/// Notification that one bridge has been merged into another.
#[derive(Debug, PartialEq)]
pub struct BridgeMerged {
    pub bridge: Bridge,
    pub bridge_from: Bridge,
}

impl FromJson for BridgeMerged {
    open spec fn accepts(j: Json) -> bool {
        &&& j is Object
        &&& required::<Bridge>(j, "bridge"@)
        &&& required::<Bridge>(j, "bridge_from"@)
    }

    open spec fn decodes(j: Json, v: BridgeMerged) -> bool {
        &&& j is Object
        &&& required_is::<Bridge>(j, "bridge"@, v.bridge)
        &&& required_is::<Bridge>(j, "bridge_from"@, v.bridge_from)
    }

    fn from_json(j: &JsonValue) -> (r: Option<BridgeMerged>) {
        if !is_object(j) {
            return None;
        }
        let bridge = read_required::<Bridge>(j, "bridge")?;
        let bridge_from = read_required::<Bridge>(j, "bridge_from")?;
        Some(BridgeMerged {
            bridge,
            bridge_from,
        })
    }
}

/// Notification that the source of video in a bridge has changed.
#[derive(Debug, PartialEq)]
pub struct BridgeVideoSourceChanged {
    pub bridge: Bridge,
    pub old_video_source_id: Option<String>,
}

impl FromJson for BridgeVideoSourceChanged {
    open spec fn accepts(j: Json) -> bool {
        &&& j is Object
        &&& required::<Bridge>(j, "bridge"@)
        &&& optional::<String>(j, "old_video_source_id"@)
    }

    open spec fn decodes(j: Json, v: BridgeVideoSourceChanged) -> bool {
        &&& j is Object
        &&& required_is::<Bridge>(j, "bridge"@, v.bridge)
        &&& optional_is::<String>(j, "old_video_source_id"@, v.old_video_source_id)
    }

    fn from_json(j: &JsonValue) -> (r: Option<BridgeVideoSourceChanged>) {
        if !is_object(j) {
            return None;
        }
        let bridge = read_required::<Bridge>(j, "bridge")?;
        let old_video_source_id = read_optional::<String>(j, "old_video_source_id")?;
        Some(BridgeVideoSourceChanged {
            bridge,
            old_video_source_id,
        })
    }
}

/// Channel changed Caller ID.
#[derive(Debug, PartialEq)]
pub struct ChannelCallerId {
    /// The integer representation of the Caller Presentation value.
    pub caller_presentation: u32,
    /// The text representation of the Caller Presentation value.
    pub caller_presentation_txt: String,
    /// The channel that changed Caller ID.
    pub channel: Channel,
}

impl FromJson for ChannelCallerId {
    open spec fn accepts(j: Json) -> bool {
        &&& j is Object
        &&& required::<u32>(j, "caller_presentation"@)
        &&& required::<String>(j, "caller_presentation_txt"@)
        &&& required::<Channel>(j, "channel"@)
    }

    open spec fn decodes(j: Json, v: ChannelCallerId) -> bool {
        &&& j is Object
        &&& required_is::<u32>(j, "caller_presentation"@, v.caller_presentation)
        &&& required_is::<String>(j, "caller_presentation_txt"@, v.caller_presentation_txt)
        &&& required_is::<Channel>(j, "channel"@, v.channel)
    }

    fn from_json(j: &JsonValue) -> (r: Option<ChannelCallerId>) {
        if !is_object(j) {
            return None;
        }
        let caller_presentation = read_required::<u32>(j, "caller_presentation")?;
        let caller_presentation_txt = read_required::<String>(j, "caller_presentation_txt")?;
        let channel = read_required::<Channel>(j, "channel")?;
        Some(ChannelCallerId {
            caller_presentation,
            caller_presentation_txt,
            channel,
        })
    }
}

/// Channel changed Connected Line.
#[derive(Debug, PartialEq)]
pub struct ChannelConnectedLine {
    /// The channel whose connected line has changed.
    pub channel: Channel,
}

impl FromJson for ChannelConnectedLine {
    open spec fn accepts(j: Json) -> bool {
        &&& j is Object
        &&& required::<Channel>(j, "channel"@)
    }

    open spec fn decodes(j: Json, v: ChannelConnectedLine) -> bool {
        &&& j is Object
        &&& required_is::<Channel>(j, "channel"@, v.channel)
    }

    fn from_json(j: &JsonValue) -> (r: Option<ChannelConnectedLine>) {
        if !is_object(j) {
            return None;
        }
        let channel = read_required::<Channel>(j, "channel")?;
        Some(ChannelConnectedLine {
            channel,
        })
    }
}

/// Notification that a channel has been created.
#[derive(Debug, PartialEq)]
pub struct ChannelCreated {
    pub channel: Channel,
}

impl FromJson for ChannelCreated {
    open spec fn accepts(j: Json) -> bool {
        &&& j is Object
        &&& required::<Channel>(j, "channel"@)
    }

    open spec fn decodes(j: Json, v: ChannelCreated) -> bool {
        &&& j is Object
        &&& required_is::<Channel>(j, "channel"@, v.channel)
    }

    fn from_json(j: &JsonValue) -> (r: Option<ChannelCreated>) {
        if !is_object(j) {
            return None;
        }
        let channel = read_required::<Channel>(j, "channel")?;
        Some(ChannelCreated {
            channel,
        })
    }
}

/// Notification that a channel has been destroyed.
#[derive(Debug, PartialEq)]
pub struct ChannelDestroyed {
    pub cause: u32,
    /// Text representation of the cause of the hangup
    /// Text representation of the cause of the hangup
    pub cause_txt: String,
    pub channel: Channel,
}

impl FromJson for ChannelDestroyed {
    open spec fn accepts(j: Json) -> bool {
        &&& j is Object
        &&& required::<u32>(j, "cause"@)
        &&& required::<String>(j, "cause_txt"@)
        &&& required::<Channel>(j, "channel"@)
    }

    open spec fn decodes(j: Json, v: ChannelDestroyed) -> bool {
        &&& j is Object
        &&& required_is::<u32>(j, "cause"@, v.cause)
        &&& required_is::<String>(j, "cause_txt"@, v.cause_txt)
        &&& required_is::<Channel>(j, "channel"@, v.channel)
    }

    fn from_json(j: &JsonValue) -> (r: Option<ChannelDestroyed>) {
        if !is_object(j) {
            return None;
        }
        let cause = read_required::<u32>(j, "cause")?;
        let cause_txt = read_required::<String>(j, "cause_txt")?;
        let channel = read_required::<Channel>(j, "channel")?;
        Some(ChannelDestroyed {
            cause,
            cause_txt,
            channel,
        })
    }
}

/// Channel changed location in the dialplan.
#[derive(Debug, PartialEq)]
pub struct ChannelDialplan {
    /// The channel that changed dialplan location.
    pub channel: Channel,
    /// The application about to be executed.
    pub dialplan_app: String,
    /// The data to be passed to the application.
    pub dialplan_app_data: String,
}

impl FromJson for ChannelDialplan {
    open spec fn accepts(j: Json) -> bool {
        &&& j is Object
        &&& required::<Channel>(j, "channel"@)
        &&& required::<String>(j, "dialplan_app"@)
        &&& required::<String>(j, "dialplan_app_data"@)
    }

    open spec fn decodes(j: Json, v: ChannelDialplan) -> bool {
        &&& j is Object
        &&& required_is::<Channel>(j, "channel"@, v.channel)
        &&& required_is::<String>(j, "dialplan_app"@, v.dialplan_app)
        &&& required_is::<String>(j, "dialplan_app_data"@, v.dialplan_app_data)
    }

    fn from_json(j: &JsonValue) -> (r: Option<ChannelDialplan>) {
        if !is_object(j) {
            return None;
        }
        let channel = read_required::<Channel>(j, "channel")?;
        let dialplan_app = read_required::<String>(j, "dialplan_app")?;
        let dialplan_app_data = read_required::<String>(j, "dialplan_app_data")?;
        Some(ChannelDialplan {
            channel,
            dialplan_app,
            dialplan_app_data,
        })
    }
}

/// DTMF received on a channel.
/// This event is sent when the DTMF ends. There is no notification about the start of DTMF
#[derive(Debug, PartialEq)]
pub struct ChannelDtmfReceived {
    /// DTMF digit received (0-9, A-E, # or *)
    pub digit: String,
    /// Number of milliseconds DTMF was received
    pub duration_ms: u32,
    /// The channel on which DTMF was received
    pub channel: Channel,
}

impl FromJson for ChannelDtmfReceived {
    open spec fn accepts(j: Json) -> bool {
        &&& j is Object
        &&& required::<String>(j, "digit"@)
        &&& required::<u32>(j, "duration_ms"@)
        &&& required::<Channel>(j, "channel"@)
    }

    open spec fn decodes(j: Json, v: ChannelDtmfReceived) -> bool {
        &&& j is Object
        &&& required_is::<String>(j, "digit"@, v.digit)
        &&& required_is::<u32>(j, "duration_ms"@, v.duration_ms)
        &&& required_is::<Channel>(j, "channel"@, v.channel)
    }

    fn from_json(j: &JsonValue) -> (r: Option<ChannelDtmfReceived>) {
        if !is_object(j) {
            return None;
        }
        let digit = read_required::<String>(j, "digit")?;
        let duration_ms = read_required::<u32>(j, "duration_ms")?;
        let channel = read_required::<Channel>(j, "channel")?;
        Some(ChannelDtmfReceived {
            digit,
            duration_ms,
            channel,
        })
    }
}

/// Notification that a channel has entered a bridge.
#[derive(Debug, PartialEq)]
pub struct ChannelEnteredBridge {
    pub bridge: Bridge,
    pub channel: Option<Channel>,
}

impl FromJson for ChannelEnteredBridge {
    open spec fn accepts(j: Json) -> bool {
        &&& j is Object
        &&& required::<Bridge>(j, "bridge"@)
        &&& optional::<Channel>(j, "channel"@)
    }

    open spec fn decodes(j: Json, v: ChannelEnteredBridge) -> bool {
        &&& j is Object
        &&& required_is::<Bridge>(j, "bridge"@, v.bridge)
        &&& optional_is::<Channel>(j, "channel"@, v.channel)
    }

    fn from_json(j: &JsonValue) -> (r: Option<ChannelEnteredBridge>) {
        if !is_object(j) {
            return None;
        }
        let bridge = read_required::<Bridge>(j, "bridge")?;
        let channel = read_optional::<Channel>(j, "channel")?;
        Some(ChannelEnteredBridge {
            bridge,
            channel,
        })
    }
}

/// A hangup was requested on the channel.
#[derive(Debug, PartialEq)]
pub struct ChannelHangupRequest {
    /// Integer representation of the cause of the hangup.
    pub cause: u32,
    /// Whether the hangup request was a soft hangup request.
    pub soft: Option<bool>,
    /// The channel on which the hangup was requested.
    pub channel: Channel,
}

impl FromJson for ChannelHangupRequest {
    open spec fn accepts(j: Json) -> bool {
        &&& j is Object
        &&& required::<u32>(j, "cause"@)
        &&& optional::<bool>(j, "soft"@)
        &&& required::<Channel>(j, "channel"@)
    }

    open spec fn decodes(j: Json, v: ChannelHangupRequest) -> bool {
        &&& j is Object
        &&& required_is::<u32>(j, "cause"@, v.cause)
        &&& optional_is::<bool>(j, "soft"@, v.soft)
        &&& required_is::<Channel>(j, "channel"@, v.channel)
    }

    fn from_json(j: &JsonValue) -> (r: Option<ChannelHangupRequest>) {
        if !is_object(j) {
            return None;
        }
        let cause = read_required::<u32>(j, "cause")?;
        let soft = read_optional::<bool>(j, "soft")?;
        let channel = read_required::<Channel>(j, "channel")?;
        Some(ChannelHangupRequest {
            cause,
            soft,
            channel,
        })
    }
}

/// A channel initiated a media hold.
#[derive(Debug, PartialEq)]
pub struct ChannelHold {
    pub channel: Channel,
    /// The music on hold class that the initiator requested.
    pub musicclass: Option<String>,
}

impl FromJson for ChannelHold {
    open spec fn accepts(j: Json) -> bool {
        &&& j is Object
        &&& required::<Channel>(j, "channel"@)
        &&& optional::<String>(j, "musicclass"@)
    }

    open spec fn decodes(j: Json, v: ChannelHold) -> bool {
        &&& j is Object
        &&& required_is::<Channel>(j, "channel"@, v.channel)
        &&& optional_is::<String>(j, "musicclass"@, v.musicclass)
    }

    fn from_json(j: &JsonValue) -> (r: Option<ChannelHold>) {
        if !is_object(j) {
            return None;
        }
        let channel = read_required::<Channel>(j, "channel")?;
        let musicclass = read_optional::<String>(j, "musicclass")?;
        Some(ChannelHold {
            channel,
            musicclass,
        })
    }
}

/// Notification that a channel has left a bridge.
#[derive(Debug, PartialEq)]
pub struct ChannelLeftBridge {
    pub bridge: Bridge,
    pub channel: Channel,
}

impl FromJson for ChannelLeftBridge {
    open spec fn accepts(j: Json) -> bool {
        &&& j is Object
        &&& required::<Bridge>(j, "bridge"@)
        &&& required::<Channel>(j, "channel"@)
    }

    open spec fn decodes(j: Json, v: ChannelLeftBridge) -> bool {
        &&& j is Object
        &&& required_is::<Bridge>(j, "bridge"@, v.bridge)
        &&& required_is::<Channel>(j, "channel"@, v.channel)
    }

    fn from_json(j: &JsonValue) -> (r: Option<ChannelLeftBridge>) {
        if !is_object(j) {
            return None;
        }
        let bridge = read_required::<Bridge>(j, "bridge")?;
        let channel = read_required::<Channel>(j, "channel")?;
        Some(ChannelLeftBridge {
            bridge,
            channel,
        })
    }
}

/// Notification of a channel's state change.
#[derive(Debug, PartialEq)]
pub struct ChannelStateChange {
    pub channel: Channel,
}

impl FromJson for ChannelStateChange {
    open spec fn accepts(j: Json) -> bool {
        &&& j is Object
        &&& required::<Channel>(j, "channel"@)
    }

    open spec fn decodes(j: Json, v: ChannelStateChange) -> bool {
        &&& j is Object
        &&& required_is::<Channel>(j, "channel"@, v.channel)
    }

    fn from_json(j: &JsonValue) -> (r: Option<ChannelStateChange>) {
        if !is_object(j) {
            return None;
        }
        let channel = read_required::<Channel>(j, "channel")?;
        Some(ChannelStateChange {
            channel,
        })
    }
}

/// Talking is no longer detected on the channel.
#[derive(Debug, PartialEq)]
pub struct ChannelTalkingFinished {
    pub channel: Channel,
    pub duration: u32,
}

impl FromJson for ChannelTalkingFinished {
    open spec fn accepts(j: Json) -> bool {
        &&& j is Object
        &&& required::<Channel>(j, "channel"@)
        &&& required::<u32>(j, "duration"@)
    }

    open spec fn decodes(j: Json, v: ChannelTalkingFinished) -> bool {
        &&& j is Object
        &&& required_is::<Channel>(j, "channel"@, v.channel)
        &&& required_is::<u32>(j, "duration"@, v.duration)
    }

    fn from_json(j: &JsonValue) -> (r: Option<ChannelTalkingFinished>) {
        if !is_object(j) {
            return None;
        }
        let channel = read_required::<Channel>(j, "channel")?;
        let duration = read_required::<u32>(j, "duration")?;
        Some(ChannelTalkingFinished {
            channel,
            duration,
        })
    }
}

/// Talking was detected on the channel.
#[derive(Debug, PartialEq)]
pub struct ChannelTalkingStarted {
    pub channel: Channel,
}

impl FromJson for ChannelTalkingStarted {
    open spec fn accepts(j: Json) -> bool {
        &&& j is Object
        &&& required::<Channel>(j, "channel"@)
    }

    open spec fn decodes(j: Json, v: ChannelTalkingStarted) -> bool {
        &&& j is Object
        &&& required_is::<Channel>(j, "channel"@, v.channel)
    }

    fn from_json(j: &JsonValue) -> (r: Option<ChannelTalkingStarted>) {
        if !is_object(j) {
            return None;
        }
        let channel = read_required::<Channel>(j, "channel")?;
        Some(ChannelTalkingStarted {
            channel,
        })
    }
}

/// Tone was detected on the channel.
#[derive(Debug, PartialEq)]
pub struct ChannelToneDetected {
    pub channel: Channel,
}

impl FromJson for ChannelToneDetected {
    open spec fn accepts(j: Json) -> bool {
        &&& j is Object
        &&& required::<Channel>(j, "channel"@)
    }

    open spec fn decodes(j: Json, v: ChannelToneDetected) -> bool {
        &&& j is Object
        &&& required_is::<Channel>(j, "channel"@, v.channel)
    }

    fn from_json(j: &JsonValue) -> (r: Option<ChannelToneDetected>) {
        if !is_object(j) {
            return None;
        }
        let channel = read_required::<Channel>(j, "channel")?;
        Some(ChannelToneDetected {
            channel,
        })
    }
}

/// A channel initiated a media unhold.
#[derive(Debug, PartialEq)]
pub struct ChannelUnhold {
    pub channel: Channel,
}

impl FromJson for ChannelUnhold {
    open spec fn accepts(j: Json) -> bool {
        &&& j is Object
        &&& required::<Channel>(j, "channel"@)
    }

    open spec fn decodes(j: Json, v: ChannelUnhold) -> bool {
        &&& j is Object
        &&& required_is::<Channel>(j, "channel"@, v.channel)
    }

    fn from_json(j: &JsonValue) -> (r: Option<ChannelUnhold>) {
        if !is_object(j) {
            return None;
        }
        let channel = read_required::<Channel>(j, "channel")?;
        Some(ChannelUnhold {
            channel,
        })
    }
}

/// A user event, with fields that the user defined.
#[derive(Debug, PartialEq)]
pub struct ChannelUserEvent {
    /// The name of the user event.
    pub event_name: String,
    /// A channel that is signaled with the user event.
    pub channel: Option<Channel>,
    /// A bridge that is signaled with the user event.
    pub bridge: Option<Bridge>,
    /// A endpoint that is signaled with the user event.
    pub endpoint: Option<Endpoint>,
    /// Custom Userevent data
    pub user_event: Option<JsonValue>,
}

impl FromJson for ChannelUserEvent {
    open spec fn accepts(j: Json) -> bool {
        &&& j is Object
        &&& required::<String>(j, "eventname"@)
        &&& optional::<Channel>(j, "channel"@)
        &&& optional::<Bridge>(j, "bridge"@)
        &&& optional::<Endpoint>(j, "endpoint"@)
        &&& optional::<JsonValue>(j, "userevent"@)
    }

    open spec fn decodes(j: Json, v: ChannelUserEvent) -> bool {
        &&& j is Object
        &&& required_is::<String>(j, "eventname"@, v.event_name)
        &&& optional_is::<Channel>(j, "channel"@, v.channel)
        &&& optional_is::<Bridge>(j, "bridge"@, v.bridge)
        &&& optional_is::<Endpoint>(j, "endpoint"@, v.endpoint)
        &&& optional_is::<JsonValue>(j, "userevent"@, v.user_event)
    }

    fn from_json(j: &JsonValue) -> (r: Option<ChannelUserEvent>) {
        if !is_object(j) {
            return None;
        }
        let event_name = read_required::<String>(j, "eventname")?;
        let channel = read_optional::<Channel>(j, "channel")?;
        let bridge = read_optional::<Bridge>(j, "bridge")?;
        let endpoint = read_optional::<Endpoint>(j, "endpoint")?;
        let user_event = read_optional::<JsonValue>(j, "userevent")?;
        Some(ChannelUserEvent {
            event_name,
            channel,
            bridge,
            endpoint,
            user_event,
        })
    }
}

/// Channel variable changed.
#[derive(Debug, PartialEq)]
pub struct ChannelVarSet {
    /// The variable that changed.
    pub variable: String,
    /// The new value of the variable.
    pub value: String,
    /// The channel on which the variable was set.
    /// If missing, the variable is a global variable.
    pub channel: Option<Channel>,
}

impl FromJson for ChannelVarSet {
    open spec fn accepts(j: Json) -> bool {
        &&& j is Object
        &&& required::<String>(j, "variable"@)
        &&& required::<String>(j, "value"@)
        &&& optional::<Channel>(j, "channel"@)
    }

    open spec fn decodes(j: Json, v: ChannelVarSet) -> bool {
        &&& j is Object
        &&& required_is::<String>(j, "variable"@, v.variable)
        &&& required_is::<String>(j, "value"@, v.value)
        &&& optional_is::<Channel>(j, "channel"@, v.channel)
    }

    fn from_json(j: &JsonValue) -> (r: Option<ChannelVarSet>) {
        if !is_object(j) {
            return None;
        }
        let variable = read_required::<String>(j, "variable")?;
        let value = read_required::<String>(j, "value")?;
        let channel = read_optional::<Channel>(j, "channel")?;
        Some(ChannelVarSet {
            variable,
            value,
            channel,
        })
    }
}

/// Detailed information about a contact on an endpoint.
#[derive(Debug, PartialEq)]
pub struct ContactInfo {
    /// The location of the contact.
    pub uri: String,
    /// The current status of the contact.
    pub contact_status: String,
    /// The Address of Record this contact belongs to.
    pub aor: String,
    /// Current round trip time, in microseconds, for the contact.
    pub roundtrip_usec: Option<String>,
}

impl FromJson for ContactInfo {
    open spec fn accepts(j: Json) -> bool {
        &&& j is Object
        &&& required::<String>(j, "uri"@)
        &&& required::<String>(j, "contact_status"@)
        &&& required::<String>(j, "aor"@)
        &&& optional::<String>(j, "roundtrip_usec"@)
    }

    open spec fn decodes(j: Json, v: ContactInfo) -> bool {
        &&& j is Object
        &&& required_is::<String>(j, "uri"@, v.uri)
        &&& required_is::<String>(j, "contact_status"@, v.contact_status)
        &&& required_is::<String>(j, "aor"@, v.aor)
        &&& optional_is::<String>(j, "roundtrip_usec"@, v.roundtrip_usec)
    }

    fn from_json(j: &JsonValue) -> (r: Option<ContactInfo>) {
        if !is_object(j) {
            return None;
        }
        let uri = read_required::<String>(j, "uri")?;
        let contact_status = read_required::<String>(j, "contact_status")?;
        let aor = read_required::<String>(j, "aor")?;
        let roundtrip_usec = read_optional::<String>(j, "roundtrip_usec")?;
        Some(ContactInfo {
            uri,
            contact_status,
            aor,
            roundtrip_usec,
        })
    }
}

/// The state of a contact on an endpoint has changed.
#[derive(Debug, PartialEq)]
pub struct ContactStatusChange {
    pub endpoint: Endpoint,
    pub contact_info: ContactInfo,
}

impl FromJson for ContactStatusChange {
    open spec fn accepts(j: Json) -> bool {
        &&& j is Object
        &&& required::<Endpoint>(j, "endpoint"@)
        &&& required::<ContactInfo>(j, "contact_info"@)
    }

    open spec fn decodes(j: Json, v: ContactStatusChange) -> bool {
        &&& j is Object
        &&& required_is::<Endpoint>(j, "endpoint"@, v.endpoint)
        &&& required_is::<ContactInfo>(j, "contact_info"@, v.contact_info)
    }

    fn from_json(j: &JsonValue) -> (r: Option<ContactStatusChange>) {
        if !is_object(j) {
            return None;
        }
        let endpoint = read_required::<Endpoint>(j, "endpoint")?;
        let contact_info = read_required::<ContactInfo>(j, "contact_info")?;
        Some(ContactStatusChange {
            endpoint,
            contact_info,
        })
    }
}

/// Notification that a device state has changed.
#[derive(Debug, PartialEq)]
pub struct DeviceStateChanged {
    /// Device state object
    pub device_state: DeviceState,
}

impl FromJson for DeviceStateChanged {
    open spec fn accepts(j: Json) -> bool {
        &&& j is Object
        &&& required::<DeviceState>(j, "device_state"@)
    }

    open spec fn decodes(j: Json, v: DeviceStateChanged) -> bool {
        &&& j is Object
        &&& required_is::<DeviceState>(j, "device_state"@, v.device_state)
    }

    fn from_json(j: &JsonValue) -> (r: Option<DeviceStateChanged>) {
        if !is_object(j) {
            return None;
        }
        let device_state = read_required::<DeviceState>(j, "device_state")?;
        Some(DeviceStateChanged {
            device_state,
        })
    }
}

/// Dialing state has changed.
#[derive(Debug, PartialEq)]
pub struct Dial {
    /// The calling channel.
    pub caller: Option<Channel>,
    /// The dialed channel.
    pub peer: Option<Channel>,
    /// Forwarding target requested by the dialed channel.
    pub forward: Option<String>,
    pub forwarded: Option<Channel>,
    /// The dial string for calling the peer channel.
    pub dialstring: Option<String>,
    /// Current status of the dialing attempt to the peer.
    pub dialstatus: String,
}

impl FromJson for Dial {
    open spec fn accepts(j: Json) -> bool {
        &&& j is Object
        &&& optional::<Channel>(j, "caller"@)
        &&& optional::<Channel>(j, "peer"@)
        &&& optional::<String>(j, "forward"@)
        &&& optional::<Channel>(j, "forwarded"@)
        &&& optional::<String>(j, "dialstring"@)
        &&& required::<String>(j, "dialstatus"@)
    }

    open spec fn decodes(j: Json, v: Dial) -> bool {
        &&& j is Object
        &&& optional_is::<Channel>(j, "caller"@, v.caller)
        &&& optional_is::<Channel>(j, "peer"@, v.peer)
        &&& optional_is::<String>(j, "forward"@, v.forward)
        &&& optional_is::<Channel>(j, "forwarded"@, v.forwarded)
        &&& optional_is::<String>(j, "dialstring"@, v.dialstring)
        &&& required_is::<String>(j, "dialstatus"@, v.dialstatus)
    }

    fn from_json(j: &JsonValue) -> (r: Option<Dial>) {
        if !is_object(j) {
            return None;
        }
        let caller = read_optional::<Channel>(j, "caller")?;
        let peer = read_optional::<Channel>(j, "peer")?;
        let forward = read_optional::<String>(j, "forward")?;
        let forwarded = read_optional::<Channel>(j, "forwarded")?;
        let dialstring = read_optional::<String>(j, "dialstring")?;
        let dialstatus = read_required::<String>(j, "dialstatus")?;
        Some(Dial {
            caller,
            peer,
            forward,
            forwarded,
            dialstring,
            dialstatus,
        })
    }
}

/// Endpoint state changed.
#[derive(Debug, PartialEq)]
pub struct EndpointStateChange {
    pub endpoint: Endpoint,
}

impl FromJson for EndpointStateChange {
    open spec fn accepts(j: Json) -> bool {
        &&& j is Object
        &&& required::<Endpoint>(j, "endpoint"@)
    }

    open spec fn decodes(j: Json, v: EndpointStateChange) -> bool {
        &&& j is Object
        &&& required_is::<Endpoint>(j, "endpoint"@, v.endpoint)
    }

    fn from_json(j: &JsonValue) -> (r: Option<EndpointStateChange>) {
        if !is_object(j) {
            return None;
        }
        let endpoint = read_required::<Endpoint>(j, "endpoint")?;
        Some(EndpointStateChange {
            endpoint,
        })
    }
}

/// Error event sent when required params are missing.
#[derive(Debug, PartialEq)]
pub struct MissingParams {
    /// A list of the missing parameters
    pub params: Vec<String>,
}

impl FromJson for MissingParams {
    open spec fn accepts(j: Json) -> bool {
        &&& j is Object
        &&& required::<Vec<String>>(j, "params"@)
    }

    open spec fn decodes(j: Json, v: MissingParams) -> bool {
        &&& j is Object
        &&& required_is::<Vec<String>>(j, "params"@, v.params)
    }

    fn from_json(j: &JsonValue) -> (r: Option<MissingParams>) {
        if !is_object(j) {
            return None;
        }
        let params = read_required::<Vec<String>>(j, "params")?;
        Some(MissingParams {
            params,
        })
    }
}

/// Detailed information about a remote peer that communicates with Asterisk.
#[derive(Debug, PartialEq)]
pub struct Peer {
    /// The current state of the peer. Note that the values of the status are dependent on the underlying peer technology.
    pub peer_status: String,
    /// An optional reason associated with the change in peer_status.
    pub cause: Option<String>,
    /// The IP address of the peer.
    pub address: Option<String>,
    /// The port of the peer.
    pub port: Option<String>,
    /// The last known time the peer was contacted.
    pub time: Option<String>,
}

impl FromJson for Peer {
    open spec fn accepts(j: Json) -> bool {
        &&& j is Object
        &&& required::<String>(j, "peer_status"@)
        &&& optional::<String>(j, "cause"@)
        &&& optional::<String>(j, "address"@)
        &&& optional::<String>(j, "port"@)
        &&& optional::<String>(j, "time"@)
    }

    open spec fn decodes(j: Json, v: Peer) -> bool {
        &&& j is Object
        &&& required_is::<String>(j, "peer_status"@, v.peer_status)
        &&& optional_is::<String>(j, "cause"@, v.cause)
        &&& optional_is::<String>(j, "address"@, v.address)
        &&& optional_is::<String>(j, "port"@, v.port)
        &&& optional_is::<String>(j, "time"@, v.time)
    }

    fn from_json(j: &JsonValue) -> (r: Option<Peer>) {
        if !is_object(j) {
            return None;
        }
        let peer_status = read_required::<String>(j, "peer_status")?;
        let cause = read_optional::<String>(j, "cause")?;
        let address = read_optional::<String>(j, "address")?;
        let port = read_optional::<String>(j, "port")?;
        let time = read_optional::<String>(j, "time")?;
        Some(Peer {
            peer_status,
            cause,
            address,
            port,
            time,
        })
    }
}

/// The state of a peer associated with an endpoint has changed.
#[derive(Debug, PartialEq)]
pub struct PeerStatusChange {
    pub endpoint: Endpoint,
    pub peer: Peer,
}

impl FromJson for PeerStatusChange {
    open spec fn accepts(j: Json) -> bool {
        &&& j is Object
        &&& required::<Endpoint>(j, "endpoint"@)
        &&& required::<Peer>(j, "peer"@)
    }

    open spec fn decodes(j: Json, v: PeerStatusChange) -> bool {
        &&& j is Object
        &&& required_is::<Endpoint>(j, "endpoint"@, v.endpoint)
        &&& required_is::<Peer>(j, "peer"@, v.peer)
    }

    fn from_json(j: &JsonValue) -> (r: Option<PeerStatusChange>) {
        if !is_object(j) {
            return None;
        }
        let endpoint = read_required::<Endpoint>(j, "endpoint")?;
        let peer = read_required::<Peer>(j, "peer")?;
        Some(PeerStatusChange {
            endpoint,
            peer,
        })
    }
}

/// Event showing the continuation of a media playback operation from one media URI to the next in the list.
#[derive(Debug, PartialEq)]
pub struct PlaybackContinuing {
    /// Playback control object
    pub playback: Playback,
}

impl FromJson for PlaybackContinuing {
    open spec fn accepts(j: Json) -> bool {
        &&& j is Object
        &&& required::<Playback>(j, "playback"@)
    }

    open spec fn decodes(j: Json, v: PlaybackContinuing) -> bool {
        &&& j is Object
        &&& required_is::<Playback>(j, "playback"@, v.playback)
    }

    fn from_json(j: &JsonValue) -> (r: Option<PlaybackContinuing>) {
        if !is_object(j) {
            return None;
        }
        let playback = read_required::<Playback>(j, "playback")?;
        Some(PlaybackContinuing {
            playback,
        })
    }
}

/// Event showing the completion of a media playback operation.
#[derive(Debug, PartialEq)]
pub struct PlaybackFinished {
    /// Playback control object
    pub playback: Playback,
}

impl FromJson for PlaybackFinished {
    open spec fn accepts(j: Json) -> bool {
        &&& j is Object
        &&& required::<Playback>(j, "playback"@)
    }

    open spec fn decodes(j: Json, v: PlaybackFinished) -> bool {
        &&& j is Object
        &&& required_is::<Playback>(j, "playback"@, v.playback)
    }

    fn from_json(j: &JsonValue) -> (r: Option<PlaybackFinished>) {
        if !is_object(j) {
            return None;
        }
        let playback = read_required::<Playback>(j, "playback")?;
        Some(PlaybackFinished {
            playback,
        })
    }
}

/// Event showing the start of a media playback operation.
#[derive(Debug, PartialEq)]
pub struct PlaybackStarted {
    pub playback: Playback,
}

impl FromJson for PlaybackStarted {
    open spec fn accepts(j: Json) -> bool {
        &&& j is Object
        &&& required::<Playback>(j, "playback"@)
    }

    open spec fn decodes(j: Json, v: PlaybackStarted) -> bool {
        &&& j is Object
        &&& required_is::<Playback>(j, "playback"@, v.playback)
    }

    fn from_json(j: &JsonValue) -> (r: Option<PlaybackStarted>) {
        if !is_object(j) {
            return None;
        }
        let playback = read_required::<Playback>(j, "playback")?;
        Some(PlaybackStarted {
            playback,
        })
    }
}

/// Event showing failure of a recording operation.
#[derive(Debug, PartialEq)]
pub struct RecordingFailed {
    /// Recording control object
    pub recording: LiveRecording,
}

impl FromJson for RecordingFailed {
    open spec fn accepts(j: Json) -> bool {
        &&& j is Object
        &&& required::<LiveRecording>(j, "recording"@)
    }

    open spec fn decodes(j: Json, v: RecordingFailed) -> bool {
        &&& j is Object
        &&& required_is::<LiveRecording>(j, "recording"@, v.recording)
    }

    fn from_json(j: &JsonValue) -> (r: Option<RecordingFailed>) {
        if !is_object(j) {
            return None;
        }
        let recording = read_required::<LiveRecording>(j, "recording")?;
        Some(RecordingFailed {
            recording,
        })
    }
}

/// Event showing the completion of a recording operation.
#[derive(Debug, PartialEq)]
pub struct RecordingFinished {
    pub recording: LiveRecording,
}

impl FromJson for RecordingFinished {
    open spec fn accepts(j: Json) -> bool {
        &&& j is Object
        &&& required::<LiveRecording>(j, "recording"@)
    }

    open spec fn decodes(j: Json, v: RecordingFinished) -> bool {
        &&& j is Object
        &&& required_is::<LiveRecording>(j, "recording"@, v.recording)
    }

    fn from_json(j: &JsonValue) -> (r: Option<RecordingFinished>) {
        if !is_object(j) {
            return None;
        }
        let recording = read_required::<LiveRecording>(j, "recording")?;
        Some(RecordingFinished {
            recording,
        })
    }
}

/// Event showing the start of a recording operation.
#[derive(Debug, PartialEq)]
pub struct RecordingStarted {
    pub recording: LiveRecording,
}

impl FromJson for RecordingStarted {
    open spec fn accepts(j: Json) -> bool {
        &&& j is Object
        &&& required::<LiveRecording>(j, "recording"@)
    }

    open spec fn decodes(j: Json, v: RecordingStarted) -> bool {
        &&& j is Object
        &&& required_is::<LiveRecording>(j, "recording"@, v.recording)
    }

    fn from_json(j: &JsonValue) -> (r: Option<RecordingStarted>) {
        if !is_object(j) {
            return None;
        }
        let recording = read_required::<LiveRecording>(j, "recording")?;
        Some(RecordingStarted {
            recording,
        })
    }
}

/// Notification that a channel has left a Stasis application.
#[derive(Debug, PartialEq)]
pub struct StasisEnd {
    pub channel: Channel,
}

impl FromJson for StasisEnd {
    open spec fn accepts(j: Json) -> bool {
        &&& j is Object
        &&& required::<Channel>(j, "channel"@)
    }

    open spec fn decodes(j: Json, v: StasisEnd) -> bool {
        &&& j is Object
        &&& required_is::<Channel>(j, "channel"@, v.channel)
    }

    fn from_json(j: &JsonValue) -> (r: Option<StasisEnd>) {
        if !is_object(j) {
            return None;
        }
        let channel = read_required::<Channel>(j, "channel")?;
        Some(StasisEnd {
            channel,
        })
    }
}

/// Notification that a channel has entered a Stasis application.
#[derive(Debug, PartialEq)]
pub struct StasisStart {
    pub args: Vec<String>,
    pub channel: Channel,
    pub replace_channel: Option<Channel>,
}

impl FromJson for StasisStart {
    open spec fn accepts(j: Json) -> bool {
        &&& j is Object
        &&& required::<Vec<String>>(j, "args"@)
        &&& required::<Channel>(j, "channel"@)
        &&& optional::<Channel>(j, "replace_channel"@)
    }

    open spec fn decodes(j: Json, v: StasisStart) -> bool {
        &&& j is Object
        &&& required_is::<Vec<String>>(j, "args"@, v.args)
        &&& required_is::<Channel>(j, "channel"@, v.channel)
        &&& optional_is::<Channel>(j, "replace_channel"@, v.replace_channel)
    }

    fn from_json(j: &JsonValue) -> (r: Option<StasisStart>) {
        if !is_object(j) {
            return None;
        }
        let args = read_required::<Vec<String>>(j, "args")?;
        let channel = read_required::<Channel>(j, "channel")?;
        let replace_channel = read_optional::<Channel>(j, "replace_channel")?;
        Some(StasisStart {
            args,
            channel,
            replace_channel,
        })
    }
}

/// A text message was received from an endpoint.
#[derive(Debug, PartialEq)]
pub struct TextMessageReceived {
    pub message: TextMessage,
    pub endpoint: Option<Endpoint>,
}

impl FromJson for TextMessageReceived {
    open spec fn accepts(j: Json) -> bool {
        &&& j is Object
        &&& required::<TextMessage>(j, "message"@)
        &&& optional::<Endpoint>(j, "endpoint"@)
    }

    open spec fn decodes(j: Json, v: TextMessageReceived) -> bool {
        &&& j is Object
        &&& required_is::<TextMessage>(j, "message"@, v.message)
        &&& optional_is::<Endpoint>(j, "endpoint"@, v.endpoint)
    }

    fn from_json(j: &JsonValue) -> (r: Option<TextMessageReceived>) {
        if !is_object(j) {
            return None;
        }
        let message = read_required::<TextMessage>(j, "message")?;
        let endpoint = read_optional::<Endpoint>(j, "endpoint")?;
        Some(TextMessageReceived {
            message,
            endpoint,
        })
    }
}

/// An event of the feed: one of the known kinds with its envelope, or
/// `Unknown` with the document as it came.
#[derive(Debug, PartialEq)]
pub enum Event {
    ApplicationMoveFailed(BaseEvent<ApplicationMoveFailed>),
    ApplicationReplaced(BaseEvent<ApplicationReplaced>),
    BridgeAttendedTransfer(BaseEvent<BridgeAttendedTransfer>),
    BridgeBlindTransfer(BaseEvent<BridgeBlindTransfer>),
    BridgeCreated(BaseEvent<BridgeCreated>),
    BridgeDestroyed(BaseEvent<BridgeDestroyed>),
    BridgeMerged(BaseEvent<BridgeMerged>),
    BridgeVideoSourceChanged(BaseEvent<BridgeVideoSourceChanged>),
    ChannelCallerId(BaseEvent<ChannelCallerId>),
    ChannelConnectedLine(BaseEvent<ChannelConnectedLine>),
    ChannelCreated(BaseEvent<ChannelCreated>),
    ChannelDestroyed(BaseEvent<ChannelDestroyed>),
    ChannelDialplan(BaseEvent<ChannelDialplan>),
    ChannelDtmfReceived(BaseEvent<ChannelDtmfReceived>),
    ChannelEnteredBridge(BaseEvent<ChannelEnteredBridge>),
    ChannelHangupRequest(BaseEvent<ChannelHangupRequest>),
    ChannelHold(BaseEvent<ChannelHold>),
    ChannelLeftBridge(BaseEvent<ChannelLeftBridge>),
    ChannelStateChange(BaseEvent<ChannelStateChange>),
    ChannelTalkingFinished(BaseEvent<ChannelTalkingFinished>),
    ChannelTalkingStarted(BaseEvent<ChannelTalkingStarted>),
    ChannelToneDetected(BaseEvent<ChannelToneDetected>),
    ChannelUnhold(BaseEvent<ChannelUnhold>),
    ChannelUserEvent(BaseEvent<ChannelUserEvent>),
    ChannelVarSet(BaseEvent<ChannelVarSet>),
    ContactInfo(BaseEvent<ContactInfo>),
    ContactStatusChange(BaseEvent<ContactStatusChange>),
    DeviceStateChanged(BaseEvent<DeviceStateChanged>),
    Dial(BaseEvent<Dial>),
    EndpointStateChange(BaseEvent<EndpointStateChange>),
    MissingParams(BaseEvent<MissingParams>),
    Peer(BaseEvent<Peer>),
    PeerStatusChange(BaseEvent<PeerStatusChange>),
    PlaybackContinuing(BaseEvent<PlaybackContinuing>),
    PlaybackFinished(BaseEvent<PlaybackFinished>),
    PlaybackStarted(BaseEvent<PlaybackStarted>),
    RecordingFailed(BaseEvent<RecordingFailed>),
    RecordingFinished(BaseEvent<RecordingFinished>),
    RecordingStarted(BaseEvent<RecordingStarted>),
    StasisEnd(BaseEvent<StasisEnd>),
    StasisStart(BaseEvent<StasisStart>),
    TextMessageReceived(BaseEvent<TextMessageReceived>),
    Unknown(JsonValue),
}

impl Event {
    /// The name of the event's kind, under which handlers are registered.
    pub open spec fn kind_name(self) -> Seq<char> {
        match self {
            Event::ApplicationMoveFailed(_) => "ApplicationMoveFailed"@,
            Event::ApplicationReplaced(_) => "ApplicationReplaced"@,
            Event::BridgeAttendedTransfer(_) => "BridgeAttendedTransfer"@,
            Event::BridgeBlindTransfer(_) => "BridgeBlindTransfer"@,
            Event::BridgeCreated(_) => "BridgeCreated"@,
            Event::BridgeDestroyed(_) => "BridgeDestroyed"@,
            Event::BridgeMerged(_) => "BridgeMerged"@,
            Event::BridgeVideoSourceChanged(_) => "BridgeVideoSourceChanged"@,
            Event::ChannelCallerId(_) => "ChannelCallerId"@,
            Event::ChannelConnectedLine(_) => "ChannelConnectedLine"@,
            Event::ChannelCreated(_) => "ChannelCreated"@,
            Event::ChannelDestroyed(_) => "ChannelDestroyed"@,
            Event::ChannelDialplan(_) => "ChannelDialplan"@,
            Event::ChannelDtmfReceived(_) => "ChannelDtmfReceived"@,
            Event::ChannelEnteredBridge(_) => "ChannelEnteredBridge"@,
            Event::ChannelHangupRequest(_) => "ChannelHangupRequest"@,
            Event::ChannelHold(_) => "ChannelHold"@,
            Event::ChannelLeftBridge(_) => "ChannelLeftBridge"@,
            Event::ChannelStateChange(_) => "ChannelStateChange"@,
            Event::ChannelTalkingFinished(_) => "ChannelTalkingFinished"@,
            Event::ChannelTalkingStarted(_) => "ChannelTalkingStarted"@,
            Event::ChannelToneDetected(_) => "ChannelToneDetected"@,
            Event::ChannelUnhold(_) => "ChannelUnhold"@,
            Event::ChannelUserEvent(_) => "ChannelUserEvent"@,
            Event::ChannelVarSet(_) => "ChannelVarSet"@,
            Event::ContactInfo(_) => "ContactInfo"@,
            Event::ContactStatusChange(_) => "ContactStatusChange"@,
            Event::DeviceStateChanged(_) => "DeviceStateChanged"@,
            Event::Dial(_) => "Dial"@,
            Event::EndpointStateChange(_) => "EndpointStateChange"@,
            Event::MissingParams(_) => "MissingParams"@,
            Event::Peer(_) => "Peer"@,
            Event::PeerStatusChange(_) => "PeerStatusChange"@,
            Event::PlaybackContinuing(_) => "PlaybackContinuing"@,
            Event::PlaybackFinished(_) => "PlaybackFinished"@,
            Event::PlaybackStarted(_) => "PlaybackStarted"@,
            Event::RecordingFailed(_) => "RecordingFailed"@,
            Event::RecordingFinished(_) => "RecordingFinished"@,
            Event::RecordingStarted(_) => "RecordingStarted"@,
            Event::StasisEnd(_) => "StasisEnd"@,
            Event::StasisStart(_) => "StasisStart"@,
            Event::TextMessageReceived(_) => "TextMessageReceived"@,
            Event::Unknown(_) => "Unknown"@,
        }
    }

    /// The discriminant that the feed writes for the event's kind.
    pub open spec fn wire_tag(self) -> Seq<char> {
        match self {
            Event::ApplicationMoveFailed(_) => "ApplicationMoveFailed"@,
            Event::ApplicationReplaced(_) => "ApplicationReplaced"@,
            Event::BridgeAttendedTransfer(_) => "BridgeAttendedTransfer"@,
            Event::BridgeBlindTransfer(_) => "BridgeBlindTransfer"@,
            Event::BridgeCreated(_) => "BridgeCreated"@,
            Event::BridgeDestroyed(_) => "BridgeDestroyed"@,
            Event::BridgeMerged(_) => "BridgeMerged"@,
            Event::BridgeVideoSourceChanged(_) => "BridgeVideoSourceChanged"@,
            Event::ChannelCallerId(_) => "ChannelCallerId"@,
            Event::ChannelConnectedLine(_) => "ChannelConnectedLine"@,
            Event::ChannelCreated(_) => "ChannelCreated"@,
            Event::ChannelDestroyed(_) => "ChannelDestroyed"@,
            Event::ChannelDialplan(_) => "ChannelDialplan"@,
            Event::ChannelDtmfReceived(_) => "ChannelDtmfReceived"@,
            Event::ChannelEnteredBridge(_) => "ChannelEnteredBridge"@,
            Event::ChannelHangupRequest(_) => "ChannelHangupRequest"@,
            Event::ChannelHold(_) => "ChannelHold"@,
            Event::ChannelLeftBridge(_) => "ChannelLeftBridge"@,
            Event::ChannelStateChange(_) => "ChannelStateChange"@,
            Event::ChannelTalkingFinished(_) => "ChannelTalkingFinished"@,
            Event::ChannelTalkingStarted(_) => "ChannelTalkingStarted"@,
            Event::ChannelToneDetected(_) => "ChannelToneDetected"@,
            Event::ChannelUnhold(_) => "ChannelUnhold"@,
            Event::ChannelUserEvent(_) => "ChannelUserevent"@,
            Event::ChannelVarSet(_) => "ChannelVarset"@,
            Event::ContactInfo(_) => "ContactInfo"@,
            Event::ContactStatusChange(_) => "ContactStatusChange"@,
            Event::DeviceStateChanged(_) => "DeviceStateChanged"@,
            Event::Dial(_) => "Dial"@,
            Event::EndpointStateChange(_) => "EndpointStateChange"@,
            Event::MissingParams(_) => "MissingParams"@,
            Event::Peer(_) => "Peer"@,
            Event::PeerStatusChange(_) => "PeerStatusChange"@,
            Event::PlaybackContinuing(_) => "PlaybackContinuing"@,
            Event::PlaybackFinished(_) => "PlaybackFinished"@,
            Event::PlaybackStarted(_) => "PlaybackStarted"@,
            Event::RecordingFailed(_) => "RecordingFailed"@,
            Event::RecordingFinished(_) => "RecordingFinished"@,
            Event::RecordingStarted(_) => "RecordingStarted"@,
            Event::StasisEnd(_) => "StasisEnd"@,
            Event::StasisStart(_) => "StasisStart"@,
            Event::TextMessageReceived(_) => "TextMessageReceived"@,
            Event::Unknown(_) => "Unknown"@,
        }
    }

    /// The name of the event's kind (`StasisStart`, ..., `Unknown`).
    pub fn to_string(&self) -> (r: String)
        ensures
            r@ == self.kind_name(),
    {
        match self {
            Event::ApplicationMoveFailed(_) => String::from_str("ApplicationMoveFailed"),
            Event::ApplicationReplaced(_) => String::from_str("ApplicationReplaced"),
            Event::BridgeAttendedTransfer(_) => String::from_str("BridgeAttendedTransfer"),
            Event::BridgeBlindTransfer(_) => String::from_str("BridgeBlindTransfer"),
            Event::BridgeCreated(_) => String::from_str("BridgeCreated"),
            Event::BridgeDestroyed(_) => String::from_str("BridgeDestroyed"),
            Event::BridgeMerged(_) => String::from_str("BridgeMerged"),
            Event::BridgeVideoSourceChanged(_) => String::from_str("BridgeVideoSourceChanged"),
            Event::ChannelCallerId(_) => String::from_str("ChannelCallerId"),
            Event::ChannelConnectedLine(_) => String::from_str("ChannelConnectedLine"),
            Event::ChannelCreated(_) => String::from_str("ChannelCreated"),
            Event::ChannelDestroyed(_) => String::from_str("ChannelDestroyed"),
            Event::ChannelDialplan(_) => String::from_str("ChannelDialplan"),
            Event::ChannelDtmfReceived(_) => String::from_str("ChannelDtmfReceived"),
            Event::ChannelEnteredBridge(_) => String::from_str("ChannelEnteredBridge"),
            Event::ChannelHangupRequest(_) => String::from_str("ChannelHangupRequest"),
            Event::ChannelHold(_) => String::from_str("ChannelHold"),
            Event::ChannelLeftBridge(_) => String::from_str("ChannelLeftBridge"),
            Event::ChannelStateChange(_) => String::from_str("ChannelStateChange"),
            Event::ChannelTalkingFinished(_) => String::from_str("ChannelTalkingFinished"),
            Event::ChannelTalkingStarted(_) => String::from_str("ChannelTalkingStarted"),
            Event::ChannelToneDetected(_) => String::from_str("ChannelToneDetected"),
            Event::ChannelUnhold(_) => String::from_str("ChannelUnhold"),
            Event::ChannelUserEvent(_) => String::from_str("ChannelUserEvent"),
            Event::ChannelVarSet(_) => String::from_str("ChannelVarSet"),
            Event::ContactInfo(_) => String::from_str("ContactInfo"),
            Event::ContactStatusChange(_) => String::from_str("ContactStatusChange"),
            Event::DeviceStateChanged(_) => String::from_str("DeviceStateChanged"),
            Event::Dial(_) => String::from_str("Dial"),
            Event::EndpointStateChange(_) => String::from_str("EndpointStateChange"),
            Event::MissingParams(_) => String::from_str("MissingParams"),
            Event::Peer(_) => String::from_str("Peer"),
            Event::PeerStatusChange(_) => String::from_str("PeerStatusChange"),
            Event::PlaybackContinuing(_) => String::from_str("PlaybackContinuing"),
            Event::PlaybackFinished(_) => String::from_str("PlaybackFinished"),
            Event::PlaybackStarted(_) => String::from_str("PlaybackStarted"),
            Event::RecordingFailed(_) => String::from_str("RecordingFailed"),
            Event::RecordingFinished(_) => String::from_str("RecordingFinished"),
            Event::RecordingStarted(_) => String::from_str("RecordingStarted"),
            Event::StasisEnd(_) => String::from_str("StasisEnd"),
            Event::StasisStart(_) => String::from_str("StasisStart"),
            Event::TextMessageReceived(_) => String::from_str("TextMessageReceived"),
            Event::Unknown(_) => String::from_str("Unknown"),
        }
    }
}

/// Whether the feed's schema has a kind with discriminant `t`.
pub open spec fn is_known_tag(t: Seq<char>) -> bool {
    t == "ApplicationMoveFailed"@
    || t == "ApplicationReplaced"@
    || t == "BridgeAttendedTransfer"@
    || t == "BridgeBlindTransfer"@
    || t == "BridgeCreated"@
    || t == "BridgeDestroyed"@
    || t == "BridgeMerged"@
    || t == "BridgeVideoSourceChanged"@
    || t == "ChannelCallerId"@
    || t == "ChannelConnectedLine"@
    || t == "ChannelCreated"@
    || t == "ChannelDestroyed"@
    || t == "ChannelDialplan"@
    || t == "ChannelDtmfReceived"@
    || t == "ChannelEnteredBridge"@
    || t == "ChannelHangupRequest"@
    || t == "ChannelHold"@
    || t == "ChannelLeftBridge"@
    || t == "ChannelStateChange"@
    || t == "ChannelTalkingFinished"@
    || t == "ChannelTalkingStarted"@
    || t == "ChannelToneDetected"@
    || t == "ChannelUnhold"@
    || t == "ChannelUserevent"@
    || t == "ChannelVarset"@
    || t == "ContactInfo"@
    || t == "ContactStatusChange"@
    || t == "DeviceStateChanged"@
    || t == "Dial"@
    || t == "EndpointStateChange"@
    || t == "MissingParams"@
    || t == "Peer"@
    || t == "PeerStatusChange"@
    || t == "PlaybackContinuing"@
    || t == "PlaybackFinished"@
    || t == "PlaybackStarted"@
    || t == "RecordingFailed"@
    || t == "RecordingFinished"@
    || t == "RecordingStarted"@
    || t == "StasisEnd"@
    || t == "StasisStart"@
    || t == "TextMessageReceived"@
}

/// `e` is the fallback for the document `j`: `Unknown`, holding `j`.
pub open spec fn unknown_of(j: Json, e: Event) -> bool {
    e matches Event::Unknown(v) && v@ == j
}

/// Whether the document fits the schema of the kind with discriminant `t`.
pub open spec fn payload_fits(t: Seq<char>, j: Json) -> bool {
    if t == "ApplicationMoveFailed"@ {
        BaseEvent::<ApplicationMoveFailed>::accepts(j)
    } else if t == "ApplicationReplaced"@ {
        BaseEvent::<ApplicationReplaced>::accepts(j)
    } else if t == "BridgeAttendedTransfer"@ {
        BaseEvent::<BridgeAttendedTransfer>::accepts(j)
    } else if t == "BridgeBlindTransfer"@ {
        BaseEvent::<BridgeBlindTransfer>::accepts(j)
    } else if t == "BridgeCreated"@ {
        BaseEvent::<BridgeCreated>::accepts(j)
    } else if t == "BridgeDestroyed"@ {
        BaseEvent::<BridgeDestroyed>::accepts(j)
    } else if t == "BridgeMerged"@ {
        BaseEvent::<BridgeMerged>::accepts(j)
    } else if t == "BridgeVideoSourceChanged"@ {
        BaseEvent::<BridgeVideoSourceChanged>::accepts(j)
    } else if t == "ChannelCallerId"@ {
        BaseEvent::<ChannelCallerId>::accepts(j)
    } else if t == "ChannelConnectedLine"@ {
        BaseEvent::<ChannelConnectedLine>::accepts(j)
    } else if t == "ChannelCreated"@ {
        BaseEvent::<ChannelCreated>::accepts(j)
    } else if t == "ChannelDestroyed"@ {
        BaseEvent::<ChannelDestroyed>::accepts(j)
    } else if t == "ChannelDialplan"@ {
        BaseEvent::<ChannelDialplan>::accepts(j)
    } else if t == "ChannelDtmfReceived"@ {
        BaseEvent::<ChannelDtmfReceived>::accepts(j)
    } else if t == "ChannelEnteredBridge"@ {
        BaseEvent::<ChannelEnteredBridge>::accepts(j)
    } else if t == "ChannelHangupRequest"@ {
        BaseEvent::<ChannelHangupRequest>::accepts(j)
    } else if t == "ChannelHold"@ {
        BaseEvent::<ChannelHold>::accepts(j)
    } else if t == "ChannelLeftBridge"@ {
        BaseEvent::<ChannelLeftBridge>::accepts(j)
    } else if t == "ChannelStateChange"@ {
        BaseEvent::<ChannelStateChange>::accepts(j)
    } else if t == "ChannelTalkingFinished"@ {
        BaseEvent::<ChannelTalkingFinished>::accepts(j)
    } else if t == "ChannelTalkingStarted"@ {
        BaseEvent::<ChannelTalkingStarted>::accepts(j)
    } else if t == "ChannelToneDetected"@ {
        BaseEvent::<ChannelToneDetected>::accepts(j)
    } else if t == "ChannelUnhold"@ {
        BaseEvent::<ChannelUnhold>::accepts(j)
    } else if t == "ChannelUserevent"@ {
        BaseEvent::<ChannelUserEvent>::accepts(j)
    } else if t == "ChannelVarset"@ {
        BaseEvent::<ChannelVarSet>::accepts(j)
    } else if t == "ContactInfo"@ {
        BaseEvent::<ContactInfo>::accepts(j)
    } else if t == "ContactStatusChange"@ {
        BaseEvent::<ContactStatusChange>::accepts(j)
    } else if t == "DeviceStateChanged"@ {
        BaseEvent::<DeviceStateChanged>::accepts(j)
    } else if t == "Dial"@ {
        BaseEvent::<Dial>::accepts(j)
    } else if t == "EndpointStateChange"@ {
        BaseEvent::<EndpointStateChange>::accepts(j)
    } else if t == "MissingParams"@ {
        BaseEvent::<MissingParams>::accepts(j)
    } else if t == "Peer"@ {
        BaseEvent::<Peer>::accepts(j)
    } else if t == "PeerStatusChange"@ {
        BaseEvent::<PeerStatusChange>::accepts(j)
    } else if t == "PlaybackContinuing"@ {
        BaseEvent::<PlaybackContinuing>::accepts(j)
    } else if t == "PlaybackFinished"@ {
        BaseEvent::<PlaybackFinished>::accepts(j)
    } else if t == "PlaybackStarted"@ {
        BaseEvent::<PlaybackStarted>::accepts(j)
    } else if t == "RecordingFailed"@ {
        BaseEvent::<RecordingFailed>::accepts(j)
    } else if t == "RecordingFinished"@ {
        BaseEvent::<RecordingFinished>::accepts(j)
    } else if t == "RecordingStarted"@ {
        BaseEvent::<RecordingStarted>::accepts(j)
    } else if t == "StasisEnd"@ {
        BaseEvent::<StasisEnd>::accepts(j)
    } else if t == "StasisStart"@ {
        BaseEvent::<StasisStart>::accepts(j)
    } else if t == "TextMessageReceived"@ {
        BaseEvent::<TextMessageReceived>::accepts(j)
    } else {
        false
    }
}

/// `e` is the event that a document with discriminant `t` decodes to: the
/// kind that `t` names where the document fits its schema, else `Unknown`.
pub open spec fn decoded_tagged(t: Seq<char>, j: Json, e: Event) -> bool {
    if t == "ApplicationMoveFailed"@ {
        if BaseEvent::<ApplicationMoveFailed>::accepts(j) {
            e matches Event::ApplicationMoveFailed(b) && BaseEvent::<ApplicationMoveFailed>::decodes(j, b)
        } else {
            unknown_of(j, e)
        }
    } else if t == "ApplicationReplaced"@ {
        if BaseEvent::<ApplicationReplaced>::accepts(j) {
            e matches Event::ApplicationReplaced(b) && BaseEvent::<ApplicationReplaced>::decodes(j, b)
        } else {
            unknown_of(j, e)
        }
    } else if t == "BridgeAttendedTransfer"@ {
        if BaseEvent::<BridgeAttendedTransfer>::accepts(j) {
            e matches Event::BridgeAttendedTransfer(b) && BaseEvent::<BridgeAttendedTransfer>::decodes(j, b)
        } else {
            unknown_of(j, e)
        }
    } else if t == "BridgeBlindTransfer"@ {
        if BaseEvent::<BridgeBlindTransfer>::accepts(j) {
            e matches Event::BridgeBlindTransfer(b) && BaseEvent::<BridgeBlindTransfer>::decodes(j, b)
        } else {
            unknown_of(j, e)
        }
    } else if t == "BridgeCreated"@ {
        if BaseEvent::<BridgeCreated>::accepts(j) {
            e matches Event::BridgeCreated(b) && BaseEvent::<BridgeCreated>::decodes(j, b)
        } else {
            unknown_of(j, e)
        }
    } else if t == "BridgeDestroyed"@ {
        if BaseEvent::<BridgeDestroyed>::accepts(j) {
            e matches Event::BridgeDestroyed(b) && BaseEvent::<BridgeDestroyed>::decodes(j, b)
        } else {
            unknown_of(j, e)
        }
    } else if t == "BridgeMerged"@ {
        if BaseEvent::<BridgeMerged>::accepts(j) {
            e matches Event::BridgeMerged(b) && BaseEvent::<BridgeMerged>::decodes(j, b)
        } else {
            unknown_of(j, e)
        }
    } else if t == "BridgeVideoSourceChanged"@ {
        if BaseEvent::<BridgeVideoSourceChanged>::accepts(j) {
            e matches Event::BridgeVideoSourceChanged(b) && BaseEvent::<BridgeVideoSourceChanged>::decodes(j, b)
        } else {
            unknown_of(j, e)
        }
    } else if t == "ChannelCallerId"@ {
        if BaseEvent::<ChannelCallerId>::accepts(j) {
            e matches Event::ChannelCallerId(b) && BaseEvent::<ChannelCallerId>::decodes(j, b)
        } else {
            unknown_of(j, e)
        }
    } else if t == "ChannelConnectedLine"@ {
        if BaseEvent::<ChannelConnectedLine>::accepts(j) {
            e matches Event::ChannelConnectedLine(b) && BaseEvent::<ChannelConnectedLine>::decodes(j, b)
        } else {
            unknown_of(j, e)
        }
    } else if t == "ChannelCreated"@ {
        if BaseEvent::<ChannelCreated>::accepts(j) {
            e matches Event::ChannelCreated(b) && BaseEvent::<ChannelCreated>::decodes(j, b)
        } else {
            unknown_of(j, e)
        }
    } else if t == "ChannelDestroyed"@ {
        if BaseEvent::<ChannelDestroyed>::accepts(j) {
            e matches Event::ChannelDestroyed(b) && BaseEvent::<ChannelDestroyed>::decodes(j, b)
        } else {
            unknown_of(j, e)
        }
    } else if t == "ChannelDialplan"@ {
        if BaseEvent::<ChannelDialplan>::accepts(j) {
            e matches Event::ChannelDialplan(b) && BaseEvent::<ChannelDialplan>::decodes(j, b)
        } else {
            unknown_of(j, e)
        }
    } else if t == "ChannelDtmfReceived"@ {
        if BaseEvent::<ChannelDtmfReceived>::accepts(j) {
            e matches Event::ChannelDtmfReceived(b) && BaseEvent::<ChannelDtmfReceived>::decodes(j, b)
        } else {
            unknown_of(j, e)
        }
    } else if t == "ChannelEnteredBridge"@ {
        if BaseEvent::<ChannelEnteredBridge>::accepts(j) {
            e matches Event::ChannelEnteredBridge(b) && BaseEvent::<ChannelEnteredBridge>::decodes(j, b)
        } else {
            unknown_of(j, e)
        }
    } else if t == "ChannelHangupRequest"@ {
        if BaseEvent::<ChannelHangupRequest>::accepts(j) {
            e matches Event::ChannelHangupRequest(b) && BaseEvent::<ChannelHangupRequest>::decodes(j, b)
        } else {
            unknown_of(j, e)
        }
    } else if t == "ChannelHold"@ {
        if BaseEvent::<ChannelHold>::accepts(j) {
            e matches Event::ChannelHold(b) && BaseEvent::<ChannelHold>::decodes(j, b)
        } else {
            unknown_of(j, e)
        }
    } else if t == "ChannelLeftBridge"@ {
        if BaseEvent::<ChannelLeftBridge>::accepts(j) {
            e matches Event::ChannelLeftBridge(b) && BaseEvent::<ChannelLeftBridge>::decodes(j, b)
        } else {
            unknown_of(j, e)
        }
    } else if t == "ChannelStateChange"@ {
        if BaseEvent::<ChannelStateChange>::accepts(j) {
            e matches Event::ChannelStateChange(b) && BaseEvent::<ChannelStateChange>::decodes(j, b)
        } else {
            unknown_of(j, e)
        }
    } else if t == "ChannelTalkingFinished"@ {
        if BaseEvent::<ChannelTalkingFinished>::accepts(j) {
            e matches Event::ChannelTalkingFinished(b) && BaseEvent::<ChannelTalkingFinished>::decodes(j, b)
        } else {
            unknown_of(j, e)
        }
    } else if t == "ChannelTalkingStarted"@ {
        if BaseEvent::<ChannelTalkingStarted>::accepts(j) {
            e matches Event::ChannelTalkingStarted(b) && BaseEvent::<ChannelTalkingStarted>::decodes(j, b)
        } else {
            unknown_of(j, e)
        }
    } else if t == "ChannelToneDetected"@ {
        if BaseEvent::<ChannelToneDetected>::accepts(j) {
            e matches Event::ChannelToneDetected(b) && BaseEvent::<ChannelToneDetected>::decodes(j, b)
        } else {
            unknown_of(j, e)
        }
    } else if t == "ChannelUnhold"@ {
        if BaseEvent::<ChannelUnhold>::accepts(j) {
            e matches Event::ChannelUnhold(b) && BaseEvent::<ChannelUnhold>::decodes(j, b)
        } else {
            unknown_of(j, e)
        }
    } else if t == "ChannelUserevent"@ {
        if BaseEvent::<ChannelUserEvent>::accepts(j) {
            e matches Event::ChannelUserEvent(b) && BaseEvent::<ChannelUserEvent>::decodes(j, b)
        } else {
            unknown_of(j, e)
        }
    } else if t == "ChannelVarset"@ {
        if BaseEvent::<ChannelVarSet>::accepts(j) {
            e matches Event::ChannelVarSet(b) && BaseEvent::<ChannelVarSet>::decodes(j, b)
        } else {
            unknown_of(j, e)
        }
    } else if t == "ContactInfo"@ {
        if BaseEvent::<ContactInfo>::accepts(j) {
            e matches Event::ContactInfo(b) && BaseEvent::<ContactInfo>::decodes(j, b)
        } else {
            unknown_of(j, e)
        }
    } else if t == "ContactStatusChange"@ {
        if BaseEvent::<ContactStatusChange>::accepts(j) {
            e matches Event::ContactStatusChange(b) && BaseEvent::<ContactStatusChange>::decodes(j, b)
        } else {
            unknown_of(j, e)
        }
    } else if t == "DeviceStateChanged"@ {
        if BaseEvent::<DeviceStateChanged>::accepts(j) {
            e matches Event::DeviceStateChanged(b) && BaseEvent::<DeviceStateChanged>::decodes(j, b)
        } else {
            unknown_of(j, e)
        }
    } else if t == "Dial"@ {
        if BaseEvent::<Dial>::accepts(j) {
            e matches Event::Dial(b) && BaseEvent::<Dial>::decodes(j, b)
        } else {
            unknown_of(j, e)
        }
    } else if t == "EndpointStateChange"@ {
        if BaseEvent::<EndpointStateChange>::accepts(j) {
            e matches Event::EndpointStateChange(b) && BaseEvent::<EndpointStateChange>::decodes(j, b)
        } else {
            unknown_of(j, e)
        }
    } else if t == "MissingParams"@ {
        if BaseEvent::<MissingParams>::accepts(j) {
            e matches Event::MissingParams(b) && BaseEvent::<MissingParams>::decodes(j, b)
        } else {
            unknown_of(j, e)
        }
    } else if t == "Peer"@ {
        if BaseEvent::<Peer>::accepts(j) {
            e matches Event::Peer(b) && BaseEvent::<Peer>::decodes(j, b)
        } else {
            unknown_of(j, e)
        }
    } else if t == "PeerStatusChange"@ {
        if BaseEvent::<PeerStatusChange>::accepts(j) {
            e matches Event::PeerStatusChange(b) && BaseEvent::<PeerStatusChange>::decodes(j, b)
        } else {
            unknown_of(j, e)
        }
    } else if t == "PlaybackContinuing"@ {
        if BaseEvent::<PlaybackContinuing>::accepts(j) {
            e matches Event::PlaybackContinuing(b) && BaseEvent::<PlaybackContinuing>::decodes(j, b)
        } else {
            unknown_of(j, e)
        }
    } else if t == "PlaybackFinished"@ {
        if BaseEvent::<PlaybackFinished>::accepts(j) {
            e matches Event::PlaybackFinished(b) && BaseEvent::<PlaybackFinished>::decodes(j, b)
        } else {
            unknown_of(j, e)
        }
    } else if t == "PlaybackStarted"@ {
        if BaseEvent::<PlaybackStarted>::accepts(j) {
            e matches Event::PlaybackStarted(b) && BaseEvent::<PlaybackStarted>::decodes(j, b)
        } else {
            unknown_of(j, e)
        }
    } else if t == "RecordingFailed"@ {
        if BaseEvent::<RecordingFailed>::accepts(j) {
            e matches Event::RecordingFailed(b) && BaseEvent::<RecordingFailed>::decodes(j, b)
        } else {
            unknown_of(j, e)
        }
    } else if t == "RecordingFinished"@ {
        if BaseEvent::<RecordingFinished>::accepts(j) {
            e matches Event::RecordingFinished(b) && BaseEvent::<RecordingFinished>::decodes(j, b)
        } else {
            unknown_of(j, e)
        }
    } else if t == "RecordingStarted"@ {
        if BaseEvent::<RecordingStarted>::accepts(j) {
            e matches Event::RecordingStarted(b) && BaseEvent::<RecordingStarted>::decodes(j, b)
        } else {
            unknown_of(j, e)
        }
    } else if t == "StasisEnd"@ {
        if BaseEvent::<StasisEnd>::accepts(j) {
            e matches Event::StasisEnd(b) && BaseEvent::<StasisEnd>::decodes(j, b)
        } else {
            unknown_of(j, e)
        }
    } else if t == "StasisStart"@ {
        if BaseEvent::<StasisStart>::accepts(j) {
            e matches Event::StasisStart(b) && BaseEvent::<StasisStart>::decodes(j, b)
        } else {
            unknown_of(j, e)
        }
    } else if t == "TextMessageReceived"@ {
        if BaseEvent::<TextMessageReceived>::accepts(j) {
            e matches Event::TextMessageReceived(b) && BaseEvent::<TextMessageReceived>::decodes(j, b)
        } else {
            unknown_of(j, e)
        }
    } else {
        unknown_of(j, e)
    }
}

/// The discriminant of a document: its member `type`, where that is a string.
pub open spec fn tag_of(j: Json) -> Option<Seq<char>> {
    match member(j, "type"@) {
        Some(Json::Str(t)) => Some(t),
        _ => None,
    }
}

/// `e` is the event that the document `j` decodes to.
pub open spec fn decoded_as(j: Json, e: Event) -> bool {
    match tag_of(j) {
        Some(t) => decoded_tagged(t, j, e),
        None => unknown_of(j, e),
    }
}

/// The discriminant of a document.
fn tag_text(j: &JsonValue) -> (r: Option<&String>)
    ensures
        r is Some <==> tag_of(j@) is Some,
        r matches Some(t) ==> tag_of(j@) == Some(t@),
{
    match j {
        JsonValue::Object(entries) => match find_member(entries, "type") {
            Some(JsonValue::Str(t)) => Some(t),
            _ => None,
        },
        _ => None,
    }
}

/// Classifies a document: the known kind that its `type` names, where the
/// rest of it fits that kind's schema; else `Unknown`, holding the document.
pub fn decode_value(j: JsonValue) -> (e: Event)
    ensures
        decoded_as(j@, e),
{
    let tag = match tag_text(&j) {
        Some(t) => t.clone(),
        None => return Event::Unknown(j),
    };
    let t = tag.as_str();
    if same_text(t, "ApplicationMoveFailed") {
        match BaseEvent::<ApplicationMoveFailed>::from_json(&j) {
            Some(b) => Event::ApplicationMoveFailed(b),
            None => Event::Unknown(j),
        }
    } else if same_text(t, "ApplicationReplaced") {
        match BaseEvent::<ApplicationReplaced>::from_json(&j) {
            Some(b) => Event::ApplicationReplaced(b),
            None => Event::Unknown(j),
        }
    } else if same_text(t, "BridgeAttendedTransfer") {
        match BaseEvent::<BridgeAttendedTransfer>::from_json(&j) {
            Some(b) => Event::BridgeAttendedTransfer(b),
            None => Event::Unknown(j),
        }
    } else if same_text(t, "BridgeBlindTransfer") {
        match BaseEvent::<BridgeBlindTransfer>::from_json(&j) {
            Some(b) => Event::BridgeBlindTransfer(b),
            None => Event::Unknown(j),
        }
    } else if same_text(t, "BridgeCreated") {
        match BaseEvent::<BridgeCreated>::from_json(&j) {
            Some(b) => Event::BridgeCreated(b),
            None => Event::Unknown(j),
        }
    } else if same_text(t, "BridgeDestroyed") {
        match BaseEvent::<BridgeDestroyed>::from_json(&j) {
            Some(b) => Event::BridgeDestroyed(b),
            None => Event::Unknown(j),
        }
    } else if same_text(t, "BridgeMerged") {
        match BaseEvent::<BridgeMerged>::from_json(&j) {
            Some(b) => Event::BridgeMerged(b),
            None => Event::Unknown(j),
        }
    } else if same_text(t, "BridgeVideoSourceChanged") {
        match BaseEvent::<BridgeVideoSourceChanged>::from_json(&j) {
            Some(b) => Event::BridgeVideoSourceChanged(b),
            None => Event::Unknown(j),
        }
    } else if same_text(t, "ChannelCallerId") {
        match BaseEvent::<ChannelCallerId>::from_json(&j) {
            Some(b) => Event::ChannelCallerId(b),
            None => Event::Unknown(j),
        }
    } else if same_text(t, "ChannelConnectedLine") {
        match BaseEvent::<ChannelConnectedLine>::from_json(&j) {
            Some(b) => Event::ChannelConnectedLine(b),
            None => Event::Unknown(j),
        }
    } else if same_text(t, "ChannelCreated") {
        match BaseEvent::<ChannelCreated>::from_json(&j) {
            Some(b) => Event::ChannelCreated(b),
            None => Event::Unknown(j),
        }
    } else if same_text(t, "ChannelDestroyed") {
        match BaseEvent::<ChannelDestroyed>::from_json(&j) {
            Some(b) => Event::ChannelDestroyed(b),
            None => Event::Unknown(j),
        }
    } else if same_text(t, "ChannelDialplan") {
        match BaseEvent::<ChannelDialplan>::from_json(&j) {
            Some(b) => Event::ChannelDialplan(b),
            None => Event::Unknown(j),
        }
    } else if same_text(t, "ChannelDtmfReceived") {
        match BaseEvent::<ChannelDtmfReceived>::from_json(&j) {
            Some(b) => Event::ChannelDtmfReceived(b),
            None => Event::Unknown(j),
        }
    } else if same_text(t, "ChannelEnteredBridge") {
        match BaseEvent::<ChannelEnteredBridge>::from_json(&j) {
            Some(b) => Event::ChannelEnteredBridge(b),
            None => Event::Unknown(j),
        }
    } else if same_text(t, "ChannelHangupRequest") {
        match BaseEvent::<ChannelHangupRequest>::from_json(&j) {
            Some(b) => Event::ChannelHangupRequest(b),
            None => Event::Unknown(j),
        }
    } else if same_text(t, "ChannelHold") {
        match BaseEvent::<ChannelHold>::from_json(&j) {
            Some(b) => Event::ChannelHold(b),
            None => Event::Unknown(j),
        }
    } else if same_text(t, "ChannelLeftBridge") {
        match BaseEvent::<ChannelLeftBridge>::from_json(&j) {
            Some(b) => Event::ChannelLeftBridge(b),
            None => Event::Unknown(j),
        }
    } else if same_text(t, "ChannelStateChange") {
        match BaseEvent::<ChannelStateChange>::from_json(&j) {
            Some(b) => Event::ChannelStateChange(b),
            None => Event::Unknown(j),
        }
    } else if same_text(t, "ChannelTalkingFinished") {
        match BaseEvent::<ChannelTalkingFinished>::from_json(&j) {
            Some(b) => Event::ChannelTalkingFinished(b),
            None => Event::Unknown(j),
        }
    } else if same_text(t, "ChannelTalkingStarted") {
        match BaseEvent::<ChannelTalkingStarted>::from_json(&j) {
            Some(b) => Event::ChannelTalkingStarted(b),
            None => Event::Unknown(j),
        }
    } else if same_text(t, "ChannelToneDetected") {
        match BaseEvent::<ChannelToneDetected>::from_json(&j) {
            Some(b) => Event::ChannelToneDetected(b),
            None => Event::Unknown(j),
        }
    } else if same_text(t, "ChannelUnhold") {
        match BaseEvent::<ChannelUnhold>::from_json(&j) {
            Some(b) => Event::ChannelUnhold(b),
            None => Event::Unknown(j),
        }
    } else if same_text(t, "ChannelUserevent") {
        match BaseEvent::<ChannelUserEvent>::from_json(&j) {
            Some(b) => Event::ChannelUserEvent(b),
            None => Event::Unknown(j),
        }
    } else if same_text(t, "ChannelVarset") {
        match BaseEvent::<ChannelVarSet>::from_json(&j) {
            Some(b) => Event::ChannelVarSet(b),
            None => Event::Unknown(j),
        }
    } else if same_text(t, "ContactInfo") {
        match BaseEvent::<ContactInfo>::from_json(&j) {
            Some(b) => Event::ContactInfo(b),
            None => Event::Unknown(j),
        }
    } else if same_text(t, "ContactStatusChange") {
        match BaseEvent::<ContactStatusChange>::from_json(&j) {
            Some(b) => Event::ContactStatusChange(b),
            None => Event::Unknown(j),
        }
    } else if same_text(t, "DeviceStateChanged") {
        match BaseEvent::<DeviceStateChanged>::from_json(&j) {
            Some(b) => Event::DeviceStateChanged(b),
            None => Event::Unknown(j),
        }
    } else if same_text(t, "Dial") {
        match BaseEvent::<Dial>::from_json(&j) {
            Some(b) => Event::Dial(b),
            None => Event::Unknown(j),
        }
    } else if same_text(t, "EndpointStateChange") {
        match BaseEvent::<EndpointStateChange>::from_json(&j) {
            Some(b) => Event::EndpointStateChange(b),
            None => Event::Unknown(j),
        }
    } else if same_text(t, "MissingParams") {
        match BaseEvent::<MissingParams>::from_json(&j) {
            Some(b) => Event::MissingParams(b),
            None => Event::Unknown(j),
        }
    } else if same_text(t, "Peer") {
        match BaseEvent::<Peer>::from_json(&j) {
            Some(b) => Event::Peer(b),
            None => Event::Unknown(j),
        }
    } else if same_text(t, "PeerStatusChange") {
        match BaseEvent::<PeerStatusChange>::from_json(&j) {
            Some(b) => Event::PeerStatusChange(b),
            None => Event::Unknown(j),
        }
    } else if same_text(t, "PlaybackContinuing") {
        match BaseEvent::<PlaybackContinuing>::from_json(&j) {
            Some(b) => Event::PlaybackContinuing(b),
            None => Event::Unknown(j),
        }
    } else if same_text(t, "PlaybackFinished") {
        match BaseEvent::<PlaybackFinished>::from_json(&j) {
            Some(b) => Event::PlaybackFinished(b),
            None => Event::Unknown(j),
        }
    } else if same_text(t, "PlaybackStarted") {
        match BaseEvent::<PlaybackStarted>::from_json(&j) {
            Some(b) => Event::PlaybackStarted(b),
            None => Event::Unknown(j),
        }
    } else if same_text(t, "RecordingFailed") {
        match BaseEvent::<RecordingFailed>::from_json(&j) {
            Some(b) => Event::RecordingFailed(b),
            None => Event::Unknown(j),
        }
    } else if same_text(t, "RecordingFinished") {
        match BaseEvent::<RecordingFinished>::from_json(&j) {
            Some(b) => Event::RecordingFinished(b),
            None => Event::Unknown(j),
        }
    } else if same_text(t, "RecordingStarted") {
        match BaseEvent::<RecordingStarted>::from_json(&j) {
            Some(b) => Event::RecordingStarted(b),
            None => Event::Unknown(j),
        }
    } else if same_text(t, "StasisEnd") {
        match BaseEvent::<StasisEnd>::from_json(&j) {
            Some(b) => Event::StasisEnd(b),
            None => Event::Unknown(j),
        }
    } else if same_text(t, "StasisStart") {
        match BaseEvent::<StasisStart>::from_json(&j) {
            Some(b) => Event::StasisStart(b),
            None => Event::Unknown(j),
        }
    } else if same_text(t, "TextMessageReceived") {
        match BaseEvent::<TextMessageReceived>::from_json(&j) {
            Some(b) => Event::TextMessageReceived(b),
            None => Event::Unknown(j),
        }
    } else {
        Event::Unknown(j)
    }
}

/// Decodes one text frame of the feed. `None` where the text is not JSON;
/// every JSON document gives an event, a known kind or `Unknown`.
pub fn decode(text: &str) -> (r: Option<Event>)
    ensures
        r is Some <==> json_document(text@) is Some,
        r matches Some(e) ==> decoded_as(json_document(text@)->0, e),
{
    match parse_json(text) {
        Some(j) => Some(decode_value(j)),
        None => None,
    }
}

/// A document whose discriminant names no kind of the schema decodes to
/// `Unknown`, which holds the document unchanged.
pub proof fn lemma_unrecognized_kind_is_unknown(j: Json, e: Event)
    requires
        decoded_as(j, e),
        tag_of(j) matches Some(t) && !is_known_tag(t),
    ensures
        e matches Event::Unknown(v) && v@ == j,
{
}

/// A document whose discriminant names a kind, and which fits that kind's
/// schema, decodes to that kind, with every field read as the schema says.
pub proof fn lemma_recognized_kind_is_decoded(j: Json, e: Event)
    requires
        decoded_as(j, e),
        tag_of(j) matches Some(t) && payload_fits(t, j),
    ensures
        !(e is Unknown),
        tag_of(j) == Some(e.wire_tag()),
{
}
} // verus!
