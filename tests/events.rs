use asterisk_ari_rs::channels::ChannelState;
use asterisk_ari_rs::events::{decode, Event};
use asterisk_ari_rs::json::{parse_json, JsonValue};

#[test]
fn test_parse_unknown_event() {
    let e = "{\n  \"type\": \"NotKnown\",\n  \"timestamp\": \"2021-01-07T22:12:29.571+0100\",\n  \"channel\": {\n    \"id\": \"1610053949.0\",\n    \"name\": \"SIP/1004-00000000\",\n    \"state\": \"Up\",\n    \"caller\": {\n      \"name\": \"Adam\",\n      \"number\": \"1004\"\n    },\n    \"connected\": {\n      \"name\": \"\",\n      \"number\": \"\"\n    },\n    \"accountcode\": \"\",\n    \"dialplan\": {\n      \"context\": \"internal\",\n      \"exten\": \"158\",\n      \"priority\": 10,\n      \"app_name\": \"Stasis\",\n      \"app_data\": \"va-voicegw-rs,freight-cs-voice,en-US\"\n    },\n    \"creationtime\": \"2021-01-07T22:12:29.369+0100\",\n    \"language\": \"en\"\n  },\n  \"asterisk_id\": \"00:50:56:98:74:21\",\n  \"application\": \"va-voicegw-rs\"\n}";
    let ari_event: Event = decode(e).unwrap();
    assert!(matches!(ari_event, Event::Unknown(_)));
}

#[test]
fn test_parse_stasis_start() {
    let e = "{\n  \"type\": \"StasisStart\",\n  \"timestamp\": \"2020-11-22T20:17:06.150+0000\",\n  \"args\": [\n    \"its-va-demo-app\",\n    \"en-US\"\n  ],\n  \"channel\": {\n    \"id\": \"1606076223.3\",\n    \"name\": \"PJSIP/6001-00000003\",\n    \"state\": \"Up\",\n    \"caller\": {\n      \"name\": \"\",\n      \"number\": \"6001\"\n    },\n    \"connected\": {\n      \"name\": \"\",\n      \"number\": \"\"\n    },\n    \"accountcode\": \"\",\n    \"dialplan\": {\n      \"context\": \"from-internal\",\n      \"exten\": \"101\",\n      \"priority\": 6,\n      \"app_name\": \"Stasis\",\n      \"app_data\": \"va-voicegw,its-va-demo-app,en-US\"\n    },\n    \"creationtime\": \"2020-11-22T20:17:03.741+0000\",\n    \"language\": \"en\"\n  },\n  \"asterisk_id\": \"00:15:5d:01:65:04\",\n  \"application\": \"va-voicegw\"\n}";
    let ari_event: Event = decode(e).unwrap();
    assert!(matches!(ari_event, Event::StasisStart(_)));
}

#[test]
fn test_parse_stasis_start_with_timezone() {
    let e = "{\n  \"type\": \"StasisStart\",\n  \"timestamp\": \"2021-01-07T21:12:57.268+0100\",\n  \"args\": [\n    \"freight-cs-voice\",\n    \"en-US\"\n  ],\n  \"channel\": {\n    \"id\": \"1610050377.0\",\n    \"name\": \"SIP/1004-00000000\",\n    \"state\": \"Ring\",\n    \"caller\": {\n      \"name\": \"Adam\",\n      \"number\": \"1004\"\n    },\n    \"connected\": {\n      \"name\": \"\",\n      \"number\": \"\"\n    },\n    \"accountcode\": \"\",\n    \"dialplan\": {\n      \"context\": \"internal\",\n      \"exten\": \"158\",\n      \"priority\": 10,\n      \"app_name\": \"Stasis\",\n      \"app_data\": \"va-voicegw-rs,freight-cs-voice,en-US\"\n    },\n    \"creationtime\": \"2021-01-07T21:12:57.267+0100\",\n    \"language\": \"en\"\n  },\n  \"asterisk_id\": \"00:50:56:98:74:21\",\n  \"application\": \"va-voicegw-rs\"\n}";
    let ari_event: Event = decode(e).unwrap();
    assert!(matches!(ari_event, Event::StasisStart(_)));

    if let Event::StasisStart(base_event) = ari_event {
        assert_eq!(
            base_event.timestamp.to_string(),
            "2021-01-07 20:12:57.268 UTC"
        );
    }
}

#[test]
fn test_parse_channel_state_change() {
    let e = "{\n  \"type\": \"ChannelStateChange\",\n  \"timestamp\": \"2021-01-07T22:12:29.571+0100\",\n  \"channel\": {\n    \"id\": \"1610053949.0\",\n    \"name\": \"SIP/1004-00000000\",\n    \"state\": \"Up\",\n    \"caller\": {\n      \"name\": \"Adam\",\n      \"number\": \"1004\"\n    },\n    \"connected\": {\n      \"name\": \"\",\n      \"number\": \"\"\n    },\n    \"accountcode\": \"\",\n    \"dialplan\": {\n      \"context\": \"internal\",\n      \"exten\": \"158\",\n      \"priority\": 10,\n      \"app_name\": \"Stasis\",\n      \"app_data\": \"va-voicegw-rs,freight-cs-voice,en-US\"\n    },\n    \"creationtime\": \"2021-01-07T22:12:29.369+0100\",\n    \"language\": \"en\"\n  },\n  \"asterisk_id\": \"00:50:56:98:74:21\",\n  \"application\": \"va-voicegw-rs\"\n}";
    let ari_event: Event = decode(e).unwrap();
    println!("{:#?}", ari_event);
}

const STASIS_START: &str = "{\n  \"type\": \"StasisStart\",\n  \"timestamp\": \"2020-11-22T20:17:06.150+0000\",\n  \"args\": [\n    \"its-va-demo-app\",\n    \"en-US\"\n  ],\n  \"channel\": {\n    \"id\": \"1606076223.3\",\n    \"name\": \"PJSIP/6001-00000003\",\n    \"state\": \"Up\",\n    \"caller\": {\n      \"name\": \"\",\n      \"number\": \"6001\"\n    },\n    \"connected\": {\n      \"name\": \"\",\n      \"number\": \"\"\n    },\n    \"accountcode\": \"\",\n    \"dialplan\": {\n      \"context\": \"from-internal\",\n      \"exten\": \"101\",\n      \"priority\": 6,\n      \"app_name\": \"Stasis\",\n      \"app_data\": \"va-voicegw,its-va-demo-app,en-US\"\n    },\n    \"creationtime\": \"2020-11-22T20:17:03.741+0000\",\n    \"language\": \"en\"\n  },\n  \"asterisk_id\": \"00:15:5d:01:65:04\",\n  \"application\": \"va-voicegw\"\n}";

#[test]
fn stasis_start_fields_are_read() {
    let Some(Event::StasisStart(b)) = decode(STASIS_START) else {
        panic!("not a StasisStart");
    };
    assert_eq!(b.application, "va-voicegw");
    assert_eq!(b.asterisk_id.as_deref(), Some("00:15:5d:01:65:04"));
    assert_eq!(b.timestamp.to_string(), "2020-11-22 20:17:06.150 UTC");
    assert_eq!(b.data.args, vec!["its-va-demo-app".to_string(), "en-US".to_string()]);
    assert_eq!(b.data.channel.id, "1606076223.3");
    assert_eq!(b.data.channel.name, "PJSIP/6001-00000003");
    assert_eq!(b.data.channel.state, ChannelState::Up);
    assert_eq!(b.data.channel.caller.number, "6001");
    assert_eq!(b.data.channel.dialplan.context, "from-internal");
    assert_eq!(b.data.channel.dialplan.extension, "101");
    assert_eq!(b.data.channel.dialplan.priority.text, "6");
    assert_eq!(b.data.channel.dialplan.app_name.name, "Stasis");
    assert_eq!(
        b.data.channel.dialplan.app_name.data.as_deref(),
        Some("va-voicegw,its-va-demo-app,en-US")
    );
    assert_eq!(b.data.channel.creation_time.to_string(), "2020-11-22 20:17:03.741 UTC");
    assert_eq!(b.data.channel.language, "en");
    assert!(b.data.channel.channel_vars.is_none());
    assert!(b.data.replace_channel.is_none());
}

#[test]
fn timestamp_offset_is_converted_to_utc() {
    let Some(Event::StasisStart(b)) = decode("{\n  \"type\": \"StasisStart\",\n  \"timestamp\": \"2021-01-07T21:12:57.268+0100\",\n  \"args\": [\n    \"freight-cs-voice\",\n    \"en-US\"\n  ],\n  \"channel\": {\n    \"id\": \"1610050377.0\",\n    \"name\": \"SIP/1004-00000000\",\n    \"state\": \"Ring\",\n    \"caller\": {\n      \"name\": \"Adam\",\n      \"number\": \"1004\"\n    },\n    \"connected\": {\n      \"name\": \"\",\n      \"number\": \"\"\n    },\n    \"accountcode\": \"\",\n    \"dialplan\": {\n      \"context\": \"internal\",\n      \"exten\": \"158\",\n      \"priority\": 10,\n      \"app_name\": \"Stasis\",\n      \"app_data\": \"va-voicegw-rs,freight-cs-voice,en-US\"\n    },\n    \"creationtime\": \"2021-01-07T21:12:57.267+0100\",\n    \"language\": \"en\"\n  },\n  \"asterisk_id\": \"00:50:56:98:74:21\",\n  \"application\": \"va-voicegw-rs\"\n}") else {
        panic!("not a StasisStart");
    };
    assert_eq!(b.timestamp.secs(), 1610050377);
    assert_eq!(b.timestamp.subsec_nanos(), 268_000_000);
}

#[test]
fn unknown_kind_keeps_the_document() {
    let text = "{\n  \"type\": \"NotKnown\",\n  \"timestamp\": \"2021-01-07T22:12:29.571+0100\",\n  \"channel\": {\n    \"id\": \"1610053949.0\",\n    \"name\": \"SIP/1004-00000000\",\n    \"state\": \"Up\",\n    \"caller\": {\n      \"name\": \"Adam\",\n      \"number\": \"1004\"\n    },\n    \"connected\": {\n      \"name\": \"\",\n      \"number\": \"\"\n    },\n    \"accountcode\": \"\",\n    \"dialplan\": {\n      \"context\": \"internal\",\n      \"exten\": \"158\",\n      \"priority\": 10,\n      \"app_name\": \"Stasis\",\n      \"app_data\": \"va-voicegw-rs,freight-cs-voice,en-US\"\n    },\n    \"creationtime\": \"2021-01-07T22:12:29.369+0100\",\n    \"language\": \"en\"\n  },\n  \"asterisk_id\": \"00:50:56:98:74:21\",\n  \"application\": \"va-voicegw-rs\"\n}";
    let Some(Event::Unknown(v)) = decode(text) else {
        panic!("not Unknown");
    };
    assert_eq!(Some(v), parse_json(text));
}

#[test]
fn text_that_is_not_json_gives_nothing() {
    assert!(decode("{\"type\": \"StasisStart\"").is_none());
    assert!(decode("").is_none());
    assert!(decode("not json").is_none());
}

#[test]
fn json_that_is_not_an_event_is_unknown() {
    assert_eq!(decode("5"), Some(Event::Unknown(JsonValue::Number("5".to_string()))));
    assert_eq!(decode("{}"), Some(Event::Unknown(JsonValue::Object(vec![]))));
    let no_tag = "{\"application\": \"a\", \"timestamp\": \"2021-01-07T21:12:57.268+0100\"}";
    assert!(matches!(decode(no_tag), Some(Event::Unknown(_))));
    let tag_not_text = "{\"type\": 7, \"application\": \"a\", \"timestamp\": \"2021-01-07T21:12:57.268+0100\"}";
    assert!(matches!(decode(tag_not_text), Some(Event::Unknown(_))));
}

fn envelope(kind: &str, rest: &str) -> String {
    format!(
        "{{\"type\": \"{}\", \"application\": \"app\", \"timestamp\": \"2021-01-07T21:12:57.268+0100\"{}}}",
        kind, rest
    )
}

#[test]
fn known_kind_with_wrong_payload_is_unknown() {
    // the channel is missing
    assert!(matches!(decode(&envelope("StasisEnd", "")), Some(Event::Unknown(_))));
    // the timestamp is not an instant
    let bad_time = "{\"type\": \"ApplicationReplaced\", \"application\": \"app\", \"timestamp\": \"yesterday\"}";
    assert!(matches!(decode(bad_time), Some(Event::Unknown(_))));
    // the application is missing
    let no_app = "{\"type\": \"ApplicationReplaced\", \"timestamp\": \"2021-01-07T21:12:57.268+0100\"}";
    assert!(matches!(decode(no_app), Some(Event::Unknown(_))));
}

#[test]
fn empty_payload_kind_decodes() {
    let Some(Event::ApplicationReplaced(b)) = decode(&envelope("ApplicationReplaced", "")) else {
        panic!("not ApplicationReplaced");
    };
    assert_eq!(b.application, "app");
    assert!(b.asterisk_id.is_none());
}

#[test]
fn renamed_discriminants_are_recognized() {
    let e = decode(&envelope("ChannelVarset", ", \"variable\": \"X\", \"value\": \"1\"")).unwrap();
    let Event::ChannelVarSet(b) = &e else {
        panic!("not ChannelVarSet");
    };
    assert_eq!(b.data.variable, "X");
    assert_eq!(b.data.value, "1");
    assert!(b.data.channel.is_none());
    assert_eq!(e.to_string(), "ChannelVarSet");
    // the kind's own name is not its discriminant
    assert!(matches!(decode(&envelope("ChannelVarSet", ", \"variable\": \"X\", \"value\": \"1\"")), Some(Event::Unknown(_))));
    let u = decode(&envelope("ChannelUserevent", ", \"eventname\": \"E\", \"userevent\": {\"k\": true}")).unwrap();
    let Event::ChannelUserEvent(b) = &u else {
        panic!("not ChannelUserEvent");
    };
    assert_eq!(b.data.event_name, "E");
    assert_eq!(
        b.data.user_event,
        Some(JsonValue::Object(vec![("k".to_string(), JsonValue::Bool(true))]))
    );
    assert_eq!(u.to_string(), "ChannelUserEvent");
}

#[test]
fn unsigned_fields_take_32_bit_integers_only() {
    let ok = decode(&envelope("MissingParams", ", \"params\": [\"a\", \"b\"]")).unwrap();
    let Event::MissingParams(b) = ok else { panic!("not MissingParams") };
    assert_eq!(b.data.params, vec!["a".to_string(), "b".to_string()]);
    let rec = |d: &str| envelope("RecordingStarted", &format!(", \"recording\": {{\"name\": \"r\", \"format\": \"wav\", \"target_uri\": \"channel:1\", \"state\": \"recording\", \"duration\": {}}}", d));
    let Some(Event::RecordingStarted(b)) = decode(&rec("4294967295")) else { panic!("not RecordingStarted") };
    assert_eq!(b.data.recording.duration, Some(4294967295));
    let Some(Event::RecordingStarted(b)) = decode(&rec("null")) else { panic!("not RecordingStarted") };
    assert_eq!(b.data.recording.duration, None);
    assert!(matches!(decode(&rec("4294967296")), Some(Event::Unknown(_))));
    assert!(matches!(decode(&rec("-1")), Some(Event::Unknown(_))));
    assert!(matches!(decode(&rec("1.5")), Some(Event::Unknown(_))));
    assert!(matches!(decode(&rec("\"7\"")), Some(Event::Unknown(_))));
}

#[test]
fn enumerations_take_their_wire_names() {
    let dev = |s: &str| envelope("DeviceStateChanged", &format!(", \"device_state\": {{\"name\": \"d\", \"state\": \"{}\"}}", s));
    let Some(Event::DeviceStateChanged(b)) = decode(&dev("NOT_INUSE")) else { panic!("not DeviceStateChanged") };
    assert_eq!(b.data.device_state.state, asterisk_ari_rs::device_stats::DeviceStateState::NotInuse);
    assert!(matches!(decode(&dev("NotInuse")), Some(Event::Unknown(_))));
}
