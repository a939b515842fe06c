use asterisk_ari_rs::events::{decode, Event};

const KINDS: [(&str, &str); 42] = [
    ("{\"type\": \"ApplicationMoveFailed\", \"application\": \"app\", \"timestamp\": \"2021-01-07T21:12:57.268+0100\", \"channel\": {\"id\": \"x\", \"name\": \"x\", \"state\": \"Up\", \"caller\": {\"name\": \"x\", \"number\": \"x\"}, \"connected\": {\"name\": \"x\", \"number\": \"x\"}, \"accountcode\": \"x\", \"dialplan\": {\"context\": \"x\", \"exten\": \"x\", \"priority\": 1, \"app_name\": \"x\"}, \"creationtime\": \"2021-01-07T21:12:57.268+0100\", \"language\": \"x\"}, \"destination\": \"x\", \"args\": [\"a\"]}", "ApplicationMoveFailed"),
    ("{\"type\": \"ApplicationReplaced\", \"application\": \"app\", \"timestamp\": \"2021-01-07T21:12:57.268+0100\"}", "ApplicationReplaced"),
    ("{\"type\": \"BridgeAttendedTransfer\", \"application\": \"app\", \"timestamp\": \"2021-01-07T21:12:57.268+0100\", \"transferer_first_leg\": {\"id\": \"x\", \"name\": \"x\", \"state\": \"Up\", \"caller\": {\"name\": \"x\", \"number\": \"x\"}, \"connected\": {\"name\": \"x\", \"number\": \"x\"}, \"accountcode\": \"x\", \"dialplan\": {\"context\": \"x\", \"exten\": \"x\", \"priority\": 1, \"app_name\": \"x\"}, \"creationtime\": \"2021-01-07T21:12:57.268+0100\", \"language\": \"x\"}, \"transferer_second_leg\": {\"id\": \"x\", \"name\": \"x\", \"state\": \"Up\", \"caller\": {\"name\": \"x\", \"number\": \"x\"}, \"connected\": {\"name\": \"x\", \"number\": \"x\"}, \"accountcode\": \"x\", \"dialplan\": {\"context\": \"x\", \"exten\": \"x\", \"priority\": 1, \"app_name\": \"x\"}, \"creationtime\": \"2021-01-07T21:12:57.268+0100\", \"language\": \"x\"}, \"result\": \"x\", \"is_external\": true, \"destination_type\": \"x\"}", "BridgeAttendedTransfer"),
    ("{\"type\": \"BridgeBlindTransfer\", \"application\": \"app\", \"timestamp\": \"2021-01-07T21:12:57.268+0100\", \"channel\": {\"id\": \"x\", \"name\": \"x\", \"state\": \"Up\", \"caller\": {\"name\": \"x\", \"number\": \"x\"}, \"connected\": {\"name\": \"x\", \"number\": \"x\"}, \"accountcode\": \"x\", \"dialplan\": {\"context\": \"x\", \"exten\": \"x\", \"priority\": 1, \"app_name\": \"x\"}, \"creationtime\": \"2021-01-07T21:12:57.268+0100\", \"language\": \"x\"}, \"exten\": \"x\", \"context\": \"x\", \"result\": \"x\", \"is_external\": true}", "BridgeBlindTransfer"),
    ("{\"type\": \"BridgeCreated\", \"application\": \"app\", \"timestamp\": \"2021-01-07T21:12:57.268+0100\", \"bridge\": {\"id\": \"x\", \"technology\": \"x\", \"bridge_type\": \"mixing\", \"bridge_class\": \"x\", \"creator\": \"x\", \"name\": \"x\", \"channels\": [\"a\"], \"creationtime\": \"2021-01-07T21:12:57.268+0100\"}}", "BridgeCreated"),
    ("{\"type\": \"BridgeDestroyed\", \"application\": \"app\", \"timestamp\": \"2021-01-07T21:12:57.268+0100\", \"bridge\": {\"id\": \"x\", \"technology\": \"x\", \"bridge_type\": \"mixing\", \"bridge_class\": \"x\", \"creator\": \"x\", \"name\": \"x\", \"channels\": [\"a\"], \"creationtime\": \"2021-01-07T21:12:57.268+0100\"}}", "BridgeDestroyed"),
    ("{\"type\": \"BridgeMerged\", \"application\": \"app\", \"timestamp\": \"2021-01-07T21:12:57.268+0100\", \"bridge\": {\"id\": \"x\", \"technology\": \"x\", \"bridge_type\": \"mixing\", \"bridge_class\": \"x\", \"creator\": \"x\", \"name\": \"x\", \"channels\": [\"a\"], \"creationtime\": \"2021-01-07T21:12:57.268+0100\"}, \"bridge_from\": {\"id\": \"x\", \"technology\": \"x\", \"bridge_type\": \"mixing\", \"bridge_class\": \"x\", \"creator\": \"x\", \"name\": \"x\", \"channels\": [\"a\"], \"creationtime\": \"2021-01-07T21:12:57.268+0100\"}}", "BridgeMerged"),
    ("{\"type\": \"BridgeVideoSourceChanged\", \"application\": \"app\", \"timestamp\": \"2021-01-07T21:12:57.268+0100\", \"bridge\": {\"id\": \"x\", \"technology\": \"x\", \"bridge_type\": \"mixing\", \"bridge_class\": \"x\", \"creator\": \"x\", \"name\": \"x\", \"channels\": [\"a\"], \"creationtime\": \"2021-01-07T21:12:57.268+0100\"}}", "BridgeVideoSourceChanged"),
    ("{\"type\": \"ChannelCallerId\", \"application\": \"app\", \"timestamp\": \"2021-01-07T21:12:57.268+0100\", \"caller_presentation\": 1, \"caller_presentation_txt\": \"x\", \"channel\": {\"id\": \"x\", \"name\": \"x\", \"state\": \"Up\", \"caller\": {\"name\": \"x\", \"number\": \"x\"}, \"connected\": {\"name\": \"x\", \"number\": \"x\"}, \"accountcode\": \"x\", \"dialplan\": {\"context\": \"x\", \"exten\": \"x\", \"priority\": 1, \"app_name\": \"x\"}, \"creationtime\": \"2021-01-07T21:12:57.268+0100\", \"language\": \"x\"}}", "ChannelCallerId"),
    ("{\"type\": \"ChannelConnectedLine\", \"application\": \"app\", \"timestamp\": \"2021-01-07T21:12:57.268+0100\", \"channel\": {\"id\": \"x\", \"name\": \"x\", \"state\": \"Up\", \"caller\": {\"name\": \"x\", \"number\": \"x\"}, \"connected\": {\"name\": \"x\", \"number\": \"x\"}, \"accountcode\": \"x\", \"dialplan\": {\"context\": \"x\", \"exten\": \"x\", \"priority\": 1, \"app_name\": \"x\"}, \"creationtime\": \"2021-01-07T21:12:57.268+0100\", \"language\": \"x\"}}", "ChannelConnectedLine"),
    ("{\"type\": \"ChannelCreated\", \"application\": \"app\", \"timestamp\": \"2021-01-07T21:12:57.268+0100\", \"channel\": {\"id\": \"x\", \"name\": \"x\", \"state\": \"Up\", \"caller\": {\"name\": \"x\", \"number\": \"x\"}, \"connected\": {\"name\": \"x\", \"number\": \"x\"}, \"accountcode\": \"x\", \"dialplan\": {\"context\": \"x\", \"exten\": \"x\", \"priority\": 1, \"app_name\": \"x\"}, \"creationtime\": \"2021-01-07T21:12:57.268+0100\", \"language\": \"x\"}}", "ChannelCreated"),
    ("{\"type\": \"ChannelDestroyed\", \"application\": \"app\", \"timestamp\": \"2021-01-07T21:12:57.268+0100\", \"cause\": 1, \"cause_txt\": \"x\", \"channel\": {\"id\": \"x\", \"name\": \"x\", \"state\": \"Up\", \"caller\": {\"name\": \"x\", \"number\": \"x\"}, \"connected\": {\"name\": \"x\", \"number\": \"x\"}, \"accountcode\": \"x\", \"dialplan\": {\"context\": \"x\", \"exten\": \"x\", \"priority\": 1, \"app_name\": \"x\"}, \"creationtime\": \"2021-01-07T21:12:57.268+0100\", \"language\": \"x\"}}", "ChannelDestroyed"),
    ("{\"type\": \"ChannelDialplan\", \"application\": \"app\", \"timestamp\": \"2021-01-07T21:12:57.268+0100\", \"channel\": {\"id\": \"x\", \"name\": \"x\", \"state\": \"Up\", \"caller\": {\"name\": \"x\", \"number\": \"x\"}, \"connected\": {\"name\": \"x\", \"number\": \"x\"}, \"accountcode\": \"x\", \"dialplan\": {\"context\": \"x\", \"exten\": \"x\", \"priority\": 1, \"app_name\": \"x\"}, \"creationtime\": \"2021-01-07T21:12:57.268+0100\", \"language\": \"x\"}, \"dialplan_app\": \"x\", \"dialplan_app_data\": \"x\"}", "ChannelDialplan"),
    ("{\"type\": \"ChannelDtmfReceived\", \"application\": \"app\", \"timestamp\": \"2021-01-07T21:12:57.268+0100\", \"digit\": \"x\", \"duration_ms\": 1, \"channel\": {\"id\": \"x\", \"name\": \"x\", \"state\": \"Up\", \"caller\": {\"name\": \"x\", \"number\": \"x\"}, \"connected\": {\"name\": \"x\", \"number\": \"x\"}, \"accountcode\": \"x\", \"dialplan\": {\"context\": \"x\", \"exten\": \"x\", \"priority\": 1, \"app_name\": \"x\"}, \"creationtime\": \"2021-01-07T21:12:57.268+0100\", \"language\": \"x\"}}", "ChannelDtmfReceived"),
    ("{\"type\": \"ChannelEnteredBridge\", \"application\": \"app\", \"timestamp\": \"2021-01-07T21:12:57.268+0100\", \"bridge\": {\"id\": \"x\", \"technology\": \"x\", \"bridge_type\": \"mixing\", \"bridge_class\": \"x\", \"creator\": \"x\", \"name\": \"x\", \"channels\": [\"a\"], \"creationtime\": \"2021-01-07T21:12:57.268+0100\"}}", "ChannelEnteredBridge"),
    ("{\"type\": \"ChannelHangupRequest\", \"application\": \"app\", \"timestamp\": \"2021-01-07T21:12:57.268+0100\", \"cause\": 1, \"channel\": {\"id\": \"x\", \"name\": \"x\", \"state\": \"Up\", \"caller\": {\"name\": \"x\", \"number\": \"x\"}, \"connected\": {\"name\": \"x\", \"number\": \"x\"}, \"accountcode\": \"x\", \"dialplan\": {\"context\": \"x\", \"exten\": \"x\", \"priority\": 1, \"app_name\": \"x\"}, \"creationtime\": \"2021-01-07T21:12:57.268+0100\", \"language\": \"x\"}}", "ChannelHangupRequest"),
    ("{\"type\": \"ChannelHold\", \"application\": \"app\", \"timestamp\": \"2021-01-07T21:12:57.268+0100\", \"channel\": {\"id\": \"x\", \"name\": \"x\", \"state\": \"Up\", \"caller\": {\"name\": \"x\", \"number\": \"x\"}, \"connected\": {\"name\": \"x\", \"number\": \"x\"}, \"accountcode\": \"x\", \"dialplan\": {\"context\": \"x\", \"exten\": \"x\", \"priority\": 1, \"app_name\": \"x\"}, \"creationtime\": \"2021-01-07T21:12:57.268+0100\", \"language\": \"x\"}}", "ChannelHold"),
    ("{\"type\": \"ChannelLeftBridge\", \"application\": \"app\", \"timestamp\": \"2021-01-07T21:12:57.268+0100\", \"bridge\": {\"id\": \"x\", \"technology\": \"x\", \"bridge_type\": \"mixing\", \"bridge_class\": \"x\", \"creator\": \"x\", \"name\": \"x\", \"channels\": [\"a\"], \"creationtime\": \"2021-01-07T21:12:57.268+0100\"}, \"channel\": {\"id\": \"x\", \"name\": \"x\", \"state\": \"Up\", \"caller\": {\"name\": \"x\", \"number\": \"x\"}, \"connected\": {\"name\": \"x\", \"number\": \"x\"}, \"accountcode\": \"x\", \"dialplan\": {\"context\": \"x\", \"exten\": \"x\", \"priority\": 1, \"app_name\": \"x\"}, \"creationtime\": \"2021-01-07T21:12:57.268+0100\", \"language\": \"x\"}}", "ChannelLeftBridge"),
    ("{\"type\": \"ChannelStateChange\", \"application\": \"app\", \"timestamp\": \"2021-01-07T21:12:57.268+0100\", \"channel\": {\"id\": \"x\", \"name\": \"x\", \"state\": \"Up\", \"caller\": {\"name\": \"x\", \"number\": \"x\"}, \"connected\": {\"name\": \"x\", \"number\": \"x\"}, \"accountcode\": \"x\", \"dialplan\": {\"context\": \"x\", \"exten\": \"x\", \"priority\": 1, \"app_name\": \"x\"}, \"creationtime\": \"2021-01-07T21:12:57.268+0100\", \"language\": \"x\"}}", "ChannelStateChange"),
    ("{\"type\": \"ChannelTalkingFinished\", \"application\": \"app\", \"timestamp\": \"2021-01-07T21:12:57.268+0100\", \"channel\": {\"id\": \"x\", \"name\": \"x\", \"state\": \"Up\", \"caller\": {\"name\": \"x\", \"number\": \"x\"}, \"connected\": {\"name\": \"x\", \"number\": \"x\"}, \"accountcode\": \"x\", \"dialplan\": {\"context\": \"x\", \"exten\": \"x\", \"priority\": 1, \"app_name\": \"x\"}, \"creationtime\": \"2021-01-07T21:12:57.268+0100\", \"language\": \"x\"}, \"duration\": 1}", "ChannelTalkingFinished"),
    ("{\"type\": \"ChannelTalkingStarted\", \"application\": \"app\", \"timestamp\": \"2021-01-07T21:12:57.268+0100\", \"channel\": {\"id\": \"x\", \"name\": \"x\", \"state\": \"Up\", \"caller\": {\"name\": \"x\", \"number\": \"x\"}, \"connected\": {\"name\": \"x\", \"number\": \"x\"}, \"accountcode\": \"x\", \"dialplan\": {\"context\": \"x\", \"exten\": \"x\", \"priority\": 1, \"app_name\": \"x\"}, \"creationtime\": \"2021-01-07T21:12:57.268+0100\", \"language\": \"x\"}}", "ChannelTalkingStarted"),
    ("{\"type\": \"ChannelToneDetected\", \"application\": \"app\", \"timestamp\": \"2021-01-07T21:12:57.268+0100\", \"channel\": {\"id\": \"x\", \"name\": \"x\", \"state\": \"Up\", \"caller\": {\"name\": \"x\", \"number\": \"x\"}, \"connected\": {\"name\": \"x\", \"number\": \"x\"}, \"accountcode\": \"x\", \"dialplan\": {\"context\": \"x\", \"exten\": \"x\", \"priority\": 1, \"app_name\": \"x\"}, \"creationtime\": \"2021-01-07T21:12:57.268+0100\", \"language\": \"x\"}}", "ChannelToneDetected"),
    ("{\"type\": \"ChannelUnhold\", \"application\": \"app\", \"timestamp\": \"2021-01-07T21:12:57.268+0100\", \"channel\": {\"id\": \"x\", \"name\": \"x\", \"state\": \"Up\", \"caller\": {\"name\": \"x\", \"number\": \"x\"}, \"connected\": {\"name\": \"x\", \"number\": \"x\"}, \"accountcode\": \"x\", \"dialplan\": {\"context\": \"x\", \"exten\": \"x\", \"priority\": 1, \"app_name\": \"x\"}, \"creationtime\": \"2021-01-07T21:12:57.268+0100\", \"language\": \"x\"}}", "ChannelUnhold"),
    ("{\"type\": \"ChannelUserevent\", \"application\": \"app\", \"timestamp\": \"2021-01-07T21:12:57.268+0100\", \"eventname\": \"x\"}", "ChannelUserEvent"),
    ("{\"type\": \"ChannelVarset\", \"application\": \"app\", \"timestamp\": \"2021-01-07T21:12:57.268+0100\", \"variable\": \"x\", \"value\": \"x\"}", "ChannelVarSet"),
    ("{\"type\": \"ContactInfo\", \"application\": \"app\", \"timestamp\": \"2021-01-07T21:12:57.268+0100\", \"uri\": \"x\", \"contact_status\": \"x\", \"aor\": \"x\"}", "ContactInfo"),
    ("{\"type\": \"ContactStatusChange\", \"application\": \"app\", \"timestamp\": \"2021-01-07T21:12:57.268+0100\", \"endpoint\": {\"technology\": \"x\", \"resource\": \"x\", \"channel_ids\": [\"a\"]}, \"contact_info\": {\"uri\": \"x\", \"contact_status\": \"x\", \"aor\": \"x\"}}", "ContactStatusChange"),
    ("{\"type\": \"DeviceStateChanged\", \"application\": \"app\", \"timestamp\": \"2021-01-07T21:12:57.268+0100\", \"device_state\": {\"name\": \"x\", \"state\": \"INUSE\"}}", "DeviceStateChanged"),
    ("{\"type\": \"Dial\", \"application\": \"app\", \"timestamp\": \"2021-01-07T21:12:57.268+0100\", \"dialstatus\": \"x\"}", "Dial"),
    ("{\"type\": \"EndpointStateChange\", \"application\": \"app\", \"timestamp\": \"2021-01-07T21:12:57.268+0100\", \"endpoint\": {\"technology\": \"x\", \"resource\": \"x\", \"channel_ids\": [\"a\"]}}", "EndpointStateChange"),
    ("{\"type\": \"MissingParams\", \"application\": \"app\", \"timestamp\": \"2021-01-07T21:12:57.268+0100\", \"params\": [\"a\"]}", "MissingParams"),
    ("{\"type\": \"Peer\", \"application\": \"app\", \"timestamp\": \"2021-01-07T21:12:57.268+0100\", \"peer_status\": \"x\"}", "Peer"),
    ("{\"type\": \"PeerStatusChange\", \"application\": \"app\", \"timestamp\": \"2021-01-07T21:12:57.268+0100\", \"endpoint\": {\"technology\": \"x\", \"resource\": \"x\", \"channel_ids\": [\"a\"]}, \"peer\": {\"peer_status\": \"x\"}}", "PeerStatusChange"),
    ("{\"type\": \"PlaybackContinuing\", \"application\": \"app\", \"timestamp\": \"2021-01-07T21:12:57.268+0100\", \"playback\": {\"state\": \"playing\"}}", "PlaybackContinuing"),
    ("{\"type\": \"PlaybackFinished\", \"application\": \"app\", \"timestamp\": \"2021-01-07T21:12:57.268+0100\", \"playback\": {\"state\": \"playing\"}}", "PlaybackFinished"),
    ("{\"type\": \"PlaybackStarted\", \"application\": \"app\", \"timestamp\": \"2021-01-07T21:12:57.268+0100\", \"playback\": {\"state\": \"playing\"}}", "PlaybackStarted"),
    ("{\"type\": \"RecordingFailed\", \"application\": \"app\", \"timestamp\": \"2021-01-07T21:12:57.268+0100\", \"recording\": {\"name\": \"x\", \"format\": \"x\", \"target_uri\": \"x\", \"state\": \"done\"}}", "RecordingFailed"),
    ("{\"type\": \"RecordingFinished\", \"application\": \"app\", \"timestamp\": \"2021-01-07T21:12:57.268+0100\", \"recording\": {\"name\": \"x\", \"format\": \"x\", \"target_uri\": \"x\", \"state\": \"done\"}}", "RecordingFinished"),
    ("{\"type\": \"RecordingStarted\", \"application\": \"app\", \"timestamp\": \"2021-01-07T21:12:57.268+0100\", \"recording\": {\"name\": \"x\", \"format\": \"x\", \"target_uri\": \"x\", \"state\": \"done\"}}", "RecordingStarted"),
    ("{\"type\": \"StasisEnd\", \"application\": \"app\", \"timestamp\": \"2021-01-07T21:12:57.268+0100\", \"channel\": {\"id\": \"x\", \"name\": \"x\", \"state\": \"Up\", \"caller\": {\"name\": \"x\", \"number\": \"x\"}, \"connected\": {\"name\": \"x\", \"number\": \"x\"}, \"accountcode\": \"x\", \"dialplan\": {\"context\": \"x\", \"exten\": \"x\", \"priority\": 1, \"app_name\": \"x\"}, \"creationtime\": \"2021-01-07T21:12:57.268+0100\", \"language\": \"x\"}}", "StasisEnd"),
    ("{\"type\": \"StasisStart\", \"application\": \"app\", \"timestamp\": \"2021-01-07T21:12:57.268+0100\", \"args\": [\"a\"], \"channel\": {\"id\": \"x\", \"name\": \"x\", \"state\": \"Up\", \"caller\": {\"name\": \"x\", \"number\": \"x\"}, \"connected\": {\"name\": \"x\", \"number\": \"x\"}, \"accountcode\": \"x\", \"dialplan\": {\"context\": \"x\", \"exten\": \"x\", \"priority\": 1, \"app_name\": \"x\"}, \"creationtime\": \"2021-01-07T21:12:57.268+0100\", \"language\": \"x\"}}", "StasisStart"),
    ("{\"type\": \"TextMessageReceived\", \"application\": \"app\", \"timestamp\": \"2021-01-07T21:12:57.268+0100\", \"message\": {}}", "TextMessageReceived"),
];

#[test]
fn every_kind_decodes_from_a_minimal_document() {
    for (doc, kind) in KINDS {
        let e = decode(doc).unwrap();
        assert!(!matches!(e, Event::Unknown(_)), "{} fell back to Unknown", kind);
        assert_eq!(e.to_string(), kind);
    }
}

#[test]
fn every_kind_without_its_envelope_is_unknown() {
    for (doc, kind) in KINDS {
        let stripped = doc.replacen("\"application\": \"app\", ", "", 1);
        let e = decode(&stripped).unwrap();
        assert!(matches!(e, Event::Unknown(_)), "{} decoded without an application", kind);
    }
}
