use asterisk_ari_rs::asterisk::{AsteriskInfo, LogChannel};
use asterisk_ari_rs::mailboxes::Mailbox;
use asterisk_ari_rs::recordings::StoredRecording;
use asterisk_ari_rs::schema::decode_document;
use asterisk_ari_rs::sounds::Sound;

#[test]
fn mailbox_is_decoded() {
    let m: Mailbox =
        decode_document("{\"name\": \"1000@default\", \"old_messages\": 2, \"new_messages\": 0}").unwrap();
    assert_eq!(m.name, "1000@default");
    assert_eq!(m.old_messages, 2);
    assert_eq!(m.new_messages, 0);
    assert!(decode_document::<Mailbox>("{\"name\": \"x\", \"old_messages\": 2}").is_none());
}

#[test]
fn sounds_list_is_decoded() {
    let s: Vec<Sound> = decode_document(
        "[{\"id\": \"tt-monkeys\", \"formats\": [{\"language\": \"en\", \"format\": \"gsm\"}]}, {\"id\": \"beep\", \"text\": \"Beep\", \"formats\": []}]",
    )
    .unwrap();
    assert_eq!(s.len(), 2);
    assert_eq!(s[0].id, "tt-monkeys");
    assert_eq!(s[0].text, None);
    assert_eq!(s[0].formats[0].format, "gsm");
    assert_eq!(s[1].text.as_deref(), Some("Beep"));
    assert!(decode_document::<Vec<Sound>>("[{\"id\": 3, \"formats\": []}]").is_none());
}

#[test]
fn log_channel_type_member_is_read() {
    let l: LogChannel = decode_document(
        "{\"channel\": \"messages\", \"type\": \"logfile\", \"status\": \"Enabled\", \"configuration\": \"notice,warning\"}",
    )
    .unwrap();
    assert_eq!(l.kind, "logfile");
    assert_eq!(l.configuration, "notice,warning");
}

#[test]
fn optional_sections_may_be_absent() {
    let i: AsteriskInfo =
        decode_document("{\"system\": {\"version\": \"20.1.0\", \"entity_id\": \"00:11\"}}").unwrap();
    assert!(i.build.is_none());
    assert_eq!(i.system.unwrap().version, "20.1.0");
    assert!(decode_document::<StoredRecording>("not json").is_none());
}
