use asterisk_ari_rs::config::{events_url, listen_query, AriError, Config, ListenRequest};
use asterisk_ari_rs::connection::{
    backoff_delay_ms, ping_payload, step, Action, ConnectionState, Frame, Input, PING_PAYLOAD_LEN,
};
use asterisk_ari_rs::events::Event;
use asterisk_ari_rs::registry::Registry;

const VALID_A: &str = "{\"type\": \"ChannelHold\", \"application\": \"app\", \"timestamp\": \"2021-01-07T21:12:57.268+0100\", \"channel\": {\"id\": \"1\", \"name\": \"SIP/1\", \"state\": \"Up\", \"caller\": {\"name\": \"\", \"number\": \"1\"}, \"connected\": {\"name\": \"\", \"number\": \"\"}, \"accountcode\": \"\", \"dialplan\": {\"context\": \"c\", \"exten\": \"1\", \"priority\": 1, \"app_name\": \"Stasis\"}, \"creationtime\": \"2021-01-07T21:12:57.267+0100\", \"language\": \"en\"}}";
const VALID_B: &str = "{\"type\": \"ApplicationReplaced\", \"application\": \"app\", \"timestamp\": \"2021-01-07T21:12:58.000+0100\"}";

fn text(s: &str) -> Input {
    Input::Frame(Frame::Text(s.to_string()))
}

fn delivered(a: Action) -> Event {
    match a {
        Action::Deliver(e) => e,
        other => panic!("expected a delivery, got {:?}", other),
    }
}

#[test]
fn config_new_and_default() {
    let c = Config::new("http://localhost:8088", "asterisk", "secret");
    assert_eq!(c.api_base, "http://localhost:8088");
    assert_eq!(c.username, "asterisk");
    assert_eq!(c.password, "secret");
    let d = Config::default();
    assert_eq!(d.api_base, "http://localhost:8088/ari");
    assert_eq!(d.username, "");
    assert_eq!(d.password, "");
}

#[test]
fn listen_request_defaults_to_all_events() {
    let r = ListenRequest::new("my-app");
    assert_eq!(r.app, "my-app");
    assert_eq!(r.subscribe_all, None);
    assert!(r.subscribes_all());
    let r = r.with_subscribe_all(false);
    assert_eq!(r.subscribe_all, Some(false));
    assert!(!r.subscribes_all());
}

#[test]
fn query_pairs_in_order() {
    let c = Config::new("http://localhost:8088/ari", "user", "pass");
    let q = listen_query(&c, &ListenRequest::new("my-app").with_subscribe_all(false));
    assert_eq!(
        q,
        vec![
            ("api_key".to_string(), "user:pass".to_string()),
            ("app".to_string(), "my-app".to_string()),
            ("subscribeAll".to_string(), "false".to_string()),
        ]
    );
}

#[test]
fn events_url_maps_scheme_and_path() {
    let c = Config::new("http://localhost:8088/ari", "asterisk", "asterisk");
    assert_eq!(
        events_url(&c, &ListenRequest::new("my-app")).unwrap(),
        "ws://localhost:8088/ari/events?api_key=asterisk%3Aasterisk&app=my-app&subscribeAll=true"
    );
    let c = Config::new("https://pbx.example.com/ari", "u", "p w");
    assert_eq!(
        events_url(&c, &ListenRequest::new("a")).unwrap(),
        "wss://pbx.example.com/ari/events?api_key=u%3Ap+w&app=a&subscribeAll=true"
    );
}

#[test]
fn events_url_errors() {
    let c = Config::new("not a url", "u", "p");
    assert!(matches!(events_url(&c, &ListenRequest::new("a")), Err(AriError::UrlParse(_))));
    let c = Config::new("mailto:someone@example.com", "u", "p");
    assert_eq!(
        events_url(&c, &ListenRequest::new("a")),
        Err(AriError::UnsupportedScheme("mailto".to_string()))
    );
}

#[test]
fn backoff_grows_and_is_capped() {
    assert_eq!(backoff_delay_ms(0), 0);
    assert_eq!(backoff_delay_ms(1), 500);
    assert_eq!(backoff_delay_ms(2), 1000);
    assert_eq!(backoff_delay_ms(180), 90000);
    assert_eq!(backoff_delay_ms(181), 90000);
    assert_eq!(backoff_delay_ms(u64::MAX), 90000);
}

#[test]
fn ping_payload_is_random_bytes() {
    let a = ping_payload();
    let b = ping_payload();
    assert_eq!(a.len(), PING_PAYLOAD_LEN);
    assert_eq!(b.len(), 32);
    assert_ne!(a, b);
}

#[test]
fn first_connection_failure_is_reported() {
    let (s, a) = step(ConnectionState::Disconnected, Input::Start);
    assert_eq!(s, ConnectionState::Connecting { attempt: 0 });
    assert_eq!(a, Action::Connect);
    let (s, a) = step(s, Input::OpenFailed);
    assert_eq!(s, ConnectionState::Closed);
    assert_eq!(a, Action::Fail);
}

#[test]
fn ping_is_answered_with_its_payload() {
    let (s, a) = step(ConnectionState::Connected, Input::Frame(Frame::Ping(vec![1, 2, 3])));
    assert_eq!(s, ConnectionState::Connected);
    assert_eq!(a, Action::SendPong(vec![1, 2, 3]));
    let (s, a) = step(ConnectionState::Connected, Input::Frame(Frame::Pong(vec![9])));
    assert_eq!((s, a), (ConnectionState::Connected, Action::Nothing));
    let (s, a) = step(ConnectionState::Connected, Input::Frame(Frame::Binary(vec![9])));
    assert_eq!((s, a), (ConnectionState::Connected, Action::Nothing));
}

#[test]
fn keepalive_sends_a_random_ping() {
    let (s, a) = step(ConnectionState::Connected, Input::KeepaliveTick);
    assert_eq!(s, ConnectionState::Connected);
    match a {
        Action::SendPing(p) => assert_eq!(p.len(), 32),
        other => panic!("expected a ping, got {:?}", other),
    }
}

#[test]
fn closed_socket_is_reopened_and_delivery_resumes() {
    let (s, a) = step(ConnectionState::Connected, text(VALID_A));
    assert!(matches!(delivered(a), Event::ChannelHold(_)));
    let (s, a) = step(s, Input::Frame(Frame::Close));
    assert_eq!(s, ConnectionState::Connecting { attempt: 1 });
    assert_eq!(a, Action::Connect);
    let (s, a) = step(s, Input::OpenFailed);
    assert_eq!(s, ConnectionState::Reconnecting { attempt: 1 });
    assert_eq!(a, Action::Wait(500));
    let (s, a) = step(s, Input::BackoffElapsed);
    assert_eq!(s, ConnectionState::Connecting { attempt: 2 });
    assert_eq!(a, Action::Connect);
    let (s, a) = step(s, Input::OpenFailed);
    assert_eq!(a, Action::Wait(1000));
    let (s, _) = step(s, Input::BackoffElapsed);
    let (s, a) = step(s, Input::Opened);
    assert_eq!(s, ConnectionState::Connected);
    assert_eq!(a, Action::Nothing);
    let (s, a) = step(s, text(VALID_B));
    assert_eq!(s, ConnectionState::Connected);
    assert!(matches!(delivered(a), Event::ApplicationReplaced(_)));
}

#[test]
fn read_error_end_of_stream_and_lost_consumer_reconnect() {
    for i in [Input::ReadError, Input::StreamEnded, Input::ConsumerGone] {
        let (s, a) = step(ConnectionState::Connected, i);
        assert_eq!(s, ConnectionState::Connecting { attempt: 1 });
        assert_eq!(a, Action::Connect);
    }
}

#[test]
fn malformed_frame_between_valid_ones_is_dropped() {
    let (s, a) = step(ConnectionState::Connected, text(VALID_A));
    let first = delivered(a);
    let (s, a) = step(s, text("{\"type\": \"ChannelHold\", \"appl"));
    assert_eq!(s, ConnectionState::Connected);
    assert_eq!(a, Action::Discard);
    let (s, a) = step(s, text(VALID_B));
    let second = delivered(a);
    assert_eq!(s, ConnectionState::Connected);
    assert_eq!(first.to_string(), "ChannelHold");
    assert_eq!(second.to_string(), "ApplicationReplaced");
}

#[test]
fn cancel_during_backoff_stops_at_once() {
    let (s, a) = step(ConnectionState::Reconnecting { attempt: 40 }, Input::Cancel);
    assert_eq!(s, ConnectionState::Closed);
    assert_eq!(a, Action::Stop);
    let (s, a) = step(s, Input::BackoffElapsed);
    assert_eq!((s, a), (ConnectionState::Closed, Action::Nothing));
    let (s, a) = step(ConnectionState::Connected, Input::Cancel);
    assert_eq!((s, a), (ConnectionState::Closed, Action::CloseAndStop));
    let (s, a) = step(ConnectionState::Connecting { attempt: 3 }, Input::Cancel);
    assert_eq!((s, a), (ConnectionState::Closed, Action::Stop));
}

#[test]
fn registry_routes_by_kind_then_fallback() {
    let mut r: Registry<u32> = Registry::new();
    let hold = asterisk_ari_rs::events::decode(VALID_A).unwrap();
    let replaced = asterisk_ari_rs::events::decode(VALID_B).unwrap();
    assert_eq!(r.route(&hold), None);
    r.register("ChannelHold".to_string(), 1);
    assert_eq!(r.route(&hold), Some(&1));
    assert_eq!(r.route(&replaced), None);
    r.register("Unknown".to_string(), 9);
    assert_eq!(r.route(&replaced), Some(&9));
    r.register("ChannelHold".to_string(), 2);
    assert_eq!(r.route(&hold), Some(&2));
    assert_eq!(r.handler("ChannelHold"), Some(&2));
    assert_eq!(r.handler("Unknown"), Some(&9));
    assert_eq!(r.handler("StasisStart"), None);
}

#[test]
fn failing_handler_does_not_affect_the_next_event() {
    let mut r: Registry<fn(&Event) -> Result<(), String>> = Registry::new();
    r.register("ChannelHold".to_string(), |_| Err("boom".to_string()));
    r.register("ApplicationReplaced".to_string(), |_| Ok(()));
    let mut outcomes = Vec::new();
    for t in [VALID_A, VALID_B] {
        let e = asterisk_ari_rs::events::decode(t).unwrap();
        let h = r.route(&e).unwrap();
        outcomes.push(h(&e));
    }
    assert_eq!(outcomes, vec![Err("boom".to_string()), Ok(())]);
}
