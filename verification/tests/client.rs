use httping::channel::{is_called_off, stop_flag};
use httping::itdog::client::{Action, Event, FrameKind, Phase, Stage};
use httping::itdog::endpoint::{
    upgrade_headers, NEGOTIATION_URL, SERVER_HOST, SERVER_PORT, SOCKET_URL, UPGRADE_METHOD,
};
use httping::{ItdogClient, ProbeError, ReqClient, DEFAULT_KEY};
use tokio::sync::oneshot;

const PAGE: &str = "<script>var task_id='ABC123';</script>";

fn client() -> (ItdogClient, oneshot::Sender<bool>) {
    let (tx, rx) = oneshot::channel();
    (ItdogClient::new(DEFAULT_KEY, "www.example.com", rx), tx)
}

fn is_action(action: &Action, expected: &str) -> bool {
    let name = match action {
        Action::Negotiate => "negotiate",
        Action::Connect => "connect",
        Action::Upgrade => "upgrade",
        Action::Send(_) => "send",
        Action::Read => "read",
        Action::Deliver(_) => "deliver",
        Action::Close => "close",
        Action::Finish => "finish",
        Action::Stop(_) => "stop",
    };
    name == expected
}

fn streaming() -> (ItdogClient, oneshot::Sender<bool>) {
    let (mut c, tx) = client();
    assert!(is_action(&c.step(Event::Started), "negotiate"));
    assert!(is_action(&c.step(Event::Page(PAGE.to_string())), "connect"));
    assert!(is_action(&c.step(Event::Connected), "upgrade"));
    assert!(is_action(&c.step(Event::Upgraded), "send"));
    assert!(is_action(&c.step(Event::Sent), "read"));
    (c, tx)
}

fn text(s: &str) -> Event {
    Event::Frame(FrameKind::Text, s.as_bytes().to_vec())
}

#[test]
fn a_new_client_waits_to_be_started() {
    let (c, _tx) = client();
    assert_eq!(c.stage(), Stage::Idle);
    assert_eq!(c.phase(), Phase::Negotiating);
    assert_eq!(c.failure(), None);
    assert!(c.awaits(&Event::Started));
    assert!(!c.awaits(&Event::Connected));
    assert_eq!(c.request().body(), ReqClient::new(DEFAULT_KEY, "www.example.com").body());
}

#[test]
fn the_stages_follow_each_other() {
    let (mut c, _tx) = client();
    let a = c.step(Event::Started);
    assert!(is_action(&a, "negotiate"));
    assert_eq!(c.phase(), Phase::Negotiating);
    let a = c.step(Event::Page(PAGE.to_string()));
    assert!(is_action(&a, "connect"));
    assert_eq!(c.phase(), Phase::Connecting);
    let a = c.step(Event::Connected);
    assert!(is_action(&a, "upgrade"));
    assert_eq!(c.phase(), Phase::Upgrading);
    let a = c.step(Event::Upgraded);
    let digest = ReqClient::generate_md5("ABC123", DEFAULT_KEY);
    let expected = format!("{{\"task_id\":\"ABC123\",\"task_token\":\"{}\"}}", &digest[8..24]);
    match a {
        Action::Send(payload) => assert_eq!(payload, expected),
        _ => panic!("the payload is sent after the upgrade"),
    }
    assert_eq!(c.phase(), Phase::Streaming);
    assert_eq!(c.stage(), Stage::Sending);
    let a = c.step(Event::Sent);
    assert!(is_action(&a, "read"));
    assert_eq!(c.stage(), Stage::Reading);
}

#[test]
fn cancelling_before_any_connection_attempt_closes_without_error() {
    let (mut c, tx) = client();
    tx.send(true).unwrap();
    let a = c.step(Event::Started);
    assert!(is_action(&a, "finish"));
    assert_eq!(c.phase(), Phase::Closed);
    assert_eq!(c.failure(), None);
    match c.step(Event::Finished) {
        Action::Stop(outcome) => assert_eq!(outcome, Ok(())),
        _ => panic!("the probe stops after the end-of-stream marker"),
    }
    assert_eq!(c.stage(), Stage::Stopped);
}

#[test]
fn a_signal_that_says_false_does_not_cancel() {
    let (mut c, tx) = client();
    tx.send(false).unwrap();
    assert!(is_action(&c.step(Event::Started), "negotiate"));
    assert!(is_action(&c.step(Event::Page(PAGE.to_string())), "connect"));
}

#[test]
fn a_dropped_signal_does_not_cancel() {
    let (mut c, tx) = client();
    drop(tx);
    assert!(is_action(&c.step(Event::Started), "negotiate"));
}

#[test]
fn cancelling_after_negotiation_skips_the_connection() {
    let (mut c, tx) = client();
    assert!(is_action(&c.step(Event::Started), "negotiate"));
    tx.send(true).unwrap();
    assert!(is_action(&c.step(Event::Page(PAGE.to_string())), "finish"));
    assert_eq!(c.failure(), None);
}

#[test]
fn cancelling_is_seen_before_the_next_read() {
    let (mut c, tx) = streaming();
    tx.send(true).unwrap();
    let a = c.step(text("{\"ip\":\"1.1.1.1\"}"));
    assert!(is_action(&a, "deliver"));
    let a = c.step(Event::Delivered);
    assert!(is_action(&a, "finish"));
    match c.step(Event::Finished) {
        Action::Stop(outcome) => assert_eq!(outcome, Ok(())),
        _ => panic!("the probe stops"),
    }
}

#[test]
fn a_page_without_task_id_fails_the_negotiation() {
    let (mut c, _tx) = client();
    c.step(Event::Started);
    let a = c.step(Event::Page("<html></html>".to_string()));
    assert!(is_action(&a, "finish"));
    assert_eq!(c.failure(), Some(ProbeError::Negotiation));
    match c.step(Event::Finished) {
        Action::Stop(outcome) => assert_eq!(outcome, Err(ProbeError::Negotiation)),
        _ => panic!("the probe stops"),
    }
}

#[test]
fn a_failed_negotiation_wins_over_a_cancel() {
    let (mut c, tx) = client();
    c.step(Event::Started);
    tx.send(true).unwrap();
    c.step(Event::Page("<html></html>".to_string()));
    assert_eq!(c.failure(), Some(ProbeError::Negotiation));
}

#[test]
fn network_failures_are_named_after_their_stage() {
    let (mut c, _tx) = client();
    c.step(Event::Started);
    assert!(is_action(&c.step(Event::Failed), "finish"));
    assert_eq!(c.failure(), Some(ProbeError::Transport));

    let (mut c, _tx) = client();
    c.step(Event::Started);
    c.step(Event::Page(PAGE.to_string()));
    assert!(is_action(&c.step(Event::Failed), "finish"));
    assert_eq!(c.failure(), Some(ProbeError::Transport));

    let (mut c, _tx) = client();
    c.step(Event::Started);
    c.step(Event::Page(PAGE.to_string()));
    c.step(Event::Connected);
    assert!(is_action(&c.step(Event::Failed), "finish"));
    assert_eq!(c.failure(), Some(ProbeError::Handshake));

    let (mut c, _tx) = client();
    c.step(Event::Started);
    c.step(Event::Page(PAGE.to_string()));
    c.step(Event::Connected);
    c.step(Event::Upgraded);
    assert!(is_action(&c.step(Event::Failed), "finish"));
    assert_eq!(c.failure(), Some(ProbeError::Transport));
}

#[test]
fn a_text_frame_is_delivered_as_it_came() {
    let (mut c, _tx) = streaming();
    let body = "{\"ip\":\"1.1.1.1\",\"name\":\"北京\",\"all_time\":\"0.0100\"}";
    match c.step(text(body)) {
        Action::Deliver(t) => assert_eq!(t, body),
        _ => panic!("a record is delivered"),
    }
    assert_eq!(c.stage(), Stage::Delivering);
    assert!(is_action(&c.step(Event::Delivered), "read"));
}

#[test]
fn the_terminal_marker_frame_drains_and_delivers_nothing() {
    let (mut c, _tx) = streaming();
    let a = c.step(text("{\"type\":\"finished\"}"));
    assert!(is_action(&a, "close"));
    assert_eq!(c.phase(), Phase::Draining);
    assert!(!c.awaits(&text("{\"ip\":\"late\"}")));
    let a = c.step(Event::CloseSent);
    assert!(is_action(&a, "finish"));
    assert_eq!(c.phase(), Phase::Closed);
    match c.step(Event::Finished) {
        Action::Stop(outcome) => assert_eq!(outcome, Ok(())),
        _ => panic!("the probe stops"),
    }
    assert!(!c.awaits(&Event::Finished));
    assert!(!c.awaits(&Event::Started));
}

#[test]
fn a_close_frame_drains() {
    let (mut c, _tx) = streaming();
    assert!(is_action(&c.step(Event::Frame(FrameKind::Close, vec![])), "close"));
    assert!(is_action(&c.step(Event::Failed), "finish"));
    assert_eq!(c.failure(), None);
}

#[test]
fn a_broken_read_fails_the_probe_with_transport() {
    let (mut c, _tx) = streaming();
    assert!(is_action(&c.step(Event::Failed), "finish"));
    assert_eq!(c.failure(), Some(ProbeError::Transport));
    match c.step(Event::Finished) {
        Action::Stop(outcome) => assert_eq!(outcome, Err(ProbeError::Transport)),
        _ => panic!("the probe stops"),
    }
}

#[test]
fn records_delivered_before_a_failure_stay_delivered() {
    let (mut c, _tx) = streaming();
    assert!(is_action(&c.step(text("{\"ip\":\"1.1.1.1\"}")), "deliver"));
    assert!(is_action(&c.step(Event::Delivered), "read"));
    assert!(is_action(&c.step(Event::Failed), "finish"));
    assert_eq!(c.failure(), Some(ProbeError::Transport));
}

#[test]
fn other_frames_are_read_past() {
    let (mut c, _tx) = streaming();
    assert!(is_action(&c.step(Event::Frame(FrameKind::Binary, vec![1, 2, 3])), "read"));
    assert!(is_action(&c.step(Event::Frame(FrameKind::Continuation, vec![])), "read"));
    assert!(is_action(&c.step(Event::Frame(FrameKind::Ping, vec![])), "read"));
    assert!(is_action(&c.step(Event::Frame(FrameKind::Pong, vec![])), "read"));
    assert_eq!(c.stage(), Stage::Reading);
}

#[test]
fn a_text_frame_that_is_no_text_fails_with_decode() {
    let (mut c, _tx) = streaming();
    let a = c.step(Event::Frame(FrameKind::Text, vec![0xff, 0xfe, 0x22]));
    assert!(is_action(&a, "finish"));
    assert_eq!(c.failure(), Some(ProbeError::Decode));
    match c.step(Event::Finished) {
        Action::Stop(outcome) => assert_eq!(outcome, Err(ProbeError::Decode)),
        _ => panic!("the probe stops"),
    }
}

#[test]
fn a_text_that_is_no_record_fails_with_decode() {
    let (mut c, _tx) = streaming();
    assert!(is_action(&c.step(text("not json")), "deliver"));
    assert!(is_action(&c.step(Event::Undecodable), "finish"));
    assert_eq!(c.failure(), Some(ProbeError::Decode));
}

#[test]
fn a_vanished_consumer_stops_the_probe_at_once() {
    let (mut c, _tx) = streaming();
    c.step(text("{}"));
    match c.step(Event::ConsumerGone) {
        Action::Stop(outcome) => assert_eq!(outcome, Err(ProbeError::ChannelClosed)),
        _ => panic!("the probe stops"),
    }
    assert_eq!(c.stage(), Stage::Stopped);
    assert_eq!(c.failure(), Some(ProbeError::ChannelClosed));
}

#[test]
fn a_vanished_consumer_at_the_end_marker_is_an_error() {
    let (mut c, _tx) = streaming();
    c.step(Event::Frame(FrameKind::Close, vec![]));
    c.step(Event::CloseSent);
    match c.step(Event::ConsumerGone) {
        Action::Stop(outcome) => assert_eq!(outcome, Err(ProbeError::ChannelClosed)),
        _ => panic!("the probe stops"),
    }
}

#[test]
fn an_earlier_failure_is_kept_where_the_consumer_is_gone_too() {
    let (mut c, _tx) = client();
    c.step(Event::Started);
    c.step(Event::Page("".to_string()));
    match c.step(Event::ConsumerGone) {
        Action::Stop(outcome) => assert_eq!(outcome, Err(ProbeError::Negotiation)),
        _ => panic!("the probe stops"),
    }
}

#[test]
fn advance_takes_the_signal_as_given() {
    let (mut c, _tx) = client();
    assert!(is_action(&c.advance(Event::Started, false), "negotiate"));
    assert!(is_action(&c.advance(Event::Page(PAGE.to_string()), false), "connect"));
    assert!(is_action(&c.advance(Event::Connected, true), "finish"));
    assert_eq!(c.failure(), None);
}

#[test]
fn advance_ignores_the_signal_where_no_blocking_work_follows() {
    let (mut c, _tx) = streaming();
    assert!(is_action(&c.advance(text("{}"), true), "deliver"));
    assert!(!c.consults(&Event::Undecodable));
    assert!(c.consults(&Event::Delivered));
    let (mut c, _tx) = streaming();
    assert!(is_action(&c.advance(text("{\"type\":\"finished\"}"), true), "close"));
    assert!(is_action(&c.advance(Event::CloseSent, true), "finish"));
}

#[test]
fn awaits_tells_the_answers_of_each_stage() {
    let (mut c, _tx) = client();
    c.step(Event::Started);
    assert!(c.awaits(&Event::Page(String::new())));
    assert!(c.awaits(&Event::Failed));
    assert!(!c.awaits(&Event::Started));
    assert!(!c.awaits(&Event::Delivered));
    let (c, _tx) = streaming();
    assert!(c.awaits(&Event::Frame(FrameKind::Binary, vec![])));
    assert!(c.awaits(&Event::Failed));
    assert!(!c.awaits(&Event::Sent));
    assert!(!c.awaits(&Event::ConsumerGone));
}

#[test]
fn only_a_signal_that_says_yes_calls_off() {
    assert!(is_called_off(Some(true)));
    assert!(!is_called_off(Some(false)));
    assert!(!is_called_off(None));
    assert!(is_called_off(Some(stop_flag())));
}

#[test]
fn the_stop_flag_calls_a_probe_off() {
    let (mut c, tx) = client();
    tx.send(stop_flag()).unwrap();
    assert!(is_action(&c.step(Event::Started), "finish"));
    assert_eq!(c.failure(), None);
}

#[test]
fn a_signal_sent_where_the_probe_does_not_look_waits_for_the_next_look() {
    let (mut c, tx) = streaming();
    tx.send(stop_flag()).unwrap();
    assert!(is_action(&c.step(text("{}")), "deliver"));
    assert!(is_action(&c.step(Event::Delivered), "finish"));
}

#[test]
fn the_service_is_reached_where_the_protocol_says() {
    assert_eq!(SERVER_HOST, "www.itdog.cn");
    assert_eq!(SERVER_PORT, 443);
    assert_eq!(NEGOTIATION_URL, "https://www.itdog.cn/http/");
    assert_eq!(SOCKET_URL, "wss://www.itdog.cn/websockets");
    assert_eq!(UPGRADE_METHOD, "GET");
}

#[test]
fn the_upgrade_request_carries_five_headers_in_order() {
    let pair = |name: &str, value: &str| (name.to_string(), value.to_string());
    assert_eq!(
        upgrade_headers("dGhlIHNhbXBsZSBub25jZQ=="),
        vec![
            pair("Host", "www.itdog.cn"),
            pair("Upgrade", "websocket"),
            pair("Connection", "upgrade"),
            pair("Sec-WebSocket-Key", "dGhlIHNhbXBsZSBub25jZQ=="),
            pair("Sec-WebSocket-Version", "13"),
        ]
    );
}

#[test]
fn a_client_can_be_printed() {
    let (c, _tx) = client();
    let printed = format!("{:?}", c);
    assert!(printed.contains("ItdogClient"));
    assert!(printed.contains("www.example.com"));
}
