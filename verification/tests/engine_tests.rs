use nsq_client::Cmd;
use nsq_client::ConnState;
use nsq_client::Connection;
use nsq_client::Config;
use nsq_client::Fatal;
use nsq_client::Frame;
use nsq_client::Msg;
use nsq_client::is_sentinel;

fn plain_negotiation() -> String {
    String::from(
        "{\"max_rdy_count\":2500,\"version\":\"1.2.0\",\"max_msg_timeout\":900000,\
         \"msg_timeout\":60000,\"tls_v1\":false,\"deflate\":false,\"deflate_level\":6,\
         \"max_deflate_level\":6,\"snappy\":false,\"sample_rate\":0,\
         \"auth_required\":false,\"output_buffer_size\":16384,\
         \"output_buffer_timeout\":250}",
    )
}

fn auth_negotiation() -> String {
    plain_negotiation().replace("\"auth_required\":false", "\"auth_required\":true")
}

fn tls_negotiation() -> String {
    plain_negotiation().replace("\"tls_v1\":false", "\"tls_v1\":true")
}

fn msg(id: &str) -> Msg {
    Msg { timestamp: 7, attempts: 1, id: String::from(id), body: vec![1, 2, 3] }
}

/// A connection driven through the whole handshake into `Started`.
fn started_conn(initial_rdy: u32) -> Connection {
    let mut c = Connection::new(
        String::from("t"),
        String::from("c"),
        String::from("127.0.0.1:4150"),
        None,
        None,
        Some(initial_rdy),
    );
    c.magic();
    c.on_writable(); // sends Identify
    c.on_frame(Frame::Response(plain_negotiation()), 0).unwrap();
    c.on_writable(); // sends Subscribe
    c.on_frame(Frame::Response(String::from("OK")), 0).unwrap();
    c.on_writable(); // sends Ready, starts
    assert_eq!(c.state, ConnState::Started);
    c
}

#[test]
fn scenario_a_commands_in_order() {
    let config = Config::new().client_id(String::from("consumer"));
    let mut c = Connection::new(
        String::from("t"),
        String::from("c"),
        String::from("127.0.0.1:4150"),
        Some(config.clone()),
        None,
        Some(100),
    );
    c.magic();
    c.on_writable();
    assert!(c.need_response);
    let r = c.on_frame(Frame::Response(plain_negotiation()), 0);
    assert_eq!(r, Ok(vec![]));
    assert_eq!(c.state, ConnState::Subscribe);
    c.on_writable();
    c.on_frame(Frame::Response(String::from("OK")), 0).unwrap();
    assert_eq!(c.state, ConnState::Rdy);
    c.on_writable();
    assert_eq!(c.state, ConnState::Started);
    let sent = c.take_outbound();
    assert_eq!(
        sent,
        vec![
            Cmd::Magic,
            Cmd::Identify(config),
            Cmd::Subscribe(String::from("t"), String::from("c")),
            Cmd::Ready(100),
        ]
    );
}

#[test]
fn scenario_b_auth_without_secret_is_fatal_before_subscribe() {
    let mut c = Connection::new(
        String::from("t"),
        String::from("c"),
        String::from("127.0.0.1:4150"),
        None,
        None,
        None,
    );
    c.magic();
    c.on_writable();
    let r = c.on_frame(Frame::Response(auth_negotiation()), 0);
    assert_eq!(r, Err(Fatal::AuthRequired));
    assert_eq!(c.state, ConnState::Stopped);
    assert!(c.restart_stops());
    let sent = c.take_outbound();
    assert!(!sent.iter().any(|cmd| matches!(cmd, Cmd::Subscribe(_, _))));
}

#[test]
fn auth_with_secret_is_visited_once_before_subscribe() {
    let mut c = Connection::new(
        String::from("t"),
        String::from("c"),
        String::from("127.0.0.1:4150"),
        None,
        Some(String::from("SECRET-REDACTED")),
        None,
    );
    c.magic();
    c.on_writable();
    let r = c.on_frame(Frame::Response(auth_negotiation()), 0);
    assert_eq!(r, Ok(vec![]));
    assert_eq!(c.state, ConnState::Auth);
    c.on_writable(); // sends Auth
    c.on_frame(Frame::Response(String::from("OK")), 0).unwrap();
    assert_eq!(c.state, ConnState::Subscribe);
    c.on_writable(); // sends Subscribe
    c.on_frame(Frame::Response(String::from("OK")), 0).unwrap();
    c.on_writable();
    assert_eq!(c.state, ConnState::Started);
    let sent = c.take_outbound();
    let auth_count = sent.iter().filter(|cmd| matches!(cmd, Cmd::Auth(_))).count();
    assert_eq!(auth_count, 1);
    assert_eq!(sent[2], Cmd::Auth(String::from("SECRET-REDACTED")));
    assert!(matches!(sent[3], Cmd::Subscribe(_, _)));
}

#[test]
fn tls_branch_is_traversed_before_subscribe() {
    let mut c = Connection::new(
        String::from("t"),
        String::from("c"),
        String::from("127.0.0.1:4150"),
        None,
        None,
        None,
    );
    c.magic();
    c.on_writable();
    let r = c.on_frame(Frame::Response(tls_negotiation()), 0);
    assert_eq!(r, Ok(vec![]));
    assert_eq!(c.state, ConnState::Tls);
    // the TLS upgrade is acknowledged with a plain response
    c.on_frame(Frame::Response(String::from("OK")), 0).unwrap();
    assert_eq!(c.state, ConnState::Subscribe);
}

#[test]
fn writable_does_not_resend_while_reply_is_outstanding() {
    let mut c = Connection::new(
        String::from("t"),
        String::from("c"),
        String::from("127.0.0.1:4150"),
        None,
        None,
        None,
    );
    c.magic();
    c.on_writable(); // sends Identify, reply now outstanding
    c.on_writable(); // daemon still silent: nothing more may go out
    c.on_writable();
    let sent = c.take_outbound();
    assert_eq!(sent.len(), 2);
    assert_eq!(sent[0], Cmd::Magic);
    assert!(matches!(sent[1], Cmd::Identify(_)));
    // once the reply is consumed the next command goes out again
    c.on_frame(Frame::Response(plain_negotiation()), 0).unwrap();
    c.on_writable();
    c.on_writable();
    let sent = c.take_outbound();
    assert_eq!(sent.len(), 1);
    assert!(matches!(sent[0], Cmd::Subscribe(_, _)));
}

#[test]
fn tls_then_auth_without_secret_is_fatal() {
    let mut c = Connection::new(
        String::from("t"),
        String::from("c"),
        String::from("127.0.0.1:4150"),
        None,
        None,
        None,
    );
    c.magic();
    c.on_writable();
    let tls_auth = tls_negotiation().replace("\"auth_required\":false", "\"auth_required\":true");
    c.on_frame(Frame::Response(tls_auth), 0).unwrap();
    assert_eq!(c.state, ConnState::Tls);
    let r = c.on_frame(Frame::Response(String::from("OK")), 0);
    assert_eq!(r, Err(Fatal::AuthRequired));
    assert_eq!(c.state, ConnState::Stopped);
}

#[test]
fn tls_then_auth_with_secret_enters_auth() {
    let mut c = Connection::new(
        String::from("t"),
        String::from("c"),
        String::from("127.0.0.1:4150"),
        None,
        Some(String::from("SECRET-REDACTED")),
        None,
    );
    c.magic();
    c.on_writable();
    let tls_auth = tls_negotiation().replace("\"auth_required\":false", "\"auth_required\":true");
    c.on_frame(Frame::Response(tls_auth), 0).unwrap();
    assert_eq!(c.state, ConnState::Tls);
    c.on_frame(Frame::Response(String::from("OK")), 0).unwrap();
    assert_eq!(c.state, ConnState::Auth);
}

#[test]
fn response_while_started_changes_nothing() {
    let mut c = started_conn(1);
    c.take_outbound();
    let r = c.on_frame(Frame::Response(String::from("OK")), 5).unwrap();
    assert!(r.is_empty());
    assert_eq!(c.state, ConnState::Started);
    assert_eq!(c.take_outbound(), vec![]);
}

#[test]
fn malformed_negotiation_is_fatal() {
    let mut c = Connection::new(
        String::from("t"),
        String::from("c"),
        String::from("127.0.0.1:4150"),
        None,
        None,
        None,
    );
    c.magic();
    c.on_writable();
    let r = c.on_frame(Frame::Response(String::from("{broken")), 0);
    assert_eq!(r, Err(Fatal::MalformedResponse));
    assert_eq!(c.state, ConnState::Stopped);
}

#[test]
fn scenario_c_in_flight_counts_deliveries_and_finishes() {
    let mut c = started_conn(3);
    c.take_outbound();
    assert_eq!(c.in_flight, 0);
    let d1 = c.on_frame(Frame::Messages(vec![msg("m1")]), 1).unwrap();
    assert_eq!(c.in_flight, 1);
    let d2 = c.on_frame(Frame::Messages(vec![msg("m2")]), 2).unwrap();
    assert_eq!(c.in_flight, 2);
    let d3 = c.on_frame(Frame::Messages(vec![msg("m3")]), 3).unwrap();
    assert_eq!(c.in_flight, 3);
    assert_eq!(d1[0].id, "m1");
    assert_eq!(d2[0].id, "m2");
    assert_eq!(d3[0].id, "m3");
    c.finish(String::from("m2"));
    assert_eq!(c.in_flight, 2);
    // the acknowledgement is queued before any later credit update
    c.ready(3);
    let sent = c.take_outbound();
    assert_eq!(sent[0], Cmd::Finish(String::from("m2")));
    assert_eq!(sent[1], Cmd::Ready(3));
}

#[test]
fn in_flight_after_bulk_delivery_is_k_minus_j() {
    let mut c = started_conn(5);
    let delivered = c
        .on_frame(Frame::Messages(vec![msg("a"), msg("b"), msg("c"), msg("d"), msg("e")]), 1)
        .unwrap();
    assert_eq!(delivered.len(), 5);
    assert_eq!(c.in_flight, 5);
    c.finish(String::from("a"));
    c.finish(String::from("b"));
    assert_eq!(c.in_flight, 3);
}

#[test]
fn scenario_d_heartbeat_answered_with_one_nop() {
    let mut c = started_conn(1);
    c.take_outbound();
    c.on_frame(Frame::Heartbeat, 1000).unwrap();
    assert!(c.heartbeat);
    assert_eq!(c.last_heartbeat_ms, 1000);
    c.on_writable(); // the next writable-ready cycle
    assert!(!c.heartbeat);
    assert_eq!(c.take_outbound(), vec![Cmd::Nop]);
    c.on_writable(); // no heartbeat owed: nothing more is sent
    assert_eq!(c.take_outbound(), vec![]);
}

#[test]
fn close_hands_back_exactly_one_sentinel() {
    let mut c = started_conn(1);
    c.take_outbound();
    let sentinel = c.close();
    assert!(is_sentinel(&sentinel));
    assert_eq!(c.state, ConnState::Stopped);
    assert_eq!(c.take_outbound(), vec![Cmd::Close]);
    assert!(c.restart_stops());
}

#[test]
fn watchdog_fires_only_past_the_window() {
    let mut c = started_conn(1);
    c.on_frame(Frame::Heartbeat, 1000).unwrap();
    assert!(c.watchdog_sentinel(46000).is_none());
    let fired = c.watchdog_sentinel(46001);
    assert!(fired.is_some());
    assert!(is_sentinel(&fired.unwrap()));
}

#[test]
fn watchdog_is_quiet_before_started() {
    let c = Connection::new(
        String::from("t"),
        String::from("c"),
        String::from("127.0.0.1:4150"),
        None,
        None,
        None,
    );
    assert!(c.watchdog_sentinel(1_000_000).is_none());
}

#[test]
fn ready_is_clamped_to_the_negotiated_maximum() {
    let mut c = started_conn(1);
    c.take_outbound();
    c.ready(100_000);
    assert_eq!(c.rdy, 2500);
    assert_eq!(c.take_outbound(), vec![Cmd::Ready(2500)]);
}

#[test]
fn initial_ready_is_clamped_to_the_negotiated_maximum() {
    let c = started_conn(100_000);
    assert_eq!(c.rdy, 2500);
}

#[test]
fn backoff_and_resume_cycle_credit() {
    let mut c = started_conn(10);
    c.take_outbound();
    c.backoff();
    assert_eq!(c.state, ConnState::Backoff);
    assert_eq!(c.rdy, 0);
    c.resume();
    assert_eq!(c.state, ConnState::Resume);
    assert_eq!(c.rdy, 1);
    c.ready(10);
    assert_eq!(c.state, ConnState::Started);
    assert_eq!(c.rdy, 10);
    assert_eq!(c.take_outbound(), vec![Cmd::Ready(0), Cmd::Ready(1), Cmd::Ready(10)]);
}

#[test]
fn error_frame_changes_nothing() {
    let mut c = started_conn(1);
    c.take_outbound();
    let r = c.on_frame(Frame::Error(String::from("E_INVALID")), 5).unwrap();
    assert!(r.is_empty());
    assert_eq!(c.state, ConnState::Started);
    assert_eq!(c.take_outbound(), vec![]);
}

#[test]
fn connection_new_starts_fresh() {
    let c = Connection::new(
        String::from("topic"),
        String::from("chan"),
        String::from("127.0.0.1:4150"),
        None,
        None,
        None,
    );
    assert_eq!(c.state, ConnState::Identify);
    assert_eq!(c.rdy, 1);
    assert_eq!(c.in_flight, 0);
    assert!(!c.need_response);
    assert!(!c.heartbeat);
    assert!(c.negotiated.is_none());
    assert!(c.outbound.is_empty());
}

#[test]
fn connection_default_matches_new() {
    let c = Connection::default();
    assert_eq!(c.state, ConnState::Identify);
    assert_eq!(c.rdy, 1);
    assert_eq!(c.topic, "");
    assert_eq!(c.channel, "");
}
