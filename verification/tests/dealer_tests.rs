use dealer::connection::{Dealer, DealerError, FrameEvent, Phase, RoundTrip};
use dealer::types::{BalanceParams, Request};

/// What the fake channel does on each call, and the record of the calls
/// it saw, in order.
struct FakeChannel {
    write_result: Result<(), String>,
    reply: FrameEvent,
    ops: Vec<String>,
}

impl FakeChannel {
    fn answering(reply: FrameEvent) -> FakeChannel {
        FakeChannel { write_result: Ok(()), reply, ops: Vec::new() }
    }

    fn failing_write(msg: &str) -> FakeChannel {
        FakeChannel {
            write_result: Err(msg.to_string()),
            reply: FrameEvent::NonText,
            ops: Vec::new(),
        }
    }

    fn write(&mut self, body: &str) -> Result<(), String> {
        self.ops.push(format!("write:{body}"));
        self.write_result.clone()
    }

    fn read(&mut self) -> FrameEvent {
        self.ops.push("read".to_string());
        match &self.reply {
            FrameEvent::Text(s) => FrameEvent::Text(s.clone()),
            FrameEvent::NonText => FrameEvent::NonText,
            FrameEvent::Failed(m) => FrameEvent::Failed(m.clone()),
        }
    }
}

/// Drives one round trip against the fake channel, exactly as the phases
/// demand, and returns the decided outcome.
fn drive(mut rt: RoundTrip, ch: &mut FakeChannel) -> Result<serde_json::Value, DealerError> {
    loop {
        match &rt.state {
            Phase::NeedWrite(body) => {
                let b = body.clone();
                let r = ch.write(&b);
                rt.on_write_result(r);
            }
            Phase::NeedRead => {
                let ev = ch.read();
                rt.on_frame(ev);
            }
            Phase::Done(_) => {
                match rt.state {
                    Phase::Done(outcome) => return outcome,
                    _ => unreachable!(),
                }
            }
        }
    }
}

fn pending_body(rt: &RoundTrip) -> String {
    match &rt.state {
        Phase::NeedWrite(b) => b.clone(),
        _ => panic!("round trip is past its write"),
    }
}

fn dealer(public: &str, private: &str) -> Dealer {
    Dealer::new("wss://www.example.com/ws/api/v2", public, private).unwrap()
}

#[test]
fn auth_body_holds_credentials_verbatim() {
    let d = dealer("abc", "xyz");
    let body = pending_body(&d.authenicate());
    assert_eq!(
        body,
        "{\"jsonrpc\":\"2.0\",\"id\":9929,\"method\":\"public/auth\",\"params\":{\"grant_type\":\"client_credentials\",\"client_id\":\"abc\",\"client_secret\":\"xyz\"}}"
    );
}

#[test]
fn balance_body_is_the_fixed_literal() {
    let d = dealer("abc", "xyz");
    let body = pending_body(&d.get_balance());
    assert_eq!(
        body,
        "{\"jsonrpc\":\"2.0\",\"id\":4947,\"method\":\"private/get_subaccounts\",\"params\":{\"with_portfolio\":true}}"
    );
}

#[test]
fn book_body_is_the_fixed_literal() {
    let d = dealer("abc", "xyz");
    let body = pending_body(&d.get_options_book());
    assert_eq!(
        body,
        "{\"jsonrpc\":\"2.0\",\"id\":9344,\"method\":\"public/get_book_summary_by_currency\",\"params\":{\"currency\":\"ETH\",\"kind\":\"option\"}}"
    );
}

#[test]
fn fixed_bodies_ignore_credentials() {
    let d1 = dealer("abc", "xyz");
    let d2 = dealer("other", "creds");
    assert_eq!(pending_body(&d1.get_balance()), pending_body(&d2.get_balance()));
    assert_eq!(pending_body(&d1.get_options_book()), pending_body(&d2.get_options_book()));
}

#[test]
fn auth_body_escapes_credentials() {
    let d = dealer("a\"b", "x\\y\nz");
    let body = pending_body(&d.authenicate());
    assert_eq!(
        body,
        "{\"jsonrpc\":\"2.0\",\"id\":9929,\"method\":\"public/auth\",\"params\":{\"grant_type\":\"client_credentials\",\"client_id\":\"a\\\"b\",\"client_secret\":\"x\\\\y\\u000az\"}}"
    );
    let v: serde_json::Value = serde_json::from_str(&body).expect("the body must be valid JSON");
    assert_eq!(v["params"]["client_id"].as_str().unwrap(), "a\"b");
    assert_eq!(v["params"]["client_secret"].as_str().unwrap(), "x\\y\nz");
    assert_eq!(v["id"].as_u64().unwrap(), 9929);
    assert_eq!(v["method"].as_str().unwrap(), "public/auth");
}

#[test]
fn serialize_renders_any_envelope() {
    let r = Request {
        jsonrpc: "2.0".to_string(),
        id: 65535,
        method: "m".to_string(),
        params: BalanceParams { with_portfolio: false },
    };
    assert_eq!(
        r.serialize(),
        "{\"jsonrpc\":\"2.0\",\"id\":65535,\"method\":\"m\",\"params\":{\"with_portfolio\":false}}"
    );
    let zero = Request {
        jsonrpc: "2.0".to_string(),
        id: 0,
        method: "m".to_string(),
        params: BalanceParams { with_portfolio: true },
    };
    assert_eq!(
        zero.serialize(),
        "{\"jsonrpc\":\"2.0\",\"id\":0,\"method\":\"m\",\"params\":{\"with_portfolio\":true}}"
    );
}

#[test]
fn round_trip_is_one_write_then_one_read() {
    let d = dealer("abc", "xyz");
    let mut ch = FakeChannel::answering(FrameEvent::Text("{\"ok\":1}".to_string()));
    let outcome = drive(d.get_balance(), &mut ch);
    assert!(outcome.is_ok());
    assert_eq!(ch.ops.len(), 2);
    assert!(ch.ops[0].starts_with("write:"));
    assert_eq!(ch.ops[1], "read");
}

#[test]
fn round_trip_returns_the_reply_unmodified() {
    let d = dealer("abc", "xyz");
    let mut ch = FakeChannel::answering(FrameEvent::Text("{\"ok\":1}".to_string()));
    let v = drive(d.get_balance(), &mut ch).expect("the reply must come through");
    let expected: serde_json::Value = serde_json::from_str("{\"ok\":1}").unwrap();
    assert_eq!(v, expected);
}

#[test]
fn failed_write_reports_and_never_reads() {
    let d = dealer("abc", "xyz");
    let mut ch = FakeChannel::failing_write("connection reset");
    let outcome = drive(d.authenicate(), &mut ch);
    match outcome {
        Err(DealerError::TransportError(m)) => assert_eq!(m, "connection reset"),
        _ => panic!("a failed write must surface as a transport error"),
    }
    assert_eq!(ch.ops.len(), 1);
    assert!(ch.ops[0].starts_with("write:"));
}

#[test]
fn non_text_frame_is_a_reported_protocol_error() {
    let d = dealer("abc", "xyz");
    let mut ch = FakeChannel::answering(FrameEvent::NonText);
    let outcome = drive(d.get_balance(), &mut ch);
    assert!(matches!(outcome, Err(DealerError::ProtocolError)));
}

#[test]
fn malformed_reply_is_a_reported_decode_error() {
    let d = dealer("abc", "xyz");
    let mut ch = FakeChannel::answering(FrameEvent::Text("not json".to_string()));
    let outcome = drive(d.get_balance(), &mut ch);
    assert!(matches!(outcome, Err(DealerError::DecodeError)));
}

#[test]
fn failed_read_is_a_reported_transport_error() {
    let d = dealer("abc", "xyz");
    let mut ch = FakeChannel::answering(FrameEvent::Failed("socket closed".to_string()));
    let outcome = drive(d.get_balance(), &mut ch);
    match outcome {
        Err(DealerError::TransportError(m)) => assert_eq!(m, "socket closed"),
        _ => panic!("a failed read must surface as a transport error"),
    }
}

#[test]
fn get_balance_twice_is_idempotent() {
    let d = dealer("abc", "xyz");
    let reply = "{\"result\":[{\"balance\":7}]}";
    let mut ch1 = FakeChannel::answering(FrameEvent::Text(reply.to_string()));
    let mut ch2 = FakeChannel::answering(FrameEvent::Text(reply.to_string()));
    let v1 = drive(d.get_balance(), &mut ch1).unwrap();
    let v2 = drive(d.get_balance(), &mut ch2).unwrap();
    assert_eq!(v1, v2);
    assert_eq!(ch1.ops, ch2.ops);
    assert_eq!(ch1.ops.len(), 2);
}

#[test]
fn malformed_endpoint_is_a_reported_connection_error() {
    let r = Dealer::new("not a url", "abc", "xyz");
    assert!(matches!(r, Err(DealerError::ConnectionError(_))));
}

#[test]
fn well_formed_endpoint_builds_the_dealer() {
    let d = dealer("abc", "xyz");
    assert_eq!(d.endpoint, "wss://www.example.com/ws/api/v2");
    assert_eq!(d.creds.drb_public, "abc");
    assert_eq!(d.creds.drb_private, "xyz");
}
