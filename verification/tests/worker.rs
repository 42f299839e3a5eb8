use hb::client::{ClientState, Effect};
use hb::dispatch::{answer, next_step, Incoming, Step};
use hb::protocol::{Call, Frame, Reply, WsMsg, WsTypes};
use std::sync::mpsc::channel;

struct Plain;

impl WsTypes for Plain {
    type HookStart = u8;
    type HookStop = u16;
    type HookCallback = u32;
    type Value = String;
    type Worker = u64;
}

#[test]
fn worker_polls_on_empty_and_stops_on_disconnect() {
    assert!(matches!(next_step::<Plain>(Incoming::Empty), Step::Poll));
    assert!(matches!(next_step::<Plain>(Incoming::Disconnected), Step::Shutdown));
}

#[test]
fn worker_answers_ping_with_pong() {
    let (tx, rx) = channel::<Reply<Plain>>();
    match next_step::<Plain>(Incoming::Received(Call::Ping(tx))) {
        Step::Answer(pid, reply) => {
            assert!(matches!(reply, Reply::Pong));
            pid.send(reply).unwrap();
        }
        _ => panic!("expected an answer"),
    }
    assert!(matches!(rx.try_recv(), Ok(Reply::Pong)));
}

#[test]
fn worker_acknowledges_close_then_stops() {
    let (tx, rx) = channel::<Reply<Plain>>();
    match next_step::<Plain>(Incoming::Received(Call::Close(tx))) {
        Step::AckAndShutdown(pid) => pid.send(Reply::Ack).unwrap(),
        _ => panic!("expected a shutdown"),
    }
    assert!(matches!(rx.try_recv(), Ok(Reply::Ack)));
}

#[test]
fn worker_forwards_and_asks() {
    assert!(matches!(
        next_step::<Plain>(Incoming::Received(Call::WsMsg(WsMsg::Close))),
        Step::Forward(WsMsg::Close)
    ));
    let (tx, _rx) = channel::<Reply<Plain>>();
    match next_step::<Plain>(Incoming::Received(Call::WsMsgCall(tx, WsMsg::Get("id".to_string())))) {
        Step::Ask(_, WsMsg::Get(k)) => assert_eq!(k, "id"),
        _ => panic!("expected a request"),
    }
}

#[test]
fn worker_passes_on_only_data() {
    assert!(matches!(answer::<Plain>(Some(Some("d".to_string()))), Some(Reply::Value(v)) if v == "d"));
    assert!(answer::<Plain>(Some(None)).is_none());
    assert!(answer::<Plain>(None).is_none());
}

#[test]
fn actor_installs_hooks() {
    let mut s: ClientState<Plain> = ClientState::new(None, None, None);
    assert!(matches!(s.handle(WsMsg::Hook(5)), Effect::Done));
    assert!(matches!(s.handle(WsMsg::HookStart(6)), Effect::Done));
    assert!(matches!(s.handle(WsMsg::HookStop(7)), Effect::Done));
    assert_eq!(s.hook_callback(), Some(5));
    assert_eq!(s.hook_start(), Some(6));
    assert_eq!(s.hook_stop(), Some(7));
}

#[test]
fn actor_writes_and_stops() {
    let mut s: ClientState<Plain> = ClientState::new(Some(1), None, None);
    assert!(matches!(s.handle(WsMsg::Message(Frame::Text("m".to_string()))), Effect::Write(Frame::Text(m)) if m == "m"));
    assert!(matches!(s.handle(WsMsg::Message(Frame::Close)), Effect::Write(Frame::Close)));
    assert!(matches!(s.handle(WsMsg::Close), Effect::Stop));
    assert_eq!(s.hook_start(), Some(1));
}

#[test]
fn actor_answers_what_was_reported() {
    let mut s: ClientState<Plain> = ClientState::new(None, None, None);
    assert!(matches!(s.handle(WsMsg::Get("market.btcusdt.bbo".to_string())), Effect::Answer(None)));
    s.record("market.btcusdt.bbo".to_string(), "first".to_string());
    s.record("market.ethusdt.bbo".to_string(), "other".to_string());
    s.record("market.btcusdt.bbo".to_string(), "second".to_string());
    match s.handle(WsMsg::Get("market.btcusdt.bbo".to_string())) {
        Effect::Answer(Some(v)) => assert_eq!(v, "second"),
        _ => panic!("expected the data"),
    }
    assert_eq!(s.lookup(&"market.ethusdt.bbo".to_string()), Some("other".to_string()));
}

#[test]
fn actor_keeps_only_complete_reports() {
    let mut s: ClientState<Plain> = ClientState::new(None, None, None);
    s.record_report(None);
    assert_eq!(s.lookup(&"a".to_string()), None);
    s.record_report(Some(("a".to_string(), "x".to_string())));
    assert_eq!(s.lookup(&"a".to_string()), Some("x".to_string()));
}

#[test]
fn worker_forwards_plain_commands_in_order() {
    let mut forwarded = Vec::new();
    for m in ["one", "two", "three"] {
        match next_step::<Plain>(Incoming::Received(Call::WsMsg(WsMsg::Message(Frame::Text(m.to_string()))))) {
            Step::Forward(WsMsg::Message(Frame::Text(x))) => forwarded.push(x),
            _ => panic!("expected a forward"),
        }
    }
    assert_eq!(forwarded, vec!["one", "two", "three"]);
}
