use hb::protocol::{Frame, close_call, get_call, ping_call, Call, Reply, WsError, WsMsg, WsTypes};
use hb::ws::{is_pong, reply_data, state_entries, Ws};
use std::sync::mpsc::channel;

struct Plain;

impl WsTypes for Plain {
    type HookStart = u8;
    type HookStop = u16;
    type HookCallback = u32;
    type Value = String;
    type Worker = u64;
}

fn pairs(v: &[(String, String)]) -> Vec<(&str, &str)> {
    v.iter().map(|(a, b)| (a.as_str(), b.as_str())).collect()
}

#[test]
fn fresh_client_is_not_alive() {
    let mut ws: Ws<Plain> = Ws::new("ss://api.huobi.pro/ws");
    assert_eq!(ws.is_alive(), false);
    assert_eq!(ws.url, "ss://api.huobi.pro/ws");
    assert_eq!(ws.get_url(), "ss://api.huobi.pro/ws");
}

#[test]
fn fresh_client_state_reports_url_and_dead() {
    let mut ws: Ws<Plain> = Ws::new("wss://api.huobi.pro/ws");
    let s = ws.state();
    assert_eq!(pairs(&s), vec![("url", "wss://api.huobi.pro/ws"), ("is_alive", "false")]);
}

#[test]
fn fresh_client_refuses_commands() {
    let mut ws: Ws<Plain> = Ws::new("wss://x");
    assert!(matches!(ws.send_msg("hi"), Err(WsError::NonSender)));
    assert!(matches!(ws.add_hook(3), Err(WsError::NonSender)));
    assert!(matches!(ws.add_hook_start(4), Err(WsError::NonSender)));
    assert!(matches!(ws.add_hook_stop(5), Err(WsError::NonSender)));
    assert_eq!(ws.hook_callback(), Some(3));
    assert_eq!(ws.hook_start(), Some(4));
    assert_eq!(ws.hook_stop(), Some(5));
    assert_eq!(ws.get_data("market.btcusdt.bbo"), None);
    assert_eq!(ws.close(), None);
}

#[test]
fn connected_client_hands_commands_to_worker() {
    let mut ws: Ws<Plain> = Ws::new("wss://x");
    let (tx, rx) = channel();
    ws.connected_to(tx, 7);
    assert!(ws.send_msg("{\"sub\":\"market.btcusdt.bbo\",\"id\":\"id1\"}").is_ok());
    match rx.try_recv() {
        Ok(Call::WsMsg(WsMsg::Message(Frame::Text(m)))) => {
            assert_eq!(m, "{\"sub\":\"market.btcusdt.bbo\",\"id\":\"id1\"}")
        }
        _ => panic!("expected a message"),
    }
    assert!(ws.add_hook(9).is_ok());
    assert!(matches!(rx.try_recv(), Ok(Call::WsMsg(WsMsg::Hook(9)))));
    assert!(ws.add_hook_start(1).is_ok());
    assert!(matches!(rx.try_recv(), Ok(Call::WsMsg(WsMsg::HookStart(1)))));
    assert!(ws.add_hook_stop(2).is_ok());
    assert!(matches!(rx.try_recv(), Ok(Call::WsMsg(WsMsg::HookStop(2)))));
}

#[test]
fn client_with_gone_worker() {
    let mut ws: Ws<Plain> = Ws::new("wss://x");
    let (tx, rx) = channel();
    ws.connected_to(tx, 11);
    drop(rx);
    match ws.send_msg("x") {
        Err(WsError::SenderError(Call::WsMsg(WsMsg::Message(Frame::Text(m))))) => assert_eq!(m, "x"),
        _ => panic!("expected the command back"),
    }
    assert!(matches!(ws.add_hook(8), Err(WsError::SenderError(Call::WsMsg(WsMsg::Hook(8))))));
    assert_eq!(ws.is_alive(), false);
    assert_eq!(ws.get_data("k"), None);
    let s = ws.state();
    assert_eq!(pairs(&s), vec![("url", "wss://x"), ("is_alive", "false")]);
    assert_eq!(ws.close(), Some(11));
    assert_eq!(ws.close(), None);
}

#[test]
fn state_entries_for_alive_client() {
    let s = state_entries("wss://api.huobi.pro/ws", true);
    assert_eq!(pairs(&s), vec![("url", "wss://api.huobi.pro/ws"), ("is_alive", "true")]);
}

#[test]
fn answers_are_read() {
    assert!(is_pong::<Plain>(&Ok(Reply::Pong)));
    assert!(!is_pong::<Plain>(&Ok(Reply::Ack)));
    assert!(!is_pong::<Plain>(&Err(())));
    assert_eq!(reply_data::<Plain>(Ok(Reply::Value("v".to_string()))), Some("v".to_string()));
    assert_eq!(reply_data::<Plain>(Ok(Reply::Pong)), None);
    assert_eq!(reply_data::<Plain>(Err(())), None);
}

#[test]
fn commands_carry_their_answer_channel() {
    let (tx, rx) = channel::<Reply<Plain>>();
    match ping_call::<Plain>(tx.clone()) {
        Call::Ping(p) => p.send(Reply::Pong).unwrap(),
        _ => panic!("expected a ping"),
    }
    match close_call::<Plain>(tx.clone()) {
        Call::Close(p) => p.send(Reply::Ack).unwrap(),
        _ => panic!("expected a close"),
    }
    match get_call::<Plain>(tx, "market.btcusdt.bbo".to_string()) {
        Call::WsMsgCall(p, WsMsg::Get(k)) => {
            assert_eq!(k, "market.btcusdt.bbo");
            p.send(Reply::Value("v".to_string())).unwrap();
        }
        _ => panic!("expected a data request"),
    }
    assert!(matches!(rx.try_recv(), Ok(Reply::Pong)));
    assert!(matches!(rx.try_recv(), Ok(Reply::Ack)));
    assert!(matches!(rx.try_recv(), Ok(Reply::Value(v)) if v == "v"));
}
