use vstd::prelude::*;

use crate::channel;
use crate::protocol::{call_channel, close_call, get_call, ping_call, Call, Frame, Reply, WsError, WsMsg, WsTypes};

verus! {

/// What the worker is told and what it answers go over channels of these types.
pub type Pid<R> = std::sync::mpsc::Sender<Reply<R>>;

/// `Ok` once a command has been handed to the worker.
pub type WsResult<R> = Result<(), WsError<R>>;

/// A handed-over command fails with `NonSender` exactly when the client has
/// no worker to hand it to; any other failure is the worker being gone.
pub open spec fn handed_over<R: WsTypes>(connected: bool, r: WsResult<R>) -> bool {
    (r matches Err(WsError::NonSender)) <==> !connected
}

/// The client side of a websocket connection that a worker thread owns.
#[verifier::reject_recursive_types(R)]
pub struct Ws<R: WsTypes> {
    sender: Option<std::sync::mpsc::Sender<Call<R>>>,
    pub url: &'static str,
    handle: Option<R::Worker>,
    hook_start: Option<R::HookStart>,
    hook_stop: Option<R::HookStop>,
    hook_callback: Option<R::HookCallback>,
    handed_log: Ghost<Seq<Call<R>>>,
    answers_log: Ghost<Seq<Result<Reply<R>, ()>>>,
}

/// Two states of a client that differ at most in what was handed over.
pub open spec fn same_client<R: WsTypes>(a: Ws<R>, b: Ws<R>) -> bool {
    &&& a.address() == b.address()
    &&& a.sender_channel() == b.sender_channel()
    &&& a.worker() == b.worker()
    &&& a.start_hook() == b.start_hook()
    &&& a.stop_hook() == b.stop_hook()
    &&& a.callback_hook() == b.callback_hook()
}

/// `after` is `before` with a ping handed over next.
pub open spec fn handed_ping<R: WsTypes>(before: Seq<Call<R>>, after: Seq<Call<R>>) -> bool {
    exists|pid: Pid<R>| #[trigger] before.push(Call::Ping(pid)) == after
}

/// `after` is `before` with a request for the data under `key` handed over next.
pub open spec fn handed_get<R: WsTypes>(before: Seq<Call<R>>, after: Seq<Call<R>>, key: Seq<char>) -> bool {
    exists|pid: Pid<R>, k: String| k@ == key && #[trigger] before.push(Call::WsMsgCall(pid, WsMsg::Get(k))) == after
}

/// `after` is `before` with a text frame holding `text` handed over next.
pub open spec fn handed_text<R: WsTypes>(before: Seq<Call<R>>, after: Seq<Call<R>>, text: Seq<char>) -> bool {
    exists|s: String| s@ == text && #[trigger] before.push(Call::<R>::WsMsg(WsMsg::Message(Frame::Text(s)))) == after
}

/// `after` is `before` with, in this order, the close command and the close
/// frame handed over next, each where the worker took it.
pub open spec fn handed_close<R: WsTypes>(before: Seq<Call<R>>, after: Seq<Call<R>>) -> bool {
    let frame = Call::<R>::WsMsg(WsMsg::Message(Frame::Close));
    ||| after == before
    ||| after == before.push(frame)
    ||| exists|pid: Pid<R>| #[trigger] before.push(Call::Close(pid)) == after
    ||| exists|pid: Pid<R>| #[trigger] before.push(Call::Close(pid)).push(frame) == after
}

/// The entries of a client's state report: its url, and whether its worker
/// answered a ping.
pub open spec fn is_state_report(r: Seq<(String, String)>, url: Seq<char>, alive: bool) -> bool {
    &&& r.len() == 2
    &&& r[0].0@ == "url"@
    &&& r[0].1@ == url
    &&& r[1].0@ == "is_alive"@
    &&& r[1].1@ == (if alive { "true"@ } else { "false"@ })
}

/// Whether an answer to a ping says that the worker is alive.
pub open spec fn alive_answer<R: WsTypes>(r: Result<Reply<R>, ()>) -> bool {
    r matches Ok(Reply::Pong)
}

/// The data carried by an answer to a data request, if any.
pub open spec fn data_answer<R: WsTypes>(r: Result<Reply<R>, ()>) -> Option<R::Value> {
    match r {
        Ok(Reply::Value(v)) => Some(v),
        _ => None,
    }
}

/// Whether a ping answer means the worker is alive.
pub fn is_pong<R: WsTypes>(r: &Result<Reply<R>, ()>) -> (b: bool)
    ensures
        b == alive_answer(*r),
{
    match r {
        Ok(Reply::Pong) => true,
        _ => false,
    }
}

/// The data carried by an answer to a data request.
pub fn reply_data<R: WsTypes>(r: Result<Reply<R>, ()>) -> (d: Option<R::Value>)
    ensures
        d == data_answer(r),
{
    match r {
        Ok(Reply::Value(v)) => Some(v),
        _ => None,
    }
}

/// The state report for a client with this url, alive or not.
pub fn state_entries(url: &str, alive: bool) -> (r: Vec<(String, String)>)
    ensures
        is_state_report(r@, url@, alive),
{
    let mut r: Vec<(String, String)> = Vec::new();
    let u = url.to_string();
    let k1 = "url".to_string();
    let k2 = "is_alive".to_string();
    let v = if alive { "true".to_string() } else { "false".to_string() };
    proof {
        reveal_strlit("url");
        reveal_strlit("is_alive");
        reveal_strlit("true");
        reveal_strlit("false");
    }
    r.push((k1, u));
    r.push((k2, v));
    r
}

/// A client's ping reads as alive exactly when the answer that came back is
/// `Pong`; any other answer, or none, reads as dead.
pub proof fn law_alive_exactly_on_pong<R: WsTypes>(before: Ws<R>, after: Ws<R>, alive: bool)
    requires
        after.answers() == before.answers().push(after.answers().last()),
        alive == alive_answer(after.answers().last()),
    ensures
        alive <==> (after.answers().last() matches Ok(Reply::Pong)),
        after.answers().last() matches Ok(Reply::Pong) ==> alive,
        after.answers().last() is Err ==> !alive,
        after.answers().last() matches Ok(Reply::Ack) ==> !alive,
        after.answers().last() matches Ok(Reply::Value(_)) ==> !alive,
{
}

/// A data request gives exactly the data in the answer that came back:
/// `Some(v)` when the worker answered `Value(v)`, and `None` for any other
/// answer or none.
pub proof fn law_data_is_the_answered_value<R: WsTypes>(before: Ws<R>, after: Ws<R>, d: Option<R::Value>)
    requires
        after.answers() == before.answers().push(after.answers().last()),
        d == data_answer(after.answers().last()),
    ensures
        forall|v: R::Value| after.answers().last() == Ok::<Reply<R>, ()>(Reply::Value(v)) ==> d == Some(v),
        d is Some <==> (after.answers().last() matches Ok(Reply::Value(_))),
        d matches Some(v) ==> after.answers().last() == Ok::<Reply<R>, ()>(Reply::Value(v)),
{
}

/// A state report shows the client's url, and "true" under "is_alive" exactly
/// when its ping was answered with `Pong`, "false" otherwise.
pub proof fn law_state_reports_the_ping<R: WsTypes>(
    before: Ws<R>,
    after: Ws<R>,
    r: Seq<(String, String)>,
)
    requires
        after.answers() == before.answers().push(after.answers().last()),
        is_state_report(r, before.address(), alive_answer(after.answers().last())),
    ensures
        r.len() == 2,
        r[0].0@ == "url"@,
        r[0].1@ == before.address(),
        r[1].0@ == "is_alive"@,
        r[1].1@ == "true"@ <==> (after.answers().last() matches Ok(Reply::Pong)),
        r[1].1@ == "false"@ <==> !(after.answers().last() matches Ok(Reply::Pong)),
{
    reveal_strlit("true");
    reveal_strlit("false");
    assert("true"@ != "false"@) by {
        assert("true"@[0] != "false"@[0]);
    }
}

impl<R: WsTypes> Ws<R> {
    /// The url that the client connects to.
    pub closed spec fn address(&self) -> Seq<char> {
        self.url@
    }

    /// The url that the client connects to, as its `url` field holds it.
    pub fn get_url(&self) -> (u: &'static str)
        ensures
            u@ == self.address(),
    {
        self.url
    }

    /// The channel to the worker, if the client has one.
    pub closed spec fn sender_channel(&self) -> Option<std::sync::mpsc::Sender<Call<R>>> {
        self.sender
    }

    /// The client can hand commands to a worker.
    pub open spec fn connected(&self) -> bool {
        self.sender_channel() is Some
    }

    /// The commands that the current worker's channel took from this client,
    /// in order.
    pub closed spec fn handed(&self) -> Seq<Call<R>> {
        self.handed_log@
    }

    /// The answers that this client's calls got, in order: what came back on
    /// each call's answer channel, or `Err(())` where nothing did.
    pub closed spec fn answers(&self) -> Seq<Result<Reply<R>, ()>> {
        self.answers_log@
    }

    /// The handle of the worker, until the client is closed.
    pub closed spec fn worker(&self) -> Option<R::Worker> {
        self.handle
    }

    pub closed spec fn start_hook(&self) -> Option<R::HookStart> {
        self.hook_start
    }

    pub closed spec fn stop_hook(&self) -> Option<R::HookStop> {
        self.hook_stop
    }

    pub closed spec fn callback_hook(&self) -> Option<R::HookCallback> {
        self.hook_callback
    }

    /// A client for `url` with no worker and no hooks.
    pub fn new(url: &'static str) -> (ws: Self)
        ensures
            ws.address() == url@,
            !ws.connected(),
            ws.handed() == Seq::<Call<R>>::empty(),
            ws.answers() == Seq::<Result<Reply<R>, ()>>::empty(),
            ws.worker() is None,
            ws.start_hook() is None,
            ws.stop_hook() is None,
            ws.callback_hook() is None,
    {
        Ws {
            sender: None,
            url,
            handle: None,
            hook_start: None,
            hook_stop: None,
            hook_callback: None,
            handed_log: Ghost(Seq::empty()),
            answers_log: Ghost(Seq::empty()),
        }
    }

    /// Installs the frame hook and tells the worker about it.
    pub fn add_hook(&mut self, c: R::HookCallback) -> (r: WsResult<R>)
        ensures
            final(self).callback_hook() == Some(c),
            final(self).start_hook() == old(self).start_hook(),
            final(self).stop_hook() == old(self).stop_hook(),
            final(self).address() == old(self).address(),
            final(self).sender_channel() == old(self).sender_channel(),
            final(self).worker() == old(self).worker(),
            handed_over(old(self).connected(), r),
            r is Ok ==> final(self).handed() == old(self).handed().push(Call::WsMsg(WsMsg::Hook(c))),
            r is Err ==> final(self).handed() == old(self).handed(),
            final(self).answers() == old(self).answers(),
            r matches Err(WsError::SenderError(cmd)) ==> cmd == Call::<R>::WsMsg(WsMsg::Hook(c)),
    {
        self.hook_callback = Some(c);
        self.do_send_wsmsg(WsMsg::Hook(c))
    }

    /// Installs the start hook and tells the worker about it.
    pub fn add_hook_start(&mut self, c: R::HookStart) -> (r: WsResult<R>)
        ensures
            final(self).start_hook() == Some(c),
            final(self).callback_hook() == old(self).callback_hook(),
            final(self).stop_hook() == old(self).stop_hook(),
            final(self).address() == old(self).address(),
            final(self).sender_channel() == old(self).sender_channel(),
            final(self).worker() == old(self).worker(),
            handed_over(old(self).connected(), r),
            r is Ok ==> final(self).handed() == old(self).handed().push(Call::WsMsg(WsMsg::HookStart(c))),
            r is Err ==> final(self).handed() == old(self).handed(),
            final(self).answers() == old(self).answers(),
            r matches Err(WsError::SenderError(cmd)) ==> cmd == Call::<R>::WsMsg(WsMsg::HookStart(c)),
    {
        self.hook_start = Some(c);
        self.do_send_wsmsg(WsMsg::HookStart(c))
    }

    /// Installs the stop hook and tells the worker about it.
    pub fn add_hook_stop(&mut self, c: R::HookStop) -> (r: WsResult<R>)
        ensures
            final(self).stop_hook() == Some(c),
            final(self).callback_hook() == old(self).callback_hook(),
            final(self).start_hook() == old(self).start_hook(),
            final(self).address() == old(self).address(),
            final(self).sender_channel() == old(self).sender_channel(),
            final(self).worker() == old(self).worker(),
            handed_over(old(self).connected(), r),
            r is Ok ==> final(self).handed() == old(self).handed().push(Call::WsMsg(WsMsg::HookStop(c))),
            r is Err ==> final(self).handed() == old(self).handed(),
            final(self).answers() == old(self).answers(),
            r matches Err(WsError::SenderError(cmd)) ==> cmd == Call::<R>::WsMsg(WsMsg::HookStop(c)),
    {
        self.hook_stop = Some(c);
        self.do_send_wsmsg(WsMsg::HookStop(c))
    }

    /// The client's url and whether its worker answers a ping.
    pub fn state(&mut self) -> (r: Vec<(String, String)>)
        ensures
            same_client(*old(self), *final(self)),
            final(self).handed() == old(self).handed() || handed_ping(old(self).handed(), final(self).handed()),
            exists|alive: bool|
                (alive ==> handed_ping(old(self).handed(), final(self).handed()))
                && is_state_report(r@, old(self).address(), alive),
            final(self).answers() == old(self).answers().push(final(self).answers().last()),
            is_state_report(r@, old(self).address(), alive_answer(final(self).answers().last())),
    {
        let alive = self.is_alive();
        let r = state_entries(self.url, alive);
        assert((alive ==> handed_ping(old(self).handed(), self.handed()))
            && is_state_report(r@, old(self).address(), alive));
        r
    }

    /// Records the worker that now owns the connection and the channel to it;
    /// nothing has been handed to the new worker yet.
    pub fn connected_to(&mut self, tx: std::sync::mpsc::Sender<Call<R>>, worker: R::Worker)
        ensures
            final(self).sender_channel() == Some(tx),
            final(self).handed() == Seq::<Call<R>>::empty(),
            final(self).answers() == old(self).answers(),
            final(self).worker() == Some(worker),
            final(self).start_hook() == old(self).start_hook(),
            final(self).stop_hook() == old(self).stop_hook(),
            final(self).callback_hook() == old(self).callback_hook(),
            final(self).address() == old(self).address(),
    {
        self.sender = Some(tx);
        self.handle = Some(worker);
        self.handed_log = Ghost(Seq::empty());
    }

    /// The start hook, to hand to a new worker.
    pub fn hook_start(&self) -> (h: Option<R::HookStart>)
        ensures
            h == self.start_hook(),
    {
        self.hook_start
    }

    /// The stop hook, to hand to a new worker.
    pub fn hook_stop(&self) -> (h: Option<R::HookStop>)
        ensures
            h == self.stop_hook(),
    {
        self.hook_stop
    }

    /// The frame hook, to hand to a new worker.
    pub fn hook_callback(&self) -> (h: Option<R::HookCallback>)
        ensures
            h == self.callback_hook(),
    {
        self.hook_callback
    }

    /// Whether the worker answers a ping.
    pub fn is_alive(&mut self) -> (b: bool)
        ensures
            same_client(*old(self), *final(self)),
            b ==> old(self).connected(),
            final(self).handed() == old(self).handed() || handed_ping(old(self).handed(), final(self).handed()),
            b ==> handed_ping(old(self).handed(), final(self).handed()),
            final(self).answers() == old(self).answers().push(final(self).answers().last()),
            b == alive_answer(final(self).answers().last()),
    {
        self.ping()
    }

    fn ping(&mut self) -> (b: bool)
        ensures
            same_client(*old(self), *final(self)),
            b ==> old(self).connected(),
            final(self).handed() == old(self).handed() || handed_ping(old(self).handed(), final(self).handed()),
            b ==> handed_ping(old(self).handed(), final(self).handed()),
            final(self).answers() == old(self).answers().push(final(self).answers().last()),
            b == alive_answer(final(self).answers().last()),
    {
        let f = |pid: Pid<R>| -> (c: Call<R>)
            ensures
                c == Call::<R>::Ping(pid),
            { ping_call(pid) };
        let ghost gf = f;
        let ghost before = self.handed();
        let r = self.call(f);
        proof {
            if self.handed() != before {
                let (p, c) = choose|p: Pid<R>, c: Call<R>| call_ensures(gf, (p,), c) && self.handed() == before.push(c);
                assert(before.push(Call::Ping(p)) == self.handed());
            }
        }
        is_pong(&r)
    }

    /// The data that the worker holds under the channel id `key`.
    pub fn get_data(&mut self, key: &str) -> (d: Option<R::Value>)
        ensures
            same_client(*old(self), *final(self)),
            d is Some ==> old(self).connected(),
            final(self).handed() == old(self).handed() || handed_get(old(self).handed(), final(self).handed(), key@),
            d is Some ==> handed_get(old(self).handed(), final(self).handed(), key@),
            final(self).answers() == old(self).answers().push(final(self).answers().last()),
            d == data_answer(final(self).answers().last()),
    {
        let k = key.to_string();
        let ghost kv = k@;
        let f = move |pid: Pid<R>| -> (c: Call<R>)
            ensures
                c matches Call::WsMsgCall(p, WsMsg::Get(kk)) && p == pid && kk@ == kv,
            { get_call(pid, k) };
        let ghost gf = f;
        let ghost before = self.handed();
        let r = self.call(f);
        proof {
            if self.handed() != before {
                let (p, c) = choose|p: Pid<R>, c: Call<R>| call_ensures(gf, (p,), c) && self.handed() == before.push(c);
                if let Call::WsMsgCall(q, WsMsg::Get(kk)) = c {
                    assert(before.push(Call::WsMsgCall(q, WsMsg::Get(kk))) == self.handed());
                }
            }
        }
        reply_data(r)
    }

    /// Hands the command that `hook` builds around a fresh answer channel to
    /// the worker, and waits for the answer on that channel.
    fn call<F>(&mut self, hook: F) -> (r: Result<Reply<R>, ()>)
        where
            F: FnOnce(Pid<R>) -> Call<R>,
        requires
            forall|pid: Pid<R>| call_requires(hook, (pid,)),
            forall|pid: Pid<R>, c: Call<R>| call_ensures(hook, (pid,), c) ==> call_channel(c) == Some(pid),
        ensures
            same_client(*old(self), *final(self)),
            r is Ok ==> old(self).connected(),
            final(self).handed() == old(self).handed() || exists|pid: Pid<R>, c: Call<R>|
                #[trigger] call_ensures(hook, (pid,), c) && final(self).handed() == old(self).handed().push(c),
            r is Ok ==> exists|pid: Pid<R>, c: Call<R>|
                #[trigger] call_ensures(hook, (pid,), c) && final(self).handed() == old(self).handed().push(c),
            final(self).answers() == old(self).answers().push(r),
    {
        let (pid, rx) = channel::channel();
        let ghost gp = pid;
        let res: Result<Reply<R>, ()> = if let Some(send) = &self.sender {
            let c = hook(pid);
            let ghost gc = c;
            match channel::send(send, c) {
                Ok(()) => {
                    self.handed_log = Ghost(self.handed_log@.push(gc));
                    assert(call_ensures(hook, (gp,), gc));
                    match channel::recv(&rx) {
                        Ok(reply) => Ok(reply),
                        Err(_) => Err(()),
                    }
                },
                Err(_) => Err(()),
            }
        } else {
            Err(())
        };
        self.answers_log = Ghost(self.answers_log@.push(res));
        res
    }

    /// Asks the worker to write a text frame holding `msg` to the server.
    pub fn send_msg(&mut self, msg: &str) -> (r: WsResult<R>)
        ensures
            same_client(*old(self), *final(self)),
            handed_over(old(self).connected(), r),
            r is Ok ==> handed_text(old(self).handed(), final(self).handed(), msg@),
            r is Err ==> final(self).handed() == old(self).handed(),
            final(self).answers() == old(self).answers(),
            r matches Err(WsError::SenderError(cmd)) ==> cmd matches Call::WsMsg(WsMsg::Message(Frame::Text(s)))
                && s@ == msg@,
    {
        let s = msg.to_string();
        let ghost gs = s;
        let r = self.send(Frame::Text(s));
        proof {
            if r is Ok {
                assert(old(self).handed().push(Call::<R>::WsMsg(WsMsg::Message(Frame::Text(gs)))) == self.handed());
            }
        }
        r
    }

    fn send(&mut self, msg: Frame) -> (r: WsResult<R>)
        ensures
            same_client(*old(self), *final(self)),
            handed_over(old(self).connected(), r),
            r is Ok ==> final(self).handed() == old(self).handed().push(Call::WsMsg(WsMsg::Message(msg))),
            r is Err ==> final(self).handed() == old(self).handed(),
            final(self).answers() == old(self).answers(),
            r matches Err(WsError::SenderError(cmd)) ==> cmd == Call::<R>::WsMsg(WsMsg::Message(msg)),
    {
        self.do_send_wsmsg(WsMsg::Message(msg))
    }

    fn do_send_wsmsg(&mut self, msg: WsMsg<R>) -> (r: WsResult<R>)
        ensures
            same_client(*old(self), *final(self)),
            handed_over(old(self).connected(), r),
            r is Ok ==> final(self).handed() == old(self).handed().push(Call::WsMsg(msg)),
            r is Err ==> final(self).handed() == old(self).handed(),
            final(self).answers() == old(self).answers(),
            r matches Err(WsError::SenderError(cmd)) ==> cmd == Call::<R>::WsMsg(msg),
    {
        self.do_send(Call::WsMsg(msg))
    }

    fn do_send(&mut self, msg: Call<R>) -> (r: WsResult<R>)
        ensures
            same_client(*old(self), *final(self)),
            handed_over(old(self).connected(), r),
            r is Ok ==> final(self).handed() == old(self).handed().push(msg),
            r is Err ==> final(self).handed() == old(self).handed(),
            final(self).answers() == old(self).answers(),
            r matches Err(WsError::SenderError(cmd)) ==> cmd == msg,
    {
        let ghost m = msg;
        if let Some(send) = &self.sender {
            match channel::send(send, msg) {
                Ok(()) => {
                    self.handed_log = Ghost(self.handed_log@.push(m));
                    Ok(())
                },
                Err(c) => Err(WsError::SenderError(c)),
            }
        } else {
            Err(WsError::NonSender)
        }
    }

    /// Tells the worker to close the connection and then to write the close
    /// frame, and hands back the worker's handle so that the caller can wait
    /// for it.
    pub fn close(&mut self) -> (w: Option<R::Worker>)
        ensures
            w == old(self).worker(),
            final(self).worker() is None,
            final(self).sender_channel() == old(self).sender_channel(),
            final(self).address() == old(self).address(),
            final(self).start_hook() == old(self).start_hook(),
            final(self).stop_hook() == old(self).stop_hook(),
            final(self).callback_hook() == old(self).callback_hook(),
            handed_close(old(self).handed(), final(self).handed()),
            final(self).answers() == old(self).answers().push(final(self).answers().last()),
    {
        let f = |pid: Pid<R>| -> (c: Call<R>)
            ensures
                c == Call::<R>::Close(pid),
            { close_call(pid) };
        let ghost gf = f;
        let ghost before = self.handed();
        let _ = self.call(f);
        let ghost mid = self.handed();
        proof {
            if mid != before {
                let (p, c) = choose|p: Pid<R>, c: Call<R>| call_ensures(gf, (p,), c) && mid == before.push(c);
                assert(before.push(Call::Close(p)) == mid);
            }
        }
        let _ = self.send(Frame::Close);
        proof {
            let frame = Call::<R>::WsMsg(WsMsg::Message(Frame::Close));
            if mid != before {
                let (p, c) = choose|p: Pid<R>, c: Call<R>| call_ensures(gf, (p,), c) && mid == before.push(c);
                if self.handed() != mid {
                    assert(before.push(Call::Close(p)).push(frame) == self.handed());
                } else {
                    assert(before.push(Call::Close(p)) == self.handed());
                }
            }
        }
        self.handle.take()
    }
}

} // verus!
