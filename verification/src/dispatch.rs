use vstd::prelude::*;

use crate::protocol::{call_channel, Call, Reply, WsMsg, WsTypes};
use crate::ws::Pid;

verus! {

/// What the worker finds when it looks at its command channel.
#[verifier::reject_recursive_types(R)]
pub enum Incoming<R: WsTypes> {
    /// Nothing has been sent yet.
    Empty,
    /// Every client handle is gone.
    Disconnected,
    /// A command.
    Received(Call<R>),
}

/// What the worker does next.
#[verifier::reject_recursive_types(R)]
pub enum Step<R: WsTypes> {
    /// Look at the channel again at once.
    Poll,
    /// Close the connection and end the worker.
    Shutdown,
    /// Acknowledge on the channel, then close the connection and end the worker.
    AckAndShutdown(Pid<R>),
    /// Send this answer on the channel, then go on.
    Answer(Pid<R>, Reply<R>),
    /// Hand the message to the connection and pass its answer, if any, on the channel.
    Ask(Pid<R>, WsMsg<R>),
    /// Hand the message to the connection.
    Forward(WsMsg<R>),
}

/// The worker's decision for what it found on its channel.
pub open spec fn step_for<R: WsTypes>(i: Incoming<R>) -> Step<R> {
    match i {
        Incoming::Empty => Step::Poll,
        Incoming::Disconnected => Step::Shutdown,
        Incoming::Received(Call::Close(pid)) => Step::AckAndShutdown(pid),
        Incoming::Received(Call::Ping(pid)) => Step::Answer(pid, Reply::Pong),
        Incoming::Received(Call::WsMsgCall(pid, m)) => Step::Ask(pid, m),
        Incoming::Received(Call::WsMsg(m)) => Step::Forward(m),
    }
}

/// The step ends the worker.
pub open spec fn ends_worker<R: WsTypes>(s: Step<R>) -> bool {
    s is Shutdown || s is AckAndShutdown
}

/// The command carries an answer channel.
pub open spec fn expects_answer<R: WsTypes>(c: Call<R>) -> bool {
    !(c is WsMsg)
}

/// The channel that the step answers on, if any.
pub open spec fn answer_channel<R: WsTypes>(s: Step<R>) -> Option<Pid<R>> {
    match s {
        Step::AckAndShutdown(p) => Some(p),
        Step::Answer(p, _) => Some(p),
        Step::Ask(p, _) => Some(p),
        _ => None,
    }
}

/// Decides what the worker does with what it found on its channel.
pub fn next_step<R: WsTypes>(incoming: Incoming<R>) -> (s: Step<R>)
    ensures
        s == step_for(incoming),
        ends_worker(s) <==> (incoming is Disconnected || incoming matches Incoming::Received(Call::Close(_))),
        incoming matches Incoming::Received(c) ==> answer_channel(s) == call_channel(c),
{
    match incoming {
        Incoming::Empty => Step::Poll,
        Incoming::Disconnected => Step::Shutdown,
        Incoming::Received(call) => match call {
            Call::Close(pid) => Step::AckAndShutdown(pid),
            Call::Ping(pid) => Step::Answer(pid, Reply::Pong),
            Call::WsMsgCall(pid, m) => Step::Ask(pid, m),
            Call::WsMsg(m) => Step::Forward(m),
        },
    }
}

/// The steps the worker takes for what it finds on its channel, one after
/// the other, up to and including the first step that ends it.
pub open spec fn run<R: WsTypes>(found: Seq<Incoming<R>>) -> Seq<Step<R>>
    decreases found.len(),
{
    if found.len() == 0 {
        Seq::empty()
    } else {
        let s = step_for(found[0]);
        if ends_worker(s) {
            seq![s]
        } else {
            seq![s] + run(found.drop_first())
        }
    }
}

/// The messages that the steps hand to the connection without an answer
/// channel, in order.
pub open spec fn forwarded<R: WsTypes>(steps: Seq<Step<R>>) -> Seq<WsMsg<R>>
    decreases steps.len(),
{
    if steps.len() == 0 {
        Seq::empty()
    } else {
        match steps[0] {
            Step::Forward(m) => seq![m] + forwarded(steps.drop_first()),
            _ => forwarded(steps.drop_first()),
        }
    }
}

/// What the worker finds when `msgs` were sent to it, in order, as commands
/// that expect no answer.
pub open spec fn sent_messages<R: WsTypes>(msgs: Seq<WsMsg<R>>) -> Seq<Incoming<R>> {
    msgs.map_values(|m: WsMsg<R>| Incoming::<R>::Received(Call::WsMsg(m)))
}

/// Commands that expect no answer are handed to the connection unchanged,
/// in the order in which the worker finds them, each once; the worker
/// answers none of them and does not stop for them.
pub proof fn law_worker_forwards_in_order<R: WsTypes>(msgs: Seq<WsMsg<R>>)
    ensures
        forwarded(run(sent_messages(msgs))) == msgs,
        run(sent_messages(msgs)).len() == msgs.len(),
        forall|i: int| 0 <= i < msgs.len() ==> answer_channel(#[trigger] run(sent_messages(msgs))[i]) is None,
        forall|i: int| 0 <= i < msgs.len() ==> !ends_worker(#[trigger] run(sent_messages(msgs))[i]),
    decreases msgs.len(),
{
    let found = sent_messages(msgs);
    if msgs.len() == 0 {
        assert(found.len() == 0);
        assert(forwarded(run(found)) =~= msgs);
    } else {
        let rest = msgs.drop_first();
        law_worker_forwards_in_order::<R>(rest);
        assert(found.drop_first() =~= sent_messages(rest));
        assert(found[0] == Incoming::<R>::Received(Call::WsMsg(msgs[0])));
        let s = step_for(found[0]);
        assert(s == Step::<R>::Forward(msgs[0]));
        let steps = run(found);
        assert(steps == seq![s] + run(sent_messages(rest)));
        assert(steps.drop_first() =~= run(sent_messages(rest)));
        assert(forwarded(steps) == seq![msgs[0]] + forwarded(run(sent_messages(rest))));
        assert(forwarded(steps) =~= msgs);
        assert forall|i: int| 0 <= i < msgs.len() implies answer_channel(#[trigger] steps[i]) is None
            && !ends_worker(steps[i]) by {
            if i > 0 {
                assert(steps[i] == run(sent_messages(rest))[i - 1]);
            }
        }
    }
}

/// The answer passed on for what the connection answered to a request
/// (`None` where the connection could not be reached).
pub open spec fn answer_for<R: WsTypes>(a: Option<Option<R::Value>>) -> Option<Reply<R>> {
    match a {
        Some(Some(v)) => Some(Reply::Value(v)),
        _ => None,
    }
}

/// What the worker passes on for the connection's answer to a request.
pub fn answer<R: WsTypes>(a: Option<Option<R::Value>>) -> (r: Option<Reply<R>>)
    ensures
        r == answer_for::<R>(a),
{
    match a {
        Some(Some(v)) => Some(Reply::Value(v)),
        _ => None,
    }
}

} // verus!
