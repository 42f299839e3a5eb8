use vstd::prelude::*;

verus! {

/// The concrete types that a websocket runtime plugs into the client: the
/// three hooks, the data that hooks report and the worker's handle.
pub trait WsTypes {
    /// Run when the connection starts.
    type HookStart: Copy;
    /// Run when the connection stops.
    type HookStop: Copy;
    /// Run on every frame from the server; its report is stored.
    type HookCallback: Copy;
    /// What a hook reports for a channel id.
    type Value: Clone;
    /// The handle of the worker that owns the connection.
    type Worker;
}

/// A frame that the client asks the connection to write to the server.
#[derive(Debug)]
pub enum Frame {
    /// A text frame.
    Text(String),
    /// The frame that closes the connection.
    Close,
}

/// A message for the connection actor.
pub enum WsMsg<R: WsTypes> {
    /// Write a frame to the server.
    Message(Frame),
    /// Install the frame hook.
    Hook(R::HookCallback),
    /// Install the start hook.
    HookStart(R::HookStart),
    /// Install the stop hook.
    HookStop(R::HookStop),
    /// Ask for the data stored under a channel id.
    Get(String),
    /// Stop the connection.
    Close,
}

/// What the worker answers to a call.
pub enum Reply<R: WsTypes> {
    /// The command was carried out.
    Ack,
    Pong,
    Value(R::Value),
}

/// A command from the client handle to its worker. Those that carry a
/// sender expect an answer on it.
#[verifier::reject_recursive_types(R)]
pub enum Call<R: WsTypes> {
    Ping(std::sync::mpsc::Sender<Reply<R>>),
    Close(std::sync::mpsc::Sender<Reply<R>>),
    WsMsg(WsMsg<R>),
    WsMsgCall(std::sync::mpsc::Sender<Reply<R>>, WsMsg<R>),
}

/// Why a command could not be handed to the worker.
#[verifier::reject_recursive_types(R)]
pub enum WsError<R: WsTypes> {
    /// The client is not connected.
    NonSender,
    /// The worker is gone; the command that could not be handed over comes
    /// back inside.
    SenderError(Call<R>),
}

/// The answer channel that a command carries, if any.
pub open spec fn call_channel<R: WsTypes>(c: Call<R>) -> Option<std::sync::mpsc::Sender<Reply<R>>> {
    match c {
        Call::Ping(p) => Some(p),
        Call::Close(p) => Some(p),
        Call::WsMsgCall(p, _) => Some(p),
        Call::WsMsg(_) => None,
    }
}

/// The command that asks whether the worker is alive, answered on `pid`.
pub fn ping_call<R: WsTypes>(pid: std::sync::mpsc::Sender<Reply<R>>) -> (c: Call<R>)
    ensures
        c == Call::<R>::Ping(pid),
{
    Call::Ping(pid)
}

/// The command that closes the connection, acknowledged on `pid`.
pub fn close_call<R: WsTypes>(pid: std::sync::mpsc::Sender<Reply<R>>) -> (c: Call<R>)
    ensures
        c == Call::<R>::Close(pid),
{
    Call::Close(pid)
}

/// The command that asks for the data under the channel id `key`, answered on `pid`.
pub fn get_call<R: WsTypes>(pid: std::sync::mpsc::Sender<Reply<R>>, key: String) -> (c: Call<R>)
    ensures
        c == Call::<R>::WsMsgCall(pid, WsMsg::Get(key)),
{
    Call::WsMsgCall(pid, WsMsg::Get(key))
}

} // verus!
