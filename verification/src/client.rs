use vstd::prelude::*;

use crate::protocol::{Frame, WsMsg, WsTypes};
use crate::store::DataStore;

verus! {

/// The interval, in seconds, between the pings that keep the connection open.
pub const HEARTBEAT_SECS: u64 = 10;

/// What the connection actor keeps between messages: its hooks and the data
/// that its frame hook reported.
#[verifier::reject_recursive_types(R)]
pub struct ClientState<R: WsTypes> {
    hook_start: Option<R::HookStart>,
    hook_stop: Option<R::HookStop>,
    hook_callback: Option<R::HookCallback>,
    data: DataStore<R::Value>,
}

/// What the connection actor does for a message, besides updating its state.
pub enum Effect<R: WsTypes> {
    /// Write the frame to the server.
    Write(Frame),
    /// Stop the connection.
    Stop,
    /// Answer with the data that was asked for.
    Answer(Option<R::Value>),
    /// Nothing more.
    Done,
}

impl<R: WsTypes> ClientState<R> {
    pub closed spec fn start_hook(&self) -> Option<R::HookStart> {
        self.hook_start
    }

    pub closed spec fn stop_hook(&self) -> Option<R::HookStop> {
        self.hook_stop
    }

    pub closed spec fn callback_hook(&self) -> Option<R::HookCallback> {
        self.hook_callback
    }

    /// The reported data, by channel id.
    pub closed spec fn data(&self) -> Map<Seq<char>, R::Value> {
        self.data@
    }

    /// A state with these hooks and no data.
    pub fn new(
        hook_start: Option<R::HookStart>,
        hook_stop: Option<R::HookStop>,
        hook_callback: Option<R::HookCallback>,
    ) -> (s: Self)
        ensures
            s.start_hook() == hook_start,
            s.stop_hook() == hook_stop,
            s.callback_hook() == hook_callback,
            s.data() == Map::<Seq<char>, R::Value>::empty(),
    {
        ClientState { hook_start, hook_stop, hook_callback, data: DataStore::new() }
    }

    /// The hook to run when the connection starts.
    pub fn hook_start(&self) -> (h: Option<R::HookStart>)
        ensures
            h == self.start_hook(),
    {
        self.hook_start
    }

    /// The hook to run when the connection stops.
    pub fn hook_stop(&self) -> (h: Option<R::HookStop>)
        ensures
            h == self.stop_hook(),
    {
        self.hook_stop
    }

    /// The hook to run on each frame from the server.
    pub fn hook_callback(&self) -> (h: Option<R::HookCallback>)
        ensures
            h == self.callback_hook(),
    {
        self.hook_callback
    }

    /// Stores what the frame hook reported for the channel `id`.
    pub fn record(&mut self, id: String, value: R::Value)
        ensures
            final(self).data() == old(self).data().insert(id@, value),
            final(self).start_hook() == old(self).start_hook(),
            final(self).stop_hook() == old(self).stop_hook(),
            final(self).callback_hook() == old(self).callback_hook(),
    {
        self.data.insert(id, value);
    }

    /// Keeps what the frame hook reported, where its report named a channel
    /// id and data; a report without them changes nothing.
    pub fn record_report(&mut self, report: Option<(String, R::Value)>)
        ensures
            final(self).data() == (match report {
                Some((id, value)) => old(self).data().insert(id@, value),
                None => old(self).data(),
            }),
            final(self).start_hook() == old(self).start_hook(),
            final(self).stop_hook() == old(self).stop_hook(),
            final(self).callback_hook() == old(self).callback_hook(),
    {
        match report {
            Some((id, value)) => self.record(id, value),
            None => {},
        }
    }

    /// The data reported for the channel `id`.
    pub fn lookup(&self, id: &String) -> (r: Option<R::Value>)
        ensures
            r is Some <==> self.data().contains_key(id@),
            r matches Some(v) ==> cloned::<R::Value>(self.data()[id@], v),
    {
        match self.data.get(id) {
            Some(v) => Some(v.clone()),
            None => None,
        }
    }

    /// Handles a message from the client: installs a hook, writes a frame,
    /// answers a data request or stops.
    pub fn handle(&mut self, msg: WsMsg<R>) -> (e: Effect<R>)
        ensures
            final(self).data() == old(self).data(),
            final(self).callback_hook() == (match msg {
                WsMsg::Hook(h) => Some(h),
                _ => old(self).callback_hook(),
            }),
            final(self).start_hook() == (match msg {
                WsMsg::HookStart(h) => Some(h),
                _ => old(self).start_hook(),
            }),
            final(self).stop_hook() == (match msg {
                WsMsg::HookStop(h) => Some(h),
                _ => old(self).stop_hook(),
            }),
            match msg {
                WsMsg::Message(m) => e == Effect::<R>::Write(m),
                WsMsg::Close => e is Stop,
                WsMsg::Get(id) => e matches Effect::Answer(a) && (a is Some <==> old(self).data().contains_key(id@))
                    && (a matches Some(v) ==> cloned::<R::Value>(old(self).data()[id@], v)),
                _ => e is Done,
            },
    {
        match msg {
            WsMsg::Message(m) => Effect::Write(m),
            WsMsg::Hook(h) => {
                self.hook_callback = Some(h);
                Effect::Done
            },
            WsMsg::HookStart(h) => {
                self.hook_start = Some(h);
                Effect::Done
            },
            WsMsg::HookStop(h) => {
                self.hook_stop = Some(h);
                Effect::Done
            },
            WsMsg::Get(id) => Effect::Answer(self.lookup(&id)),
            WsMsg::Close => Effect::Stop,
        }
    }
}

} // verus!
