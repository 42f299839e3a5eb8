//! A websocket client handle that talks to a worker over a command channel,
//! the worker's command dispatch, the connection actor's state, and the
//! timer that feeds a foreign port.

pub mod error;
pub mod store;
pub mod channel;
pub mod protocol;
pub mod ws;
pub mod dispatch;
pub mod client;
pub mod timer;
