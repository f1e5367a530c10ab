//! The transport core of a client for a browser's remote-debugging protocol,
//! written without I/O: every function here takes values and returns values.
//!
//! One connection to the browser carries the commands of many tabs and the
//! events sent back to them. The modules follow that path:
//!
//! * [`wire`] frames commands and tells responses from events,
//! * [`registry`] pairs each response with the call that waits for it,
//! * [`router`] hands each event to the subscribers of its session,
//! * [`transport`] joins the three into the state of one connection,
//! * [`dispatch`] turns the outcome of a call into the typed reply,
//! * [`wait`] decides when a polling caller gives up,
//! * [`protocol`] holds the typed commands and their replies,
//! * [`tab`] builds the commands of one page and reads their replies,
//! * [`keys`] looks keys up in a keyboard layout,
//! * [`text`] compares texts,
//! * [`foreign`] holds what is taken on trust from other crates.
//!
//! Whoever owns the socket writes what [`transport::Transport::take_outgoing`]
//! returns and feeds every frame read to
//! [`transport::Transport::handle_incoming`].
pub mod dispatch;
pub mod foreign;
pub mod keys;
pub mod protocol;
pub mod registry;
pub mod router;
pub mod tab;
mod table;
pub mod text;
pub mod transport;
pub mod wait;
pub mod wire;
