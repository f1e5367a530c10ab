//! Typed commands, their replies, and the events of the protocol.
//!
//! Each command is a plain struct that implements [`Method`]. How a command
//! becomes JSON and how a reply is read from JSON is left to the caller.
use vstd::prelude::*;

pub mod dom;
pub mod input;
pub mod page;
pub mod profiler;
pub mod runtime;
pub mod target;

use self::page::events::LifecycleEvent;
use crate::text::same_text;

verus! {

/// A command of the protocol: its name on the wire and the shape of the reply
/// that answers it.
pub trait Method {
    /// The name under which the browser knows the command.
    const NAME: &'static str;

    /// What a successful reply decodes to.
    type ReturnObject;
}

/// The name of the lifecycle event on the wire.
pub open spec fn lifecycle_event_name() -> Seq<char> {
    "Page.lifecycleEvent"@
}

/// Tells whether an event of the name given is a lifecycle event, so that
/// its parameters are to be read as [`page::events::LifecycleParams`].
pub fn is_lifecycle_event(method: &str) -> (r: bool)
    ensures
        r == (method@ == lifecycle_event_name()),
{
    same_text(method, "Page.lifecycleEvent")
}

/// An event, decoded as far as a tab cares.
#[derive(Debug)]
pub enum Event {
    /// A page reached a milestone of loading.
    Lifecycle(LifecycleEvent),
    /// Any other event, by its name on the wire.
    Other { method: String },
}

} // verus!
