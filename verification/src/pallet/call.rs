//! Who may call, what can be called, and what a call leaves behind.

use vstd::prelude::*;

verus! {

/// The authenticated source of a call.
#[derive(Clone, Copy, Debug, PartialEq, Eq, Structural)]
pub enum Origin {
    /// The privileged origin of the system itself.
    Root,
    /// A user, who signed the call.
    Signed,
    /// Nobody: the origin of an inherent, which no user signs.
    Inherent,
}

/// The refusal of a call whose origin is not the one asked for.
#[derive(Clone, Copy, Debug, PartialEq, Eq, Structural)]
pub struct BadOrigin;

/// Lets through the origin of an inherent and no other.
pub fn ensure_none(origin: Origin) -> (outcome: Result<(), BadOrigin>)
    ensures
        outcome is Ok <==> origin == Origin::Inherent,
{
    match origin {
        Origin::Inherent => Ok(()),
        _ => Err(BadOrigin),
    }
}

/// A call embedded in a block.
#[derive(Debug, PartialEq, Eq)]
pub enum Call {
    /// The state transition of this module: commit `os_value`.
    SetOsValue { os_value: Vec<u8> },
    /// A call that belongs to some other module, as its encoded bytes.
    Other { encoded: Vec<u8> },
}

/// A call as a mathematical value.
pub enum CallView {
    SetOsValue { os_value: Seq<u8> },
    Other { encoded: Seq<u8> },
}

impl View for Call {
    type V = CallView;

    open spec fn view(&self) -> CallView {
        match self {
            Call::SetOsValue { os_value } => CallView::SetOsValue { os_value: os_value@ },
            Call::Other { encoded } => CallView::Other { encoded: encoded@ },
        }
    }
}

impl Clone for Call {
    fn clone(&self) -> (copy: Self)
        ensures
            copy@ == self@,
    {
        match self {
            Call::SetOsValue { os_value } => Call::SetOsValue { os_value: os_value.clone() },
            Call::Other { encoded } => Call::Other { encoded: encoded.clone() },
        }
    }
}

/// The record of a commit, raised once for each.
#[derive(Debug, PartialEq, Eq)]
pub enum Event {
    /// `os_value` is now the stored value.
    CurrentOsValue { os_value: Vec<u8> },
}

/// An event as a mathematical value.
pub enum EventView {
    CurrentOsValue { os_value: Seq<u8> },
}

impl View for Event {
    type V = EventView;

    open spec fn view(&self) -> EventView {
        match self {
            Event::CurrentOsValue { os_value } => EventView::CurrentOsValue { os_value: os_value@ },
        }
    }
}

impl Clone for Event {
    fn clone(&self) -> (copy: Self)
        ensures
            copy@ == self@,
    {
        match self {
            Event::CurrentOsValue { os_value } => Event::CurrentOsValue {
                os_value: os_value.clone(),
            },
        }
    }
}

/// The module's own reasons to fail a call.
#[derive(Clone, Copy, Debug, PartialEq, Eq, Structural)]
pub enum Error {
    /// There is no value where one was expected.
    NoneValue,
    /// The value is longer than the store admits.
    StorageOverflow,
}

/// Why a dispatched call was not applied.
#[derive(Clone, Copy, Debug, PartialEq, Eq, Structural)]
pub enum DispatchError {
    /// The call did not come from the origin it must come from.
    BadOrigin,
    /// The module itself turned the call down.
    Module(Error),
}

} // verus!
