//! The ledger side: the state machine that turns the bag's entry into a
//! call, checks it on import, and commits it to the bounded slot.
//!
//! Within one block the module goes from idle to a constructed call
//! (`create_inherent`), from there to a validated call (`check_inherent`),
//! and from there to a committed value (`set_os_value`); a failure on the
//! way rejects the block. Nothing outlasts the block but the stored value
//! and the log of events.

pub mod call;
pub mod config;
pub mod store;

use vstd::prelude::*;
use sp_inherents::InherentData;
use crate::bag::entries;
use crate::pallet::config::Config;
use crate::pallet::store::{BoundedValue, OsValue};
use crate::pallet::call::{
    ensure_none, Call, CallView, DispatchError, Error, Event, EventView, Origin,
};
use crate::primitives::error::{InherentDataError, InherentError};
use crate::primitives::os_value::InherentType;
use crate::primitives::provider::{
    payload, provided, provides, read_view, OsReaderInherentData,
};

verus! {

/// The events of a log as mathematical values.
pub open spec fn events_view(events: Seq<Event>) -> Seq<EventView> {
    events.map_values(|event: Event| event@)
}

/// The state of the module as a mathematical value.
pub struct PalletView {
    /// The value in the slot; empty until the first commit.
    pub os_value: Seq<u8>,
    /// Every event raised so far, oldest first.
    pub events: Seq<EventView>,
}

/// How a call to commit `os_value` from `origin` ends under the bound
/// `max`: the origin is looked at first, the length second.
pub open spec fn dispatch_outcome(max: u32, origin: Origin, os_value: Seq<u8>) -> Result<
    (),
    DispatchError,
> {
    if origin != Origin::Inherent {
        Err(DispatchError::BadOrigin)
    } else if os_value.len() > max {
        Err(DispatchError::Module(Error::StorageOverflow))
    } else {
        Ok(())
    }
}

/// The state after `os_value` was committed to `before`: the slot holds
/// `os_value` and nothing of what it held, and one event more stands in
/// the log.
pub open spec fn committed(before: PalletView, os_value: Seq<u8>) -> PalletView {
    PalletView {
        os_value,
        events: before.events.push(EventView::CurrentOsValue { os_value }),
    }
}

/// The state that a call to commit `os_value` from `origin` leaves of
/// `before`: a call that fails changes nothing.
pub open spec fn state_after(
    max: u32,
    before: PalletView,
    origin: Origin,
    os_value: Seq<u8>,
) -> PalletView {
    if dispatch_outcome(max, origin, os_value) is Ok {
        committed(before, os_value)
    } else {
        before
    }
}

/// Whether a call is the state transition of this module.
pub open spec fn is_state_transition(call: CallView) -> bool {
    call is SetOsValue
}

/// The call that block construction makes of a bag that yields a value.
pub open spec fn created_call(bag: Map<Seq<u8>, Seq<u8>>) -> CallView
    recommends
        provides(bag),
{
    CallView::SetOsValue { os_value: payload(bag) }
}

/// The module: the bounded slot and the log of the events raised.
#[derive(Debug)]
pub struct Pallet<T: Config> {
    os_value: OsValue<T>,
    events: Vec<Event>,
}

impl<T: Config> View for Pallet<T> {
    type V = PalletView;

    closed spec fn view(&self) -> PalletView {
        PalletView { os_value: self.os_value@, events: events_view(self.events@) }
    }
}

impl<T: Config> Pallet<T> {
    /// The module before its first block: an empty slot and an empty log.
    pub fn new() -> (pallet: Self)
        ensures
            pallet@.os_value == Seq::<u8>::empty(),
            pallet@.events == Seq::<EventView>::empty(),
    {
        Pallet { os_value: OsValue::new(), events: Vec::new() }
    }

    /// The stored value: the one committed last, or the empty value if
    /// none ever was. It keeps to the bound.
    pub fn os_value(&self) -> (value: &Vec<u8>)
        ensures
            value@ == self@.os_value,
            value@.len() <= T::spec_max_value_length(),
    {
        self.os_value.get()
    }

    /// The events raised so far, oldest first.
    pub fn events(&self) -> (events: &Vec<Event>)
        ensures
            events_view(events@) == self@.events,
    {
        &self.events
    }

    /// Commits `os_value`: the call must come from the origin of an
    /// inherent, and the value must keep to the bound. On success the slot
    /// holds `os_value` and one event carries it; on failure nothing has
    /// changed.
    pub fn set_os_value(&mut self, origin: Origin, os_value: Vec<u8>) -> (outcome: Result<
        (),
        DispatchError,
    >)
        ensures
            outcome == dispatch_outcome(T::spec_max_value_length(), origin, os_value@),
            final(self)@ == state_after(
                T::spec_max_value_length(),
                old(self)@,
                origin,
                os_value@,
            ),
    {
        match ensure_none(origin) {
            Ok(()) => {},
            Err(_) => {
                return Err(DispatchError::BadOrigin);
            },
        }
        let bounded_os_value = match BoundedValue::<T>::try_from(os_value.clone()) {
            Ok(bounded) => bounded,
            Err(_) => {
                return Err(DispatchError::Module(Error::StorageOverflow));
            },
        };
        self.os_value.put(bounded_os_value);
        let ghost raised = EventView::CurrentOsValue { os_value: os_value@ };
        self.events.push(Event::CurrentOsValue { os_value });
        assert(events_view(self.events@) =~= events_view(old(self).events@).push(raised));
        Ok(())
    }

    /// Executes `call` if it is this module's: `None` for a call of
    /// another module, which changes nothing here.
    pub fn dispatch(&mut self, origin: Origin, call: Call) -> (outcome: Option<
        Result<(), DispatchError>,
    >)
        ensures
            match call@ {
                CallView::SetOsValue { os_value } => outcome == Some(
                    dispatch_outcome(T::spec_max_value_length(), origin, os_value),
                ) && final(self)@ == state_after(
                    T::spec_max_value_length(),
                    old(self)@,
                    origin,
                    os_value,
                ),
                CallView::Other { .. } => outcome is None && final(self)@ == old(self)@,
            },
    {
        match call {
            Call::SetOsValue { os_value } => Some(self.set_os_value(origin, os_value)),
            Call::Other { .. } => None,
        }
    }

    /// Whether `call` is the inherent of this module.
    pub fn is_inherent(call: &Call) -> (inherent: bool)
        ensures
            inherent == is_state_transition(call@),
    {
        match call {
            Call::SetOsValue { .. } => true,
            Call::Other { .. } => false,
        }
    }

    /// The call that block construction makes of what was read out of the
    /// bag: the call that carries the value, where one was read, and none
    /// otherwise.
    pub fn inherent_from(inherent_data: Result<Option<InherentType>, InherentDataError>) -> (call:
        Option<Call>)
        ensures
            match read_view(inherent_data) {
                Ok(Some(os_value)) => call matches Some(created) && created@
                    == (CallView::SetOsValue { os_value }),
                _ => call is None,
            },
    {
        match inherent_data {
            Ok(Some(inherent_data)) => Some(Call::SetOsValue { os_value: inherent_data.into() }),
            _ => None,
        }
    }

    /// How the check of `call` ends, given what was read out of the bag
    /// that the importing node made: well, where a value was read, and not
    /// at all otherwise. The value in `call` itself is the producer's, and
    /// is not held against the one read.
    pub fn checked_against(
        call: &Call,
        inherent_data: Result<Option<InherentType>, InherentDataError>,
    ) -> (outcome: Option<Result<(), InherentError>>)
        ensures
            match read_view(inherent_data) {
                Ok(Some(_)) => outcome == Some(Ok::<(), InherentError>(())),
                _ => outcome is None,
            },
    {
        match inherent_data {
            Ok(Some(_)) => Some(Ok(())),
            _ => None,
        }
    }

    /// Makes the call that carries the value which `data` yields. A bag
    /// that yields none is not admitted: this inherent is owed in every
    /// block, and construction cannot go on without it.
    pub fn create_inherent(data: &InherentData) -> (call: Option<Call>)
        requires
            provides(entries(*data)),
        ensures
            call matches Some(created) && created@ == created_call(entries(*data)),
    {
        Self::inherent_from(data.osreader_inherent_data())
    }

    /// As `create_inherent`, for any bag: `None` where `data` yields no
    /// value, be it absent or not decodable.
    pub fn try_create_inherent(data: &InherentData) -> (call: Option<Call>)
        ensures
            match call {
                Some(created) => provides(entries(*data)) && created@ == created_call(
                    entries(*data),
                ),
                None => !provides(entries(*data)),
            },
    {
        match data.osreader_inherent_data() {
            Ok(Some(_)) => Self::create_inherent(data),
            _ => None,
        }
    }

    /// Checks `call` against the bag that the importing node made for the
    /// block. What is checked is that the bag yields a value; the value in
    /// `call` itself is the producer's. A bag that yields none is not
    /// admitted: the block cannot be accepted.
    pub fn check_inherent(call: &Call, data: &InherentData) -> (outcome: Result<(), InherentError>)
        requires
            provides(entries(*data)),
        ensures
            outcome == Ok::<(), InherentError>(()),
    {
        Self::checked_against(call, data.osreader_inherent_data()).unwrap()
    }

    /// As `check_inherent`, for any bag: `None` where `data` yields no
    /// value, be it absent or not decodable, in which case the block is to
    /// be rejected.
    pub fn try_check_inherent(call: &Call, data: &InherentData) -> (outcome: Option<
        Result<(), InherentError>,
    >)
        ensures
            outcome is Some <==> provides(entries(*data)),
            outcome matches Some(checked) ==> checked is Ok,
    {
        match data.osreader_inherent_data() {
            Ok(Some(_)) => Some(Self::check_inherent(call, data)),
            _ => None,
        }
    }
}

/// A value that keeps to the bound, committed from the origin of an
/// inherent, becomes the stored value, and exactly one event is raised,
/// which carries it.
pub proof fn lemma_bounded_value_is_committed(max: u32, before: PalletView, os_value: Seq<u8>)
    requires
        os_value.len() <= max,
    ensures
        dispatch_outcome(max, Origin::Inherent, os_value) is Ok,
        state_after(max, before, Origin::Inherent, os_value).os_value == os_value,
        state_after(max, before, Origin::Inherent, os_value).events.len() == before.events.len()
            + 1,
        state_after(max, before, Origin::Inherent, os_value).events.drop_last() == before.events,
        state_after(max, before, Origin::Inherent, os_value).events.last()
            == (EventView::CurrentOsValue { os_value }),
{
    assert(before.events.push(EventView::CurrentOsValue { os_value }).drop_last()
        =~= before.events);
}

/// A value longer than the bound is turned down as an overflow, and the
/// state stays as it was.
pub proof fn lemma_oversized_value_is_rejected(max: u32, before: PalletView, os_value: Seq<u8>)
    requires
        os_value.len() > max,
    ensures
        dispatch_outcome(max, Origin::Inherent, os_value) == Err::<(), DispatchError>(
            DispatchError::Module(Error::StorageOverflow),
        ),
        state_after(max, before, Origin::Inherent, os_value) == before,
{
}

/// A call from any origin but that of an inherent fails and changes
/// nothing, whatever value it carries.
pub proof fn lemma_other_origin_is_rejected(
    max: u32,
    before: PalletView,
    origin: Origin,
    os_value: Seq<u8>,
)
    requires
        origin != Origin::Inherent,
    ensures
        dispatch_outcome(max, origin, os_value) == Err::<(), DispatchError>(
            DispatchError::BadOrigin,
        ),
        state_after(max, before, origin, os_value) == before,
{
}

/// No call makes the stored value longer than the bound.
pub proof fn lemma_bound_is_kept(max: u32, before: PalletView, origin: Origin, os_value: Seq<u8>)
    requires
        before.os_value.len() <= max,
    ensures
        state_after(max, before, origin, os_value).os_value.len() <= max,
{
}

/// No history is kept: after two commits in a row the store holds the
/// second value, and holds what it would hold had the first never been
/// made.
pub proof fn lemma_no_history(
    max: u32,
    before: PalletView,
    other: PalletView,
    first: Seq<u8>,
    second: Seq<u8>,
)
    requires
        first.len() <= max,
        second.len() <= max,
    ensures
        state_after(
            max,
            state_after(max, before, Origin::Inherent, first),
            Origin::Inherent,
            second,
        ).os_value == second,
        state_after(
            max,
            state_after(max, before, Origin::Inherent, first),
            Origin::Inherent,
            second,
        ).os_value == state_after(max, other, Origin::Inherent, second).os_value,
{
}

/// Every call that block construction creates is recognised as the
/// inherent of this module, and no call of another module is.
pub proof fn lemma_created_call_is_inherent(bag: Map<Seq<u8>, Seq<u8>>, encoded: Seq<u8>)
    ensures
        is_state_transition(created_call(bag)),
        !is_state_transition(CallView::Other { encoded }),
{
}

/// From the provider to the store: a value put into a bag comes out of it
/// as the call that carries it, and committing that call stores the value
/// if it keeps to the bound.
pub proof fn lemma_provided_value_is_committed(
    max: u32,
    before: PalletView,
    bag_before: Map<Seq<u8>, Seq<u8>>,
    os_value: Seq<u8>,
    bag_after: Map<Seq<u8>, Seq<u8>>,
)
    requires
        provided(bag_before, os_value, bag_after),
        os_value.len() <= max,
    ensures
        provides(bag_after),
        created_call(bag_after) == (CallView::SetOsValue { os_value }),
        state_after(max, before, Origin::Inherent, payload(bag_after)) == committed(
            before,
            os_value,
        ),
{
}

} // verus!
