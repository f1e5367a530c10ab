//! The call registry: which calls await a response, and what has arrived.
//!
//! Every call that was sent has a slot here under its number. A slot is
//! filled at most once, by the response or by the loss of the connection, and
//! leaves the registry when its caller takes the outcome or gives up.
use vstd::prelude::*;

use crate::table::distinct;
use crate::table::find;
use crate::table::lemma_changed;
use crate::table::lemma_pushed;
use crate::table::lemma_removed;
use crate::table::lemma_row;
use crate::table::lemma_size;
use crate::table::table;
use crate::table::Row;
use crate::wire::CallError;
use crate::wire::CallId;
use crate::wire::Outcome;
use crate::wire::Payload;

verus! {

/// The state of one outstanding call.
#[derive(Debug)]
pub enum Slot {
    /// Nothing has arrived.
    Pending,
    /// The outcome has arrived and waits for the caller.
    Ready(Outcome),
}

struct Entry {
    id: CallId,
    slot: Slot,
}

/// The right to wait for one call. It cannot be copied, and taking the
/// outcome uses it up, so each call is awaited once.
#[derive(Debug, PartialEq, Eq)]
pub struct CallHandle {
    id: CallId,
}

impl CallHandle {
    /// The number of the call.
    pub closed spec fn call_id(self) -> CallId {
        self.id
    }

    /// The number of the call.
    pub fn id(&self) -> (r: CallId)
        ensures
            r == self.call_id(),
    {
        self.id
    }
}

/// The outstanding calls of one connection, by number.
pub struct CallRegistry {
    entries: Vec<Entry>,
}

impl Row for Entry {
    type Value = Slot;

    closed spec fn key(self) -> u64 {
        self.id
    }

    closed spec fn value(self) -> Slot {
        self.slot
    }

    fn id(&self) -> u64 {
        self.id
    }
}

/// The slots after `id` asks for one: a fresh number gets a pending slot, a
/// number already there changes nothing.
pub open spec fn registered(slots: Map<CallId, Slot>, id: CallId) -> Map<CallId, Slot> {
    if slots.contains_key(id) {
        slots
    } else {
        slots.insert(id, Slot::Pending)
    }
}

/// True where an outcome for `id` finds a caller: the call has a slot and
/// nothing was delivered to it before.
pub open spec fn awaited(slots: Map<CallId, Slot>, id: CallId) -> bool {
    slots.contains_key(id) && slots[id] is Pending
}

/// The slots after an outcome for `id` arrived: it fills the slot where the
/// call is [`awaited`] and is thrown away otherwise.
pub open spec fn delivered(slots: Map<CallId, Slot>, id: CallId, outcome: Outcome) -> Map<
    CallId,
    Slot,
> {
    if awaited(slots, id) {
        slots.insert(id, Slot::Ready(outcome))
    } else {
        slots
    }
}

/// One slot after the connection failed with `error`: a pending slot holds
/// the error, a filled slot keeps what it holds.
pub open spec fn failed_slot(slot: Slot, error: CallError) -> Slot {
    if slot is Pending {
        Slot::Ready(Err(error))
    } else {
        slot
    }
}

/// The slots after the connection failed with `error`: the same calls, each
/// slot as [`failed_slot`] says.
pub open spec fn failed(slots: Map<CallId, Slot>, error: CallError) -> Map<CallId, Slot> {
    Map::new(|id: CallId| slots.contains_key(id), |id: CallId| failed_slot(slots[id], error))
}

/// True where the outcome of `id` has arrived and waits for the caller.
pub open spec fn ready(slots: Map<CallId, Slot>, id: CallId) -> bool {
    slots.contains_key(id) && slots[id] is Ready
}

/// What a caller gets who stops waiting for `id`: the outcome if one is
/// ready, and a timeout otherwise.
pub open spec fn settled(slots: Map<CallId, Slot>, id: CallId) -> Outcome {
    if ready(slots, id) {
        slots[id]->Ready_0
    } else {
        Err(CallError::CallTimeout)
    }
}

/// True where a caller that has waited `elapsed` of `timeout` for `id` is
/// done waiting: the outcome is ready, or the deadline has come.
pub open spec fn due(slots: Map<CallId, Slot>, id: CallId, elapsed: u64, timeout: u64) -> bool {
    ready(slots, id) || elapsed >= timeout
}

impl View for CallRegistry {
    type V = Map<CallId, Slot>;

    /// The slot of each outstanding call.
    closed spec fn view(&self) -> Map<CallId, Slot> {
        table(self.entries@)
    }
}

impl CallRegistry {
    /// The registry is well formed: no number has two slots. Every function
    /// here keeps it so.
    pub closed spec fn wf(&self) -> bool {
        distinct(self.entries@)
    }

    /// A registry without calls.
    pub fn new() -> (r: CallRegistry)
        ensures
            r.wf(),
            r@ == Map::<CallId, Slot>::empty(),
    {
        let r = CallRegistry { entries: Vec::new() };
        assert(r@ =~= Map::<CallId, Slot>::empty());
        r
    }

    /// Tells whether the call has a slot.
    pub fn contains(&self, id: CallId) -> (r: bool)
        ensures
            r == self@.contains_key(id),
    {
        find(&self.entries, id).is_some()
    }

    /// Tells whether the call has a slot that nothing was delivered to.
    pub fn is_pending(&self, id: CallId) -> (r: bool)
        requires
            self.wf(),
        ensures
            r == awaited(self@, id),
    {
        match find(&self.entries, id) {
            Some(i) => {
                proof {
                    lemma_row(self.entries@, i as int);
                }
                match self.entries[i].slot {
                    Slot::Pending => true,
                    Slot::Ready(_) => false,
                }
            },
            None => false,
        }
    }

    /// The number of calls that have a slot.
    pub fn len(&self) -> (r: usize)
        requires
            self.wf(),
        ensures
            r == self@.dom().len(),
            self@.dom().finite(),
    {
        proof {
            lemma_size(self.entries@);
        }
        self.entries.len()
    }

    /// Gives the call a pending slot and returns the handle to wait with.
    /// Fails, and changes nothing, only where the number already has a slot.
    pub fn register(&mut self, id: CallId) -> (r: Option<CallHandle>)
        requires
            old(self).wf(),
        ensures
            final(self).wf(),
            final(self)@ == registered(old(self)@, id),
            r is Some <==> !old(self)@.contains_key(id),
            r matches Some(handle) ==> handle.call_id() == id,
    {
        match find(&self.entries, id) {
            Some(_) => None,
            None => {
                proof {
                    lemma_pushed(self.entries@, Entry { id, slot: Slot::Pending });
                }
                self.entries.push(Entry { id, slot: Slot::Pending });
                Some(CallHandle { id })
            },
        }
    }

    /// Hands an outcome to the call it belongs to. Returns `true` where the
    /// call was [`awaited`] and the outcome now fills its slot; returns
    /// `false`, and throws the outcome away, where the number has no slot or
    /// the slot is already filled.
    pub fn deliver(&mut self, id: CallId, outcome: Outcome) -> (r: bool)
        requires
            old(self).wf(),
        ensures
            final(self).wf(),
            r == awaited(old(self)@, id),
            final(self)@ == delivered(old(self)@, id, outcome),
    {
        match find(&self.entries, id) {
            Some(i) => {
                proof {
                    lemma_row(self.entries@, i as int);
                }
                let pending = match self.entries[i].slot {
                    Slot::Pending => true,
                    Slot::Ready(_) => false,
                };
                if pending {
                    let ghost before = self.entries@;
                    self.entries[i].slot = Slot::Ready(outcome);
                    proof {
                        let change = |key: u64, slot: Slot|
                            if key == id {
                                Slot::Ready(outcome)
                            } else {
                                slot
                            };
                        assert forall|k: int| 0 <= k < before.len() implies (
                        #[trigger] self.entries@[k]).value() == change(
                            before[k].key(),
                            before[k].value(),
                        ) by {
                            if k < i {
                                assert(before[k].key() != before[i as int].key());
                            } else if i < k {
                                assert(before[i as int].key() != before[k].key());
                            }
                        }
                        lemma_changed(before, self.entries@, change);
                        assert(table(self.entries@) =~= table(before).insert(
                            id,
                            Slot::Ready(outcome),
                        ));
                    }
                }
                pending
            },
            None => false,
        }
    }

    /// Takes the outcome of the call if it is ready, and removes the slot.
    /// Where nothing is ready the handle comes back and nothing changes.
    pub fn poll(&mut self, handle: CallHandle) -> (r: Result<Outcome, CallHandle>)
        requires
            old(self).wf(),
        ensures
            final(self).wf(),
            match r {
                Ok(outcome) => {
                    &&& old(self)@.contains_key(handle.call_id())
                    &&& old(self)@[handle.call_id()] == Slot::Ready(outcome)
                    &&& final(self)@ == old(self)@.remove(handle.call_id())
                },
                Err(back) => {
                    &&& !ready(old(self)@, handle.call_id())
                    &&& back == handle
                    &&& final(self)@ == old(self)@
                },
            },
    {
        match find(&self.entries, handle.id) {
            Some(i) => {
                proof {
                    lemma_row(self.entries@, i as int);
                }
                let ready = match self.entries[i].slot {
                    Slot::Pending => false,
                    Slot::Ready(_) => true,
                };
                if ready {
                    proof {
                        lemma_removed(self.entries@, i as int);
                    }
                    let entry = self.entries.remove(i);
                    match entry.slot {
                        Slot::Ready(outcome) => Ok(outcome),
                        Slot::Pending => Err(handle),
                    }
                } else {
                    Err(handle)
                }
            },
            None => Err(handle),
        }
    }

    /// Ends the wait for the call: returns the outcome if one is ready and a
    /// [`CallError::CallTimeout`] otherwise. Either way the call has no slot
    /// afterwards, so whatever arrives for it later is thrown away.
    pub fn expire(&mut self, handle: CallHandle) -> (r: Outcome)
        requires
            old(self).wf(),
        ensures
            final(self).wf(),
            r == settled(old(self)@, handle.call_id()),
            final(self)@ == old(self)@.remove(handle.call_id()),
    {
        match find(&self.entries, handle.id) {
            Some(i) => {
                proof {
                    lemma_row(self.entries@, i as int);
                    lemma_removed(self.entries@, i as int);
                }
                let entry = self.entries.remove(i);
                match entry.slot {
                    Slot::Ready(outcome) => outcome,
                    Slot::Pending => Err(CallError::CallTimeout),
                }
            },
            None => {
                assert(self@.remove(handle.call_id()) =~= self@);
                Err(CallError::CallTimeout)
            },
        }
    }

    /// Decides one round of the wait for a call. `elapsed` is the time the
    /// caller has waited so far and `timeout` the time it is willing to wait.
    ///
    /// Where the outcome is ready it is returned, however late. Where it is
    /// not and the deadline has come, the wait ends in
    /// [`CallError::CallTimeout`]. Either way the call has no slot
    /// afterwards. Otherwise nothing changes, and the handle comes back with
    /// the time that is left to wait.
    pub fn await_call(&mut self, handle: CallHandle, elapsed: u64, timeout: u64) -> (r: Result<
        Outcome,
        (CallHandle, u64),
    >)
        requires
            old(self).wf(),
        ensures
            final(self).wf(),
            r is Ok <==> due(old(self)@, handle.call_id(), elapsed, timeout),
            r matches Ok(outcome) ==> {
                &&& outcome == settled(old(self)@, handle.call_id())
                &&& final(self)@ == old(self)@.remove(handle.call_id())
            },
            r matches Err(waiting) ==> {
                &&& waiting.0 == handle
                &&& waiting.1 == timeout - elapsed
                &&& final(self)@ == old(self)@
            },
    {
        match self.poll(handle) {
            Ok(outcome) => Ok(outcome),
            Err(handle) => {
                if elapsed >= timeout {
                    Ok(self.expire(handle))
                } else {
                    Err((handle, timeout - elapsed))
                }
            },
        }
    }

    /// Fails every call that still awaits its response: each pending slot is
    /// filled with `error`. Filled slots keep their outcome.
    pub fn fail_all(&mut self, error: CallError)
        requires
            old(self).wf(),
        ensures
            final(self).wf(),
            final(self)@ == failed(old(self)@, error),
    {
        let ghost before = self.entries@;
        let mut i: usize = 0;
        while i < self.entries.len()
            invariant
                i <= self.entries@.len(),
                self.entries@.len() == before.len(),
                forall|k: int|
                    0 <= k < before.len() ==> (#[trigger] self.entries@[k]).key()
                        == before[k].key(),
                forall|k: int|
                    0 <= k < i ==> (#[trigger] self.entries@[k]).value() == failed_slot(
                        before[k].value(),
                        error,
                    ),
                forall|k: int| i <= k < before.len() ==> (#[trigger] self.entries@[k]) == before[k],
            decreases self.entries@.len() - i,
        {
            let pending = match self.entries[i].slot {
                Slot::Pending => true,
                Slot::Ready(_) => false,
            };
            if pending {
                self.entries[i].slot = Slot::Ready(Err(error.duplicate()));
            }
            i += 1;
        }
        proof {
            lemma_changed(before, self.entries@, |key: u64, slot: Slot| failed_slot(slot, error));
            assert(table(self.entries@) =~= failed(table(before), error));
        }
    }
}

/// A response is delivered to a call at most once.
///
/// Once an outcome for `id` has been handed in, whether it filled the slot
/// or was thrown away, the call is no longer awaited: whatever is handed in
/// for `id` afterwards is thrown away and changes no slot.
pub proof fn lemma_delivered_at_most_once(
    slots: Map<CallId, Slot>,
    id: CallId,
    first: Outcome,
    second: Outcome,
)
    ensures
        !awaited(delivered(slots, id, first), id),
        delivered(delivered(slots, id, first), id, second) == delivered(slots, id, first),
{
}

/// A registered call completes, and in one way only.
///
/// A call registered under a fresh number is awaited. Left alone it ends in
/// a timeout; after a delivery it ends in the outcome delivered; after the
/// connection failed it ends in the connection's error. Whichever of
/// delivery and failure comes first decides, and the other changes nothing.
pub proof fn lemma_registered_call_completes(
    slots: Map<CallId, Slot>,
    id: CallId,
    outcome: Outcome,
    error: CallError,
)
    requires
        !slots.contains_key(id),
    ensures
        awaited(registered(slots, id), id),
        settled(registered(slots, id), id) == Err::<Payload, CallError>(CallError::CallTimeout),
        settled(delivered(registered(slots, id), id, outcome), id) == outcome,
        settled(failed(registered(slots, id), error), id) == Err::<Payload, CallError>(error),
        settled(failed(delivered(registered(slots, id), id, outcome), error), id) == outcome,
        settled(delivered(failed(registered(slots, id), error), id, outcome), id) == Err::<
            Payload,
            CallError,
        >(error),
{
}

/// The loss of the connection reaches every call.
///
/// After it no call is awaited: each slot that was pending holds the error,
/// and each slot that was filled holds what it held. So every caller that
/// was waiting is done waiting, however little time has passed, and what it
/// gets is the error.
pub proof fn lemma_failure_reaches_every_call(slots: Map<CallId, Slot>, error: CallError)
    ensures
        forall|id: CallId| !awaited(failed(slots, error), id),
        forall|id: CallId|
            slots.contains_key(id) ==> #[trigger] failed(slots, error)[id] == failed_slot(
                slots[id],
                error,
            ),
        forall|id: CallId|
            awaited(slots, id) ==> #[trigger] settled(failed(slots, error), id) == Err::<
                Payload,
                CallError,
            >(error),
        forall|id: CallId, elapsed: u64, timeout: u64|
            slots.contains_key(id) ==> #[trigger] due(failed(slots, error), id, elapsed, timeout),
        failed(slots, error).dom() == slots.dom(),
{
    assert(failed(slots, error).dom() =~= slots.dom());
}

/// Failing the calls twice is failing them once: the second error finds no
/// pending slot.
pub proof fn lemma_failing_is_idempotent(
    slots: Map<CallId, Slot>,
    first: CallError,
    second: CallError,
)
    ensures
        failed(failed(slots, first), second) == failed(slots, first),
{
    assert(failed(failed(slots, first), second) =~= failed(slots, first));
}

} // verus!
