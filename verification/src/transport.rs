//! The state of one connection to the browser.
//!
//! A [`Transport`] numbers the calls, queues their requests for whoever
//! writes to the socket, and sorts what was read from it: responses go to
//! the [`CallRegistry`], events to the [`SessionRouter`]. It performs no I/O
//! and never blocks. Its owner writes what [`Transport::take_outgoing`]
//! returns, feeds each frame read to [`Transport::handle_incoming`] in the
//! order of arrival, and calls [`Transport::shutdown`] when the stream ends.
use vstd::prelude::*;

use crate::protocol::Method;
use crate::registry::awaited;
use crate::registry::delivered;
use crate::registry::due;
use crate::registry::failed;
use crate::registry::ready;
use crate::registry::settled;
use crate::registry::CallHandle;
use crate::registry::CallRegistry;
use crate::registry::Slot;
use crate::router::has_event;
use crate::router::heard;
use crate::router::routed;
use crate::router::subscribed;
use crate::router::taken;
use crate::router::unsubscribed;
use crate::router::Feed;
use crate::router::SessionRouter;
use crate::router::SubscriberId;
use crate::router::Subscription;
use crate::wire::decode;
use crate::wire::decoded;
use crate::wire::encode;
use crate::wire::CallError;
use crate::wire::CallId;
use crate::wire::EventEnvelope;
use crate::wire::Frame;
use crate::wire::Inbound;
use crate::wire::Outcome;
use crate::wire::Payload;
use crate::wire::Request;
use crate::wire::SessionId;

verus! {

/// What became of an inbound frame.
#[derive(Debug, Clone, Copy, PartialEq, Eq, Structural)]
pub enum Disposition {
    /// A response that filled the slot of the call it answers.
    Delivered,
    /// A response that no call awaits: late, repeated or unknown. Thrown away.
    Discarded,
    /// An event that went to at least one subscriber.
    Routed,
    /// An event of a session that nobody listens to. Thrown away.
    Unheard,
    /// Neither a response nor an event. Thrown away.
    Malformed,
}

/// What a listener does next.
#[derive(Debug, PartialEq)]
pub enum Listening {
    /// This is the next event.
    Event(EventEnvelope),
    /// Nothing has arrived. Wait until something has, and ask again.
    Wait,
    /// Nothing has arrived and nothing will: the stream has ended, or the
    /// subscription is none of this connection.
    Ended,
}

/// One connection: its calls, its subscribers, and what is yet to be written.
pub struct Transport {
    next_call_id: CallId,
    registry: CallRegistry,
    router: SessionRouter,
    outbox: Vec<Request>,
    open: bool,
}

/// True where `request` is the envelope of the command `method` with the
/// number, session and parameters given.
pub open spec fn frames(
    request: Request,
    id: CallId,
    session_id: Option<SessionId>,
    method: Seq<char>,
    params: Payload,
) -> bool {
    &&& request.id == id
    &&& request.session_id == session_id
    &&& request.method@ == method
    &&& request.params == params
}

/// True where the requests carry numbers that rise from one to the next and
/// stay below `limit`.
pub open spec fn in_order(requests: Seq<Request>, limit: nat) -> bool {
    &&& forall|i: int, j: int|
        0 <= i < j < requests.len() ==> (#[trigger] requests[i]).id < (#[trigger] requests[j]).id
    &&& forall|i: int| 0 <= i < requests.len() ==> (#[trigger] requests[i]).id < limit
}

impl Transport {
    /// The slot of each outstanding call.
    pub closed spec fn calls(&self) -> Map<CallId, Slot> {
        self.registry@
    }

    /// The feed of each subscriber.
    pub closed spec fn feeds(&self) -> Map<SubscriberId, Feed> {
        self.router@
    }

    /// The requests queued for writing, oldest first.
    pub closed spec fn outgoing(&self) -> Seq<Request> {
        self.outbox@
    }

    /// False once the stream has ended.
    pub closed spec fn is_open(&self) -> bool {
        self.open
    }

    /// How many calls were numbered so far; the next call gets this number.
    pub closed spec fn calls_made(&self) -> nat {
        self.next_call_id as nat
    }

    /// How many subscriptions were handed out so far.
    pub closed spec fn subscriptions_made(&self) -> nat {
        self.router.subscriptions_made()
    }

    /// The transport is well formed: registry and router are, every
    /// outstanding call has a number that was handed out, and so has every
    /// request queued, in rising order. Every function here keeps it so.
    pub closed spec fn wf(&self) -> bool {
        &&& self.registry.wf()
        &&& self.router.wf()
        &&& forall|id: CallId| #[trigger] self.registry@.contains_key(id) ==> id < self.next_call_id
        &&& in_order(self.outbox@, self.next_call_id as nat)
    }

    /// True where two states differ in their calls at most.
    pub open spec fn same_but_calls(before: Transport, after: Transport) -> bool {
        &&& after.feeds() == before.feeds()
        &&& after.outgoing() == before.outgoing()
        &&& after.is_open() == before.is_open()
        &&& after.calls_made() == before.calls_made()
        &&& after.subscriptions_made() == before.subscriptions_made()
    }

    /// True where two states differ in their feeds at most, and in the count
    /// of subscriptions made.
    pub open spec fn same_but_feeds(before: Transport, after: Transport) -> bool {
        &&& after.calls() == before.calls()
        &&& after.outgoing() == before.outgoing()
        &&& after.is_open() == before.is_open()
        &&& after.calls_made() == before.calls_made()
    }

    /// What issuing a command does to a connection.
    ///
    /// On an open connection the call gets the next number and a pending
    /// slot, and its request is queued behind what is queued already. On a
    /// connection that has ended the error is [`CallError::TransportClosed`]
    /// and nothing changes. Subscribers are not touched either way.
    pub open spec fn issued(
        before: Transport,
        after: Transport,
        r: Result<CallHandle, CallError>,
        session_id: Option<SessionId>,
        method: Seq<char>,
        params: Payload,
    ) -> bool {
        &&& after.feeds() == before.feeds()
        &&& after.subscriptions_made() == before.subscriptions_made()
        &&& after.is_open() == before.is_open()
        &&& r is Ok <==> before.is_open()
        &&& r matches Err(error) ==> {
            &&& error == CallError::TransportClosed
            &&& after.calls() == before.calls()
            &&& after.outgoing() == before.outgoing()
            &&& after.calls_made() == before.calls_made()
        }
        &&& r matches Ok(handle) ==> {
            &&& handle.call_id() == before.calls_made()
            &&& !before.calls().contains_key(handle.call_id())
            &&& after.calls() == before.calls().insert(handle.call_id(), Slot::Pending)
            &&& after.calls_made() == before.calls_made() + 1
            &&& after.outgoing().len() == before.outgoing().len() + 1
            &&& after.outgoing().drop_last() == before.outgoing()
            &&& frames(after.outgoing().last(), handle.call_id(), session_id, method, params)
        }
    }

    /// In a well-formed transport every outstanding call has a number below
    /// the count of calls made, the requests queued carry rising numbers
    /// below that count, every subscriber has a number below the count of
    /// subscriptions made, and every feed holds events of its own session
    /// only.
    pub proof fn lemma_wf(&self)
        requires
            self.wf(),
        ensures
            forall|id: CallId| #[trigger] self.calls().contains_key(id) ==> id < self.calls_made(),
            in_order(self.outgoing(), self.calls_made()),
            forall|id: SubscriberId| #[trigger]
                self.feeds().contains_key(id) ==> id < self.subscriptions_made(),
            crate::router::sessions_kept(self.feeds()),
    {
        self.router.lemma_wf();
    }

    /// An open connection on which nothing has happened yet.
    pub fn new() -> (r: Transport)
        ensures
            r.wf(),
            r.is_open(),
            r.calls() == Map::<CallId, Slot>::empty(),
            r.feeds() == Map::<SubscriberId, Feed>::empty(),
            r.outgoing() == Seq::<Request>::empty(),
            r.calls_made() == 0,
            r.subscriptions_made() == 0,
    {
        Transport {
            next_call_id: 0,
            registry: CallRegistry::new(),
            router: SessionRouter::new(),
            outbox: Vec::new(),
            open: true,
        }
    }

    /// Tells whether the stream is still there.
    pub fn open(&self) -> (r: bool)
        ensures
            r == self.is_open(),
    {
        self.open
    }

    /// The number that the next call gets.
    pub fn next_call_id(&self) -> (r: CallId)
        ensures
            r == self.calls_made(),
    {
        self.next_call_id
    }

    /// The number of subscriptions handed out so far.
    pub fn subscriptions_issued(&self) -> (r: u64)
        ensures
            r == self.subscriptions_made(),
    {
        self.router.issued()
    }

    /// Issues a command: numbers the call, gives it a pending slot, and
    /// queues the request for writing, behind what is queued already.
    ///
    /// The call gets the next number, so no two calls of one connection share
    /// one. On a connection that has ended nothing is queued and the error is
    /// [`CallError::TransportClosed`].
    pub fn call_method<C: Method>(
        &mut self,
        session_id: Option<SessionId>,
        command: &C,
        params: Payload,
    ) -> (r: Result<CallHandle, CallError>)
        requires
            old(self).wf(),
            old(self).calls_made() < u64::MAX,
        ensures
            final(self).wf(),
            Self::issued(*old(self), *final(self), r, session_id, C::NAME@, params),
    {
        if !self.open {
            return Err(CallError::TransportClosed);
        }
        let id = self.next_call_id;
        let handle = self.registry.register(id).unwrap();
        let request = encode(id, session_id, command, params);
        self.outbox.push(request);
        self.next_call_id = id + 1;
        proof {
            assert(self.outbox@.drop_last() =~= old(self).outbox@);
        }
        Ok(handle)
    }

    /// Issues a command to the target attached under `session_id`. See
    /// [`Transport::call_method`].
    pub fn call_method_on_target<C: Method>(
        &mut self,
        session_id: SessionId,
        command: &C,
        params: Payload,
    ) -> (r: Result<CallHandle, CallError>)
        requires
            old(self).wf(),
            old(self).calls_made() < u64::MAX,
        ensures
            final(self).wf(),
            Self::issued(*old(self), *final(self), r, Some(session_id), C::NAME@, params),
    {
        self.call_method(Some(session_id), command, params)
    }

    /// Issues a command to the browser itself, outside any session. See
    /// [`Transport::call_method`].
    pub fn call_method_on_browser<C: Method>(&mut self, command: &C, params: Payload) -> (r: Result<
        CallHandle,
        CallError,
    >)
        requires
            old(self).wf(),
            old(self).calls_made() < u64::MAX,
        ensures
            final(self).wf(),
            Self::issued(*old(self), *final(self), r, None, C::NAME@, params),
    {
        self.call_method(None, command, params)
    }

    /// Hands over the requests queued for writing, oldest first, and empties
    /// the queue.
    pub fn take_outgoing(&mut self) -> (r: Vec<Request>)
        requires
            old(self).wf(),
        ensures
            final(self).wf(),
            r@ == old(self).outgoing(),
            final(self).outgoing() == Seq::<Request>::empty(),
            final(self).calls() == old(self).calls(),
            final(self).feeds() == old(self).feeds(),
            final(self).is_open() == old(self).is_open(),
            final(self).calls_made() == old(self).calls_made(),
            final(self).subscriptions_made() == old(self).subscriptions_made(),
    {
        let mut taken: Vec<Request> = Vec::new();
        std::mem::swap(&mut self.outbox, &mut taken);
        taken
    }

    /// Subscribes to the events of the target attached under `session_id`.
    /// The feed starts empty.
    pub fn listen_to_target_events(&mut self, session_id: SessionId) -> (r: Subscription)
        requires
            old(self).wf(),
            old(self).subscriptions_made() < u64::MAX,
        ensures
            final(self).wf(),
            !old(self).feeds().contains_key(r.subscriber_id()),
            final(self).feeds() == subscribed(
                old(self).feeds(),
                r.subscriber_id(),
                Some(session_id),
            ),
            final(self).subscriptions_made() == old(self).subscriptions_made() + 1,
            Self::same_but_feeds(*old(self), *final(self)),
    {
        self.router.subscribe(Some(session_id))
    }

    /// Subscribes to the events that belong to no session. The feed starts
    /// empty.
    pub fn listen_to_browser_events(&mut self) -> (r: Subscription)
        requires
            old(self).wf(),
            old(self).subscriptions_made() < u64::MAX,
        ensures
            final(self).wf(),
            !old(self).feeds().contains_key(r.subscriber_id()),
            final(self).feeds() == subscribed(old(self).feeds(), r.subscriber_id(), None),
            final(self).subscriptions_made() == old(self).subscriptions_made() + 1,
            Self::same_but_feeds(*old(self), *final(self)),
    {
        self.router.subscribe(None)
    }

    /// Ends a subscription. What was not read is dropped.
    pub fn stop_listening(&mut self, subscription: Subscription)
        requires
            old(self).wf(),
        ensures
            final(self).wf(),
            final(self).feeds() == unsubscribed(old(self).feeds(), subscription.subscriber_id()),
            final(self).subscriptions_made() == old(self).subscriptions_made(),
            Self::same_but_feeds(*old(self), *final(self)),
    {
        self.router.unsubscribe(subscription)
    }

    /// Takes the oldest event that the subscriber has not read, if any.
    pub fn next_event(&mut self, subscription: &Subscription) -> (r: Option<EventEnvelope>)
        requires
            old(self).wf(),
        ensures
            final(self).wf(),
            final(self).feeds() == taken(old(self).feeds(), subscription.subscriber_id()),
            r is Some <==> has_event(old(self).feeds(), subscription.subscriber_id()),
            r matches Some(event) ==> {
                &&& event == old(self).feeds()[subscription.subscriber_id()].events[0]
                &&& crate::wire::session_key(event.session_id) == old(
                    self,
                ).feeds()[subscription.subscriber_id()].session
            },
            final(self).subscriptions_made() == old(self).subscriptions_made(),
            Self::same_but_feeds(*old(self), *final(self)),
    {
        self.router.next_event(subscription)
    }

    /// Decides one round of a listener's wait for its next event: the
    /// oldest event that it has not read, if there is one; otherwise whether
    /// waiting can bring one.
    pub fn poll_event(&mut self, subscription: &Subscription) -> (r: Listening)
        requires
            old(self).wf(),
        ensures
            final(self).wf(),
            final(self).feeds() == taken(old(self).feeds(), subscription.subscriber_id()),
            final(self).subscriptions_made() == old(self).subscriptions_made(),
            Self::same_but_feeds(*old(self), *final(self)),
            r == (if has_event(old(self).feeds(), subscription.subscriber_id()) {
                Listening::Event(old(self).feeds()[subscription.subscriber_id()].events[0])
            } else if old(self).is_open() && old(self).feeds().contains_key(
                subscription.subscriber_id(),
            ) {
                Listening::Wait
            } else {
                Listening::Ended
            }),
    {
        match self.router.next_event(subscription) {
            Some(event) => Listening::Event(event),
            None => if self.open && self.router.is_subscribed(subscription) {
                Listening::Wait
            } else {
                Listening::Ended
            },
        }
    }

    /// What a frame does to the calls: a response is handed to the call of
    /// its number, anything else changes nothing.
    pub open spec fn calls_after(calls: Map<CallId, Slot>, frame: Frame) -> Map<CallId, Slot> {
        match decoded(frame) {
            Inbound::Response(response) => delivered(
                calls,
                response.id,
                response.outcome_for_caller(),
            ),
            _ => calls,
        }
    }

    /// What a frame does to the feeds: an event is routed, anything else
    /// changes nothing.
    pub open spec fn feeds_after(feeds: Map<SubscriberId, Feed>, frame: Frame) -> Map<
        SubscriberId,
        Feed,
    > {
        match decoded(frame) {
            Inbound::Event(envelope) => routed(feeds, envelope),
            _ => feeds,
        }
    }

    /// What becomes of a frame, given the calls and feeds it meets.
    pub open spec fn disposition(
        calls: Map<CallId, Slot>,
        feeds: Map<SubscriberId, Feed>,
        frame: Frame,
    ) -> Disposition {
        match decoded(frame) {
            Inbound::Response(response) => if awaited(calls, response.id) {
                Disposition::Delivered
            } else {
                Disposition::Discarded
            },
            Inbound::Event(envelope) => if heard(feeds, envelope) {
                Disposition::Routed
            } else {
                Disposition::Unheard
            },
            Inbound::Malformed => Disposition::Malformed,
        }
    }

    /// Sorts one inbound frame: the body of the receive loop.
    ///
    /// A response goes to the call of its number, as success or as
    /// [`CallError::ProtocolError`]; where no call awaits it, it is thrown
    /// away. An event goes to the subscribers of its session. A malformed
    /// frame is dropped. No frame ends the connection or touches a call or a
    /// feed other than its own.
    pub fn handle_incoming(&mut self, frame: Frame) -> (r: Disposition)
        requires
            old(self).wf(),
        ensures
            final(self).wf(),
            r == Self::disposition(old(self).calls(), old(self).feeds(), frame),
            final(self).calls() == Self::calls_after(old(self).calls(), frame),
            final(self).feeds() == Self::feeds_after(old(self).feeds(), frame),
            final(self).outgoing() == old(self).outgoing(),
            final(self).is_open() == old(self).is_open(),
            final(self).calls_made() == old(self).calls_made(),
            final(self).subscriptions_made() == old(self).subscriptions_made(),
    {
        match decode(frame) {
            Inbound::Response(response) => {
                let id = response.id;
                if self.registry.deliver(id, response.into_outcome()) {
                    Disposition::Delivered
                } else {
                    Disposition::Discarded
                }
            },
            Inbound::Event(envelope) => {
                if self.router.route(envelope) {
                    Disposition::Routed
                } else {
                    Disposition::Unheard
                }
            },
            Inbound::Malformed => Disposition::Malformed,
        }
    }

    /// Records that the stream has ended: every call that still awaits its
    /// response fails with [`CallError::TransportClosed`], and no further
    /// call is accepted. Doing so again changes nothing.
    pub fn shutdown(&mut self)
        requires
            old(self).wf(),
        ensures
            final(self).wf(),
            !final(self).is_open(),
            final(self).calls() == failed(old(self).calls(), CallError::TransportClosed),
            final(self).feeds() == old(self).feeds(),
            final(self).outgoing() == old(self).outgoing(),
            final(self).calls_made() == old(self).calls_made(),
            final(self).subscriptions_made() == old(self).subscriptions_made(),
    {
        self.open = false;
        self.registry.fail_all(CallError::TransportClosed);
    }

    /// Takes the outcome of the call if it has arrived. Where it has not,
    /// the handle comes back and nothing changes.
    pub fn poll(&mut self, handle: CallHandle) -> (r: Result<Outcome, CallHandle>)
        requires
            old(self).wf(),
        ensures
            final(self).wf(),
            match r {
                Ok(outcome) => {
                    &&& old(self).calls().contains_key(handle.call_id())
                    &&& old(self).calls()[handle.call_id()] == Slot::Ready(outcome)
                    &&& final(self).calls() == old(self).calls().remove(handle.call_id())
                },
                Err(back) => {
                    &&& !ready(old(self).calls(), handle.call_id())
                    &&& back == handle
                    &&& final(self).calls() == old(self).calls()
                },
            },
            Self::same_but_calls(*old(self), *final(self)),
    {
        self.registry.poll(handle)
    }

    /// Decides one round of the wait for a call, after `elapsed` of a
    /// `timeout`: the outcome where it has arrived, a
    /// [`CallError::CallTimeout`] where it has not and the deadline has come,
    /// and otherwise the handle back with the time that is left to wait.
    pub fn await_call(&mut self, handle: CallHandle, elapsed: u64, timeout: u64) -> (r: Result<
        Outcome,
        (CallHandle, u64),
    >)
        requires
            old(self).wf(),
        ensures
            final(self).wf(),
            r is Ok <==> due(old(self).calls(), handle.call_id(), elapsed, timeout),
            r matches Ok(outcome) ==> {
                &&& outcome == settled(old(self).calls(), handle.call_id())
                &&& final(self).calls() == old(self).calls().remove(handle.call_id())
            },
            r matches Err(waiting) ==> {
                &&& waiting.0 == handle
                &&& waiting.1 == timeout - elapsed
                &&& final(self).calls() == old(self).calls()
            },
            Self::same_but_calls(*old(self), *final(self)),
    {
        self.registry.await_call(handle, elapsed, timeout)
    }

    /// Ends the wait for a call at its deadline: returns the outcome if it
    /// has arrived and [`CallError::CallTimeout`] otherwise. A response that
    /// arrives later is thrown away.
    pub fn expire(&mut self, handle: CallHandle) -> (r: Outcome)
        requires
            old(self).wf(),
        ensures
            final(self).wf(),
            r == settled(old(self).calls(), handle.call_id()),
            final(self).calls() == old(self).calls().remove(handle.call_id()),
            Self::same_but_calls(*old(self), *final(self)),
    {
        self.registry.expire(handle)
    }
}

/// A call gets the first response that carries its number, and only that.
///
/// After a command was issued, the first response with the number of its
/// call is delivered, and what the caller is told is that response: its
/// result, or the browser's error as a [`CallError::ProtocolError`]. A
/// second response with the same number is discarded: it alters neither
/// what the caller is told nor any other call, and it adds no call.
pub proof fn lemma_call_gets_its_first_response(
    before: Transport,
    after: Transport,
    handle: CallHandle,
    session_id: Option<SessionId>,
    method: Seq<char>,
    params: Payload,
    feeds: Map<SubscriberId, Feed>,
    first: Frame,
    second: Frame,
)
    requires
        Transport::issued(
            before,
            after,
            Ok::<CallHandle, CallError>(handle),
            session_id,
            method,
            params,
        ),
        decoded(first) is Response,
        decoded(first)->Response_0.id == handle.call_id(),
        decoded(second) is Response,
        decoded(second)->Response_0.id == handle.call_id(),
    ensures
        ({
            let id = handle.call_id();
            let once = Transport::calls_after(after.calls(), first);
            let twice = Transport::calls_after(once, second);
            &&& Transport::disposition(after.calls(), feeds, first) == Disposition::Delivered
            &&& settled(once, id) == decoded(first)->Response_0.outcome_for_caller()
            &&& Transport::disposition(once, feeds, second) == Disposition::Discarded
            &&& twice == once
            &&& twice.dom() == after.calls().dom()
            &&& forall|other: CallId|
                other != id && before.calls().contains_key(other) ==> #[trigger] twice[other]
                    == before.calls()[other]
        }),
{
    let once = Transport::calls_after(after.calls(), first);
    assert(once.dom() =~= after.calls().dom());
}

/// One command, one request, and the answer as it came.
///
/// Issuing a command queues exactly one request: it carries the number of
/// the call, the session, the name of the command and its parameters. The
/// answer that carries that number is handed to the caller as it is: a
/// result as the result, an error object as a [`CallError::ProtocolError`]
/// with its code and message. A frame with that number that holds neither
/// is dropped and leaves the call waiting.
pub proof fn lemma_answer_is_surfaced_as_it_is(
    before: Transport,
    after: Transport,
    handle: CallHandle,
    session_id: Option<SessionId>,
    method: Seq<char>,
    params: Payload,
    frame: Frame,
)
    requires
        Transport::issued(
            before,
            after,
            Ok::<CallHandle, CallError>(handle),
            session_id,
            method,
            params,
        ),
        frame.id == Some(handle.call_id()),
    ensures
        ({
            let id = handle.call_id();
            let calls = Transport::calls_after(after.calls(), frame);
            &&& after.outgoing() == before.outgoing().push(after.outgoing().last())
            &&& frames(after.outgoing().last(), id, session_id, method, params)
            &&& frame.error matches Some(error) ==> settled(calls, id) == Err::<
                Payload,
                CallError,
            >(CallError::ProtocolError { code: error.code, message: error.message })
            &&& frame.error is None ==> (frame.result matches Some(result) ==> settled(calls, id)
                == Ok::<Payload, CallError>(result))
            &&& frame.error is None && frame.result is None ==> calls == after.calls() && awaited(
                calls,
                id,
            )
        }),
{
    assert(after.outgoing() =~= before.outgoing().push(after.outgoing().last())) by {
        assert(after.outgoing().drop_last() == before.outgoing());
    }
}

/// A call that gets no response ends in a timeout, and in nothing else.
///
/// After a command was issued its call is awaited. While no response with
/// its number arrives, whatever else does, the caller is done waiting
/// exactly when the time it has waited reaches its deadline, and what it is
/// told then is [`CallError::CallTimeout`], never a result.
pub proof fn lemma_unanswered_call_times_out(
    before: Transport,
    after: Transport,
    handle: CallHandle,
    session_id: Option<SessionId>,
    method: Seq<char>,
    params: Payload,
)
    requires
        Transport::issued(
            before,
            after,
            Ok::<CallHandle, CallError>(handle),
            session_id,
            method,
            params,
        ),
    ensures
        awaited(after.calls(), handle.call_id()),
        settled(after.calls(), handle.call_id()) == Err::<Payload, CallError>(
            CallError::CallTimeout,
        ),
        forall|elapsed: u64, timeout: u64| #[trigger]
            due(after.calls(), handle.call_id(), elapsed, timeout) <==> elapsed >= timeout,
        forall|frame: Frame|
            !(decoded(frame) is Response && decoded(frame)->Response_0.id == handle.call_id())
                ==> #[trigger] Transport::calls_after(after.calls(), frame)[handle.call_id()]
                == Slot::Pending,
{
}

/// The end of the stream fails every call that waits.
///
/// Whatever calls are outstanding when the stream ends, each one that still
/// awaited its response is done waiting at once and is told
/// [`CallError::TransportClosed`]; none is told a result that had not
/// arrived, and none is left waiting.
pub proof fn lemma_closing_fails_every_waiting_call(calls: Map<CallId, Slot>, id: CallId)
    requires
        awaited(calls, id),
    ensures
        settled(failed(calls, CallError::TransportClosed), id) == Err::<Payload, CallError>(
            CallError::TransportClosed,
        ),
        forall|elapsed: u64, timeout: u64| #[trigger]
            due(failed(calls, CallError::TransportClosed), id, elapsed, timeout),
        forall|other: CallId| !awaited(failed(calls, CallError::TransportClosed), other),
{
}

/// A call gets at most one response.
///
/// Of two responses with the same number the second is discarded, whatever
/// became of the first, and changes no call.
pub proof fn lemma_second_response_is_discarded(
    calls: Map<CallId, Slot>,
    feeds: Map<SubscriberId, Feed>,
    first: Frame,
    second: Frame,
)
    requires
        decoded(first) is Response,
        decoded(second) is Response,
        decoded(first)->Response_0.id == decoded(second)->Response_0.id,
    ensures
        Transport::disposition(Transport::calls_after(calls, first), feeds, second)
            == Disposition::Discarded,
        Transport::calls_after(Transport::calls_after(calls, first), second)
            == Transport::calls_after(calls, first),
{
}

/// A frame keeps to its own.
///
/// A response changes no call but the one of its number. An event changes
/// no feed but those of its session. Neither touches the other kind, a
/// malformed frame touches nothing, and no frame adds or removes a call or a
/// subscriber.
pub proof fn lemma_frames_keep_to_their_own(
    calls: Map<CallId, Slot>,
    feeds: Map<SubscriberId, Feed>,
    frame: Frame,
)
    ensures
        Transport::calls_after(calls, frame).dom() == calls.dom(),
        Transport::feeds_after(feeds, frame).dom() == feeds.dom(),
        forall|id: CallId|
            calls.contains_key(id) && !(decoded(frame) matches Inbound::Response(response)
                && response.id == id) ==> #[trigger] Transport::calls_after(calls, frame)[id]
                == calls[id],
        forall|id: SubscriberId|
            feeds.contains_key(id) && !(decoded(frame) matches Inbound::Event(envelope)
                && crate::router::listens_to(feeds[id], envelope))
                ==> #[trigger] Transport::feeds_after(feeds, frame)[id] == feeds[id],
{
    assert(Transport::calls_after(calls, frame).dom() =~= calls.dom());
    assert(Transport::feeds_after(feeds, frame).dom() =~= feeds.dom());
}

} // verus!
