//! The session router: who listens to which session, and what each listener
//! has yet to read.
//!
//! An event goes to every subscriber of its session at the moment it is
//! routed, in the order of arrival, and to nobody else. Nothing is kept for
//! subscribers that come later.
use vstd::prelude::*;

use crate::table::distinct;
use crate::table::find;
use crate::table::has_key;
use crate::table::lemma_changed;
use crate::table::lemma_pushed;
use crate::table::lemma_removed;
use crate::table::lemma_row;
use crate::table::position;
use crate::table::table;
use crate::table::Row;
use crate::wire::same_session;
use crate::wire::session_key;
use crate::wire::EventEnvelope;
use crate::wire::SessionId;

verus! {

/// Identifies one subscriber of one router.
pub type SubscriberId = u64;

/// What one subscriber listens to and has not read yet, oldest event first.
pub struct Feed {
    /// The session listened to; `None` for the events of the browser itself.
    pub session: Option<Seq<char>>,
    /// The events routed to the subscriber and not yet taken.
    pub events: Seq<EventEnvelope>,
}

struct Subscriber {
    id: SubscriberId,
    session: Option<SessionId>,
    queue: Vec<EventEnvelope>,
}

/// The receiving end of one subscription. It cannot be copied; unsubscribing
/// uses it up.
#[derive(Debug, PartialEq, Eq)]
pub struct Subscription {
    id: SubscriberId,
}

impl Subscription {
    /// The subscriber that the handle stands for.
    pub closed spec fn subscriber_id(self) -> SubscriberId {
        self.id
    }

    /// The subscriber that the handle stands for.
    pub fn id(&self) -> (r: SubscriberId)
        ensures
            r == self.subscriber_id(),
    {
        self.id
    }
}

/// The subscribers of one connection.
pub struct SessionRouter {
    next_id: SubscriberId,
    subscribers: Vec<Subscriber>,
}

impl Row for Subscriber {
    type Value = Feed;

    closed spec fn key(self) -> u64 {
        self.id
    }

    closed spec fn value(self) -> Feed {
        Feed { session: session_key(self.session), events: self.queue@ }
    }

    fn id(&self) -> u64 {
        self.id
    }
}

/// True where every feed holds events of its own session only.
pub open spec fn sessions_kept(feeds: Map<SubscriberId, Feed>) -> bool {
    forall|id: SubscriberId, k: int|
        feeds.contains_key(id) && 0 <= k < feeds[id].events.len() ==> session_key(
            (#[trigger] feeds[id].events[k]).session_id,
        ) == feeds[id].session
}

/// The feeds after `id` subscribed to `session`: one more feed, with nothing
/// in it.
pub open spec fn subscribed(
    feeds: Map<SubscriberId, Feed>,
    id: SubscriberId,
    session: Option<SessionId>,
) -> Map<SubscriberId, Feed> {
    feeds.insert(id, Feed { session: session_key(session), events: Seq::empty() })
}

/// The feeds after `id` unsubscribed.
pub open spec fn unsubscribed(feeds: Map<SubscriberId, Feed>, id: SubscriberId) -> Map<
    SubscriberId,
    Feed,
> {
    feeds.remove(id)
}

/// True where the feed is one that the event goes to.
pub open spec fn listens_to(feed: Feed, envelope: EventEnvelope) -> bool {
    feed.session == session_key(envelope.session_id)
}

/// One feed after the event was routed: the event is appended where the feed
/// listens to its session.
pub open spec fn fed(feed: Feed, envelope: EventEnvelope) -> Feed {
    if listens_to(feed, envelope) {
        Feed { session: feed.session, events: feed.events.push(envelope) }
    } else {
        feed
    }
}

/// The feeds after the event was routed: the same subscribers, each feed as
/// [`fed`] says.
pub open spec fn routed(feeds: Map<SubscriberId, Feed>, envelope: EventEnvelope) -> Map<
    SubscriberId,
    Feed,
> {
    Map::new(
        |id: SubscriberId| feeds.contains_key(id),
        |id: SubscriberId| fed(feeds[id], envelope),
    )
}

/// The feeds after a run of events was routed, oldest first.
pub open spec fn routed_all(feeds: Map<SubscriberId, Feed>, envelopes: Seq<EventEnvelope>) -> Map<
    SubscriberId,
    Feed,
>
    decreases envelopes.len(),
{
    if envelopes.len() == 0 {
        feeds
    } else {
        routed(routed_all(feeds, envelopes.drop_last()), envelopes.last())
    }
}

/// Those of a run of events that a feed listens to, in the order of the run.
pub open spec fn heard_by(feed: Feed, envelopes: Seq<EventEnvelope>) -> Seq<EventEnvelope>
    decreases envelopes.len(),
{
    if envelopes.len() == 0 {
        Seq::empty()
    } else if listens_to(feed, envelopes.last()) {
        heard_by(feed, envelopes.drop_last()).push(envelopes.last())
    } else {
        heard_by(feed, envelopes.drop_last())
    }
}

/// True where a feed listens to no event of a run.
pub open spec fn deaf_to(feed: Feed, envelopes: Seq<EventEnvelope>) -> bool {
    forall|k: int| 0 <= k < envelopes.len() ==> !listens_to(feed, #[trigger] envelopes[k])
}

/// True where somebody listens to the event's session.
pub open spec fn heard(feeds: Map<SubscriberId, Feed>, envelope: EventEnvelope) -> bool {
    exists|id: SubscriberId| feeds.contains_key(id) && listens_to(#[trigger] feeds[id], envelope)
}

/// True where `id` has an event to take.
pub open spec fn has_event(feeds: Map<SubscriberId, Feed>, id: SubscriberId) -> bool {
    feeds.contains_key(id) && feeds[id].events.len() > 0
}

/// The feeds after `id` took its oldest event, where it had one.
pub open spec fn taken(feeds: Map<SubscriberId, Feed>, id: SubscriberId) -> Map<
    SubscriberId,
    Feed,
> {
    if has_event(feeds, id) {
        feeds.insert(
            id,
            Feed { session: feeds[id].session, events: feeds[id].events.drop_first() },
        )
    } else {
        feeds
    }
}

impl View for SessionRouter {
    type V = Map<SubscriberId, Feed>;

    /// The feed of each subscriber.
    closed spec fn view(&self) -> Map<SubscriberId, Feed> {
        table(self.subscribers@)
    }
}

impl SessionRouter {
    /// How many subscriptions the router has handed out so far.
    pub closed spec fn subscriptions_made(&self) -> nat {
        self.next_id as nat
    }

    spec fn well_numbered(&self) -> bool {
        &&& distinct(self.subscribers@)
        &&& forall|i: int|
            0 <= i < self.subscribers@.len() ==> (#[trigger] self.subscribers@[i]).key()
                < self.next_id
    }

    /// The router is well formed: no subscriber is listed twice, every
    /// subscriber was handed out by this router, and every feed holds events
    /// of its own session only. Every function here keeps it so.
    pub closed spec fn wf(&self) -> bool {
        &&& self.well_numbered()
        &&& sessions_kept(self@)
    }

    /// In a well-formed router no feed holds an event of another session, and
    /// every subscriber has a number below the count of subscriptions made.
    pub proof fn lemma_wf(&self)
        requires
            self.wf(),
        ensures
            sessions_kept(self@),
            forall|id: SubscriberId| #[trigger]
                self@.contains_key(id) ==> id < self.subscriptions_made(),
    {
        assert forall|id: SubscriberId| #[trigger] self@.contains_key(id) implies id
            < self.subscriptions_made() by {
            let p = position(self.subscribers@, id);
            assert(self.subscribers@[p].key() < self.next_id);
        }
    }

    /// A router without subscribers.
    pub fn new() -> (r: SessionRouter)
        ensures
            r.wf(),
            r@ == Map::<SubscriberId, Feed>::empty(),
            r.subscriptions_made() == 0,
    {
        let r = SessionRouter { next_id: 0, subscribers: Vec::new() };
        assert(r@ =~= Map::<SubscriberId, Feed>::empty());
        r
    }

    /// The number of subscriptions handed out so far.
    pub fn issued(&self) -> (r: u64)
        ensures
            r == self.subscriptions_made(),
    {
        self.next_id
    }

    /// Registers a new subscriber of `session`, or of the browser's own events
    /// where no session is given. Its feed starts empty: events routed before
    /// are not in it.
    pub fn subscribe(&mut self, session: Option<SessionId>) -> (r: Subscription)
        requires
            old(self).wf(),
            old(self).subscriptions_made() < u64::MAX,
        ensures
            final(self).wf(),
            !old(self)@.contains_key(r.subscriber_id()),
            final(self)@ == subscribed(old(self)@, r.subscriber_id(), session),
            final(self).subscriptions_made() == old(self).subscriptions_made() + 1,
    {
        let id = self.next_id;
        let subscriber = Subscriber { id, session, queue: Vec::new() };
        proof {
            assert(!has_key(self.subscribers@, id)) by {
                if has_key(self.subscribers@, id) {
                    let p = position(self.subscribers@, id);
                    assert(self.subscribers@[p].key() < self.next_id);
                }
            }
            lemma_pushed(self.subscribers@, subscriber);
            assert(subscriber.value() == Feed {
                session: session_key(session),
                events: Seq::<EventEnvelope>::empty(),
            });
        }
        self.subscribers.push(subscriber);
        self.next_id = id + 1;
        Subscription { id }
    }

    /// Removes the subscriber. What it had not read is dropped, and later
    /// events of its session are not kept for it.
    pub fn unsubscribe(&mut self, subscription: Subscription)
        requires
            old(self).wf(),
        ensures
            final(self).wf(),
            final(self)@ == unsubscribed(old(self)@, subscription.subscriber_id()),
            final(self).subscriptions_made() == old(self).subscriptions_made(),
    {
        match find(&self.subscribers, subscription.id) {
            Some(i) => {
                proof {
                    lemma_removed(self.subscribers@, i as int);
                }
                let _ = self.subscribers.remove(i);
            },
            None => {
                assert(self@.remove(subscription.id) =~= self@);
            },
        }
    }

    /// Hands the event to every subscriber of its session, behind what each
    /// has yet to read, and to no other subscriber. Returns whether anybody
    /// listens; where nobody does the event is dropped.
    pub fn route(&mut self, envelope: EventEnvelope) -> (r: bool)
        requires
            old(self).wf(),
        ensures
            final(self).wf(),
            final(self)@ == routed(old(self)@, envelope),
            r == heard(old(self)@, envelope),
            final(self).subscriptions_made() == old(self).subscriptions_made(),
    {
        let ghost before = self.subscribers@;
        let mut reached = false;
        let mut i: usize = 0;
        while i < self.subscribers.len()
            invariant
                distinct(before),
                i <= self.subscribers@.len(),
                self.subscribers@.len() == before.len(),
                self.next_id == old(self).next_id,
                forall|k: int|
                    0 <= k < before.len() ==> (#[trigger] self.subscribers@[k]).key()
                        == before[k].key(),
                forall|k: int|
                    0 <= k < i ==> (#[trigger] self.subscribers@[k]).value() == fed(
                        before[k].value(),
                        envelope,
                    ),
                forall|k: int|
                    i <= k < before.len() ==> (#[trigger] self.subscribers@[k]) == before[k],
                reached <==> exists|k: int|
                    0 <= k < i && listens_to((#[trigger] before[k]).value(), envelope),
            decreases self.subscribers@.len() - i,
        {
            if same_session(&self.subscribers[i].session, &envelope.session_id) {
                let copy = envelope.duplicate();
                self.subscribers[i].queue.push(copy);
                reached = true;
            }
            i += 1;
        }
        proof {
            let after = self.subscribers@;
            lemma_changed(before, after, |id: SubscriberId, feed: Feed| fed(feed, envelope));
            assert(table(after) =~= routed(table(before), envelope));
            if reached {
                let k = choose|k: int|
                    0 <= k < before.len() && listens_to((#[trigger] before[k]).value(), envelope);
                lemma_row(before, k);
            }
            if heard(table(before), envelope) {
                let id = choose|id: SubscriberId|
                    table(before).contains_key(id) && listens_to(
                        #[trigger] table(before)[id],
                        envelope,
                    );
                let p = position(before, id);
                lemma_row(before, p);
                assert(listens_to(before[p].value(), envelope));
            }
            lemma_routing_keeps_sessions(table(before), envelope);
        }
        reached
    }

    /// Tells whether the subscription is one of this router that has not
    /// ended.
    pub fn is_subscribed(&self, subscription: &Subscription) -> (r: bool)
        ensures
            r == self@.contains_key(subscription.subscriber_id()),
    {
        find(&self.subscribers, subscription.id).is_some()
    }

    /// Tells how many events the subscriber has yet to read; none where the
    /// subscription is not of this router.
    pub fn backlog(&self, subscription: &Subscription) -> (r: usize)
        requires
            self.wf(),
        ensures
            r == (if self@.contains_key(subscription.subscriber_id()) {
                self@[subscription.subscriber_id()].events.len()
            } else {
                0
            }),
    {
        match find(&self.subscribers, subscription.id) {
            Some(i) => {
                proof {
                    lemma_row(self.subscribers@, i as int);
                }
                self.subscribers[i].queue.len()
            },
            None => 0,
        }
    }

    /// Takes the oldest event that the subscriber has not read. Returns
    /// `None`, and changes nothing, where there is none.
    pub fn next_event(&mut self, subscription: &Subscription) -> (r: Option<EventEnvelope>)
        requires
            old(self).wf(),
        ensures
            final(self).wf(),
            final(self)@ == taken(old(self)@, subscription.subscriber_id()),
            final(self).subscriptions_made() == old(self).subscriptions_made(),
            r is Some <==> has_event(old(self)@, subscription.subscriber_id()),
            r matches Some(event) ==> {
                let feed = old(self)@[subscription.subscriber_id()];
                &&& event == feed.events[0]
                &&& session_key(event.session_id) == feed.session
            },
    {
        let ghost before = self.subscribers@;
        match find(&self.subscribers, subscription.id) {
            Some(i) => {
                proof {
                    lemma_row(before, i as int);
                }
                if self.subscribers[i].queue.len() > 0 {
                    let event = self.subscribers[i].queue.remove(0);
                    proof {
                        let after = self.subscribers@;
                        let id = subscription.id;
                        let change = |other: SubscriberId, feed: Feed|
                            if other == id {
                                Feed { session: feed.session, events: feed.events.drop_first() }
                            } else {
                                feed
                            };
                        assert(after[i as int].queue@ =~= before[i as int].queue@.drop_first());
                        assert forall|k: int| 0 <= k < before.len() implies (
                        #[trigger] after[k]).value() == change(
                            before[k].key(),
                            before[k].value(),
                        ) by {
                            if k < i {
                                assert(before[k].key() != before[i as int].key());
                            } else if i < k {
                                assert(before[i as int].key() != before[k].key());
                            }
                        }
                        lemma_changed(before, after, change);
                        assert(table(after) =~= taken(table(before), id));
                        assert(table(before)[id].events[0] == event);
                        lemma_taking_keeps_sessions(table(before), id);
                    }
                    Some(event)
                } else {
                    None
                }
            },
            None => None,
        }
    }
}

/// Routing keeps every feed to its own session.
pub proof fn lemma_routing_keeps_sessions(feeds: Map<SubscriberId, Feed>, envelope: EventEnvelope)
    requires
        sessions_kept(feeds),
    ensures
        sessions_kept(routed(feeds, envelope)),
{
    let after = routed(feeds, envelope);
    assert forall|id: SubscriberId, k: int|
        after.contains_key(id) && 0 <= k < after[id].events.len() implies session_key(
        (#[trigger] after[id].events[k]).session_id,
    ) == after[id].session by {
        if listens_to(feeds[id], envelope) && k == feeds[id].events.len() {
        } else {
            assert(after[id].events[k] == feeds[id].events[k]);
        }
    }
}

/// Taking an event keeps every feed to its own session.
pub proof fn lemma_taking_keeps_sessions(feeds: Map<SubscriberId, Feed>, id: SubscriberId)
    requires
        sessions_kept(feeds),
    ensures
        sessions_kept(taken(feeds, id)),
{
    let after = taken(feeds, id);
    assert forall|other: SubscriberId, k: int|
        after.contains_key(other) && 0 <= k < after[other].events.len() implies session_key(
        (#[trigger] after[other].events[k]).session_id,
    ) == after[other].session by {
        if other == id && has_event(feeds, id) {
            assert(after[other].events[k] == feeds[id].events[k + 1]);
        } else {
            assert(after[other].events[k] == feeds[other].events[k]);
        }
    }
}

/// A feed never holds an event of another session.
///
/// Where every feed holds events of its own session only, it still does
/// after an event was routed, after a subscriber took an event, and after a
/// subscriber came or went. So what a subscriber reads belongs to the
/// session it subscribed to.
pub proof fn lemma_feeds_keep_to_their_session(
    feeds: Map<SubscriberId, Feed>,
    envelope: EventEnvelope,
    id: SubscriberId,
    session: Option<SessionId>,
)
    requires
        sessions_kept(feeds),
    ensures
        sessions_kept(routed(feeds, envelope)),
        sessions_kept(taken(feeds, id)),
        sessions_kept(subscribed(feeds, id, session)),
        sessions_kept(unsubscribed(feeds, id)),
        has_event(feeds, id) ==> session_key(feeds[id].events[0].session_id) == feeds[id].session,
{
    lemma_routing_keeps_sessions(feeds, envelope);
    lemma_taking_keeps_sessions(feeds, id);
    let more = subscribed(feeds, id, session);
    assert forall|other: SubscriberId, k: int|
        more.contains_key(other) && 0 <= k < more[other].events.len() implies session_key(
        (#[trigger] more[other].events[k]).session_id,
    ) == more[other].session by {
        assert(other != id);
        assert(more[other].events[k] == feeds[other].events[k]);
    }
    let fewer = unsubscribed(feeds, id);
    assert forall|other: SubscriberId, k: int|
        fewer.contains_key(other) && 0 <= k < fewer[other].events.len() implies session_key(
        (#[trigger] fewer[other].events[k]).session_id,
    ) == fewer[other].session by {
        assert(fewer[other].events[k] == feeds[other].events[k]);
    }
}

/// Events do not cross sessions.
///
/// Routing an event appends it to the feed of a subscriber that listens to
/// the event's session and leaves the feed of any other subscriber exactly
/// as it was. Subscribers are neither added nor removed.
pub proof fn lemma_no_cross_delivery(
    feeds: Map<SubscriberId, Feed>,
    envelope: EventEnvelope,
    id: SubscriberId,
)
    requires
        feeds.contains_key(id),
    ensures
        routed(feeds, envelope).dom() == feeds.dom(),
        routed(feeds, envelope)[id].session == feeds[id].session,
        feeds[id].session == session_key(envelope.session_id) ==> routed(
            feeds,
            envelope,
        )[id].events == feeds[id].events.push(envelope),
        feeds[id].session != session_key(envelope.session_id) ==> routed(feeds, envelope)[id]
            == feeds[id],
{
    assert(routed(feeds, envelope).dom() =~= feeds.dom());
}

/// Sessions are delivered apart.
///
/// After any run of events, however the sessions are interleaved in it, a
/// subscriber has been handed exactly the events of its own session, in the
/// order of the run, behind what it had before. A run in which no event is of
/// its session leaves its feed as it was.
pub proof fn lemma_disjoint_delivery(
    feeds: Map<SubscriberId, Feed>,
    envelopes: Seq<EventEnvelope>,
    id: SubscriberId,
)
    requires
        feeds.contains_key(id),
    ensures
        routed_all(feeds, envelopes).dom() == feeds.dom(),
        routed_all(feeds, envelopes)[id].session == feeds[id].session,
        routed_all(feeds, envelopes)[id].events == feeds[id].events + heard_by(
            feeds[id],
            envelopes,
        ),
        deaf_to(feeds[id], envelopes) ==> routed_all(feeds, envelopes)[id] == feeds[id],
    decreases envelopes.len(),
{
    if envelopes.len() == 0 {
        assert(feeds[id].events + heard_by(feeds[id], envelopes) =~= feeds[id].events);
    } else {
        let front = envelopes.drop_last();
        let last = envelopes.last();
        lemma_disjoint_delivery(feeds, front, id);
        let so_far = routed_all(feeds, front);
        assert(routed(so_far, last).dom() =~= so_far.dom());
        assert(listens_to(so_far[id], last) == listens_to(feeds[id], last));
        if listens_to(feeds[id], last) {
            assert((feeds[id].events + heard_by(feeds[id], front)).push(last) =~= feeds[id].events
                + heard_by(feeds[id], front).push(last));
        }
        if deaf_to(feeds[id], envelopes) {
            assert(!listens_to(feeds[id], envelopes[envelopes.len() - 1]));
            assert forall|k: int| 0 <= k < front.len() implies !listens_to(
                feeds[id],
                #[trigger] front[k],
            ) by {
                assert(front[k] == envelopes[k]);
            }
        }
    }
}

/// Events reach a subscriber in the order in which they were routed.
pub proof fn lemma_arrival_order(
    feeds: Map<SubscriberId, Feed>,
    first: EventEnvelope,
    second: EventEnvelope,
    id: SubscriberId,
)
    requires
        feeds.contains_key(id),
        listens_to(feeds[id], first),
        listens_to(feeds[id], second),
    ensures
        routed(routed(feeds, first), second)[id].events == feeds[id].events.push(first).push(
            second,
        ),
{
}

/// Nothing is replayed.
///
/// A subscriber that registers after an event was routed starts with an
/// empty feed: it has no event to take, whatever the session of the event.
pub proof fn lemma_no_replay(
    feeds: Map<SubscriberId, Feed>,
    envelope: EventEnvelope,
    id: SubscriberId,
    session: Option<SessionId>,
)
    requires
        !feeds.contains_key(id),
    ensures
        !routed(feeds, envelope).contains_key(id),
        subscribed(routed(feeds, envelope), id, session)[id].events == Seq::<
            EventEnvelope,
        >::empty(),
        !has_event(subscribed(routed(feeds, envelope), id, session), id),
        taken(subscribed(routed(feeds, envelope), id, session), id) == subscribed(
            routed(feeds, envelope),
            id,
            session,
        ),
{
}

/// An event that nobody listens to is dropped: routing it changes nothing.
pub proof fn lemma_unheard_is_dropped(feeds: Map<SubscriberId, Feed>, envelope: EventEnvelope)
    requires
        !heard(feeds, envelope),
    ensures
        routed(feeds, envelope) == feeds,
{
    assert forall|id: SubscriberId| feeds.contains_key(id) implies #[trigger] routed(
        feeds,
        envelope,
    )[id] == feeds[id] by {
        assert(!listens_to(feeds[id], envelope));
    }
    assert(routed(feeds, envelope) =~= feeds);
}

} // verus!
