//! One page of the browser, seen from the client.
//!
//! A [`Tab`] knows its target and session and whether the page is loading.
//! It performs no I/O. For each operation on the page it builds the commands
//! to send; where a reply needs more than unpacking, a function named after
//! the operation with `_reply` appended reads it. Operations that wait are
//! decided one attempt at a time, see [`crate::wait`].
use vstd::prelude::*;
use vstd::string::StringExecFns;
use vstd::string::StrSliceExecFns;

use crate::foreign::base64_decode;
use crate::foreign::base64_decoded;
use crate::foreign::base64_fits;
use crate::keys::defines;
use crate::keys::get_key_definition;
use crate::keys::has_key;
use crate::keys::KeyDefinition;
use crate::keys::KeyNotFound;
use crate::protocol::dom::methods::DescribeNode;
use crate::protocol::dom::methods::GetDocument;
use crate::protocol::dom::methods::QuerySelector;
use crate::protocol::dom::methods::QuerySelectorAll;
use crate::protocol::dom::methods::QuerySelectorAllReturnObject;
use crate::protocol::dom::methods::QuerySelectorReturnObject;
use crate::protocol::dom::Node;
use crate::protocol::dom::NodeId;
use crate::protocol::input::methods::DispatchKeyEvent;
use crate::protocol::input::methods::DispatchMouseEvent;
use crate::protocol::page;
use crate::protocol::page::methods::CaptureScreenshot;
use crate::protocol::page::methods::CaptureScreenshotReturnObject;
use crate::protocol::page::methods::Navigate;
use crate::protocol::page::methods::NavigateReturnObject;
use crate::protocol::page::methods::Reload;
use crate::protocol::page::methods::SetLifecycleEventsEnabled;
use crate::protocol::page::InternalScreenshotFormat;
use crate::protocol::page::ScreenshotFormat;
use crate::protocol::page::Viewport;
use crate::protocol::profiler;
use crate::protocol::target::methods::AttachToTarget;
use crate::protocol::target::TargetId;
use crate::protocol::target::TargetInfo;
use crate::protocol::Event;
use crate::protocol::Method;
use crate::registry::CallHandle;
use crate::router::subscribed;
use crate::router::Subscription;
use crate::text::same_text;
use crate::transport::Transport;
use crate::wait::Step;
use crate::wait::Wait;
use crate::wire::CallError;
use crate::wire::Payload;
use crate::wire::SessionId;

verus! {

/// How long [`Tab::wait_for_element`] and [`Tab::wait_for_elements`] wait,
/// in milliseconds.
pub const ELEMENT_TIMEOUT: u64 = 15_000;

/// A handle to a single page: its target, the session attached to it, and
/// whether the page is in the middle of a navigation.
#[derive(Debug)]
pub struct Tab {
    target_id: TargetId,
    session_id: SessionId,
    navigating: bool,
    target_info: TargetInfo,
}

/// No node matched the selector.
#[derive(Debug, PartialEq)]
pub struct NoElementFound {
    selector: String,
}

/// The browser could not navigate.
#[derive(Debug, PartialEq)]
pub struct NavigationFailed {
    error_text: String,
}

/// Why the data of a screenshot is not base64, as the decoder reports it.
#[derive(Debug, Clone, Copy, PartialEq, Eq, Structural)]
pub enum InvalidImageData {
    /// A byte that is no symbol of the alphabet: where it stands, and the
    /// byte.
    InvalidByte(usize, u8),
    /// The data has a length that no encoding has.
    InvalidLength,
    /// The last symbol holds bits that belong to no byte: where it stands,
    /// and the symbol.
    InvalidLastSymbol(usize, u8),
}

/// A point of the page. The library passes the coordinates on and computes
/// nothing with them, so it leaves their type to the caller.
#[derive(Debug, Clone, Copy)]
pub struct Point<N> {
    pub x: N,
    pub y: N,
}

/// A node that a selector has matched.
#[derive(Debug, PartialEq)]
pub struct Element {
    pub node_id: NodeId,
    pub found_via_selector: String,
}

/// Where a wait for a navigation stands.
#[derive(Debug, Clone, Copy, PartialEq, Eq, Structural)]
pub enum NavigationPhase {
    /// The page has not been seen to start loading.
    Starting,
    /// The page was seen loading and has not been seen idle since.
    Finishing,
}

/// What to do next in a wait for a navigation.
#[derive(Debug, Clone, Copy, PartialEq, Eq, Structural)]
pub enum NavigationStep {
    /// Nothing new. Sleep this long and ask again, in the same phase.
    Sleep(u64),
    /// The page has started loading. Ask again at once in
    /// [`NavigationPhase::Finishing`], counting time from now.
    Started,
    /// The page has finished loading. The wait is over.
    Finished,
    /// The phase has lasted too long. The wait has failed.
    TimedOut,
}

impl NoElementFound {
    /// The selector that matched nothing.
    pub closed spec fn selector(self) -> String {
        self.selector
    }

    /// The error for a selector.
    pub fn new(selector: &str) -> (r: NoElementFound)
        ensures
            r.selector()@ == selector@,
    {
        NoElementFound { selector: selector.to_owned() }
    }

    /// The selector that matched nothing.
    pub fn get_selector(&self) -> (r: &String)
        ensures
            *r == self.selector(),
    {
        &self.selector
    }

    /// The error as a line of text.
    pub fn to_string(&self) -> (r: String)
        ensures
            r@ == "No element found for selector: "@ + self.selector()@,
    {
        "No element found for selector: ".to_owned().concat(self.selector.as_str())
    }
}

impl NavigationFailed {
    /// What the browser said went wrong.
    pub closed spec fn error_text(self) -> String {
        self.error_text
    }

    /// What the browser said went wrong.
    pub fn get_error_text(&self) -> (r: &String)
        ensures
            *r == self.error_text(),
    {
        &self.error_text
    }

    /// The error as a line of text.
    pub fn to_string(&self) -> (r: String)
        ensures
            r@ == "Navigate failed: "@ + self.error_text()@,
    {
        "Navigate failed: ".to_owned().concat(self.error_text.as_str())
    }
}

impl Element {
    /// The element for a node that a query returned. The browser answers a
    /// query that matches nothing with node 0, so node 0 is no element.
    pub fn new(node_id: NodeId, found_via_selector: &str) -> (r: Result<Element, NoElementFound>)
        ensures
            r is Ok <==> node_id != 0,
            r matches Ok(element) ==> element.node_id == node_id && element.found_via_selector@
                == found_via_selector@,
            r matches Err(error) ==> error.selector()@ == found_via_selector@,
    {
        if node_id == 0 {
            return Err(NoElementFound::new(found_via_selector));
        }
        Ok(Element { node_id, found_via_selector: found_via_selector.to_owned() })
    }
}

/// Whether a page is navigating after an event, given whether it was before.
/// The lifecycle event `init` starts a navigation and `networkAlmostIdle`
/// ends one; no other event changes anything.
pub open spec fn navigating_after(navigating: bool, event: Event) -> bool {
    match event {
        Event::Lifecycle(lifecycle) => if lifecycle.params.name@ == "networkAlmostIdle"@ {
            false
        } else if lifecycle.params.name@ == "init"@ {
            true
        } else {
            navigating
        },
        Event::Other { .. } => navigating,
    }
}

/// Whether a page is navigating after a run of events, oldest first.
pub open spec fn navigating_after_all(navigating: bool, events: Seq<Event>) -> bool
    decreases events.len(),
{
    if events.len() == 0 {
        navigating
    } else {
        navigating_after(navigating_after_all(navigating, events.drop_last()), events.last())
    }
}

/// A tab follows the events it is handed, one after the other, and nothing
/// else.
///
/// Handling no event leaves the tab as it was, and handling one run of
/// events after another is handling the two as one run. So whether a tab is
/// navigating depends on the events of its own session alone, in the order
/// in which they came.
pub proof fn lemma_navigating_follows_the_run(
    navigating: bool,
    first: Seq<Event>,
    second: Seq<Event>,
)
    ensures
        navigating_after_all(navigating, Seq::<Event>::empty()) == navigating,
        navigating_after_all(navigating, first + second) == navigating_after_all(
            navigating_after_all(navigating, first),
            second,
        ),
    decreases second.len(),
{
    if second.len() == 0 {
        assert(first + second =~= first);
    } else {
        lemma_navigating_follows_the_run(navigating, first, second.drop_last());
        assert((first + second).drop_last() =~= first + second.drop_last());
        assert((first + second).last() == second.last());
    }
}

/// The next step of a wait for a navigation, by phase: first the page must
/// be seen navigating, then it must be seen idle. Each phase has the default
/// deadline and pause of its own.
pub open spec fn navigation_step(phase: NavigationPhase, navigating: bool, elapsed: u64)
    -> NavigationStep {
    let succeeded = match phase {
        NavigationPhase::Starting => navigating,
        NavigationPhase::Finishing => !navigating,
    };
    if succeeded {
        match phase {
            NavigationPhase::Starting => NavigationStep::Started,
            NavigationPhase::Finishing => NavigationStep::Finished,
        }
    } else if elapsed > crate::wait::DEFAULT_TIMEOUT {
        NavigationStep::TimedOut
    } else {
        NavigationStep::Sleep(crate::wait::DEFAULT_SLEEP)
    }
}

/// A wait for a navigation never ends on the first look.
///
/// It finishes only in the second phase, and the second phase is entered
/// only where the page was seen navigating. So a page that is idle when the
/// wait begins, because no lifecycle event has arrived yet, is not taken for
/// one that has finished loading.
pub proof fn lemma_navigation_never_ends_at_once(navigating: bool, elapsed: u64)
    ensures
        navigation_step(NavigationPhase::Starting, navigating, elapsed) != NavigationStep::Finished,
        navigation_step(NavigationPhase::Starting, navigating, elapsed) == NavigationStep::Started
            <==> navigating,
        navigation_step(NavigationPhase::Finishing, navigating, elapsed) == NavigationStep::Finished
            <==> !navigating,
{
}

/// Whether a wait for a navigation that begins in `phase` finishes within
/// the looks given. Each look tells whether the page was navigating then;
/// time is left out, so no look times out.
pub open spec fn finishes_within(phase: NavigationPhase, looks: Seq<bool>) -> bool
    decreases looks.len(),
{
    if looks.len() == 0 {
        false
    } else {
        match navigation_step(phase, looks[0], 0) {
            NavigationStep::Finished => true,
            NavigationStep::Started => finishes_within(
                NavigationPhase::Finishing,
                looks.drop_first(),
            ),
            _ => finishes_within(phase, looks.drop_first()),
        }
    }
}

/// A wait in its second phase finishes at the first look that finds the page
/// idle.
pub proof fn lemma_finishing_needs_idle(looks: Seq<bool>)
    ensures
        finishes_within(NavigationPhase::Finishing, looks) <==> exists|j: int|
            0 <= j < looks.len() && !looks[j],
    decreases looks.len(),
{
    if looks.len() > 0 {
        let rest = looks.drop_first();
        lemma_finishing_needs_idle(rest);
        if finishes_within(NavigationPhase::Finishing, looks) {
            if looks[0] {
                let j = choose|j: int| 0 <= j < rest.len() && !rest[j];
                assert(!looks[j + 1]);
            } else {
                assert(!looks[0]);
            }
        }
        if exists|j: int| 0 <= j < looks.len() && !looks[j] {
            let j = choose|j: int| 0 <= j < looks.len() && !looks[j];
            if looks[0] {
                assert(!rest[j - 1]);
            }
        }
    }
}

/// A wait for a navigation finishes only once the page was seen navigating
/// and, at a later look, idle.
///
/// So the wait does not return on the strength of the navigation command's
/// own reply: while no look has found the page navigating, no number of
/// looks that find it idle ends the wait.
pub proof fn lemma_navigation_needs_start_then_idle(looks: Seq<bool>)
    ensures
        finishes_within(NavigationPhase::Starting, looks) <==> exists|i: int, j: int|
            0 <= i < j < looks.len() && looks[i] && !looks[j],
    decreases looks.len(),
{
    if looks.len() > 0 {
        let rest = looks.drop_first();
        lemma_navigation_needs_start_then_idle(rest);
        lemma_finishing_needs_idle(rest);
        if finishes_within(NavigationPhase::Starting, looks) {
            if looks[0] {
                let j = choose|j: int| 0 <= j < rest.len() && !rest[j];
                assert(looks[0] && !looks[j + 1]);
            } else {
                let (i, j) = choose|i: int, j: int|
                    0 <= i < j < rest.len() && rest[i] && !rest[j];
                assert(looks[i + 1] && !looks[j + 1]);
            }
        }
        if exists|i: int, j: int| 0 <= i < j < looks.len() && looks[i] && !looks[j] {
            let (i, j) = choose|i: int, j: int|
                0 <= i < j < looks.len() && looks[i] && !looks[j];
            if looks[0] {
                assert(!rest[j - 1]);
            } else {
                assert(rest[i - 1] && !rest[j - 1]);
            }
        }
    }
}

/// The attempt of a wait: the value where there is one.
pub open spec fn found<T, E>(attempt: Result<T, E>) -> Option<T> {
    match attempt {
        Ok(value) => Some(value),
        Err(_) => None,
    }
}

/// The text that a key sends: the one its definition names, or else the key
/// itself where its name is a single byte.
pub open spec fn key_text<'a>(definition: KeyDefinition<'a>) -> Option<&'a str> {
    if definition.text is Some {
        definition.text
    } else if definition.key.len() == 1 {
        Some(definition.key)
    } else {
        None
    }
}

/// True where `event` reports the key of `definition` under the event type
/// named.
pub open spec fn key_event<'a>(
    event: DispatchKeyEvent<'a>,
    event_type: Seq<char>,
    definition: KeyDefinition<'a>,
) -> bool {
    &&& event.event_type@ == event_type
    &&& event.key == Some(definition.key)
    &&& event.text == key_text(definition)
    &&& event.code == Some(definition.code)
    &&& event.windows_virtual_key_code == definition.key_code
    &&& event.native_virtual_key_code == definition.key_code
}

/// True where `event` is the mouse event of the type named at `point`, with
/// the button and click count given.
pub open spec fn mouse_event<'a, N>(
    event: DispatchMouseEvent<'a, N>,
    event_type: Seq<char>,
    point: Point<N>,
    button: Option<Seq<char>>,
    click_count: Option<u8>,
) -> bool {
    &&& event.event_type@ == event_type
    &&& event.x == point.x
    &&& event.y == point.y
    &&& match (event.button, button) {
        (Some(a), Some(b)) => a@ == b,
        (None, None) => true,
        _ => false,
    }
    &&& event.click_count == click_count
}

/// True where `events` are the two events of one press of the key defined:
/// down, as `keyDown` where the key sends text and as `rawKeyDown` where it
/// sends none, then up.
pub open spec fn pressed<'a>(events: Seq<DispatchKeyEvent<'a>>, definition: KeyDefinition<'a>)
    -> bool {
    &&& events.len() == 2
    &&& key_event(
        events[0],
        if key_text(definition) is Some {
            "keyDown"@
        } else {
            "rawKeyDown"@
        },
        definition,
    )
    &&& key_event(events[1], "keyUp"@, definition)
}

/// The two events of one press of the key defined.
pub fn key_events<'a>(definition: KeyDefinition<'a>) -> (r: Vec<DispatchKeyEvent<'a>>)
    ensures
        pressed(r@, definition),
{
    let text = match definition.text {
        Some(text) => Some(text),
        None => if definition.key.len() == 1 {
            Some(definition.key)
        } else {
            None
        },
    };
    let key_down_event_type = if text.is_some() {
        "keyDown"
    } else {
        "rawKeyDown"
    };
    let key = Some(definition.key);
    let code = Some(definition.code);
    let mut events: Vec<DispatchKeyEvent<'a>> = Vec::new();
    events.push(
        DispatchKeyEvent {
            event_type: key_down_event_type,
            key,
            text,
            code,
            windows_virtual_key_code: definition.key_code,
            native_virtual_key_code: definition.key_code,
        },
    );
    events.push(
        DispatchKeyEvent {
            event_type: "keyUp",
            key,
            text,
            code,
            windows_virtual_key_code: definition.key_code,
            native_virtual_key_code: definition.key_code,
        },
    );
    events
}

/// True where a query named at least one node and none of them is node 0.
pub open spec fn all_found(node_ids: Seq<NodeId>) -> bool {
    node_ids.len() > 0 && forall|i: int| 0 <= i < node_ids.len() ==> node_ids[i] != 0
}

impl Tab {
    /// The target that the tab shows.
    pub closed spec fn target(&self) -> TargetId {
        self.target_id
    }

    /// The session attached to the target.
    pub closed spec fn session(&self) -> SessionId {
        self.session_id
    }

    /// Whether the page is in the middle of a navigation.
    pub closed spec fn is_navigating(&self) -> bool {
        self.navigating
    }

    /// What is known of the target.
    pub closed spec fn info(&self) -> TargetInfo {
        self.target_info
    }

    /// The command that attaches a session to a target. Its reply names the
    /// session to give to [`Tab::new`].
    pub fn attach<'a>(target_info: &'a TargetInfo) -> (r: AttachToTarget<'a>)
        ensures
            r.target_id@ == target_info.target_id@,
            r.flatten is None,
    {
        AttachToTarget { target_id: target_info.target_id.as_str(), flatten: None }
    }

    /// The tab for a target and the session attached to it. The page is taken
    /// to be idle.
    pub fn new(target_info: TargetInfo, session_id: SessionId) -> (r: Tab)
        ensures
            r.target() == target_info.target_id,
            r.session() == session_id,
            !r.is_navigating(),
            r.info() == target_info,
    {
        let target_id = target_info.target_id.clone();
        Tab { target_id, session_id, navigating: false, target_info }
    }

    /// The commands to send once the tab exists, in this order: one that
    /// enables the page domain and one that turns lifecycle events on.
    /// Without them no event tells the tab when a navigation starts or ends.
    pub fn enable(&self) -> (r: (page::methods::Enable, SetLifecycleEventsEnabled))
        ensures
            r.0 == (page::methods::Enable {  }),
            r.1 == (SetLifecycleEventsEnabled { enabled: true }),
    {
        (page::methods::Enable {  }, SetLifecycleEventsEnabled { enabled: true })
    }

    /// Replaces what is known of the target.
    pub fn update_target_info(&mut self, target_info: TargetInfo)
        ensures
            final(self).info() == target_info,
            final(self).target() == old(self).target(),
            final(self).session() == old(self).session(),
            final(self).is_navigating() == old(self).is_navigating(),
    {
        self.target_info = target_info;
    }

    pub fn get_target_id(&self) -> (r: &TargetId)
        ensures
            *r == self.target(),
    {
        &self.target_id
    }

    pub fn get_session_id(&self) -> (r: &SessionId)
        ensures
            *r == self.session(),
    {
        &self.session_id
    }

    /// The address that the target was last known to show.
    pub fn get_url(&self) -> (r: String)
        ensures
            r == self.info().url,
    {
        self.target_info.url.clone()
    }

    /// Tells whether the page is in the middle of a navigation.
    pub fn navigating(&self) -> (r: bool)
        ensures
            r == self.is_navigating(),
    {
        self.navigating
    }

    /// Subscribes to the events of the tab's session. The events are to be
    /// decoded and given to [`Tab::handle_event`] in the order they come.
    pub fn listen(&self, transport: &mut Transport) -> (r: Subscription)
        requires
            old(transport).wf(),
            old(transport).subscriptions_made() < u64::MAX,
        ensures
            final(transport).wf(),
            !old(transport).feeds().contains_key(r.subscriber_id()),
            final(transport).feeds() == subscribed(
                old(transport).feeds(),
                r.subscriber_id(),
                Some(self.session()),
            ),
            final(transport).subscriptions_made() == old(transport).subscriptions_made() + 1,
            Transport::same_but_feeds(*old(transport), *final(transport)),
    {
        transport.listen_to_target_events(self.session_id.clone())
    }

    /// Takes note of one event of the tab's session, as
    /// [`navigating_after`] says.
    pub fn handle_event(&mut self, event: &Event)
        ensures
            final(self).is_navigating() == navigating_after(old(self).is_navigating(), *event),
            final(self).target() == old(self).target(),
            final(self).session() == old(self).session(),
            final(self).info() == old(self).info(),
    {
        match event {
            Event::Lifecycle(lifecycle) => {
                if same_text(lifecycle.params.name.as_str(), "networkAlmostIdle") {
                    self.navigating = false;
                } else if same_text(lifecycle.params.name.as_str(), "init") {
                    self.navigating = true;
                }
            },
            Event::Other { .. } => {},
        }
    }

    /// Takes note of a run of events of the tab's session, oldest first.
    pub fn handle_events(&mut self, events: &Vec<Event>)
        ensures
            final(self).is_navigating() == navigating_after_all(old(self).is_navigating(), events@),
            final(self).target() == old(self).target(),
            final(self).session() == old(self).session(),
            final(self).info() == old(self).info(),
    {
        let mut i: usize = 0;
        while i < events.len()
            invariant
                i <= events@.len(),
                self.is_navigating() == navigating_after_all(
                    old(self).is_navigating(),
                    events@.take(i as int),
                ),
                self.target() == old(self).target(),
                self.session() == old(self).session(),
                self.info() == old(self).info(),
            decreases events@.len() - i,
        {
            proof {
                assert(events@.take(i + 1).drop_last() =~= events@.take(i as int));
            }
            self.handle_event(&events[i]);
            i += 1;
        }
        proof {
            assert(events@.take(i as int) =~= events@);
        }
    }

    /// Issues a command to the tab's page: as
    /// [`Transport::call_method_on_target`] with the tab's session.
    pub fn call_method<C: Method>(
        &self,
        transport: &mut Transport,
        command: &C,
        params: Payload,
    ) -> (r: Result<CallHandle, CallError>)
        requires
            old(transport).wf(),
            old(transport).calls_made() < u64::MAX,
        ensures
            final(transport).wf(),
            Transport::issued(
                *old(transport),
                *final(transport),
                r,
                Some(self.session()),
                C::NAME@,
                params,
            ),
    {
        transport.call_method_on_target(self.session_id.clone(), command, params)
    }

    /// Decides one round of the wait for a navigation to run its course, as
    /// [`navigation_step`] says. `elapsed` is the time since the phase began.
    pub fn wait_until_navigated(&self, phase: NavigationPhase, elapsed: u64) -> (r: NavigationStep)
        ensures
            r == navigation_step(phase, self.is_navigating(), elapsed),
    {
        let wait = Wait::default();
        match phase {
            NavigationPhase::Starting => {
                let attempt = if self.navigating {
                    Some(true)
                } else {
                    None
                };
                match wait.poll(attempt, elapsed) {
                    Step::Done(_) => NavigationStep::Started,
                    Step::Sleep(pause) => NavigationStep::Sleep(pause),
                    Step::TimedOut => NavigationStep::TimedOut,
                }
            },
            NavigationPhase::Finishing => {
                let attempt = if self.navigating {
                    None
                } else {
                    Some(true)
                };
                match wait.poll(attempt, elapsed) {
                    Step::Done(_) => NavigationStep::Finished,
                    Step::Sleep(pause) => NavigationStep::Sleep(pause),
                    Step::TimedOut => NavigationStep::TimedOut,
                }
            },
        }
    }

    /// The command that sends the page to `url`.
    pub fn navigate_to<'a>(&self, url: &'a str) -> (r: Navigate<'a>)
        ensures
            r.url == url,
    {
        Navigate { url }
    }

    /// Reads the reply to [`Tab::navigate_to`]: the navigation failed where
    /// the reply carries an error text, and only there.
    pub fn navigate_to_reply(&self, reply: NavigateReturnObject) -> (r: Result<
        (),
        NavigationFailed,
    >)
        ensures
            r is Err <==> reply.error_text is Some,
            r matches Err(error) ==> Some(error.error_text()) == reply.error_text,
    {
        match reply.error_text {
            Some(error_text) => Err(NavigationFailed { error_text }),
            None => Ok(()),
        }
    }

    /// Decides one round of the wait for an element: as
    /// [`Tab::wait_for_element_with_custom_timeout`] with a deadline of
    /// [`ELEMENT_TIMEOUT`].
    pub fn wait_for_element<E>(&self, attempt: Result<Element, E>, elapsed: u64) -> (r: Step<
        Element,
    >)
        ensures
            r == Wait::lasting(ELEMENT_TIMEOUT).decide(found(attempt), elapsed),
    {
        self.wait_for_element_with_custom_timeout(attempt, elapsed, ELEMENT_TIMEOUT)
    }

    /// Decides one round of the wait for an element. `attempt` is what came
    /// of looking for it and `elapsed` the time since the wait began. An
    /// element that was found ends the wait; any failure to find one is a
    /// reason to look again, until more than `timeout` has passed.
    pub fn wait_for_element_with_custom_timeout<E>(
        &self,
        attempt: Result<Element, E>,
        elapsed: u64,
        timeout: u64,
    ) -> (r: Step<Element>)
        ensures
            r == Wait::lasting(timeout).decide(found(attempt), elapsed),
    {
        let wait = Wait::with_timeout(timeout);
        match attempt {
            Ok(element) => wait.poll(Some(element), elapsed),
            Err(_) => wait.poll(None, elapsed),
        }
    }

    /// Decides one round of the wait for the elements that match a selector,
    /// with a deadline of [`ELEMENT_TIMEOUT`]. Any failure to find them is a
    /// reason to look again.
    pub fn wait_for_elements<E>(&self, attempt: Result<Vec<Element>, E>, elapsed: u64) -> (r: Step<
        Vec<Element>,
    >)
        ensures
            r == Wait::lasting(ELEMENT_TIMEOUT).decide(found(attempt), elapsed),
    {
        let wait = Wait::with_timeout(ELEMENT_TIMEOUT);
        match attempt {
            Ok(elements) => wait.poll(Some(elements), elapsed),
            Err(_) => wait.poll(None, elapsed),
        }
    }

    /// The query for the first node below `root` that matches the selector.
    /// `root` is the document as [`Tab::get_document`] asks for it.
    pub fn find_element<'a>(&self, root: &Node, selector: &'a str) -> (r: QuerySelector<'a>)
        ensures
            r.node_id == root.node_id,
            r.selector == selector,
    {
        QuerySelector { node_id: root.node_id, selector }
    }

    /// Reads the reply to [`Tab::find_element`]: the element of the node
    /// named, or an error where the reply names node 0.
    pub fn find_element_reply(&self, selector: &str, reply: QuerySelectorReturnObject) -> (r:
        Result<Element, NoElementFound>)
        ensures
            r is Ok <==> reply.node_id != 0,
            r matches Ok(element) ==> element.node_id == reply.node_id
                && element.found_via_selector@ == selector@,
            r matches Err(error) ==> error.selector()@ == selector@,
    {
        Element::new(reply.node_id, selector)
    }

    /// The command that asks for the root of the document, without its
    /// children and without piercing frames.
    pub fn get_document(&self) -> (r: GetDocument)
        ensures
            r.depth == Some(0i8),
            r.pierce == Some(false),
    {
        GetDocument { depth: Some(0), pierce: Some(false) }
    }

    /// The query for all nodes below `root` that match the selector.
    pub fn find_elements<'a>(&self, root: &Node, selector: &'a str) -> (r: QuerySelectorAll<'a>)
        ensures
            r.node_id == root.node_id,
            r.selector == selector,
    {
        QuerySelectorAll { node_id: root.node_id, selector }
    }

    /// Reads the reply to [`Tab::find_elements`]: one element for each node
    /// named, in the same order. It is an error where the reply names no node
    /// at all or names node 0.
    pub fn find_elements_reply(&self, selector: &str, reply: QuerySelectorAllReturnObject) -> (r:
        Result<Vec<Element>, NoElementFound>)
        ensures
            r is Ok <==> all_found(reply.node_ids@),
            r matches Ok(elements) ==> {
                &&& elements@.len() == reply.node_ids@.len()
                &&& forall|i: int|
                    0 <= i < elements@.len() ==> (#[trigger] elements@[i]).node_id
                        == reply.node_ids@[i] && elements@[i].found_via_selector@ == selector@
            },
            r matches Err(error) ==> error.selector()@ == selector@,
    {
        let node_ids = reply.node_ids;
        if node_ids.len() == 0 {
            return Err(NoElementFound::new(selector));
        }
        let mut elements: Vec<Element> = Vec::new();
        let mut i: usize = 0;
        while i < node_ids.len()
            invariant
                node_ids == reply.node_ids,
                i <= node_ids@.len(),
                elements@.len() == i,
                forall|k: int| 0 <= k < i ==> node_ids@[k] != 0,
                forall|k: int|
                    0 <= k < i ==> (#[trigger] elements@[k]).node_id == node_ids@[k]
                        && elements@[k].found_via_selector@ == selector@,
            decreases node_ids@.len() - i,
        {
            match Element::new(node_ids[i], selector) {
                Ok(element) => {
                    elements.push(element);
                },
                Err(error) => {
                    assert(node_ids@[i as int] == 0);
                    return Err(error);
                },
            }
            i += 1;
        }
        Ok(elements)
    }

    /// The command that asks for the description of a node, a hundred levels
    /// deep.
    pub fn describe_node(&self, node_id: NodeId) -> (r: DescribeNode)
        ensures
            r.node_id == Some(node_id),
            r.backend_node_id is None,
            r.depth == Some(100i8),
    {
        DescribeNode { node_id: Some(node_id), backend_node_id: None, depth: Some(100) }
    }

    /// The keys to press, in order, to type a text: one for each character,
    /// named by the character itself.
    pub fn type_str<'a>(&self, string_to_type: &'a str) -> (r: Vec<&'a str>)
        ensures
            r@.len() == string_to_type@.len(),
            forall|i: int|
                0 <= i < r@.len() ==> (#[trigger] r@[i])@ == string_to_type@.subrange(i, i + 1),
    {
        let count = string_to_type.unicode_len();
        let mut keys: Vec<&'a str> = Vec::new();
        let mut i: usize = 0;
        while i < count
            invariant
                count == string_to_type@.len(),
                i <= count,
                keys@.len() == i,
                forall|k: int|
                    0 <= k < i ==> (#[trigger] keys@[k])@ == string_to_type@.subrange(k, k + 1),
            decreases count - i,
        {
            keys.push(string_to_type.substring_char(i, i + 1));
            i += 1;
        }
        keys
    }

    /// The two events of one press of the key named, in order: the key goes
    /// down, then up. The key is looked up in the layout, and it is an error
    /// where the layout does not have it. Both events report the key as its
    /// definition says, with the text of [`key_text`]. A key that sends text
    /// goes down as `keyDown`, one that sends none as `rawKeyDown`.
    pub fn press_key<'a>(&self, layout: &[KeyDefinition<'a>], key: &str) -> (r: Result<
        Vec<DispatchKeyEvent<'a>>,
        KeyNotFound,
    >)
        ensures
            r is Ok <==> has_key(layout@, key@),
            r matches Ok(events) ==> exists|index: int|
                defines(layout@, key@, index) && pressed(events@, layout@[index]),
            r matches Err(error) ==> error.key()@ == key@,
    {
        match get_key_definition(layout, key) {
            Ok(definition) => Ok(key_events(definition)),
            Err(error) => Err(error),
        }
    }

    /// The three events of one click at a point, in order: the mouse moves
    /// there, the left button goes down once, and comes up.
    pub fn click_point<N: Copy>(&self, point: Point<N>) -> (r: Vec<DispatchMouseEvent<'static, N>>)
        ensures
            r@.len() == 3,
            mouse_event(r@[0], "mouseMoved"@, point, None, None),
            mouse_event(r@[1], "mousePressed"@, point, Some("left"@), Some(1u8)),
            mouse_event(r@[2], "mouseReleased"@, point, Some("left"@), Some(1u8)),
    {
        let mut events: Vec<DispatchMouseEvent<'static, N>> = Vec::new();
        events.push(
            DispatchMouseEvent {
                event_type: "mouseMoved",
                x: point.x,
                y: point.y,
                button: None,
                click_count: None,
            },
        );
        events.push(
            DispatchMouseEvent {
                event_type: "mousePressed",
                x: point.x,
                y: point.y,
                button: Some("left"),
                click_count: Some(1),
            },
        );
        events.push(
            DispatchMouseEvent {
                event_type: "mouseReleased",
                x: point.x,
                y: point.y,
                button: Some("left"),
                click_count: Some(1),
            },
        );
        events
    }

    /// The command that captures a screenshot of the page, or of the region
    /// `clip` of it, from the surface or from the view. JPEG carries its
    /// quality along; PNG has none.
    pub fn capture_screenshot<N>(
        &self,
        format: ScreenshotFormat,
        clip: Option<Viewport<N>>,
        from_surface: bool,
    ) -> (r: CaptureScreenshot<N>)
        ensures
            r.clip == clip,
            r.from_surface == from_surface,
            match format {
                ScreenshotFormat::JPEG(quality) => r.format is JPEG && r.quality == quality,
                ScreenshotFormat::PNG => r.format is PNG && r.quality is None,
            },
    {
        let (format, quality) = match format {
            ScreenshotFormat::JPEG(quality) => (InternalScreenshotFormat::JPEG, quality),
            ScreenshotFormat::PNG => (InternalScreenshotFormat::PNG, None),
        };
        CaptureScreenshot { format, clip, quality, from_surface }
    }

    /// Reads the reply to [`Tab::capture_screenshot`]: the bytes of the
    /// image, which the reply carries in base64, or the decoder's error
    /// where the data is not base64.
    pub fn capture_screenshot_reply(&self, reply: &CaptureScreenshotReturnObject) -> (r: Result<
        Vec<u8>,
        InvalidImageData,
    >)
        requires
            base64_fits(reply.data@),
        ensures
            match r {
                Ok(image) => base64_decoded(reply.data@) == Ok::<Seq<u8>, InvalidImageData>(
                    image@,
                ),
                Err(error) => base64_decoded(reply.data@) == Err::<Seq<u8>, InvalidImageData>(
                    error,
                ),
            },
    {
        base64_decode(reply.data.as_str())
    }

    /// Reads the reply to [`Tab::capture_screenshot`] whatever its length:
    /// as [`Tab::capture_screenshot_reply`] where the data is short enough to
    /// decode, as [`base64_fits`] says, and `None` where it is not.
    pub fn try_capture_screenshot_reply(&self, reply: &CaptureScreenshotReturnObject) -> (r: Option<
        Result<Vec<u8>, InvalidImageData>,
    >)
        ensures
            r is Some <==> base64_fits(reply.data@),
            r matches Some(read) ==> match read {
                Ok(image) => base64_decoded(reply.data@) == Ok::<Seq<u8>, InvalidImageData>(
                    image@,
                ),
                Err(error) => base64_decoded(reply.data@) == Err::<Seq<u8>, InvalidImageData>(
                    error,
                ),
            },
    {
        if reply.data.as_str().len() <= usize::MAX / 4 {
            Some(self.capture_screenshot_reply(reply))
        } else {
            None
        }
    }

    /// The command that reloads the page, past the cache where asked, and
    /// with a script to run in every frame once it has loaded.
    pub fn reload<'a>(&self, ignore_cache: bool, script_to_evaluate: Option<&'a str>) -> (r: Reload<
        'a,
    >)
        ensures
            r.ignore_cache == ignore_cache,
            r.script_to_evaluate == script_to_evaluate,
    {
        Reload { ignore_cache, script_to_evaluate }
    }

    /// The command that enables the profiler.
    pub fn enable_profiler(&self) -> (r: profiler::methods::Enable)
        ensures
            r == (profiler::methods::Enable {  }),
    {
        profiler::methods::Enable {  }
    }

    /// The command that disables the profiler.
    pub fn disable_profiler(&self) -> (r: profiler::methods::Disable)
        ensures
            r == (profiler::methods::Disable {  }),
    {
        profiler::methods::Disable {  }
    }

    /// The command that starts tracking which lines of script have run, by
    /// block and with call counts. The profiler must be enabled.
    pub fn start_js_coverage(&self) -> (r: profiler::methods::StartPreciseCoverage)
        ensures
            r.call_count == Some(true),
            r.detailed == Some(true),
    {
        profiler::methods::StartPreciseCoverage { call_count: Some(true), detailed: Some(true) }
    }

    /// The command that stops tracking which lines of script have run.
    pub fn stop_js_coverage(&self) -> (r: profiler::methods::StopPreciseCoverage)
        ensures
            r == (profiler::methods::StopPreciseCoverage {  }),
    {
        profiler::methods::StopPreciseCoverage {  }
    }

    /// The command that collects the coverage since it was last taken and
    /// resets the counters.
    pub fn take_precise_js_coverage(&self) -> (r: profiler::methods::TakePreciseCoverage)
        ensures
            r == (profiler::methods::TakePreciseCoverage {  }),
    {
        profiler::methods::TakePreciseCoverage {  }
    }
}

} // verus!
