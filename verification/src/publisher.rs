//! The update publisher: reports the working file's content to the controller
//! whenever it has changed.
//!
//! Each round renders the file, sends the rendering if it differs from the
//! last one sent, blocks until the file system reports a change and then
//! drains whatever else was reported in the same burst, so that a burst of
//! notifications leads to one rendering. The program around the publisher
//! performs each action and reports what happened as the next event.

use crate::content::{plain_to_rich, rich_of, ContentType};
use crate::message::{HostMessage, HostMessageView};
use vstd::prelude::*;

verus! {

/// Where the publisher stands in its round.
#[derive(Clone, Copy, Debug, PartialEq, Eq, Structural)]
pub enum WatchPhase {
    /// The file is being read back.
    Rendering,
    /// Blocked until the file system reports a change.
    Waiting,
    /// Taking, without blocking, what else was reported in the same burst.
    Draining,
    /// An operation failed; the publisher has given up.
    Stopped,
}

/// The classes of change to the working file that wake the publisher.
#[derive(Clone, Copy, Debug, PartialEq, Eq, Structural)]
pub enum ChangeClass {
    /// Written to, then closed.
    ClosedAfterWrite,
    Created,
    Deleted,
    Modified,
    /// The file itself was moved away.
    MovedAway,
    /// A file was moved into its place.
    MovedIn,
}

/// What the program around the publisher reports to it.
#[derive(Clone, Debug, PartialEq, Eq)]
pub enum WatchEvent {
    /// The file was read back, through the filter where the content type asks
    /// for it, and this is the text.
    Rendered(String),
    /// The blocking wait has returned.
    Woken,
    /// A read that does not block has returned this many notifications.
    Drained { count: usize },
    /// A read that does not block found nothing to return.
    WouldBlock,
    /// Reading the file, sending a message or reading the notifications failed.
    Failed,
}

/// The mathematical content of a [`WatchEvent`].
pub enum WatchEventView {
    Rendered(Seq<char>),
    Woken,
    Drained { count: nat },
    WouldBlock,
    Failed,
}

impl View for WatchEvent {
    type V = WatchEventView;

    open spec fn view(&self) -> WatchEventView {
        match self {
            WatchEvent::Rendered(text) => WatchEventView::Rendered(text@),
            WatchEvent::Woken => WatchEventView::Woken,
            WatchEvent::Drained { count } => WatchEventView::Drained { count: *count as nat },
            WatchEvent::WouldBlock => WatchEventView::WouldBlock,
            WatchEvent::Failed => WatchEventView::Failed,
        }
    }
}

/// What the publisher asks the program around it to do.
#[derive(Clone, Debug, PartialEq, Eq)]
pub enum WatchAction {
    /// Read the file back and report `Rendered`.
    Render { content_type: ContentType },
    /// Send this message, then block until a change is reported.
    Publish(HostMessage),
    /// Block until a change is reported.
    Await,
    /// Read the pending notifications without blocking.
    Drain,
    /// Give up and report the failure to the coordinator.
    Stop,
}

/// The mathematical content of a [`WatchAction`].
pub enum WatchActionView {
    Render { content_type: ContentType },
    Publish(HostMessageView),
    Await,
    Drain,
    Stop,
}

impl View for WatchAction {
    type V = WatchActionView;

    open spec fn view(&self) -> WatchActionView {
        match self {
            WatchAction::Render { content_type } => WatchActionView::Render {
                content_type: *content_type,
            },
            WatchAction::Publish(message) => WatchActionView::Publish(message@),
            WatchAction::Await => WatchActionView::Await,
            WatchAction::Drain => WatchActionView::Drain,
            WatchAction::Stop => WatchActionView::Stop,
        }
    }
}

/// The publisher of one session's updates.
#[derive(Clone, Debug)]
pub struct Publisher {
    content_type: ContentType,
    phase: WatchPhase,
    last_sent: Option<String>,
}

/// The mathematical content of a [`Publisher`].
pub struct PublisherView {
    pub content_type: ContentType,
    pub phase: WatchPhase,
    /// The content of the last message sent, if one was sent.
    pub last_sent: Option<Seq<char>>,
}

impl View for Publisher {
    type V = PublisherView;

    closed spec fn view(&self) -> PublisherView {
        PublisherView {
            content_type: self.content_type,
            phase: self.phase,
            last_sent: match self.last_sent {
                Some(text) => Some(text@),
                None => None,
            },
        }
    }
}

impl PublisherView {
    /// The publisher as it starts: rendering, with nothing sent.
    pub open spec fn initial(content_type: ContentType) -> PublisherView {
        PublisherView { content_type, phase: WatchPhase::Rendering, last_sent: None }
    }

    /// The action that the current phase is waiting on.
    pub open spec fn pending(self) -> WatchActionView {
        match self.phase {
            WatchPhase::Rendering => WatchActionView::Render { content_type: self.content_type },
            WatchPhase::Waiting => WatchActionView::Await,
            WatchPhase::Draining => WatchActionView::Drain,
            WatchPhase::Stopped => WatchActionView::Stop,
        }
    }

    /// This publisher in another phase.
    pub open spec fn at(self, phase: WatchPhase) -> PublisherView {
        PublisherView { phase, ..self }
    }

    /// The transition function: the state after `event`, and the action asked
    /// for. A rendering is sent only if it differs from the last one sent. A
    /// failure stops the publisher for good. An event that the current phase
    /// does not wait for changes nothing, and the pending action is asked for
    /// again.
    pub open spec fn advance(self, event: WatchEventView) -> (PublisherView, WatchActionView) {
        if self.phase == WatchPhase::Stopped {
            (self, WatchActionView::Stop)
        } else if event is Failed {
            (self.at(WatchPhase::Stopped), WatchActionView::Stop)
        } else {
            match (self.phase, event) {
                (WatchPhase::Rendering, WatchEventView::Rendered(text)) => {
                    let rich = rich_of(self.content_type, text);
                    if self.last_sent == Some(rich) {
                        (self.at(WatchPhase::Waiting), WatchActionView::Await)
                    } else {
                        (
                            PublisherView {
                                content_type: self.content_type,
                                phase: WatchPhase::Waiting,
                                last_sent: Some(rich),
                            },
                            WatchActionView::Publish(HostMessageView::ReplaceAll { content: rich }),
                        )
                    }
                },
                (WatchPhase::Waiting, WatchEventView::Woken) => (
                    self.at(WatchPhase::Draining),
                    WatchActionView::Drain,
                ),
                (WatchPhase::Draining, WatchEventView::Drained { count }) => if count > 0 {
                    (self, WatchActionView::Drain)
                } else {
                    (
                        self.at(WatchPhase::Rendering),
                        WatchActionView::Render { content_type: self.content_type },
                    )
                },
                (WatchPhase::Draining, WatchEventView::WouldBlock) => (
                    self.at(WatchPhase::Rendering),
                    WatchActionView::Render { content_type: self.content_type },
                ),
                _ => (self, self.pending()),
            }
        }
    }
}

/// The classes of change that the publisher asks to be told of.
pub open spec fn watched_classes() -> Seq<ChangeClass> {
    seq![
        ChangeClass::ClosedAfterWrite,
        ChangeClass::Created,
        ChangeClass::Deleted,
        ChangeClass::Modified,
        ChangeClass::MovedAway,
        ChangeClass::MovedIn,
    ]
}

impl Publisher {
    /// A publisher that has sent nothing, and the action that starts its
    /// first round.
    pub fn start(content_type: ContentType) -> (started: (Publisher, WatchAction))
        ensures
            started.0@ == PublisherView::initial(content_type),
            started.1@ == started.0@.pending(),
    {
        (
            Publisher { content_type, phase: WatchPhase::Rendering, last_sent: None },
            WatchAction::Render { content_type },
        )
    }

    /// The classes of change to register interest in on the working file.
    pub fn watch_list() -> (classes: Vec<ChangeClass>)
        ensures
            classes@ == watched_classes(),
    {
        let mut classes: Vec<ChangeClass> = Vec::new();
        classes.push(ChangeClass::ClosedAfterWrite);
        classes.push(ChangeClass::Created);
        classes.push(ChangeClass::Deleted);
        classes.push(ChangeClass::Modified);
        classes.push(ChangeClass::MovedAway);
        classes.push(ChangeClass::MovedIn);
        assert(classes@ =~= watched_classes());
        classes
    }

    /// The phase the publisher is in.
    pub fn phase(&self) -> (phase: WatchPhase)
        ensures
            phase == self@.phase,
    {
        self.phase
    }

    /// The content of the last message sent, if one was sent.
    pub fn last_sent(&self) -> (last: Option<String>)
        ensures
            last is Some <==> self@.last_sent is Some,
            last matches Some(text) ==> self@.last_sent == Some(text@),
    {
        match &self.last_sent {
            Some(text) => Some(text.clone()),
            None => None,
        }
    }

    /// The action that the current phase is waiting on.
    fn pending(&self) -> (action: WatchAction)
        ensures
            action@ == self@.pending(),
    {
        match self.phase {
            WatchPhase::Rendering => WatchAction::Render { content_type: self.content_type },
            WatchPhase::Waiting => WatchAction::Await,
            WatchPhase::Draining => WatchAction::Drain,
            WatchPhase::Stopped => WatchAction::Stop,
        }
    }

    /// Takes a rendering: sends it if it differs from the last one sent.
    fn offer(&mut self, text: String) -> (action: WatchAction)
        requires
            old(self)@.phase == WatchPhase::Rendering,
        ensures
            (final(self)@, action@) == old(self)@.advance(WatchEventView::Rendered(text@)),
    {
        let rich = plain_to_rich(self.content_type, text);
        let unchanged = match &self.last_sent {
            Some(previous) => *previous == rich,
            None => false,
        };
        self.phase = WatchPhase::Waiting;
        if unchanged {
            WatchAction::Await
        } else {
            self.last_sent = Some(rich.clone());
            WatchAction::Publish(HostMessage::ReplaceAll { content: rich })
        }
    }

    /// Takes one event, moves to the next state and says what is to be done.
    pub fn step(&mut self, event: WatchEvent) -> (action: WatchAction)
        ensures
            (final(self)@, action@) == old(self)@.advance(event@),
    {
        match self.phase {
            WatchPhase::Stopped => WatchAction::Stop,
            WatchPhase::Rendering => match event {
                WatchEvent::Failed => self.stop(),
                WatchEvent::Rendered(text) => self.offer(text),
                _ => self.pending(),
            },
            WatchPhase::Waiting => match event {
                WatchEvent::Failed => self.stop(),
                WatchEvent::Woken => {
                    self.phase = WatchPhase::Draining;
                    WatchAction::Drain
                },
                _ => self.pending(),
            },
            WatchPhase::Draining => match event {
                WatchEvent::Failed => self.stop(),
                WatchEvent::Drained { count } => if count > 0 {
                    WatchAction::Drain
                } else {
                    self.render_again()
                },
                WatchEvent::WouldBlock => self.render_again(),
                _ => self.pending(),
            },
        }
    }

    /// Gives up.
    fn stop(&mut self) -> (action: WatchAction)
        ensures
            final(self)@ == old(self)@.at(WatchPhase::Stopped),
            action@ == WatchActionView::Stop,
    {
        self.phase = WatchPhase::Stopped;
        WatchAction::Stop
    }

    /// Ends the draining and starts the next round.
    fn render_again(&mut self) -> (action: WatchAction)
        ensures
            final(self)@ == old(self)@.at(WatchPhase::Rendering),
            action@ == (WatchActionView::Render { content_type: old(self)@.content_type }),
    {
        self.phase = WatchPhase::Rendering;
        WatchAction::Render { content_type: self.content_type }
    }
}

/// The state that a sequence of events leads to, and the actions asked for on
/// the way, one for each event.
pub open spec fn run(start: PublisherView, events: Seq<WatchEventView>) -> (
    PublisherView,
    Seq<WatchActionView>,
)
    decreases events.len(),
{
    if events.len() == 0 {
        (start, Seq::empty())
    } else {
        let (before, actions) = run(start, events.drop_last());
        let (after, action) = before.advance(events.last());
        (after, actions.push(action))
    }
}

/// The contents of the messages that the actions send, in order.
pub open spec fn published(actions: Seq<WatchActionView>) -> Seq<Seq<char>>
    decreases actions.len(),
{
    if actions.len() == 0 {
        Seq::empty()
    } else {
        let earlier = published(actions.drop_last());
        match actions.last() {
            WatchActionView::Publish(HostMessageView::ReplaceAll { content }) => earlier.push(
                content,
            ),
            _ => earlier,
        }
    }
}

/// How many times the actions ask for the file to be read back.
pub open spec fn renderings(actions: Seq<WatchActionView>) -> nat
    decreases actions.len(),
{
    if actions.len() == 0 {
        0
    } else {
        renderings(actions.drop_last()) + if actions.last() is Render {
            1nat
        } else {
            0nat
        }
    }
}

/// One debounce window: the wake-up, then one read that does not block for
/// each entry of `counts`, returning that many further notifications.
pub open spec fn burst(counts: Seq<nat>) -> Seq<WatchEventView>
    decreases counts.len(),
{
    if counts.len() == 0 {
        seq![WatchEventView::Woken]
    } else {
        burst(counts.drop_last()).push(WatchEventView::Drained { count: counts.last() })
    }
}

/// No two messages in a row carry the same content, whatever is reported and
/// from whatever state: each message differs from the one sent before it, the
/// first from what the publisher had sent last, and the publisher remembers
/// the last one.
pub proof fn lemma_no_repeated_update(start: PublisherView, events: Seq<WatchEventView>)
    ensures
        ({
            let (end, actions) = run(start, events);
            let sent = published(actions);
            &&& forall|i: int| 0 <= i < sent.len() - 1 ==> #[trigger] sent[i] != sent[i + 1]
            &&& sent.len() > 0 ==> start.last_sent != Some(sent[0]) && end.last_sent == Some(
                sent.last(),
            )
            &&& sent.len() == 0 ==> end.last_sent == start.last_sent
        }),
    decreases events.len(),
{
    if events.len() > 0 {
        lemma_no_repeated_update(start, events.drop_last());
        let (before, done) = run(start, events.drop_last());
        let (after, action) = before.advance(events.last());
        let actions = done.push(action);
        assert(actions.drop_last() =~= done);
        assert(actions.last() == action);
    }
}

/// One more event adds one step to a run.
proof fn lemma_run_push(start: PublisherView, events: Seq<WatchEventView>, event: WatchEventView)
    ensures
        run(start, events.push(event)) == ({
            let (before, actions) = run(start, events);
            let (after, action) = before.advance(event);
            (after, actions.push(action))
        }),
{
    assert(events.push(event).drop_last() =~= events);
}

/// One more action adds its message, if it sends one, and counts if it renders.
proof fn lemma_actions_push(actions: Seq<WatchActionView>, action: WatchActionView)
    ensures
        published(actions.push(action)) == match action {
            WatchActionView::Publish(HostMessageView::ReplaceAll { content }) => published(
                actions,
            ).push(content),
            _ => published(actions),
        },
        renderings(actions.push(action)) == renderings(actions) + if action is Render {
            1nat
        } else {
            0nat
        },
{
    assert(actions.push(action).drop_last() =~= actions);
}

/// While a burst is drained nothing is rendered and nothing is sent.
proof fn lemma_burst_is_quiet(start: PublisherView, counts: Seq<nat>)
    requires
        start.phase == WatchPhase::Waiting,
        forall|i: int| 0 <= i < counts.len() ==> counts[i] > 0,
    ensures
        ({
            let (end, actions) = run(start, burst(counts));
            &&& end == start.at(WatchPhase::Draining)
            &&& renderings(actions) == 0
            &&& published(actions).len() == 0
        }),
    decreases counts.len(),
{
    let nothing = Seq::<WatchEventView>::empty();
    if counts.len() == 0 {
        assert(burst(counts) =~= nothing.push(WatchEventView::Woken));
        assert(run(start, nothing) == (start, Seq::<WatchActionView>::empty()));
        lemma_run_push(start, nothing, WatchEventView::Woken);
        lemma_actions_push(Seq::empty(), start.advance(WatchEventView::Woken).1);
    } else {
        let earlier = burst(counts.drop_last());
        let event = WatchEventView::Drained { count: counts.last() };
        lemma_burst_is_quiet(start, counts.drop_last());
        assert(counts.last() == counts[counts.len() - 1]);
        lemma_run_push(start, earlier, event);
        let (before, done) = run(start, earlier);
        lemma_actions_push(done, before.advance(event).1);
    }
}

/// What ends the draining of a burst: a read that would block, or one that
/// returns no notification.
pub open spec fn ends_burst(event: WatchEventView) -> bool {
    event is WouldBlock || event == (WatchEventView::Drained { count: 0 })
}

/// A burst of notifications within one debounce window leads to one
/// rendering and at most one message. The window is the wake-up, any number
/// of reads that each return further notifications, and the read that finds
/// none left, whether it would block or returns nothing; the file is then
/// read back once, and its content is sent once if it differs from what was
/// sent last, and not at all if it does not.
pub proof fn lemma_burst_sends_at_most_one(
    start: PublisherView,
    counts: Seq<nat>,
    last: WatchEventView,
    text: Seq<char>,
)
    requires
        start.phase == WatchPhase::Waiting,
        forall|i: int| 0 <= i < counts.len() ==> counts[i] > 0,
        ends_burst(last),
    ensures
        ({
            let window = burst(counts).push(last).push(WatchEventView::Rendered(text));
            let (end, actions) = run(start, window);
            let sent = published(actions);
            let rich = rich_of(start.content_type, text);
            &&& renderings(actions) == 1
            &&& sent.len() <= 1
            &&& start.last_sent == Some(rich) ==> sent.len() == 0
            &&& start.last_sent != Some(rich) ==> sent == seq![rich]
            &&& end.phase == WatchPhase::Waiting
            &&& end.last_sent == Some(rich)
        }),
{
    let drained = burst(counts);
    let quiet = drained.push(last);
    lemma_burst_is_quiet(start, counts);
    let (s1, a1) = run(start, drained);
    lemma_run_push(start, drained, last);
    let (s2, act2) = s1.advance(last);
    lemma_actions_push(a1, act2);
    let a2 = a1.push(act2);
    lemma_run_push(start, quiet, WatchEventView::Rendered(text));
    let (s3, act3) = s2.advance(WatchEventView::Rendered(text));
    lemma_actions_push(a2, act3);
    let rich = rich_of(start.content_type, text);
    if start.last_sent != Some(rich) {
        assert(published(a2.push(act3)) =~= seq![rich]);
    }
}

} // verus!
