//! The session coordinator: one editing session per process, from the first
//! read of the controller's channel to the end of the process.
//!
//! The coordinator is a state machine. The program around it performs each
//! action and reports what happened as the next event; whichever trigger is
//! reported first decides how the session ends, and what arrives later is
//! disregarded.

use crate::content::{rich_to_plain, seed_of, ContentType, Seed, SeedView};
use crate::editor::EditorHandle;
use crate::message::{read_again, ClientMessage, ClientMessageView, Inbound, InboundView};
use vstd::prelude::*;

verus! {

/// The five phases of a session.
#[derive(Clone, Copy, Debug, PartialEq, Eq, Structural)]
pub enum Phase {
    Idle,
    AwaitingBegin,
    Active,
    Terminating,
    Exited,
}

/// How the session ended: whether the event that ended it was itself an
/// error, and of which kind.
#[derive(Clone, Copy, Debug, PartialEq, Eq, Structural)]
pub enum Outcome {
    /// A normal shutdown: the controller closed its channel, or the editor
    /// was closed.
    Clean,
    /// The controller broke the protocol: a malformed frame or message, or a
    /// second begin.
    ProtocolError,
    /// An input or output operation failed.
    IoError,
}

/// The state of the session. Content type and editor are recorded once and
/// kept to the end.
#[derive(Clone, Copy, Debug, PartialEq, Eq)]
pub enum Session {
    /// The process has started and reads nothing yet.
    Idle,
    /// The controller's channel is being read; no begin has arrived.
    AwaitingBegin,
    /// A begin was accepted. `editor` is `None` while the editor is being
    /// launched and holds its identity from then on.
    Active { content_type: ContentType, editor: Option<EditorHandle> },
    /// The session is ending and the cleanup is under way.
    Terminating { content_type: Option<ContentType>, editor: Option<EditorHandle>, outcome: Outcome },
    /// The cleanup is done; the process ends.
    Exited { content_type: Option<ContentType>, editor: Option<EditorHandle>, outcome: Outcome },
}

/// What the program around the coordinator reports to it.
#[derive(Clone, Debug, PartialEq, Eq)]
pub enum SessionEvent {
    /// The process has started.
    Started,
    /// A read from the controller's channel has ended.
    Received(Inbound),
    /// The editor runs, and this is its identity.
    EditorLaunched(EditorHandle),
    /// The terminal that hosts the editor has exited.
    EditorExited,
    /// An input or output operation failed: on the channel, while seeding the
    /// file or launching the editor, or in a worker.
    IoFailed,
    /// The cleanup that was asked for has run.
    CleanedUp,
}

/// The mathematical content of a [`SessionEvent`].
pub enum SessionEventView {
    Started,
    Received(InboundView),
    EditorLaunched(EditorHandle),
    EditorExited,
    IoFailed,
    CleanedUp,
}

impl View for SessionEvent {
    type V = SessionEventView;

    open spec fn view(&self) -> SessionEventView {
        match self {
            SessionEvent::Started => SessionEventView::Started,
            SessionEvent::Received(inbound) => SessionEventView::Received(inbound@),
            SessionEvent::EditorLaunched(handle) => SessionEventView::EditorLaunched(*handle),
            SessionEvent::EditorExited => SessionEventView::EditorExited,
            SessionEvent::IoFailed => SessionEventView::IoFailed,
            SessionEvent::CleanedUp => SessionEventView::CleanedUp,
        }
    }
}

/// What the coordinator asks the program around it to do.
#[derive(Clone, Debug, PartialEq, Eq)]
pub enum SessionAction {
    /// Start reading the controller's channel.
    Listen,
    /// Seed the working file, start the editor and wait until its identity is
    /// known; report `EditorLaunched` or `IoFailed` before any other event. A
    /// launch that is reported after the session has started to end is
    /// disregarded, and its editor is named in no cleanup.
    Launch { content_type: ContentType, seed: Seed },
    /// Start the two workers: one waits for the terminal to exit, one
    /// publishes the updates.
    StartWorkers { content_type: ContentType },
    /// Nothing to do but wait for the next event.
    Wait,
    /// Send the editor, if there is one, a termination signal; a signal that
    /// cannot be delivered is logged and nothing more. Then report `CleanedUp`.
    Cleanup { editor: Option<EditorHandle> },
    /// Write the disconnect sentinel and end the process with this status.
    Exit { code: i32 },
}

/// The mathematical content of a [`SessionAction`].
pub enum SessionActionView {
    Listen,
    Launch { content_type: ContentType, seed: SeedView },
    StartWorkers { content_type: ContentType },
    Wait,
    Cleanup { editor: Option<EditorHandle> },
    Exit { code: i32 },
}

impl View for SessionAction {
    type V = SessionActionView;

    open spec fn view(&self) -> SessionActionView {
        match self {
            SessionAction::Listen => SessionActionView::Listen,
            SessionAction::Launch { content_type, seed } => SessionActionView::Launch {
                content_type: *content_type,
                seed: seed@,
            },
            SessionAction::StartWorkers { content_type } => SessionActionView::StartWorkers {
                content_type: *content_type,
            },
            SessionAction::Wait => SessionActionView::Wait,
            SessionAction::Cleanup { editor } => SessionActionView::Cleanup { editor: *editor },
            SessionAction::Exit { code } => SessionActionView::Exit { code: *code },
        }
    }
}

/// A clean end of the stream and the disconnect sentinel ask for a normal
/// shutdown. Anything else that is read while no begin is awaited is a
/// protocol error: a message (a second begin), a frame cut short, a body that
/// is no message.
pub open spec fn outcome_of(inbound: InboundView) -> Outcome {
    match inbound {
        InboundView::EndOfStream => Outcome::Clean,
        InboundView::Disconnect => Outcome::Clean,
        InboundView::Message(_) => Outcome::ProtocolError,
        InboundView::Truncated => Outcome::ProtocolError,
        InboundView::Malformed(_) => Outcome::ProtocolError,
    }
}

/// The process status for an outcome: zero for a normal shutdown, one for
/// every error.
pub open spec fn exit_code(outcome: Outcome) -> i32 {
    match outcome {
        Outcome::Clean => 0i32,
        Outcome::ProtocolError => 1i32,
        Outcome::IoError => 1i32,
    }
}

impl Session {
    /// The phase of a state.
    pub open spec fn spec_phase(&self) -> Phase {
        match *self {
            Session::Idle => Phase::Idle,
            Session::AwaitingBegin => Phase::AwaitingBegin,
            Session::Active { .. } => Phase::Active,
            Session::Terminating { .. } => Phase::Terminating,
            Session::Exited { .. } => Phase::Exited,
        }
    }

    /// The content type that the session was begun with, if it was begun.
    pub open spec fn spec_content_type(&self) -> Option<ContentType> {
        match *self {
            Session::Idle => None,
            Session::AwaitingBegin => None,
            Session::Active { content_type, .. } => Some(content_type),
            Session::Terminating { content_type, .. } => content_type,
            Session::Exited { content_type, .. } => content_type,
        }
    }

    /// The editor that the session has launched, if it has.
    pub open spec fn spec_editor(&self) -> Option<EditorHandle> {
        match *self {
            Session::Idle => None,
            Session::AwaitingBegin => None,
            Session::Active { editor, .. } => editor,
            Session::Terminating { editor, .. } => editor,
            Session::Exited { editor, .. } => editor,
        }
    }

    /// How the session ended, once it is ending.
    pub open spec fn spec_outcome(&self) -> Option<Outcome> {
        match *self {
            Session::Terminating { outcome, .. } => Some(outcome),
            Session::Exited { outcome, .. } => Some(outcome),
            _ => None,
        }
    }

    /// The state in which this session starts to end, and the cleanup that
    /// goes with it: what the session has recorded stays as it is.
    pub open spec fn shut_down(self, outcome: Outcome) -> (Session, SessionActionView) {
        (
            Session::Terminating {
                content_type: self.spec_content_type(),
                editor: self.spec_editor(),
                outcome,
            },
            SessionActionView::Cleanup { editor: self.spec_editor() },
        )
    }

    /// The transition function: the state after `event`, and the action asked for.
    pub open spec fn next(self, event: SessionEventView) -> (Session, SessionActionView) {
        match self {
            Session::Idle => match event {
                SessionEventView::Started => (Session::AwaitingBegin, SessionActionView::Listen),
                SessionEventView::Received(InboundView::Message(_)) => self.shut_down(
                    Outcome::ProtocolError,
                ),
                _ => (self, SessionActionView::Wait),
            },
            Session::AwaitingBegin => match event {
                SessionEventView::Received(
                    InboundView::Message(ClientMessageView::Begin { initial_content, content_type }),
                ) => (
                    Session::Active { content_type, editor: None },
                    SessionActionView::Launch {
                        content_type,
                        seed: seed_of(content_type, initial_content),
                    },
                ),
                SessionEventView::Received(inbound) => self.shut_down(outcome_of(inbound)),
                SessionEventView::IoFailed => self.shut_down(Outcome::IoError),
                _ => (self, SessionActionView::Wait),
            },
            Session::Active { content_type, editor } => match event {
                SessionEventView::Received(inbound) => self.shut_down(outcome_of(inbound)),
                SessionEventView::EditorLaunched(handle) => if editor is None {
                    (
                        Session::Active { content_type, editor: Some(handle) },
                        SessionActionView::StartWorkers { content_type },
                    )
                } else {
                    (self, SessionActionView::Wait)
                },
                SessionEventView::EditorExited => self.shut_down(Outcome::Clean),
                SessionEventView::IoFailed => self.shut_down(Outcome::IoError),
                _ => (self, SessionActionView::Wait),
            },
            Session::Terminating { content_type, editor, outcome } => match event {
                SessionEventView::CleanedUp => (
                    Session::Exited { content_type, editor, outcome },
                    SessionActionView::Exit { code: exit_code(outcome) },
                ),
                _ => (self, SessionActionView::Wait),
            },
            Session::Exited { .. } => (self, SessionActionView::Wait),
        }
    }

    /// A session that has not started.
    pub fn new() -> (session: Session)
        ensures
            session == Session::Idle,
    {
        Session::Idle
    }

    /// The phase the session is in.
    #[verifier::when_used_as_spec(spec_phase)]
    pub fn phase(&self) -> (phase: Phase)
        ensures
            phase == self.spec_phase(),
    {
        match self {
            Session::Idle => Phase::Idle,
            Session::AwaitingBegin => Phase::AwaitingBegin,
            Session::Active { .. } => Phase::Active,
            Session::Terminating { .. } => Phase::Terminating,
            Session::Exited { .. } => Phase::Exited,
        }
    }

    /// The content type that the session was begun with, if it was begun.
    #[verifier::when_used_as_spec(spec_content_type)]
    pub fn content_type(&self) -> (content_type: Option<ContentType>)
        ensures
            content_type == self.spec_content_type(),
    {
        match self {
            Session::Idle => None,
            Session::AwaitingBegin => None,
            Session::Active { content_type, .. } => Some(*content_type),
            Session::Terminating { content_type, .. } => *content_type,
            Session::Exited { content_type, .. } => *content_type,
        }
    }

    /// The editor that the session has launched, if it has.
    #[verifier::when_used_as_spec(spec_editor)]
    pub fn editor(&self) -> (editor: Option<EditorHandle>)
        ensures
            editor == self.spec_editor(),
    {
        match self {
            Session::Idle => None,
            Session::AwaitingBegin => None,
            Session::Active { editor, .. } => *editor,
            Session::Terminating { editor, .. } => *editor,
            Session::Exited { editor, .. } => *editor,
        }
    }

    /// How the session ended, once it is ending.
    #[verifier::when_used_as_spec(spec_outcome)]
    pub fn outcome(&self) -> (outcome: Option<Outcome>)
        ensures
            outcome == self.spec_outcome(),
    {
        match self {
            Session::Terminating { outcome, .. } => Some(*outcome),
            Session::Exited { outcome, .. } => Some(*outcome),
            _ => None,
        }
    }

    /// Starts the end of the session.
    fn begin_shutdown(&mut self, outcome: Outcome) -> (action: SessionAction)
        ensures
            (*final(self), action@) == old(self).shut_down(outcome),
    {
        let editor = self.editor();
        *self = Session::Terminating { content_type: self.content_type(), editor, outcome };
        SessionAction::Cleanup { editor }
    }

    /// Takes one event, moves to the next state and says what is to be done.
    pub fn step(&mut self, event: SessionEvent) -> (action: SessionAction)
        ensures
            (*final(self), action@) == old(self).next(event@),
    {
        let current = *self;
        match current {
            Session::Idle => match event {
                SessionEvent::Started => {
                    *self = Session::AwaitingBegin;
                    SessionAction::Listen
                },
                SessionEvent::Received(Inbound::Message(_)) => self.begin_shutdown(
                    Outcome::ProtocolError,
                ),
                _ => SessionAction::Wait,
            },
            Session::AwaitingBegin => match event {
                SessionEvent::Received(inbound) => match inbound {
                    Inbound::Message(ClientMessage::Begin { initial_content, content_type }) => {
                        *self = Session::Active { content_type, editor: None };
                        SessionAction::Launch {
                            content_type,
                            seed: rich_to_plain(content_type, initial_content),
                        }
                    },
                    other => {
                        let outcome = outcome_for(&other);
                        self.begin_shutdown(outcome)
                    },
                },
                SessionEvent::IoFailed => self.begin_shutdown(Outcome::IoError),
                _ => SessionAction::Wait,
            },
            Session::Active { content_type, editor } => match event {
                SessionEvent::Received(inbound) => {
                    let outcome = outcome_for(&inbound);
                    self.begin_shutdown(outcome)
                },
                SessionEvent::EditorLaunched(handle) => match editor {
                    None => {
                        *self = Session::Active { content_type, editor: Some(handle) };
                        SessionAction::StartWorkers { content_type }
                    },
                    Some(_) => SessionAction::Wait,
                },
                SessionEvent::EditorExited => self.begin_shutdown(Outcome::Clean),
                SessionEvent::IoFailed => self.begin_shutdown(Outcome::IoError),
                _ => SessionAction::Wait,
            },
            Session::Terminating { content_type, editor, outcome } => match event {
                SessionEvent::CleanedUp => {
                    *self = Session::Exited { content_type, editor, outcome };
                    SessionAction::Exit { code: status_code(outcome) }
                },
                _ => SessionAction::Wait,
            },
            Session::Exited { .. } => SessionAction::Wait,
        }
    }
}

/// How the session ends when this is read while no begin is awaited.
pub fn outcome_for(inbound: &Inbound) -> (outcome: Outcome)
    ensures
        outcome == outcome_of(inbound@),
{
    match inbound {
        Inbound::EndOfStream => Outcome::Clean,
        Inbound::Disconnect => Outcome::Clean,
        _ => Outcome::ProtocolError,
    }
}

/// The process status for an outcome: zero for a normal shutdown, one for an
/// error.
pub fn status_code(outcome: Outcome) -> (code: i32)
    ensures
        code == exit_code(outcome),
{
    match outcome {
        Outcome::Clean => 0,
        Outcome::ProtocolError => 1,
        Outcome::IoError => 1,
    }
}

/// The state that a sequence of events leads to, and the actions asked for on
/// the way, one for each event.
pub open spec fn run(start: Session, events: Seq<SessionEventView>) -> (
    Session,
    Seq<SessionActionView>,
)
    decreases events.len(),
{
    if events.len() == 0 {
        (start, Seq::empty())
    } else {
        let (before, actions) = run(start, events.drop_last());
        let (after, action) = before.next(events.last());
        (after, actions.push(action))
    }
}

/// How many times the actions ask for a launch.
pub open spec fn launches(actions: Seq<SessionActionView>) -> nat
    decreases actions.len(),
{
    if actions.len() == 0 {
        0
    } else {
        launches(actions.drop_last()) + if actions.last() is Launch {
            1nat
        } else {
            0nat
        }
    }
}

/// How many times the actions ask for the cleanup.
pub open spec fn cleanups(actions: Seq<SessionActionView>) -> nat
    decreases actions.len(),
{
    if actions.len() == 0 {
        0
    } else {
        cleanups(actions.drop_last()) + if actions.last() is Cleanup {
            1nat
        } else {
            0nat
        }
    }
}

/// How many times the actions end the process.
pub open spec fn exits(actions: Seq<SessionActionView>) -> nat
    decreases actions.len(),
{
    if actions.len() == 0 {
        0
    } else {
        exits(actions.drop_last()) + if actions.last() is Exit {
            1nat
        } else {
            0nat
        }
    }
}

/// How many times the actions ask for the workers to be started.
pub open spec fn worker_starts(actions: Seq<SessionActionView>) -> nat
    decreases actions.len(),
{
    if actions.len() == 0 {
        0
    } else {
        worker_starts(actions.drop_last()) + if actions.last() is StartWorkers {
            1nat
        } else {
            0nat
        }
    }
}

/// What holds of every state that a new session can reach, and of the
/// actions that led to it.
spec fn reachable(
    events: Seq<SessionEventView>,
    end: Session,
    actions: Seq<SessionActionView>,
) -> bool {
    let ending = end is Terminating || end is Exited;
    &&& actions.len() == events.len()
    &&& launches(actions) <= 1
    &&& (end is Idle || end is AwaitingBegin) ==> launches(actions) == 0
    &&& cleanups(actions) == if ending { 1nat } else { 0nat }
    &&& forall|i: int| 0 <= i < actions.len() && #[trigger] actions[i] is Cleanup ==> ending
    &&& forall|i: int|
        0 <= i < actions.len() && #[trigger] actions[i] is Cleanup ==> actions[i]
            == SessionActionView::Cleanup { editor: end.spec_editor() }
    &&& forall|i: int|
        0 <= i < actions.len() && #[trigger] actions[i] is StartWorkers ==> {
            &&& end.spec_editor() matches Some(handle)
            &&& events[i] == SessionEventView::EditorLaunched(handle)
        }
    &&& worker_starts(actions) == if end.spec_editor() is Some { 1nat } else { 0nat }
    &&& exits(actions) == if end is Exited { 1nat } else { 0nat }
    &&& forall|i: int| 0 <= i < actions.len() && #[trigger] actions[i] is Exit ==> end is Exited
    &&& forall|i: int, j: int|
        0 <= i < j < actions.len() && #[trigger] actions[i] is Exit ==> #[trigger] actions[j]
            == SessionActionView::Wait
}

proof fn lemma_reachable(events: Seq<SessionEventView>)
    ensures
        reachable(events, run(Session::Idle, events).0, run(Session::Idle, events).1),
    decreases events.len(),
{
    if events.len() > 0 {
        let earlier = events.drop_last();
        lemma_reachable(earlier);
        let (before, done) = run(Session::Idle, earlier);
        let (after, action) = before.next(events.last());
        let actions = done.push(action);
        assert(actions.drop_last() =~= done);
        assert(actions.last() == action);
        assert forall|i: int| 0 <= i < actions.len() && #[trigger] actions[i] is Cleanup implies {
            &&& after is Terminating || after is Exited
            &&& actions[i] == SessionActionView::Cleanup { editor: after.spec_editor() }
        } by {
            if i < done.len() {
                assert(done[i] == actions[i]);
            }
        }
        assert forall|i: int|
            0 <= i < actions.len() && #[trigger] actions[i] is StartWorkers implies {
                &&& after.spec_editor() matches Some(handle)
                &&& events[i] == SessionEventView::EditorLaunched(handle)
            } by {
            if i < done.len() {
                assert(done[i] == actions[i]);
                assert(earlier[i] == events[i]);
            }
        }
        assert forall|i: int|
            0 <= i < actions.len() && #[trigger] actions[i] is Exit implies after is Exited by {
            if i < done.len() {
                assert(done[i] == actions[i]);
            }
        }
        assert forall|i: int, j: int|
            0 <= i < j < actions.len() && #[trigger] actions[i] is Exit implies #[trigger] actions[j]
                == SessionActionView::Wait by {
            assert(done[i] == actions[i]);
            if j < done.len() {
                assert(done[j] == actions[j]);
            }
        }
    }
}

/// Only one begin is ever accepted: whatever is reported to a new session, and
/// in whatever order, it asks for a launch at most once.
pub proof fn lemma_begin_accepted_once(events: Seq<SessionEventView>)
    ensures
        launches(run(Session::Idle, events).1) <= 1,
{
    lemma_reachable(events);
}

/// A begin that arrives when none is awaited is never accepted. It launches
/// nothing and leaves the recorded content type and editor as they were; a
/// session that has not started to end is forced to end with a protocol
/// error, and its cleanup names the editor that was recorded.
pub proof fn lemma_second_begin_forces_shutdown(session: Session, message: ClientMessageView)
    requires
        !(session is AwaitingBegin),
    ensures
        ({
            let (after, action) = session.next(
                SessionEventView::Received(InboundView::Message(message)),
            );
            &&& !(action is Launch)
            &&& after.spec_content_type() == session.spec_content_type()
            &&& after.spec_editor() == session.spec_editor()
            &&& session is Idle || session is Active ==> {
                &&& after is Terminating
                &&& after.spec_outcome() == Some(Outcome::ProtocolError)
                &&& action == SessionActionView::Cleanup { editor: session.spec_editor() }
            }
            &&& session is Terminating || session is Exited ==> after == session
        }),
{
}

/// The editor is signalled exactly once when a session exits, whichever
/// trigger ended it. Of every run of a new session: the cleanup is asked for
/// at most once, and exactly once when the session is ending or has exited;
/// it names the editor that the session has recorded; and an editor whose
/// launch made the workers start is the editor recorded from then on.
pub proof fn lemma_editor_terminated_once(events: Seq<SessionEventView>)
    ensures
        ({
            let (end, actions) = run(Session::Idle, events);
            &&& actions.len() == events.len()
            &&& cleanups(actions) <= 1
            &&& (end is Terminating || end is Exited) <==> cleanups(actions) == 1
            &&& forall|i: int|
                0 <= i < actions.len() && #[trigger] actions[i] is Cleanup ==> actions[i]
                    == SessionActionView::Cleanup { editor: end.spec_editor() }
            &&& forall|i: int|
                0 <= i < actions.len() && #[trigger] actions[i] is StartWorkers ==> {
                    &&& end.spec_editor() matches Some(handle)
                    &&& events[i] == SessionEventView::EditorLaunched(handle)
                }
        }),
{
    lemma_reachable(events);
}

/// The process is ended once, and nothing is asked for after that: of every
/// run of a new session, the actions hold `Exit` exactly once if the session
/// has exited and not at all if it has not, and every action after it is `Wait`.
pub proof fn lemma_exit_is_last(events: Seq<SessionEventView>)
    ensures
        ({
            let (end, actions) = run(Session::Idle, events);
            &&& exits(actions) == if end is Exited { 1nat } else { 0nat }
            &&& forall|i: int, j: int|
                0 <= i < j < actions.len() && #[trigger] actions[i] is Exit ==> #[trigger] actions[j]
                    == SessionActionView::Wait
        }),
{
    lemma_reachable(events);
}

/// The two workers are started at most once: of every run of a new session,
/// the actions hold `StartWorkers` once if the session has recorded an
/// editor, and not at all if it has not.
pub proof fn lemma_workers_started_once(events: Seq<SessionEventView>)
    ensures
        ({
            let (end, actions) = run(Session::Idle, events);
            worker_starts(actions) == if end.spec_editor() is Some { 1nat } else { 0nat }
        }),
{
    lemma_reachable(events);
}

/// The actions of the beginning of a run are the beginning of its actions.
proof fn lemma_run_prefix(events: Seq<SessionEventView>, k: int)
    requires
        0 <= k <= events.len(),
    ensures
        run(Session::Idle, events).1.len() == events.len(),
        run(Session::Idle, events.take(k)).1 == run(Session::Idle, events).1.take(k),
    decreases events.len(),
{
    lemma_reachable(events);
    if k == events.len() {
        assert(events.take(k) =~= events);
        assert(run(Session::Idle, events).1.take(k) =~= run(Session::Idle, events).1);
    } else {
        let earlier = events.drop_last();
        lemma_run_prefix(earlier, k);
        assert(earlier.take(k) =~= events.take(k));
        assert(run(Session::Idle, events).1.take(k) =~= run(Session::Idle, earlier).1.take(k));
    }
}

/// The cleanup under the discipline that `Launch` asks of the program around
/// the session: the launch is reported before any other event. Where the
/// event after a `Launch` reports the editor, the workers are started, that
/// editor is the one recorded to the end, and every cleanup names it, so
/// that it is signalled exactly once when the session ends. Where it reports
/// a failure, no editor is recorded and the cleanup names none.
pub proof fn lemma_reported_launch_is_cleaned_up(events: Seq<SessionEventView>, i: int)
    requires
        0 <= i,
        i + 1 < events.len(),
        run(Session::Idle, events).1[i] is Launch,
        events[i + 1] is EditorLaunched || events[i + 1] is IoFailed,
    ensures
        ({
            let (end, actions) = run(Session::Idle, events);
            &&& (end is Terminating || end is Exited) ==> cleanups(actions) == 1
            &&& forall|j: int|
                0 <= j < actions.len() && #[trigger] actions[j] is Cleanup ==> actions[j]
                    == SessionActionView::Cleanup { editor: end.spec_editor() }
            &&& events[i + 1] matches SessionEventView::EditorLaunched(handle) ==> {
                &&& actions[i + 1] is StartWorkers
                &&& end.spec_editor() == Some(handle)
            }
            &&& events[i + 1] is IoFailed ==> {
                &&& actions[i + 1] == SessionActionView::Cleanup { editor: None }
                &&& end.spec_editor() is None
            }
        }),
{
    lemma_reachable(events);
    lemma_run_prefix(events, i + 1);
    lemma_run_prefix(events, i + 2);
    let actions = run(Session::Idle, events).1;
    let asked = events.take(i + 1);
    let told = events.take(i + 2);
    assert(told.drop_last() =~= asked);
    assert(told.last() == events[i + 1]);
    assert(asked.last() == events[i]);
    let (before, _) = run(Session::Idle, asked.drop_last());
    let (launching, launch) = before.next(asked.last());
    assert(run(Session::Idle, asked).1.last() == launch);
    assert(actions.take(i + 1).last() == actions[i]);
    assert(launching == run(Session::Idle, asked).0);
    assert(launching is Active && launching.spec_editor() is None);
    let (_, answer) = launching.next(events[i + 1]);
    assert(run(Session::Idle, told).1.last() == answer);
    assert(actions.take(i + 2).last() == actions[i + 1]);
}

/// The channel is read again exactly where what was read does not end the
/// session: after the first begin, and after nothing else. In particular no
/// frame is read after a second begin.
pub proof fn lemma_reading_stops_where_the_session_ends(session: Session, inbound: InboundView)
    requires
        session is AwaitingBegin || session is Active,
    ensures
        read_again(session is Active, inbound) <==> !(session.next(
            SessionEventView::Received(inbound),
        ).0 is Terminating),
        read_again(session is Active, inbound) ==> session.next(
            SessionEventView::Received(inbound),
        ).1 is Launch,
{
}

/// Every trigger ends an active session: the end of the controller's stream,
/// the exit of the editor, a failed operation and a protocol error each move
/// it to `Terminating` and ask for the cleanup of the recorded editor, and
/// the cleanup's report then ends the process with the outcome's status.
pub proof fn lemma_every_trigger_cleans_up(session: Session, event: SessionEventView)
    requires
        session is Active,
        event is Received || event is EditorExited || event is IoFailed,
    ensures
        ({
            let (ending, cleanup) = session.next(event);
            let (exited, exit) = ending.next(SessionEventView::CleanedUp);
            &&& ending is Terminating
            &&& cleanup == SessionActionView::Cleanup { editor: session.spec_editor() }
            &&& exited is Exited
            &&& exit == SessionActionView::Exit { code: exit_code(ending.spec_outcome().unwrap()) }
            &&& ending.spec_outcome() == Some(Outcome::Clean) <==> {
                ||| event is EditorExited
                ||| event == SessionEventView::Received(InboundView::EndOfStream)
                ||| event == SessionEventView::Received(InboundView::Disconnect)
            }
        }),
{
}

} // verus!
