use native_host::content::{ContentType, Seed};
use native_host::editor::EditorHandle;
use native_host::frame::{disconnect, encode_frame, Endianness};
use native_host::message::{
    read_message, reading_goes_on, ClientMessage, DecodeError, Inbound,
};
use native_host::session::{
    outcome_for, status_code, Outcome, Phase, Session, SessionAction, SessionEvent,
};

fn begin_message(initial_content: &str, content_type: ContentType) -> SessionEvent {
    SessionEvent::Received(Inbound::Message(ClientMessage::Begin {
        initial_content: initial_content.to_string(),
        content_type,
    }))
}

fn editor() -> EditorHandle {
    EditorHandle { pid: 4711 }
}

fn feed(session: &mut Session, events: Vec<SessionEvent>) -> Vec<SessionAction> {
    events.into_iter().map(|event| session.step(event)).collect()
}

fn active_session(content_type: ContentType) -> Session {
    let mut session = Session::new();
    let actions = feed(
        &mut session,
        vec![
            SessionEvent::Started,
            begin_message("hello", content_type),
            SessionEvent::EditorLaunched(editor()),
        ],
    );
    assert_eq!(actions[2], SessionAction::StartWorkers { content_type });
    session
}

fn every_event() -> Vec<SessionEvent> {
    vec![
        SessionEvent::Started,
        begin_message("x", ContentType::Plain),
        SessionEvent::Received(Inbound::EndOfStream),
        SessionEvent::Received(Inbound::Disconnect),
        SessionEvent::Received(Inbound::Truncated),
        SessionEvent::Received(Inbound::Malformed(DecodeError::Malformed)),
        SessionEvent::EditorLaunched(EditorHandle { pid: 1 }),
        SessionEvent::EditorExited,
        SessionEvent::IoFailed,
        SessionEvent::CleanedUp,
    ]
}

fn count_cleanups(actions: &[SessionAction]) -> usize {
    actions.iter().filter(|a| matches!(a, SessionAction::Cleanup { .. })).count()
}

#[test]
fn new_session_is_idle_and_starts_by_listening() {
    let mut session = Session::new();
    assert_eq!(session, Session::Idle);
    assert_eq!(session.phase(), Phase::Idle);
    assert_eq!(session.step(SessionEvent::Started), SessionAction::Listen);
    assert_eq!(session.phase(), Phase::AwaitingBegin);
    assert_eq!(session.content_type(), None);
    assert_eq!(session.editor(), None);
    assert_eq!(session.outcome(), None);
}

#[test]
fn begin_with_plain_content_launches_the_editor_on_it() {
    let mut session = Session::new();
    session.step(SessionEvent::Started);
    assert_eq!(
        session.step(begin_message("hello", ContentType::Plain)),
        SessionAction::Launch {
            content_type: ContentType::Plain,
            seed: Seed::Write { content: "hello".to_string() },
        }
    );
    assert_eq!(session, Session::Active { content_type: ContentType::Plain, editor: None });
    assert_eq!(
        session.step(SessionEvent::EditorLaunched(editor())),
        SessionAction::StartWorkers { content_type: ContentType::Plain }
    );
    assert_eq!(session.phase(), Phase::Active);
    assert_eq!(session.editor(), Some(editor()));
    assert_eq!(session.content_type(), Some(ContentType::Plain));
}

#[test]
fn begin_with_markup_seeds_the_file_without_the_script() {
    let mut session = Session::new();
    session.step(SessionEvent::Started);
    let action = session.step(begin_message("<p>hi</p><script>evil()</script>", ContentType::Html));
    assert_eq!(
        action,
        SessionAction::Launch {
            content_type: ContentType::Html,
            seed: Seed::Convert { markup: "<p>hi</p>".to_string() },
        }
    );
}

#[test]
fn end_of_stream_after_begin_terminates_the_editor_and_exits_cleanly() {
    let order = Endianness::Little;
    let body = br#"{"kind":"begin","initialContent":"hello","contentType":"plain"}"#;
    let frame = encode_frame(order, body).unwrap();
    let mut session = Session::new();
    session.step(SessionEvent::Started);
    session.step(SessionEvent::Received(read_message(order, &frame)));
    session.step(SessionEvent::EditorLaunched(editor()));
    let action = session.step(SessionEvent::Received(read_message(order, &[])));
    assert_eq!(action, SessionAction::Cleanup { editor: Some(editor()) });
    assert_eq!(session.phase(), Phase::Terminating);
    assert_eq!(session.step(SessionEvent::CleanedUp), SessionAction::Exit { code: 0 });
    assert_eq!(session.phase(), Phase::Exited);
    assert_eq!(session.outcome(), Some(Outcome::Clean));
    assert_eq!(disconnect(order), vec![0, 0, 0, 0]);
}

#[test]
fn second_begin_shuts_the_session_down() {
    let mut session = active_session(ContentType::Html);
    let before = session;
    let action = session.step(begin_message("again", ContentType::Plain));
    assert_eq!(action, SessionAction::Cleanup { editor: Some(editor()) });
    assert_eq!(
        session,
        Session::Terminating {
            content_type: Some(ContentType::Html),
            editor: Some(editor()),
            outcome: Outcome::ProtocolError,
        }
    );
    assert_eq!(session.content_type(), before.content_type());
    assert_eq!(session.editor(), before.editor());
    assert_eq!(session.step(SessionEvent::CleanedUp), SessionAction::Exit { code: 1 });
    assert_eq!(session.phase(), Phase::Exited);
}

#[test]
fn second_begin_during_the_launch_shuts_down_too() {
    let mut session = Session::new();
    session.step(SessionEvent::Started);
    session.step(begin_message("one", ContentType::Plain));
    let action = session.step(begin_message("two", ContentType::Html));
    assert_eq!(action, SessionAction::Cleanup { editor: None });
    assert_eq!(session.content_type(), Some(ContentType::Plain));
    assert_eq!(session.outcome(), Some(Outcome::ProtocolError));
}

#[test]
fn begin_is_accepted_once_whatever_follows() {
    let mut session = Session::new();
    let mut events = vec![SessionEvent::Started];
    for _ in 0..4 {
        events.push(begin_message("x", ContentType::Plain));
        events.push(SessionEvent::EditorLaunched(editor()));
        events.push(SessionEvent::CleanedUp);
        events.push(SessionEvent::Started);
    }
    let actions = feed(&mut session, events);
    let launches = actions.iter().filter(|a| matches!(a, SessionAction::Launch { .. })).count();
    assert_eq!(launches, 1);
    assert_eq!(session.phase(), Phase::Exited);
}

#[test]
fn begin_before_the_start_is_a_protocol_error() {
    let mut session = Session::new();
    assert_eq!(
        session.step(begin_message("x", ContentType::Plain)),
        SessionAction::Cleanup { editor: None }
    );
    assert_eq!(
        session,
        Session::Terminating { content_type: None, editor: None, outcome: Outcome::ProtocolError }
    );
}

#[test]
fn every_trigger_terminates_the_editor_once() {
    let triggers = vec![
        (SessionEvent::EditorExited, Outcome::Clean, 0),
        (SessionEvent::Received(Inbound::EndOfStream), Outcome::Clean, 0),
        (SessionEvent::Received(Inbound::Disconnect), Outcome::Clean, 0),
        (SessionEvent::IoFailed, Outcome::IoError, 1),
        (SessionEvent::Received(Inbound::Truncated), Outcome::ProtocolError, 1),
        (
            SessionEvent::Received(Inbound::Malformed(DecodeError::UnknownKind)),
            Outcome::ProtocolError,
            1,
        ),
        (begin_message("again", ContentType::Plain), Outcome::ProtocolError, 1),
    ];
    for (trigger, outcome, code) in triggers {
        let mut session = active_session(ContentType::Plain);
        let mut actions = vec![session.step(trigger)];
        assert_eq!(actions[0], SessionAction::Cleanup { editor: Some(editor()) });
        actions.extend(feed(&mut session, every_event()));
        actions.extend(feed(&mut session, every_event()));
        assert_eq!(count_cleanups(&actions), 1);
        assert_eq!(session.phase(), Phase::Exited);
        assert_eq!(session.editor(), Some(editor()));
        assert_eq!(session.outcome(), Some(outcome));
        let exits: Vec<&SessionAction> =
            actions.iter().filter(|a| matches!(a, SessionAction::Exit { .. })).collect();
        assert_eq!(exits, vec![&SessionAction::Exit { code }]);
    }
}

#[test]
fn first_trigger_decides_the_outcome() {
    let mut session = active_session(ContentType::Plain);
    let actions = feed(
        &mut session,
        vec![
            SessionEvent::EditorExited,
            SessionEvent::IoFailed,
            SessionEvent::Received(Inbound::Truncated),
            SessionEvent::CleanedUp,
            SessionEvent::IoFailed,
        ],
    );
    assert_eq!(
        actions,
        vec![
            SessionAction::Cleanup { editor: Some(editor()) },
            SessionAction::Wait,
            SessionAction::Wait,
            SessionAction::Exit { code: 0 },
            SessionAction::Wait,
        ]
    );
    let mut session = active_session(ContentType::Plain);
    let actions = feed(
        &mut session,
        vec![SessionEvent::IoFailed, SessionEvent::EditorExited, SessionEvent::CleanedUp],
    );
    assert_eq!(actions[2], SessionAction::Exit { code: 1 });
}

#[test]
fn session_without_an_editor_has_none_to_terminate() {
    let endings = vec![
        (SessionEvent::Received(Inbound::EndOfStream), 0),
        (SessionEvent::Received(Inbound::Disconnect), 0),
        (SessionEvent::Received(Inbound::Truncated), 1),
        (SessionEvent::Received(Inbound::Malformed(DecodeError::Malformed)), 1),
        (SessionEvent::IoFailed, 1),
    ];
    for (ending, code) in endings {
        let mut session = Session::new();
        session.step(SessionEvent::Started);
        assert_eq!(session.step(ending), SessionAction::Cleanup { editor: None });
        assert_eq!(session.step(SessionEvent::CleanedUp), SessionAction::Exit { code });
    }
}

#[test]
fn failed_launch_ends_the_session_with_an_error() {
    let mut session = Session::new();
    session.step(SessionEvent::Started);
    session.step(begin_message("x", ContentType::Html));
    assert_eq!(session.step(SessionEvent::IoFailed), SessionAction::Cleanup { editor: None });
    assert_eq!(session.step(SessionEvent::CleanedUp), SessionAction::Exit { code: 1 });
}

#[test]
fn events_out_of_turn_are_disregarded() {
    let mut session = Session::new();
    for event in every_event().into_iter().skip(2) {
        assert_eq!(session.step(event), SessionAction::Wait);
        assert_eq!(session, Session::Idle);
    }
    session.step(SessionEvent::Started);
    for event in [
        SessionEvent::Started,
        SessionEvent::EditorLaunched(editor()),
        SessionEvent::EditorExited,
        SessionEvent::CleanedUp,
    ] {
        assert_eq!(session.step(event), SessionAction::Wait);
        assert_eq!(session, Session::AwaitingBegin);
    }
    let mut session = active_session(ContentType::Plain);
    let before = session;
    for event in [
        SessionEvent::Started,
        SessionEvent::EditorLaunched(EditorHandle { pid: 1 }),
        SessionEvent::CleanedUp,
    ] {
        assert_eq!(session.step(event), SessionAction::Wait);
        assert_eq!(session, before);
    }
    session.step(SessionEvent::EditorExited);
    session.step(SessionEvent::CleanedUp);
    let exited = session;
    for event in every_event() {
        assert_eq!(session.step(event), SessionAction::Wait);
        assert_eq!(session, exited);
    }
}

#[test]
fn outcome_and_status_of_what_is_read() {
    assert_eq!(outcome_for(&Inbound::EndOfStream), Outcome::Clean);
    assert_eq!(outcome_for(&Inbound::Disconnect), Outcome::Clean);
    assert_eq!(outcome_for(&Inbound::Truncated), Outcome::ProtocolError);
    assert_eq!(
        outcome_for(&Inbound::Malformed(DecodeError::MissingKind)),
        Outcome::ProtocolError
    );
    assert_eq!(
        outcome_for(&Inbound::Message(ClientMessage::Begin {
            initial_content: String::new(),
            content_type: ContentType::Plain,
        })),
        Outcome::ProtocolError
    );
    assert_eq!(status_code(Outcome::Clean), 0);
    assert_eq!(status_code(Outcome::ProtocolError), 1);
    assert_eq!(status_code(Outcome::IoError), 1);
}

#[test]
fn workers_are_started_once() {
    let mut session = Session::new();
    let mut events = vec![SessionEvent::Started, begin_message("x", ContentType::Plain)];
    for pid in 1..5 {
        events.push(SessionEvent::EditorLaunched(EditorHandle { pid }));
    }
    events.push(SessionEvent::EditorExited);
    events.push(SessionEvent::EditorLaunched(EditorHandle { pid: 9 }));
    events.push(SessionEvent::CleanedUp);
    let actions = feed(&mut session, events);
    let starts =
        actions.iter().filter(|a| matches!(a, SessionAction::StartWorkers { .. })).count();
    assert_eq!(starts, 1);
    assert_eq!(session.editor(), Some(EditorHandle { pid: 1 }));
    assert_eq!(actions[6], SessionAction::Cleanup { editor: Some(EditorHandle { pid: 1 }) });
}

#[test]
fn launch_reported_after_the_end_has_begun_is_disregarded() {
    let mut session = Session::new();
    let actions = feed(
        &mut session,
        vec![
            SessionEvent::Started,
            begin_message("x", ContentType::Plain),
            SessionEvent::Received(Inbound::EndOfStream),
            SessionEvent::EditorLaunched(editor()),
        ],
    );
    assert_eq!(actions[2], SessionAction::Cleanup { editor: None });
    assert_eq!(actions[3], SessionAction::Wait);
    assert_eq!(session.editor(), None);
}

#[test]
fn launch_reported_first_is_the_editor_that_is_cleaned_up() {
    let endings = vec![
        SessionEvent::Received(Inbound::EndOfStream),
        SessionEvent::EditorExited,
        SessionEvent::IoFailed,
        begin_message("again", ContentType::Html),
    ];
    for ending in endings {
        let mut session = Session::new();
        let actions = feed(
            &mut session,
            vec![
                SessionEvent::Started,
                begin_message("x", ContentType::Plain),
                SessionEvent::EditorLaunched(editor()),
                ending,
                SessionEvent::CleanedUp,
            ],
        );
        assert!(matches!(actions[1], SessionAction::Launch { .. }));
        assert_eq!(actions[2], SessionAction::StartWorkers { content_type: ContentType::Plain });
        assert_eq!(actions[3], SessionAction::Cleanup { editor: Some(editor()) });
        assert_eq!(count_cleanups(&actions), 1);
    }
}

#[test]
fn no_frame_is_read_after_a_second_begin() {
    let order = Endianness::Big;
    let body = br#"{"kind":"begin","initialContent":"hello","contentType":"plain"}"#;
    let frame = encode_frame(order, body).unwrap();
    let mut session = Session::new();
    session.step(SessionEvent::Started);

    let first = read_message(order, &frame);
    assert!(reading_goes_on(false, &first));
    assert!(matches!(
        session.step(SessionEvent::Received(first)),
        SessionAction::Launch { .. }
    ));
    session.step(SessionEvent::EditorLaunched(editor()));

    let second = read_message(order, &frame);
    assert!(!reading_goes_on(true, &second));
    assert_eq!(
        session.step(SessionEvent::Received(second)),
        SessionAction::Cleanup { editor: Some(editor()) }
    );
    assert_eq!(session.outcome(), Some(Outcome::ProtocolError));
}

#[test]
fn reading_stops_exactly_where_the_session_ends() {
    let reads = vec![
        Inbound::Message(ClientMessage::Begin {
            initial_content: "x".to_string(),
            content_type: ContentType::Plain,
        }),
        Inbound::EndOfStream,
        Inbound::Disconnect,
        Inbound::Truncated,
        Inbound::Malformed(DecodeError::UnknownKind),
    ];
    for inbound in &reads {
        let mut waiting = Session::new();
        waiting.step(SessionEvent::Started);
        let goes_on = reading_goes_on(false, inbound);
        waiting.step(SessionEvent::Received(inbound.clone()));
        assert_eq!(goes_on, waiting.phase() != Phase::Terminating);

        let mut active = active_session(ContentType::Plain);
        let goes_on = reading_goes_on(true, inbound);
        active.step(SessionEvent::Received(inbound.clone()));
        assert!(!goes_on);
        assert_eq!(active.phase(), Phase::Terminating);
    }
}
