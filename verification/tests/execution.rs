use zebra::execution::execution::ReturnCode;
use zebra::execution::ffi::Pipefd;
use zebra::execution::repl::{
    greet, input_size, judge, length_frame, poll_timeout, reap, received, waited, Action,
    After, ChildState, CtrlCmd, Event, Hook, Phase, Reaping, Release, ReplConnection, ReplError,
    Syscall, Verdict, EXIT_TAG, HELO_TAG, MAX_SIZE,
};
use zebra::execution::spawn::{classify_exit, Spawn};

#[test]
fn alarm_signal_is_a_timeout() {
    assert_eq!(classify_exit(None, Some(14)), ReturnCode::Timeout);
}

#[test]
fn exit_classification() {
    assert_eq!(classify_exit(Some(0), None), ReturnCode::Status(0));
    assert_eq!(classify_exit(Some(14), None), ReturnCode::Status(14));
    assert_eq!(classify_exit(Some(3), Some(11)), ReturnCode::Status(3));
    assert_eq!(classify_exit(None, Some(11)), ReturnCode::Crash(11));
    assert_eq!(classify_exit(None, None), ReturnCode::Crash(0));
}

#[test]
fn spawn_names_its_test_file() {
    let s = Spawn::new("/bin/js".to_string(), vec!["--fuzzing-safe"], 5, 123456789);
    assert_eq!(s.pname, "tests/testfile_123456789.js");
    assert_eq!(s.path, "/bin/js");
    assert_eq!(s.timeout, 5);
    assert_eq!(Spawn::new(String::new(), vec![], 0, 0).pname, "tests/testfile_0.js");
}

#[test]
fn tags_are_ascii_little_endian() {
    assert_eq!(CtrlCmd::Helo.bytes(), *b"HELO");
    assert_eq!(CtrlCmd::Exec.bytes(), *b"exec");
    assert_eq!(CtrlCmd::Exit.bytes(), *b"exit");
    assert_eq!(CtrlCmd::decode(i32::from_le_bytes(*b"HELO")), CtrlCmd::Helo);
    assert_eq!(CtrlCmd::decode(i32::from_le_bytes(*b"exec")), CtrlCmd::Exec);
    assert_eq!(CtrlCmd::decode(i32::from_le_bytes(*b"exit")), CtrlCmd::Exit);
    assert_eq!(HELO_TAG, 0x4f4c4548);
    assert_eq!(CtrlCmd::decode(0), CtrlCmd::Misc(0));
    assert_eq!(CtrlCmd::decode(-1), CtrlCmd::Misc(-1));
}

/// The events of a start in which every system call succeeds: the region
/// gets the descriptor 9, the pipes the descriptors 3 to 6.
fn start_events() -> Vec<Event> {
    vec![
        Event::Done,
        Event::Returned(9),
        Event::Returned(0),
        Event::Mapped(true),
        Event::Piped(0, Pipefd { readfd: 3, writefd: 4 }),
        Event::Piped(0, Pipefd { readfd: 5, writefd: 6 }),
        Event::Spawned(true),
        Event::Done,
        Event::Returned(1),
        Event::Read(4, HELO_TAG),
        Event::Returned(4),
    ]
}

/// What the harness asks for during such a start, after the first
/// release.
fn start_actions(last: Action) -> Vec<Action> {
    vec![
        Action::CreateRegion,
        Action::Resize(9, 65536),
        Action::MapRegion(9, 65536),
        Action::OpenPipe,
        Action::OpenPipe,
        Action::Spawn(vec![
            Hook::Dup(9, 102),
            Hook::Dup(5, 100),
            Hook::Dup(4, 101),
            Hook::Close(6),
            Hook::Close(3),
        ]),
        Action::Close(vec![5, 4]),
        Action::Poll(3, 5000),
        Action::Read(3),
        Action::Send(6, b"HELO".to_vec()),
        last,
    ]
}

/// Everything that a connection holds after such a start.
fn everything() -> Vec<Release> {
    vec![
        Release::Child,
        Release::Region(9),
        Release::Close(3),
        Release::Close(6),
        Release::Mapping,
    ]
}

/// What the harness asks for while the events happen.
fn asked(c: &mut ReplConnection, events: Vec<Event>) -> Vec<Action> {
    events.into_iter().map(|event| c.step(event)).collect()
}

/// A connection with a child that has greeted.
fn ready() -> ReplConnection {
    let mut c = ReplConnection::new("/bin/js".to_string(), vec!["--reprl"], 5);
    assert_eq!(c.step(Event::Start), Action::Release(vec![]));
    assert_eq!(asked(&mut c, start_events()), start_actions(Action::Idle));
    c
}

/// The events of a round up to the answer of the child, for a child that
/// is running.
fn round_events(len: usize) -> Vec<Event> {
    vec![
        Event::Run(len),
        Event::Child(ChildState::Running),
        Event::Returned(0),
        Event::Done,
        Event::Returned(4),
        Event::Returned(8),
        Event::Returned(1),
    ]
}

/// What the harness asks for during such a round.
fn round_actions(size: usize) -> Vec<Action> {
    vec![
        Action::AskChild,
        Action::Seek(9),
        Action::Copy(size),
        Action::Send(6, b"exec".to_vec()),
        Action::Send(6, (size as u64).to_le_bytes().to_vec()),
        Action::Poll(3, 5000),
        Action::Read(3),
    ]
}

#[test]
fn a_child_that_greets_is_greeted() {
    let c = ready();
    assert_eq!(c.phase, Phase::Idle);
    assert_eq!(c.data_write_fd, Some(9));
    assert_eq!(c.ctrl_read_fd, Some(Pipefd { readfd: 3, writefd: -1 }));
    assert_eq!(c.ctrl_write_fd, Some(Pipefd { readfd: -1, writefd: 6 }));
    assert!(c.mapping && c.child);
}

#[test]
fn a_status_is_returned() {
    let mut c = ready();
    for status in [0, 1, 14, 255, -7, 0x4f4c4549] {
        assert_eq!(asked(&mut c, round_events(20)), round_actions(20));
        assert_eq!(c.step(Event::Read(4, status)), Action::Return(ReturnCode::Status(status)));
        assert!(c.child);
        assert_eq!(judge(received(4, status)), Verdict::Done(ReturnCode::Status(status)));
    }
}

#[test]
fn the_first_program_starts_the_child() {
    let mut c = ReplConnection::new("/bin/js".to_string(), vec!["--reprl"], 5);
    assert_eq!(c.step(Event::Run(70000)), Action::Release(vec![]));
    assert_eq!(asked(&mut c, start_events()), start_actions(Action::Seek(9)));
    assert_eq!(
        asked(&mut c, round_events(70000).split_off(2)),
        round_actions(65535).split_off(2)
    );
    assert_eq!(c.step(Event::Read(4, 3)), Action::Return(ReturnCode::Status(3)));
}

#[test]
fn a_child_that_has_ended_is_replaced_before_a_program() {
    let mut c = ready();
    assert_eq!(c.step(Event::Run(1)), Action::AskChild);
    assert_eq!(c.step(Event::Child(ChildState::Exited(0))), Action::Release(everything()));
    assert_eq!(asked(&mut c, start_events()), start_actions(Action::Seek(9)));
}

#[test]
fn exit_instead_of_a_status_is_a_protocol_error_and_is_retried_once() {
    let word = i32::from_le_bytes(*b"exit");
    assert_eq!(word, EXIT_TAG);
    assert_eq!(judge(received(4, word)), Verdict::Fail(ReplError::InvalidMessage));
    assert_eq!(judge(received(4, HELO_TAG)), Verdict::Fail(ReplError::InvalidMessage));

    let mut c = ready();
    assert_eq!(asked(&mut c, round_events(20)), round_actions(20));
    // The first time everything is released and a new child is started.
    assert_eq!(c.step(Event::Read(4, word)), Action::Release(everything()));
    assert_eq!(c.step(Event::Done), Action::Release(vec![]));
    assert_eq!(c.step(Event::Done), Action::Release(vec![]));
    assert_eq!(asked(&mut c, start_events()), start_actions(Action::Seek(9)));
    assert_eq!(
        asked(&mut c, round_events(20).split_off(2)),
        round_actions(20).split_off(2)
    );
    // The second time everything is released and the worker cannot go on.
    assert_eq!(c.step(Event::Read(4, word)), Action::Release(everything()));
    assert_eq!(c.step(Event::Done), Action::Fatal(ReplError::InvalidMessage));
    assert_eq!(c.step(Event::Run(20)), Action::Fatal(ReplError::InvalidMessage));
    assert!(c.reset_connection().is_empty());
}

#[test]
fn a_second_attempt_can_succeed() {
    let mut c = ready();
    assert_eq!(asked(&mut c, round_events(20)), round_actions(20));
    assert_eq!(c.step(Event::Read(4, EXIT_TAG)), Action::Release(everything()));
    assert_eq!(c.step(Event::Done), Action::Release(vec![]));
    assert_eq!(c.step(Event::Done), Action::Release(vec![]));
    assert_eq!(asked(&mut c, start_events()), start_actions(Action::Seek(9)));
    assert_eq!(
        asked(&mut c, round_events(20).split_off(2)),
        round_actions(20).split_off(2)
    );
    assert_eq!(c.step(Event::Read(4, 0)), Action::Return(ReturnCode::Status(0)));
    // The next program has two attempts again.
    assert_eq!(asked(&mut c, round_events(20)), round_actions(20));
    assert_eq!(c.step(Event::Read(4, EXIT_TAG)), Action::Release(everything()));
}

#[test]
fn silence_is_a_timeout() {
    assert_eq!(waited(0), Some(ReplError::Timeout));
    assert_eq!(waited(-1), Some(ReplError::SystemCall(Syscall::Poll)));
    assert_eq!(waited(1), None);
    assert_eq!(judge(Err(ReplError::Timeout)), Verdict::TimedOut);

    let mut c = ready();
    let mut events = round_events(20);
    events.pop();
    let mut actions = round_actions(20);
    actions.pop();
    assert_eq!(asked(&mut c, events), actions);
    assert_eq!(c.step(Event::Returned(0)), Action::Release(everything()));
    assert_eq!(c.step(Event::Done), Action::Return(ReturnCode::Timeout));
    assert!(c.reset_connection().is_empty());
    // The next program starts a new child.
    assert_eq!(c.step(Event::Run(1)), Action::Release(vec![]));
    assert_eq!(c.step(Event::Done), Action::CreateRegion);
}

#[test]
fn a_short_read_leads_to_reaping() {
    assert_eq!(received(0, 0), Err(ReplError::SystemCall(Syscall::Read)));
    assert_eq!(received(3, 0), Err(ReplError::SystemCall(Syscall::Read)));
    assert_eq!(received(-1, 0), Err(ReplError::SystemCall(Syscall::Read)));
    assert_eq!(received(4, 0), Ok(CtrlCmd::Misc(0)));
    assert_eq!(judge(received(0, 0)), Verdict::Reap);
    assert_eq!(judge(Err(ReplError::SystemCall(Syscall::Poll))), Verdict::Reap);

    let mut c = ready();
    assert_eq!(asked(&mut c, round_events(20)), round_actions(20));
    assert_eq!(c.step(Event::Read(0, 0)), Action::AskChild);
    assert_eq!(c.step(Event::Child(ChildState::Signaled(11))), Action::Release(everything()));
    assert_eq!(c.step(Event::Done), Action::Return(ReturnCode::Crash(11)));
    assert!(!c.child && c.data_write_fd.is_none());
}

#[test]
fn a_failed_wait_leads_to_reaping() {
    let mut c = ready();
    let mut events = round_events(20);
    events.pop();
    asked(&mut c, events);
    assert_eq!(c.step(Event::Returned(-1)), Action::AskChild);
    assert_eq!(c.step(Event::Child(ChildState::Exited(2))), Action::Release(everything()));
    assert_eq!(c.step(Event::Done), Action::Return(ReturnCode::Status(2)));
}

#[test]
fn a_child_that_neither_answers_nor_ends_is_given_up() {
    let mut c = ready();
    asked(&mut c, round_events(20));
    assert_eq!(c.step(Event::Read(2, 0)), Action::AskChild);
    for _ in 0..10 {
        assert_eq!(c.step(Event::Child(ChildState::Running)), Action::Pause(10000));
        assert_eq!(c.step(Event::Done), Action::AskChild);
    }
    assert_eq!(c.step(Event::Child(ChildState::Running)), Action::Release(everything()));
    // The failure is the first of the run: the program is run once more.
    assert_eq!(c.step(Event::Done), Action::Release(vec![]));
    assert_eq!(c.step(Event::Done), Action::Release(vec![]));
    assert_eq!(c.step(Event::Done), Action::CreateRegion);
}

#[test]
fn a_state_that_cannot_be_asked_for_fails_the_run() {
    let mut c = ready();
    asked(&mut c, round_events(20));
    assert_eq!(c.step(Event::Read(2, 0)), Action::AskChild);
    assert_eq!(c.step(Event::Child(ChildState::Unknown)), Action::Release(everything()));
    assert_eq!(c.phase, Phase::Clearing(After::Attempt));
}

/// A failure while a child is started: how many events of the start
/// come before it, the event that tells of it, the error, and how many
/// things the connection holds by then.
fn failure(k: usize) -> (usize, Event, ReplError, usize) {
    let no_pipe = Pipefd { readfd: -1, writefd: -1 };
    match k {
        0 => (1, Event::Returned(-1), ReplError::SystemCall(Syscall::MemfdCreate), 0),
        1 => (2, Event::Returned(-1), ReplError::SystemCall(Syscall::Ftruncate), 1),
        2 => (3, Event::Mapped(false), ReplError::SystemCall(Syscall::Mmap), 1),
        3 => (4, Event::Piped(-1, no_pipe), ReplError::SystemCall(Syscall::PipeRead), 2),
        4 => (5, Event::Piped(-1, no_pipe), ReplError::SystemCall(Syscall::PipeWrite), 4),
        5 => (6, Event::Spawned(false), ReplError::SpawnFailed, 6),
        6 => (8, Event::Returned(0), ReplError::Timeout, 5),
        7 => (8, Event::Returned(-1), ReplError::SystemCall(Syscall::Poll), 5),
        8 => (9, Event::Read(4, EXIT_TAG), ReplError::BadGreeting, 5),
        9 => (9, Event::Read(4, 0), ReplError::BadGreeting, 5),
        10 => (9, Event::Read(1, HELO_TAG), ReplError::SystemCall(Syscall::Read), 5),
        _ => (10, Event::Returned(-1), ReplError::SystemCall(Syscall::Write), 5),
    }
}

#[test]
fn a_failure_to_start_a_child_is_fatal() {
    for k in 0..12 {
        let (at, event, error, _) = failure(k);
        let mut c = ReplConnection::new("/bin/js".to_string(), vec![], 5);
        c.step(Event::Start);
        let mut events = start_events();
        events.truncate(at);
        asked(&mut c, events);
        assert_eq!(c.step(event), Action::Fatal(error));
    }
}

#[test]
fn a_failure_to_start_a_child_for_a_program_is_retried() {
    for k in 0..12 {
        let (at, event, _, held) = failure(k);
        let mut c = ReplConnection::new("/bin/js".to_string(), vec![], 5);
        c.step(Event::Run(3));
        let mut events = start_events();
        events.truncate(at);
        asked(&mut c, events);
        match c.step(event) {
            Action::Release(list) => assert_eq!(list.len(), held),
            other => panic!("{:?}", other),
        }
        assert_eq!(c.step(Event::Done), Action::Release(vec![]));
        assert_eq!(c.step(Event::Done), Action::CreateRegion);
        // The second failure is fatal.
        let (at, event, error, _) = failure(k);
        let mut events = start_events();
        events.truncate(at);
        asked(&mut c, events.split_off(1));
        assert_eq!(c.step(event), Action::Fatal(error));
    }
}

#[test]
fn a_failure_to_hand_over_a_program_is_retried() {
    let calls = [
        (2, ReplError::SystemCall(Syscall::Lseek)),
        (4, ReplError::SystemCall(Syscall::Write)),
        (5, ReplError::SystemCall(Syscall::Write)),
    ];
    for (at, error) in calls {
        let mut c = ready();
        let mut events = round_events(20);
        events.truncate(at);
        asked(&mut c, events);
        assert_eq!(c.step(Event::Returned(-1)), Action::Release(everything()));
        assert_eq!(c.step(Event::Done), Action::Release(vec![]));
        assert_eq!(asked(&mut c, start_events()), start_actions(Action::Seek(9)));
        let mut events = round_events(20).split_off(2);
        events.truncate(at - 2);
        asked(&mut c, events);
        assert_eq!(c.step(Event::Returned(-1)), Action::Fatal(error));
    }
}

#[test]
fn a_child_that_stays_stuck_twice_is_fatal() {
    let mut c = ready();
    for attempt in 0..2 {
        if attempt == 0 {
            asked(&mut c, round_events(20));
        } else {
            assert_eq!(c.step(Event::Done), Action::Release(vec![]));
            assert_eq!(c.step(Event::Done), Action::Release(vec![]));
            asked(&mut c, start_events());
            asked(&mut c, round_events(20).split_off(2));
        }
        assert_eq!(c.step(Event::Read(0, 0)), Action::AskChild);
        for _ in 0..10 {
            assert_eq!(c.step(Event::Child(ChildState::Running)), Action::Pause(10000));
            assert_eq!(c.step(Event::Done), Action::AskChild);
        }
        assert_eq!(c.step(Event::Child(ChildState::Running)), Action::Release(everything()));
    }
    assert_eq!(c.step(Event::Done), Action::Fatal(ReplError::Stuck));
}

#[test]
fn a_state_that_cannot_be_asked_for_twice_is_fatal() {
    let mut c = ready();
    asked(&mut c, round_events(20));
    assert_eq!(c.step(Event::Read(2, 0)), Action::AskChild);
    assert_eq!(c.step(Event::Child(ChildState::Unknown)), Action::Release(everything()));
    assert_eq!(c.step(Event::Done), Action::Release(vec![]));
    asked(&mut c, start_events());
    asked(&mut c, round_events(20).split_off(2));
    assert_eq!(c.step(Event::Read(2, 0)), Action::AskChild);
    assert_eq!(
        c.step(Event::Child(ChildState::Unknown)),
        Action::Fatal(ReplError::WaitFailed)
    );
}

#[test]
fn an_event_that_is_not_waited_for_changes_nothing() {
    let mut c = ready();
    assert_eq!(c.step(Event::Done), Action::Idle);
    assert_eq!(c.step(Event::Returned(3)), Action::Idle);
    assert_eq!(c.step(Event::Run(5)), Action::AskChild);
    assert_eq!(c.step(Event::Done), Action::AskChild);
    assert_eq!(c.step(Event::Run(5)), Action::AskChild);
    assert_eq!(c.step(Event::Read(4, 0)), Action::AskChild);
}

#[test]
fn a_missing_timeout_is_an_error() {
    let mut c = ReplConnection::default();
    assert_eq!(c.step(Event::Start), Action::Release(vec![]));
    let mut events = start_events();
    events.truncate(7);
    asked(&mut c, events);
    assert_eq!(c.step(Event::Done), Action::Fatal(ReplError::MissingTimeout));
    assert_eq!(poll_timeout(None), Err(ReplError::MissingTimeout));
}

#[test]
fn reaping() {
    assert_eq!(reap(ChildState::Signaled(11), 0), Reaping::Ended(ReturnCode::Crash(11)));
    assert_eq!(reap(ChildState::Exited(2), 3), Reaping::Ended(ReturnCode::Status(2)));
    for attempts in 0..10 {
        assert_eq!(reap(ChildState::Running, attempts), Reaping::Again);
    }
    assert_eq!(reap(ChildState::Running, 10), Reaping::GiveUp(ReplError::Stuck));
    assert_eq!(reap(ChildState::Unknown, 0), Reaping::Fail(ReplError::WaitFailed));
}

#[test]
fn handshake() {
    assert_eq!(greet(Ok(CtrlCmd::Helo)), Ok(CtrlCmd::Helo));
    assert_eq!(greet(Ok(CtrlCmd::Exec)), Err(ReplError::BadGreeting));
    assert_eq!(greet(Ok(CtrlCmd::Misc(0))), Err(ReplError::BadGreeting));
    assert_eq!(greet(Err(ReplError::Timeout)), Err(ReplError::Timeout));
}

#[test]
fn input_is_cut_to_the_region() {
    assert_eq!(MAX_SIZE, 65536);
    assert_eq!(input_size(0), 0);
    assert_eq!(input_size(65534), 65534);
    assert_eq!(input_size(65535), 65535);
    assert_eq!(input_size(65536), 65535);
    assert_eq!(input_size(1 << 30), 65535);
}

#[test]
fn length_is_sent_little_endian() {
    assert_eq!(length_frame(0x0102030405060708), 0x0102030405060708u64.to_le_bytes());
    assert_eq!(length_frame(65535), [0xff, 0xff, 0, 0, 0, 0, 0, 0]);
}

#[test]
fn timeout_in_milliseconds() {
    assert_eq!(poll_timeout(Some(5)), Ok(5000));
    assert_eq!(poll_timeout(None), Err(ReplError::MissingTimeout));
}

#[test]
fn error_messages() {
    assert_eq!(ReplError::Timeout.message(), "[-] ReplError: Timed out");
    assert_eq!(ReplError::SystemCall(Syscall::Poll).message(), "[-] ReplError: poll");
    assert_eq!(
        ReplError::Stuck.message(),
        "[-] ReplError: Poll succeded but read failed"
    );
}

#[test]
fn pipe_ends_are_given_up_once() {
    let mut p = Pipefd { readfd: 7, writefd: 8 };
    assert_eq!(p.close_read(), Some(7));
    assert_eq!(p.close_read(), None);
    assert_eq!(p.readfd, -1);
    assert_eq!(p.destroy(), vec![8]);
    assert_eq!(p.destroy(), Vec::<i32>::new());
    assert_eq!(p, Pipefd::default());
    // A descriptor that is negative is not open.
    let mut q = Pipefd { readfd: -5, writefd: 0 };
    assert_eq!(q.destroy(), vec![0]);
    assert_eq!(q, Pipefd::default());
}

#[test]
fn reset_releases_everything_once() {
    let mut c = ReplConnection::new("/bin/js".to_string(), vec!["--reprl"], 5);
    assert!(c.reset_connection().is_empty());
    let mut c = ready();
    assert_eq!(c.reset_connection(), everything());
    assert!(c.reset_connection().is_empty());
    assert_eq!(c.phase, Phase::Idle);
    assert_eq!(c.timeout, Some(5));
    assert_eq!(c.path.as_deref(), Some("/bin/js"));

    // In the middle of a start, what was made so far is released.
    let mut c = ReplConnection::new("/bin/js".to_string(), vec!["--reprl"], 5);
    c.step(Event::Start);
    let mut events = start_events();
    events.truncate(5);
    asked(&mut c, events);
    assert_eq!(
        c.reset_connection(),
        vec![
            Release::Region(9),
            Release::Close(3),
            Release::Close(4),
            Release::Mapping,
        ]
    );
    let d = ReplConnection::default();
    assert!(d.path.is_none() && d.timeout.is_none());
}
