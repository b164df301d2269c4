use term_session::attributes::{raw_mode_attributes, TerminalAttributes, TerminalLayout};
use term_session::screen::{clear_screen, render_frame};
use term_session::session::{
    read_event, Action, ErrorKind, Event, FatalError, Phase, Session, Stage, EXIT_FATAL, EXIT_OK,
};

fn layout() -> TerminalLayout {
    TerminalLayout {
        echo: 0o10,
        icanon: 0o2,
        iexten: 0o100000,
        isig: 0o1,
        brkint: 0o2,
        icrnl: 0o400,
        inpck: 0o20,
        istrip: 0o40,
        ixon: 0o2000,
        opost: 0o1,
        cs8: 0o60,
        vmin: 6,
        vtime: 5,
    }
}

fn original() -> TerminalAttributes {
    TerminalAttributes {
        input_flags: 0o66402,
        output_flags: 0o5,
        control_flags: 0o2277,
        local_flags: 0o105073,
        control_chars: (1..=32).collect(),
    }
}

fn abort(rows: usize, restore: Option<TerminalAttributes>, kind: ErrorKind, errno: i32) -> Action {
    Action::Abort { frame: render_frame(rows), restore, error: FatalError { kind, errno } }
}

fn session_reading() -> Session {
    let mut session = Session::new(layout(), 24);
    assert_eq!(session.step(Event::Start), Some(Action::Query));
    assert_eq!(
        session.step(Event::Attributes(original())),
        Some(Action::Apply(raw_mode_attributes(&original(), &layout())))
    );
    assert_eq!(session.step(Event::Applied), Some(Action::Write(render_frame(24))));
    assert_eq!(session.step(Event::Written), Some(Action::ReadKey));
    session
}

#[test]
fn new_session_is_idle_and_uncaptured() {
    let session = Session::new(layout(), 24);
    assert_eq!(session.stage(), Stage::Idle);
    assert_eq!(session.phase(), Phase::Uncaptured);
    assert_eq!(session.original(), None);
    assert_eq!(session.rows(), 24);
    assert_eq!(session.layout(), layout());
}

#[test]
fn startup_captures_then_enables_raw_then_renders() {
    let mut session = Session::new(layout(), 24);
    assert_eq!(session.step(Event::Start), Some(Action::Query));
    assert_eq!(session.stage(), Stage::Capturing);
    assert_eq!(session.phase(), Phase::Uncaptured);

    let raw = raw_mode_attributes(&original(), &layout());
    assert_eq!(session.step(Event::Attributes(original())), Some(Action::Apply(raw)));
    assert_eq!(session.stage(), Stage::EnablingRaw);
    assert_eq!(session.phase(), Phase::Captured);
    assert_eq!(session.original(), Some(original()));

    assert_eq!(session.step(Event::Applied), Some(Action::Write(render_frame(24))));
    assert_eq!(session.stage(), Stage::Rendering);
    assert_eq!(session.phase(), Phase::Raw);

    assert_eq!(session.step(Event::Written), Some(Action::ReadKey));
    assert_eq!(session.stage(), Stage::Reading);
    assert_eq!(session.phase(), Phase::Raw);
    assert_eq!(session.original(), Some(original()));
}

#[test]
fn ctrl_q_clears_restores_and_exits_with_status_zero() {
    let mut session = session_reading();
    assert_eq!(session.step(Event::Key(0x11)), Some(Action::Write(clear_screen())));
    assert_eq!(session.stage(), Stage::QuitClearing);
    assert_eq!(session.step(Event::Written), Some(Action::Query));
    assert_eq!(session.stage(), Stage::QuitQuerying);
    let current = raw_mode_attributes(&original(), &layout());
    assert_eq!(session.step(Event::Attributes(current)), Some(Action::Apply(original())));
    assert_eq!(session.stage(), Stage::QuitRestoring);
    assert_eq!(session.phase(), Phase::Raw);
    let last = session.step(Event::Applied);
    assert_eq!(last, Some(Action::Exit));
    assert_eq!(last.unwrap().exit_status(), Some(0));
    assert_eq!(EXIT_OK, 0);
    assert_eq!(session.stage(), Stage::Finished);
    assert_eq!(session.phase(), Phase::Restored);
    assert_eq!(session.original(), Some(original()));
}

#[test]
fn restore_ignores_what_the_query_returned() {
    let mut session = session_reading();
    session.step(Event::Key(0x11));
    session.step(Event::Written);
    let current = TerminalAttributes {
        input_flags: 0,
        output_flags: 0,
        control_flags: 0,
        local_flags: 0,
        control_chars: Vec::new(),
    };
    assert_eq!(session.step(Event::Attributes(current)), Some(Action::Apply(original())));
}

#[test]
fn any_other_key_renders_the_next_frame_in_raw_mode() {
    let mut session = session_reading();
    for byte in 0..=255u8 {
        if byte == 0x11 {
            continue;
        }
        assert_eq!(session.step(Event::Key(byte)), Some(Action::Write(render_frame(24))));
        assert_eq!(session.stage(), Stage::Rendering);
        assert_eq!(session.phase(), Phase::Raw);
        assert_eq!(session.original(), Some(original()));
        assert_eq!(session.step(Event::Written), Some(Action::ReadKey));
        assert_eq!(session.stage(), Stage::Reading);
    }
}

#[test]
fn letter_a_leaves_the_terminal_raw() {
    let mut session = session_reading();
    let action = session.step(Event::Key(0x41)).unwrap();
    assert_eq!(action, Action::Write(render_frame(24)));
    assert_eq!(action.exit_status(), None);
    assert_eq!(session.phase(), Phase::Raw);
}

#[test]
fn a_timed_out_read_is_retried() {
    let mut session = session_reading();
    for _ in 0..5 {
        assert_eq!(session.step(Event::NoInput), Some(Action::ReadKey));
        assert_eq!(session.stage(), Stage::Reading);
        assert_eq!(session.phase(), Phase::Raw);
    }
    assert_eq!(session.step(Event::Key(b'x')), Some(Action::Write(render_frame(24))));
}

#[test]
fn read_event_needs_exactly_one_byte() {
    assert_eq!(read_event(Ok(1), b'q'), Event::Key(b'q'));
    assert_eq!(read_event(Ok(0), b'q'), Event::NoInput);
    assert_eq!(read_event(Ok(2), b'q'), Event::NoInput);
    assert_eq!(read_event(Err(5), b'q'), Event::ReadFailed(5));
}

#[test]
fn a_failed_capture_aborts_without_restore() {
    let mut session = Session::new(layout(), 24);
    session.step(Event::Start);
    let action = session.step(Event::QueryFailed(25)).unwrap();
    assert_eq!(action, abort(24, None, ErrorKind::TerminalQuery, 25));
    assert_eq!(action.exit_status(), Some(1));
    assert_eq!(EXIT_FATAL, 1);
    assert_eq!(session.stage(), Stage::Finished);
    assert_eq!(session.phase(), Phase::Uncaptured);
}

#[test]
fn a_failed_apply_aborts_with_restore() {
    let mut session = Session::new(layout(), 24);
    session.step(Event::Start);
    session.step(Event::Attributes(original()));
    assert_eq!(
        session.step(Event::ApplyFailed(5)),
        Some(abort(24, Some(original()), ErrorKind::TerminalSet, 5))
    );
    assert_eq!(session.stage(), Stage::Finished);
    assert_eq!(session.phase(), Phase::Captured);
}

#[test]
fn a_failed_write_aborts_with_restore() {
    let mut session = Session::new(layout(), 3);
    session.step(Event::Start);
    session.step(Event::Attributes(original()));
    session.step(Event::Applied);
    assert_eq!(
        session.step(Event::WriteFailed(32)),
        Some(abort(3, Some(original()), ErrorKind::IoWrite, 32))
    );
    assert_eq!(session.stage(), Stage::Finished);
}

#[test]
fn a_failed_read_aborts_with_restore() {
    let mut session = session_reading();
    let action = session.step(Event::ReadFailed(5)).unwrap();
    assert_eq!(action, abort(24, Some(original()), ErrorKind::IoRead, 5));
    assert_eq!(action.exit_status(), Some(1));
    assert_eq!(session.stage(), Stage::Finished);
    assert_eq!(session.phase(), Phase::Raw);
}

#[test]
fn failures_during_quit_abort_with_restore() {
    let mut session = session_reading();
    session.step(Event::Key(0x11));
    assert_eq!(
        session.step(Event::WriteFailed(9)),
        Some(abort(24, Some(original()), ErrorKind::IoWrite, 9))
    );

    let mut session = session_reading();
    session.step(Event::Key(0x11));
    session.step(Event::Written);
    assert_eq!(
        session.step(Event::QueryFailed(25)),
        Some(abort(24, Some(original()), ErrorKind::TerminalQuery, 25))
    );

    let mut session = session_reading();
    session.step(Event::Key(0x11));
    session.step(Event::Written);
    session.step(Event::Attributes(original()));
    assert_eq!(
        session.step(Event::ApplyFailed(5)),
        Some(abort(24, Some(original()), ErrorKind::TerminalSet, 5))
    );
    assert_eq!(session.phase(), Phase::Raw);
}

#[test]
fn die_redraws_restores_and_fails() {
    let mut session = session_reading();
    let error = FatalError { kind: ErrorKind::IoWrite, errno: 5 };
    let action = session.die(error);
    assert_eq!(
        action,
        Action::Abort { frame: render_frame(24), restore: Some(original()), error }
    );
    assert_eq!(action.exit_status(), Some(1));
    assert_eq!(session.stage(), Stage::Finished);

    let mut fresh = Session::new(layout(), 1);
    assert_eq!(
        fresh.die(error),
        Action::Abort { frame: render_frame(1), restore: None, error }
    );
}

#[test]
fn events_that_answer_nothing_are_rejected() {
    let mut session = Session::new(layout(), 24);
    assert_eq!(session.step(Event::Key(0x11)), None);
    assert_eq!(session.step(Event::Applied), None);
    assert_eq!(session.stage(), Stage::Idle);
    session.step(Event::Start);
    assert_eq!(session.step(Event::Start), None);
    assert_eq!(session.step(Event::Written), None);
    assert_eq!(session.stage(), Stage::Capturing);

    let mut session = session_reading();
    assert_eq!(session.step(Event::Written), None);
    assert_eq!(session.step(Event::Attributes(original())), None);
    assert_eq!(session.stage(), Stage::Reading);
    assert_eq!(session.phase(), Phase::Raw);
}

#[test]
fn attributes_that_do_not_fit_are_not_captured() {
    let mut session = Session::new(layout(), 24);
    session.step(Event::Start);
    let mut short = original();
    short.control_chars.truncate(6);
    assert_eq!(session.step(Event::Attributes(short)), None);
    assert_eq!(session.stage(), Stage::Capturing);
    assert_eq!(session.original(), None);
    assert_eq!(session.phase(), Phase::Uncaptured);
}

#[test]
fn a_finished_session_accepts_nothing() {
    let mut session = session_reading();
    session.step(Event::ReadFailed(5));
    assert_eq!(session.step(Event::Start), None);
    assert_eq!(session.step(Event::Key(0x11)), None);
    assert_eq!(session.step(Event::NoInput), None);
    assert_eq!(session.step(Event::Applied), None);
    assert_eq!(session.stage(), Stage::Finished);
}

#[test]
fn error_kinds_name_their_operation() {
    assert_eq!(ErrorKind::TerminalQuery.operation(), "tcgetattr");
    assert_eq!(ErrorKind::TerminalSet.operation(), "tcsetattr");
    assert_eq!(ErrorKind::IoRead.operation(), "read");
    assert_eq!(ErrorKind::IoWrite.operation(), "write");
}

#[test]
fn only_exits_have_a_status() {
    assert_eq!(Action::Query.exit_status(), None);
    assert_eq!(Action::ReadKey.exit_status(), None);
    assert_eq!(Action::Write(Vec::new()).exit_status(), None);
    assert_eq!(Action::Apply(original()).exit_status(), None);
    assert_eq!(Action::Exit.exit_status(), Some(0));
}
