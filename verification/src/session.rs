//! The terminal session: a state machine that decides, for every outcome
//! of the last terminal operation, what the session does next.
//!
//! The session performs no I/O. Its driver carries out each `Action` on the
//! terminal and reports what happened as an `Event`.

use crate::attributes::{
    raw_mode_attributes, raw_spec, restored_attributes, restored_spec, AttributesView,
    TerminalAttributes, TerminalLayout,
};
use crate::keys::{decode_key, decode_key_spec, quit_code, KeyAction};
use crate::screen::{clear_screen, clear_spec, frame_spec, render_frame};
use vstd::prelude::*;

verus! {

/// Exit status of an orderly quit.
pub const EXIT_OK: i32 = 0;

/// Exit status of every fatal path.
pub const EXIT_FATAL: i32 = 1;

/// Where the terminal stands between its original and its raw mode.
#[derive(Clone, Copy, Debug, PartialEq, Eq, Structural)]
pub enum Phase {
    /// The original attributes have not been captured.
    Uncaptured,
    /// The original attributes are captured; the terminal is untouched.
    Captured,
    /// The raw-mode attributes are applied.
    Raw,
    /// The original attributes have been written back.
    Restored,
}

/// The operation that the session is waiting on.
#[derive(Clone, Copy, Debug, PartialEq, Eq, Structural)]
pub enum Stage {
    /// Nothing has been asked of the terminal yet.
    Idle,
    /// The attributes were queried, to capture the original.
    Capturing,
    /// The raw-mode attributes are being applied.
    EnablingRaw,
    /// A frame is being written.
    Rendering,
    /// A key is being read.
    Reading,
    /// The screen is being cleared ahead of an orderly quit.
    QuitClearing,
    /// The attributes were queried, to restore on top of them.
    QuitQuerying,
    /// The original attributes are being applied.
    QuitRestoring,
    /// The session has ended; no event is accepted any more.
    Finished,
}

/// The kinds of unrecoverable failure.
#[derive(Clone, Copy, Debug, PartialEq, Eq, Structural)]
pub enum ErrorKind {
    /// The terminal's attributes could not be read.
    TerminalQuery,
    /// The terminal's attributes could not be applied.
    TerminalSet,
    /// Reading input failed for a reason other than the timeout.
    IoRead,
    /// Writing output failed.
    IoWrite,
}

/// The name of the terminal operation that fails with each kind of error.
pub open spec fn operation_spec(kind: ErrorKind) -> Seq<char> {
    match kind {
        ErrorKind::TerminalQuery => "tcgetattr"@,
        ErrorKind::TerminalSet => "tcsetattr"@,
        ErrorKind::IoRead => "read"@,
        ErrorKind::IoWrite => "write"@,
    }
}

impl ErrorKind {
    /// The name of the failing operation, for the diagnostic line.
    pub fn operation(&self) -> (name: &'static str)
        ensures
            name@ == operation_spec(*self),
    {
        match self {
            ErrorKind::TerminalQuery => "tcgetattr",
            ErrorKind::TerminalSet => "tcsetattr",
            ErrorKind::IoRead => "read",
            ErrorKind::IoWrite => "write",
        }
    }
}

/// An unrecoverable failure: its kind and the system's error number.
#[derive(Clone, Copy, Debug, PartialEq, Eq, Structural)]
pub struct FatalError {
    /// Which operation failed.
    pub kind: ErrorKind,
    /// The cause, as the system's error number.
    pub errno: i32,
}

/// What happened to the last action.
#[derive(Clone, Debug, PartialEq, Eq)]
pub enum Event {
    /// The driver is ready; nothing was asked yet.
    Start,
    /// A query returned these attributes.
    Attributes(TerminalAttributes),
    /// A query failed.
    QueryFailed(i32),
    /// The attributes were applied.
    Applied,
    /// Applying the attributes failed.
    ApplyFailed(i32),
    /// The bytes were written.
    Written,
    /// Writing failed.
    WriteFailed(i32),
    /// A read timed out with zero bytes.
    NoInput,
    /// A read returned this one byte.
    Key(u8),
    /// A read failed.
    ReadFailed(i32),
}

/// Mathematical value of an `Event`.
pub ghost enum EventView {
    Start,
    Attributes(AttributesView),
    QueryFailed(i32),
    Applied,
    ApplyFailed(i32),
    Written,
    WriteFailed(i32),
    NoInput,
    Key(u8),
    ReadFailed(i32),
}

impl View for Event {
    type V = EventView;

    open spec fn view(&self) -> EventView {
        match *self {
            Event::Start => EventView::Start,
            Event::Attributes(attributes) => EventView::Attributes(attributes@),
            Event::QueryFailed(errno) => EventView::QueryFailed(errno),
            Event::Applied => EventView::Applied,
            Event::ApplyFailed(errno) => EventView::ApplyFailed(errno),
            Event::Written => EventView::Written,
            Event::WriteFailed(errno) => EventView::WriteFailed(errno),
            Event::NoInput => EventView::NoInput,
            Event::Key(byte) => EventView::Key(byte),
            Event::ReadFailed(errno) => EventView::ReadFailed(errno),
        }
    }
}

/// What the driver is to do next.
#[derive(Clone, Debug, PartialEq, Eq)]
pub enum Action {
    /// Query the terminal's current attributes.
    Query,
    /// Set the tracked fields of the terminal's attributes to these.
    Apply(TerminalAttributes),
    /// Write these bytes to the terminal.
    Write(Vec<u8>),
    /// Read one byte, waiting at most for the read timeout.
    ReadKey,
    /// End the process with `EXIT_OK`.
    Exit,
    /// End the process with `EXIT_FATAL`. First, ignoring any failure:
    /// write `frame`, apply `restore` if there is one, and report `error`.
    Abort { frame: Vec<u8>, restore: Option<TerminalAttributes>, error: FatalError },
}

/// Mathematical value of an `Action`.
pub ghost enum ActionView {
    Query,
    Apply(AttributesView),
    Write(Seq<u8>),
    ReadKey,
    Exit,
    Abort { frame: Seq<u8>, restore: Option<AttributesView>, error: FatalError },
}

/// Mathematical value of an optional attribute set.
pub open spec fn option_view(attributes: Option<TerminalAttributes>) -> Option<AttributesView> {
    match attributes {
        Some(a) => Some(a@),
        None => None,
    }
}

impl View for Action {
    type V = ActionView;

    open spec fn view(&self) -> ActionView {
        match *self {
            Action::Query => ActionView::Query,
            Action::Apply(attributes) => ActionView::Apply(attributes@),
            Action::Write(bytes) => ActionView::Write(bytes@),
            Action::ReadKey => ActionView::ReadKey,
            Action::Exit => ActionView::Exit,
            Action::Abort { frame, restore, error } => ActionView::Abort {
                frame: frame@,
                restore: option_view(restore),
                error,
            },
        }
    }
}

/// The process exit status that an action ends with, if it ends the
/// process.
pub open spec fn exit_status_spec(action: ActionView) -> Option<i32> {
    match action {
        ActionView::Exit => Some(0i32),
        ActionView::Abort { .. } => Some(1i32),
        _ => None,
    }
}

/// A terminal session.
pub struct Session {
    stage: Stage,
    phase: Phase,
    original: Option<TerminalAttributes>,
    layout: TerminalLayout,
    rows: usize,
}

/// Mathematical value of a `Session`.
pub ghost struct SessionView {
    pub stage: Stage,
    pub phase: Phase,
    pub original: Option<AttributesView>,
    pub layout: TerminalLayout,
    pub rows: usize,
}

/// The invariant of a session: the original attributes are captured
/// exactly from the moment the capturing query is answered, they fit the
/// layout, and the phase goes with the stage.
pub open spec fn session_wf(s: SessionView) -> bool {
    match s.stage {
        Stage::Idle | Stage::Capturing => s.original is None && s.phase == Phase::Uncaptured,
        Stage::EnablingRaw => s.original is Some && s.layout.fits(s.original->0) && s.phase
            == Phase::Captured,
        Stage::Rendering
        | Stage::Reading
        | Stage::QuitClearing
        | Stage::QuitQuerying
        | Stage::QuitRestoring => s.original is Some && s.layout.fits(s.original->0) && s.phase
            == Phase::Raw,
        Stage::Finished => s.original is Some ==> s.layout.fits(s.original->0),
    }
}

/// The fatal path from state `s`: the session is finished, and the action
/// redraws the frame, restores the original attributes if they were ever
/// captured, and carries the error. The phase stays as it was: the restore
/// is best-effort and its outcome is not reported back.
pub open spec fn abort_spec(s: SessionView, error: FatalError) -> (SessionView, ActionView) {
    (
        SessionView { stage: Stage::Finished, ..s },
        ActionView::Abort { frame: frame_spec(s.rows as nat), restore: s.original, error },
    )
}

/// The transition function. `None` where the event does not answer the
/// operation that the session is waiting on.
pub open spec fn step_spec(s: SessionView, e: EventView) -> Option<(SessionView, ActionView)> {
    match (s.stage, e) {
        (Stage::Idle, EventView::Start) => Some(
            (SessionView { stage: Stage::Capturing, ..s }, ActionView::Query),
        ),
        (Stage::Capturing, EventView::Attributes(a)) => if s.layout.fits(a) {
            Some(
                (
                    SessionView {
                        stage: Stage::EnablingRaw,
                        phase: Phase::Captured,
                        original: Some(a),
                        ..s
                    },
                    ActionView::Apply(raw_spec(a, s.layout)),
                ),
            )
        } else {
            None
        },
        (Stage::Capturing, EventView::QueryFailed(errno)) => Some(
            abort_spec(s, FatalError { kind: ErrorKind::TerminalQuery, errno }),
        ),
        (Stage::EnablingRaw, EventView::Applied) => Some(
            (
                SessionView { stage: Stage::Rendering, phase: Phase::Raw, ..s },
                ActionView::Write(frame_spec(s.rows as nat)),
            ),
        ),
        (Stage::EnablingRaw, EventView::ApplyFailed(errno)) => Some(
            abort_spec(s, FatalError { kind: ErrorKind::TerminalSet, errno }),
        ),
        (Stage::Rendering, EventView::Written) => Some(
            (SessionView { stage: Stage::Reading, ..s }, ActionView::ReadKey),
        ),
        (Stage::Rendering, EventView::WriteFailed(errno)) => Some(
            abort_spec(s, FatalError { kind: ErrorKind::IoWrite, errno }),
        ),
        (Stage::Reading, EventView::NoInput) => Some((s, ActionView::ReadKey)),
        (Stage::Reading, EventView::Key(byte)) => match decode_key_spec(byte) {
            KeyAction::Quit => Some(
                (SessionView { stage: Stage::QuitClearing, ..s }, ActionView::Write(clear_spec())),
            ),
            KeyAction::Ignore => Some(
                (
                    SessionView { stage: Stage::Rendering, ..s },
                    ActionView::Write(frame_spec(s.rows as nat)),
                ),
            ),
        },
        (Stage::Reading, EventView::ReadFailed(errno)) => Some(
            abort_spec(s, FatalError { kind: ErrorKind::IoRead, errno }),
        ),
        (Stage::QuitClearing, EventView::Written) => Some(
            (SessionView { stage: Stage::QuitQuerying, ..s }, ActionView::Query),
        ),
        (Stage::QuitClearing, EventView::WriteFailed(errno)) => Some(
            abort_spec(s, FatalError { kind: ErrorKind::IoWrite, errno }),
        ),
        (Stage::QuitQuerying, EventView::Attributes(current)) => match s.original {
            Some(original) => Some(
                (
                    SessionView { stage: Stage::QuitRestoring, ..s },
                    ActionView::Apply(restored_spec(current, original)),
                ),
            ),
            None => None,
        },
        (Stage::QuitQuerying, EventView::QueryFailed(errno)) => Some(
            abort_spec(s, FatalError { kind: ErrorKind::TerminalQuery, errno }),
        ),
        (Stage::QuitRestoring, EventView::Applied) => Some(
            (
                SessionView { stage: Stage::Finished, phase: Phase::Restored, ..s },
                ActionView::Exit,
            ),
        ),
        (Stage::QuitRestoring, EventView::ApplyFailed(errno)) => Some(
            abort_spec(s, FatalError { kind: ErrorKind::TerminalSet, errno }),
        ),
        _ => None,
    }
}

impl View for Session {
    type V = SessionView;

    closed spec fn view(&self) -> SessionView {
        SessionView {
            stage: self.stage,
            phase: self.phase,
            original: option_view(self.original),
            layout: self.layout,
            rows: self.rows,
        }
    }
}

impl Action {
    /// The process exit status that this action ends with, if it ends the
    /// process: 0 for an orderly quit, 1 for a fatal error.
    pub fn exit_status(&self) -> (status: Option<i32>)
        ensures
            status == exit_status_spec(self@),
    {
        match self {
            Action::Exit => Some(EXIT_OK),
            Action::Abort { .. } => Some(EXIT_FATAL),
            _ => None,
        }
    }
}

impl Session {
    /// A session that has asked nothing of the terminal yet, for a screen
    /// of `rows` rows.
    pub fn new(layout: TerminalLayout, rows: usize) -> (session: Session)
        ensures
            session@ == (SessionView {
                stage: Stage::Idle,
                phase: Phase::Uncaptured,
                original: None,
                layout,
                rows,
            }),
            session_wf(session@),
    {
        Session { stage: Stage::Idle, phase: Phase::Uncaptured, original: None, layout, rows }
    }

    /// The operation that the session is waiting on.
    pub fn stage(&self) -> (stage: Stage)
        ensures
            stage == self@.stage,
    {
        self.stage
    }

    /// Where the terminal stands between its original and its raw mode.
    pub fn phase(&self) -> (phase: Phase)
        ensures
            phase == self@.phase,
    {
        self.phase
    }

    /// The number of rows drawn per frame.
    pub fn rows(&self) -> (rows: usize)
        ensures
            rows == self@.rows,
    {
        self.rows
    }

    /// The platform layout that the session was made with.
    pub fn layout(&self) -> (layout: TerminalLayout)
        ensures
            layout == self@.layout,
    {
        self.layout
    }

    /// A copy of the captured original attributes, if they were captured.
    pub fn original(&self) -> (original: Option<TerminalAttributes>)
        ensures
            option_view(original) == self@.original,
    {
        match &self.original {
            Some(attributes) => Some(attributes.duplicate()),
            None => None,
        }
    }

    /// The fatal path: ends the session and tells the driver to redraw the
    /// frame, to restore the original attributes if they were captured,
    /// to report `error` and to exit with status 1. Nothing that fails
    /// while the driver does so leads back here.
    pub fn die(&mut self, error: FatalError) -> (action: Action)
        requires
            session_wf(old(self)@),
        ensures
            session_wf(final(self)@),
            (final(self)@, action@) == abort_spec(old(self)@, error),
            exit_status_spec(action@) == Some(1i32),
    {
        let frame = render_frame(self.rows);
        let restore = match &self.original {
            Some(original) => Some(original.duplicate()),
            None => None,
        };
        self.stage = Stage::Finished;
        Action::Abort { frame, restore, error }
    }

    /// Takes the outcome of the last action and decides the next one.
    ///
    /// Returns `None`, and leaves the session as it was, exactly when
    /// `event` does not answer the operation that the session is waiting
    /// on, or when it brings attributes to capture whose control
    /// characters the layout's positions do not fit.
    pub fn step(&mut self, event: Event) -> (outcome: Option<Action>)
        requires
            session_wf(old(self)@),
        ensures
            session_wf(final(self)@),
            match step_spec(old(self)@, event@) {
                Some((next, action)) => outcome is Some && outcome->0@ == action && final(self)@
                    == next,
                None => outcome is None && final(self)@ == old(self)@,
            },
    {
        match self.stage {
            Stage::Idle => match event {
                Event::Start => {
                    self.stage = Stage::Capturing;
                    Some(Action::Query)
                },
                _ => None,
            },
            Stage::Capturing => match event {
                Event::Attributes(attributes) => {
                    if self.layout.check_fits(&attributes) {
                        let raw = raw_mode_attributes(&attributes, &self.layout);
                        self.original = Some(attributes);
                        self.phase = Phase::Captured;
                        self.stage = Stage::EnablingRaw;
                        Some(Action::Apply(raw))
                    } else {
                        None
                    }
                },
                Event::QueryFailed(errno) => Some(
                    self.die(FatalError { kind: ErrorKind::TerminalQuery, errno }),
                ),
                _ => None,
            },
            Stage::EnablingRaw => match event {
                Event::Applied => {
                    self.phase = Phase::Raw;
                    self.stage = Stage::Rendering;
                    Some(Action::Write(render_frame(self.rows)))
                },
                Event::ApplyFailed(errno) => Some(
                    self.die(FatalError { kind: ErrorKind::TerminalSet, errno }),
                ),
                _ => None,
            },
            Stage::Rendering => match event {
                Event::Written => {
                    self.stage = Stage::Reading;
                    Some(Action::ReadKey)
                },
                Event::WriteFailed(errno) => Some(
                    self.die(FatalError { kind: ErrorKind::IoWrite, errno }),
                ),
                _ => None,
            },
            Stage::Reading => match event {
                Event::NoInput => Some(Action::ReadKey),
                Event::Key(byte) => match decode_key(byte) {
                    KeyAction::Quit => {
                        self.stage = Stage::QuitClearing;
                        Some(Action::Write(clear_screen()))
                    },
                    KeyAction::Ignore => {
                        self.stage = Stage::Rendering;
                        Some(Action::Write(render_frame(self.rows)))
                    },
                },
                Event::ReadFailed(errno) => Some(
                    self.die(FatalError { kind: ErrorKind::IoRead, errno }),
                ),
                _ => None,
            },
            Stage::QuitClearing => match event {
                Event::Written => {
                    self.stage = Stage::QuitQuerying;
                    Some(Action::Query)
                },
                Event::WriteFailed(errno) => Some(
                    self.die(FatalError { kind: ErrorKind::IoWrite, errno }),
                ),
                _ => None,
            },
            Stage::QuitQuerying => match event {
                Event::Attributes(current) => match &self.original {
                    Some(original) => {
                        let restored = restored_attributes(&current, original);
                        self.stage = Stage::QuitRestoring;
                        Some(Action::Apply(restored))
                    },
                    None => None,
                },
                Event::QueryFailed(errno) => Some(
                    self.die(FatalError { kind: ErrorKind::TerminalQuery, errno }),
                ),
                _ => None,
            },
            Stage::QuitRestoring => match event {
                Event::Applied => {
                    self.phase = Phase::Restored;
                    self.stage = Stage::Finished;
                    Some(Action::Exit)
                },
                Event::ApplyFailed(errno) => Some(
                    self.die(FatalError { kind: ErrorKind::TerminalSet, errno }),
                ),
                _ => None,
            },
            Stage::Finished => None,
        }
    }
}

/// The event that a read's outcome amounts to: exactly one byte read is a
/// key; any other count is a timeout with no data; a failure carries its
/// error number.
pub open spec fn read_event_spec(outcome: Result<usize, i32>, byte: u8) -> EventView {
    match outcome {
        Ok(count) => if count == 1 {
            EventView::Key(byte)
        } else {
            EventView::NoInput
        },
        Err(errno) => EventView::ReadFailed(errno),
    }
}

/// Classifies the outcome of reading into a one-byte buffer that now
/// holds `byte`.
pub fn read_event(outcome: Result<usize, i32>, byte: u8) -> (event: Event)
    ensures
        event@ == read_event_spec(outcome, byte),
{
    match outcome {
        Ok(count) => if count == 1 {
            Event::Key(byte)
        } else {
            Event::NoInput
        },
        Err(errno) => Event::ReadFailed(errno),
    }
}

/// The state after an accepted event; the state as it is after another.
pub open spec fn state_after(s: SessionView, e: EventView) -> SessionView {
    match step_spec(s, e) {
        Some((next, _)) => next,
        None => s,
    }
}

/// The action that answers an accepted event.
pub open spec fn action_after(s: SessionView, e: EventView) -> ActionView
    recommends
        step_spec(s, e) is Some,
{
    match step_spec(s, e) {
        Some((_, action)) => action,
        None => ActionView::ReadKey,
    }
}

/// How far a phase is along `Uncaptured`, `Captured`, `Raw`, `Restored`.
pub open spec fn phase_rank(phase: Phase) -> nat {
    match phase {
        Phase::Uncaptured => 0,
        Phase::Captured => 1,
        Phase::Raw => 2,
        Phase::Restored => 3,
    }
}

/// Every transition keeps the session's invariant, keeps the layout and
/// the row count, and moves the phase forward or not at all.
pub proof fn lemma_step_keeps_invariant(s: SessionView, e: EventView)
    requires
        session_wf(s),
        step_spec(s, e) is Some,
    ensures
        session_wf(state_after(s, e)),
        state_after(s, e).layout == s.layout,
        state_after(s, e).rows == s.rows,
        phase_rank(s.phase) <= phase_rank(state_after(s, e).phase),
{
}

/// The original attributes are written once: they are captured by the
/// answer to the first query, before anything is applied to the terminal,
/// and no later transition changes them.
pub proof fn lemma_original_written_once(s: SessionView, e: EventView)
    requires
        session_wf(s),
        step_spec(s, e) is Some,
    ensures
        s.original is Some ==> state_after(s, e).original == s.original,
        s.original is None && state_after(s, e).original is Some ==> s.stage == Stage::Capturing
            && e == EventView::Attributes(state_after(s, e).original->0),
        action_after(s, e) is Apply ==> state_after(s, e).original is Some,
{
}

/// A read that times out with zero bytes never ends the wait for a key:
/// the session is unchanged and reads again. The wait ends only on a
/// byte, which is dispatched, or on a read failure, which is fatal.
pub proof fn lemma_read_waits_for_data(s: SessionView, e: EventView)
    requires
        session_wf(s),
        s.stage == Stage::Reading,
        step_spec(s, e) is Some,
    ensures
        e is NoInput ==> step_spec(s, e) == Some((s, ActionView::ReadKey)),
        state_after(s, e).stage != Stage::Reading ==> e is Key || e is ReadFailed,
        e is Key ==> state_after(s, e).stage != Stage::Reading && action_after(s, e) is Write,
        e is ReadFailed ==> step_spec(s, e) == Some(
            abort_spec(s, FatalError { kind: ErrorKind::IoRead, errno: e->ReadFailed_0 }),
        ),
{
}

/// A read's outcome counts as a key exactly when the read succeeded with
/// one byte, and as a failure exactly when the read failed; a successful
/// read of any other count, zero above all, is no input.
pub proof fn lemma_read_event_kinds(outcome: Result<usize, i32>, byte: u8)
    ensures
        read_event_spec(outcome, byte) is Key <==> outcome == Ok::<usize, i32>(1),
        read_event_spec(outcome, byte) is Key ==> read_event_spec(outcome, byte) == EventView::Key(
            byte,
        ),
        read_event_spec(outcome, byte) is ReadFailed <==> outcome is Err,
        outcome == Ok::<usize, i32>(0) ==> read_event_spec(outcome, byte) == EventView::NoInput,
{
}

/// Any byte other than Ctrl-Q changes nothing but the pending operation:
/// the terminal stays in raw mode, the captured original stays, and the
/// next frame is rendered.
pub proof fn lemma_unbound_key_continues(s: SessionView, byte: u8)
    requires
        session_wf(s),
        s.stage == Stage::Reading,
        byte != 0x11,
    ensures
        step_spec(s, EventView::Key(byte)) == Some(
            (
                SessionView { stage: Stage::Rendering, ..s },
                ActionView::Write(frame_spec(s.rows as nat)),
            ),
        ),
        state_after(s, EventView::Key(byte)).phase == Phase::Raw,
        step_spec(
            (SessionView { stage: Stage::Rendering, ..s }),
            EventView::Written,
        ) == Some((s, ActionView::ReadKey)),
{
}

/// Ctrl-Q while every operation succeeds: the screen is cleared once, the
/// attributes are queried, the captured original is applied in all five
/// tracked fields whatever the query returned, and the session ends with
/// exit status 0 and the terminal restored.
pub proof fn lemma_quit_restores(s: SessionView, current: AttributesView)
    requires
        session_wf(s),
        s.stage == Stage::Reading,
    ensures
        ({
            let cleared = state_after(s, EventView::Key(0x11u8));
            let queried = state_after(cleared, EventView::Written);
            let applied = state_after(queried, EventView::Attributes(current));
            let ended = state_after(applied, EventView::Applied);
            &&& step_spec(s, EventView::Key(0x11u8)) == Some(
                (cleared, ActionView::Write(clear_spec())),
            )
            &&& step_spec(cleared, EventView::Written) == Some((queried, ActionView::Query))
            &&& step_spec(queried, EventView::Attributes(current)) == Some(
                (applied, ActionView::Apply(s.original->0)),
            )
            &&& step_spec(applied, EventView::Applied) == Some((ended, ActionView::Exit))
            &&& exit_status_spec(ActionView::Exit) == Some(0i32)
            &&& ended == (SessionView { stage: Stage::Finished, phase: Phase::Restored, ..s })
        }),
{
}

/// From a fresh session to the quit key with every operation succeeding:
/// start-up captures `original` and applies the raw-mode attributes derived
/// from it, and Ctrl-Q at the first read, with the terminal still holding
/// those raw attributes, applies exactly `original` again.
pub proof fn lemma_raw_then_restore(layout: TerminalLayout, rows: usize, original: AttributesView)
    requires
        layout.fits(original),
    ensures
        ({
            let idle = SessionView {
                stage: Stage::Idle,
                phase: Phase::Uncaptured,
                original: None,
                layout,
                rows,
            };
            let raw = raw_spec(original, layout);
            let capturing = state_after(idle, EventView::Start);
            let enabling = state_after(capturing, EventView::Attributes(original));
            let rendering = state_after(enabling, EventView::Applied);
            let reading = state_after(rendering, EventView::Written);
            let clearing = state_after(reading, EventView::Key(0x11u8));
            let querying = state_after(clearing, EventView::Written);
            &&& session_wf(idle)
            &&& step_spec(idle, EventView::Start) == Some((capturing, ActionView::Query))
            &&& step_spec(capturing, EventView::Attributes(original)) == Some(
                (enabling, ActionView::Apply(raw)),
            )
            &&& enabling.original == Some(original)
            &&& reading.stage == Stage::Reading && reading.phase == Phase::Raw
            &&& step_spec(querying, EventView::Attributes(raw)) == Some(
                (
                    SessionView { stage: Stage::QuitRestoring, ..querying },
                    ActionView::Apply(original),
                ),
            )
        }),
{
}

/// Every transition that ends the process restores the terminal: an
/// orderly exit comes only as the answer to a successful apply of the
/// original attributes, and a fatal exit tells the driver to restore them
/// whenever they were captured. After either, no event is accepted.
pub proof fn lemma_exit_restores(s: SessionView, e: EventView)
    requires
        session_wf(s),
        step_spec(s, e) is Some,
        exit_status_spec(action_after(s, e)) is Some,
    ensures
        state_after(s, e).stage == Stage::Finished,
        forall|later: EventView| #[trigger] step_spec(state_after(s, e), later) is None,
        action_after(s, e) is Exit ==> s.stage == Stage::QuitRestoring && e is Applied
            && state_after(s, e).phase == Phase::Restored,
        action_after(s, e) is Abort ==> action_after(s, e)->restore == s.original
            && action_after(s, e)->frame == frame_spec(s.rows as nat),
{
}

} // verus!
