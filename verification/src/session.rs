//! The session: from a loaded document to a closed terminal.
//!
//! The editor never touches the terminal or the file. It names the next thing
//! to be done as a [`Command`]; the caller does it and answers with a
//! [`Report`]; the editor decides what follows. Each command is answered by
//! exactly one report, so each is carried out once.

use vstd::prelude::*;
use vstd::string::StringExecFns;
use crate::buffer::{Buffer, BufferState};
use crate::error::{exit_code, exit_status, ErrorKind};
use crate::key::{interpret, meaning, Action, KeyEvent};
use crate::layout::shown;

verus! {

/// Where a session stands.
#[derive(Clone, Copy, Debug, PartialEq, Eq, Structural)]
pub enum Phase {
    /// The document is in memory; the terminal is still in its normal mode.
    Loaded,
    /// Raw mode is on and keys are being taken.
    Editing,
    /// The user asked to save; the document is written, then raw mode is left.
    Saving,
    /// The editing ended without a save; raw mode is left.
    Discarding,
    /// The terminal is back in its normal mode; nothing is left to do.
    Closed,
}

/// What becomes of the edits. It is settled at the moment the editing ends and
/// does not change afterwards.
#[derive(Clone, Copy, Debug, PartialEq, Eq, Structural)]
pub enum SessionOutcome {
    PersistChanges,
    DiscardChanges,
}

/// The next thing the caller is to do for the editor.
#[derive(Clone, Copy, Debug, PartialEq, Eq, Structural)]
pub enum Command {
    /// Put the terminal into raw mode.
    EnterRawMode,
    /// Clear the screen, write the document and the help line, and put the
    /// terminal's cursor where the document's cursor is.
    Render,
    /// Wait a bounded time for a key.
    PollKey,
    /// Put the terminal's cursor where the document's cursor is.
    MoveCursor,
    /// Replace the file's contents with the document.
    Store,
    /// Put the terminal back into its normal mode.
    LeaveRawMode,
    /// Stop: the session is closed.
    Finish,
}

/// How the command went that the editor was waiting for.
#[derive(Clone, Copy, Debug, PartialEq, Eq, Structural)]
pub enum Report {
    /// It was carried out.
    Done,
    /// It failed.
    Failed,
    /// The wait for a key ended with this key.
    Key(KeyEvent),
    /// The wait for a key ran out with nothing pressed.
    Idle,
}

/// The line shown under the document.
pub const HELP_LINE: &'static str = "Press Ctrl+S to save, Ctrl+C to quit.";

/// What separates the document from the help line on the screen.
pub const LINE_ENDING: &'static str = "\r\n";

/// The whole screen for a document: the document as it shows on a terminal in
/// raw mode, and the help line on a row of its own below it.
pub open spec fn screen_of(text: Seq<char>) -> Seq<char> {
    shown(text) + LINE_ENDING@ + HELP_LINE@
}

/// Everything a session consists of.
pub struct EditorState {
    pub buffer: BufferState,
    /// The command the editor is waiting to hear about.
    pub pending: Command,
    pub outcome: Option<SessionOutcome>,
    /// The first failure of the session, if there was one.
    pub error: Option<ErrorKind>,
}

impl EditorState {
    /// A session that has loaded its document and done nothing else.
    pub open spec fn opened(text: Seq<char>) -> EditorState {
        EditorState {
            buffer: BufferState::loaded(text),
            pending: Command::EnterRawMode,
            outcome: None,
            error: None,
        }
    }

    /// The phase, read off the command that is pending.
    pub open spec fn phase(self) -> Phase {
        match self.pending {
            Command::EnterRawMode => Phase::Loaded,
            Command::Render | Command::PollKey | Command::MoveCursor => Phase::Editing,
            Command::Store => Phase::Saving,
            Command::LeaveRawMode => if self.outcome == Some(SessionOutcome::PersistChanges) {
                Phase::Saving
            } else {
                Phase::Discarding
            },
            Command::Finish => Phase::Closed,
        }
    }

    /// The terminal is in raw mode: from the moment it was entered until the
    /// request to leave it has been answered.
    pub open spec fn in_raw_mode(self) -> bool {
        self.phase() != Phase::Loaded && self.phase() != Phase::Closed
    }

    /// What holds of every session however it got where it is: the cursor is in
    /// the document; while the editing lasts nothing is settled and nothing has
    /// failed; the document is only stored when that was asked for; and raw
    /// mode is only left once the outcome is settled.
    pub open spec fn well_formed(self) -> bool {
        &&& self.buffer.well_formed()
        &&& self.phase() == Phase::Loaded || self.phase() == Phase::Editing ==> self.outcome is None
            && self.error is None
        &&& self.pending == Command::Store ==> self.outcome == Some(SessionOutcome::PersistChanges)
            && self.error is None
        &&& self.pending == Command::LeaveRawMode ==> self.outcome is Some
    }

    /// The same session waiting for another command.
    pub open spec fn awaiting(self, pending: Command) -> EditorState {
        EditorState { pending, ..self }
    }

    /// The same session with a failure noted. The first failure is the one
    /// that is kept.
    pub open spec fn failed(self, kind: ErrorKind) -> EditorState {
        EditorState {
            error: if self.error is None {
                Some(kind)
            } else {
                self.error
            },
            ..self
        }
    }

    /// The editing broken off because the terminal failed: nothing is saved,
    /// and raw mode is left next.
    pub open spec fn abandoned(self) -> EditorState {
        EditorState {
            pending: Command::LeaveRawMode,
            outcome: Some(SessionOutcome::DiscardChanges),
            ..self.failed(ErrorKind::TerminalModeError)
        }
    }

    /// What an action does to a session that is waiting for a key.
    pub open spec fn acted(self, action: Action) -> EditorState {
        match action {
            Action::MoveCursor(direction) => {
                let buffer = self.buffer.moved(direction);
                EditorState {
                    buffer,
                    pending: if buffer.cursor != self.buffer.cursor {
                        Command::MoveCursor
                    } else {
                        Command::PollKey
                    },
                    ..self
                }
            },
            Action::InsertChar(c) => EditorState {
                buffer: self.buffer.inserted(c),
                pending: Command::Render,
                ..self
            },
            Action::RequestSave => EditorState {
                pending: Command::Store,
                outcome: Some(SessionOutcome::PersistChanges),
                ..self
            },
            Action::RequestDiscardAndQuit => EditorState {
                pending: Command::LeaveRawMode,
                outcome: Some(SessionOutcome::DiscardChanges),
                ..self
            },
            Action::Noop => self,
        }
    }

    /// What a key does to a session: its meaning is acted on while the session
    /// waits for a key, and at no other time.
    pub open spec fn keyed(self, event: KeyEvent) -> EditorState {
        if self.pending == Command::PollKey {
            self.acted(meaning(event))
        } else {
            self
        }
    }

    /// The session after the pending command was answered.
    ///
    /// A report that cannot be the answer to the pending command counts as its
    /// failure. A closed session stays as it is.
    pub open spec fn next(self, report: Report) -> EditorState {
        match self.pending {
            Command::EnterRawMode => if report == Report::Done {
                self.awaiting(Command::Render)
            } else {
                self.failed(ErrorKind::TerminalModeError).awaiting(Command::Finish)
            },
            Command::Render | Command::MoveCursor => if report == Report::Done {
                self.awaiting(Command::PollKey)
            } else {
                self.abandoned()
            },
            Command::PollKey => match report {
                Report::Key(event) => self.keyed(event),
                Report::Idle => self,
                Report::Done | Report::Failed => self.abandoned(),
            },
            Command::Store => if report == Report::Done {
                self.awaiting(Command::LeaveRawMode)
            } else {
                self.failed(ErrorKind::FileWriteError).awaiting(Command::LeaveRawMode)
            },
            Command::LeaveRawMode => if report == Report::Done {
                self.awaiting(Command::Finish)
            } else {
                self.failed(ErrorKind::TerminalModeError).awaiting(Command::Finish)
            },
            Command::Finish => self,
        }
    }

    /// The report says that the pending command went well: a key or a wait that
    /// ran out for a poll, plain success for anything else. A closed session
    /// waits for nothing, so nothing can go wrong for it.
    pub open spec fn served_by(self, report: Report) -> bool {
        match self.pending {
            Command::PollKey => report is Key || report is Idle,
            Command::Finish => true,
            _ => report == Report::Done,
        }
    }

    /// The session after a run of reports, each answering the command that was
    /// pending when it came.
    pub open spec fn run(self, reports: Seq<Report>) -> EditorState
        decreases reports.len(),
    {
        if reports.len() == 0 {
            self
        } else {
            self.run(reports.drop_last()).next(reports.last())
        }
    }

    /// The commands that a run of reports answered, in order: what the caller
    /// carried out.
    pub open spec fn performed(self, reports: Seq<Report>) -> Seq<Command>
        decreases reports.len(),
    {
        if reports.len() == 0 {
            Seq::empty()
        } else {
            self.performed(reports.drop_last()).push(self.run(reports.drop_last()).pending)
        }
    }
}

/// One editing session over one document.
pub struct Editor {
    buffer: Buffer,
    pending: Command,
    outcome: Option<SessionOutcome>,
    error: Option<ErrorKind>,
}

impl View for Editor {
    type V = EditorState;

    closed spec fn view(&self) -> EditorState {
        EditorState {
            buffer: self.buffer@,
            pending: self.pending,
            outcome: self.outcome,
            error: self.error,
        }
    }
}

impl Editor {
    /// Starts a session on the contents of a file. Nothing has been asked of
    /// the terminal yet.
    pub fn open(contents: &str) -> (editor: Editor)
        ensures
            editor@ == EditorState::opened(contents@),
    {
        Editor {
            buffer: Buffer::from_text(contents),
            pending: Command::EnterRawMode,
            outcome: None,
            error: None,
        }
    }

    /// The command the caller is to carry out now.
    pub fn pending(&self) -> (command: Command)
        ensures
            command == self@.pending,
    {
        self.pending
    }

    /// Where the session stands.
    pub fn phase(&self) -> (phase: Phase)
        ensures
            phase == self@.phase(),
    {
        match self.pending {
            Command::EnterRawMode => Phase::Loaded,
            Command::Render | Command::PollKey | Command::MoveCursor => Phase::Editing,
            Command::Store => Phase::Saving,
            Command::LeaveRawMode => match self.outcome {
                Some(SessionOutcome::PersistChanges) => Phase::Saving,
                _ => Phase::Discarding,
            },
            Command::Finish => Phase::Closed,
        }
    }

    /// What becomes of the edits, once that is settled.
    pub fn outcome(&self) -> (outcome: Option<SessionOutcome>)
        ensures
            outcome == self@.outcome,
    {
        self.outcome
    }

    /// The first failure of the session, if there was one.
    pub fn error(&self) -> (error: Option<ErrorKind>)
        ensures
            error == self@.error,
    {
        self.error
    }

    /// The status the program is to exit with when the session is over.
    pub fn exit_status(&self) -> (code: i32)
        ensures
            code == exit_code(self@.error),
    {
        exit_status(self.error)
    }

    /// The document and its cursor.
    pub fn buffer(&self) -> (buffer: &Buffer)
        ensures
            buffer@ == self@.buffer,
    {
        &self.buffer
    }

    /// The whole document as it now stands: what is shown, and what is stored.
    pub fn full_text(&self) -> (text: String)
        ensures
            text@ == self@.buffer.text,
    {
        self.buffer.full_text()
    }

    /// What is to be written to the cleared terminal, from its top left corner,
    /// when the editor asks for a render.
    pub fn screen(&self) -> (screen: String)
        ensures
            screen@ == screen_of(self@.buffer.text),
    {
        let mut screen = self.buffer.render_refresh();
        screen.append(LINE_ENDING);
        screen.append(HELP_LINE);
        screen
    }

    fn fail(&mut self, kind: ErrorKind)
        ensures
            final(self)@ == old(self)@.failed(kind),
    {
        if self.error.is_none() {
            self.error = Some(kind);
        }
    }

    fn abandon(&mut self)
        ensures
            final(self)@ == old(self)@.abandoned(),
    {
        self.fail(ErrorKind::TerminalModeError);
        self.outcome = Some(SessionOutcome::DiscardChanges);
        self.pending = Command::LeaveRawMode;
    }

    /// Takes one key. While the session waits for a key, the key is decoded and
    /// acted on: the cursor moves, a character goes in, or the editing ends. At
    /// any other time the key is dropped.
    pub fn process_key(&mut self, key_event: KeyEvent)
        ensures
            final(self)@ == old(self)@.keyed(key_event),
    {
        if self.pending != Command::PollKey {
            return ;
        }
        match interpret(key_event) {
            Action::MoveCursor(direction) => {
                if self.buffer.apply_move(direction) {
                    self.pending = Command::MoveCursor;
                }
            },
            Action::InsertChar(c) => {
                self.buffer.apply_insert(c);
                self.pending = Command::Render;
            },
            Action::RequestSave => {
                self.outcome = Some(SessionOutcome::PersistChanges);
                self.pending = Command::Store;
            },
            Action::RequestDiscardAndQuit => {
                self.outcome = Some(SessionOutcome::DiscardChanges);
                self.pending = Command::LeaveRawMode;
            },
            Action::Noop => {},
        }
    }

    /// Takes the answer to the pending command and settles what comes next.
    pub fn advance(&mut self, report: Report)
        ensures
            final(self)@ == old(self)@.next(report),
    {
        let done: bool = report == Report::Done;
        match self.pending {
            Command::EnterRawMode => {
                if done {
                    self.pending = Command::Render;
                } else {
                    self.fail(ErrorKind::TerminalModeError);
                    self.pending = Command::Finish;
                }
            },
            Command::Render | Command::MoveCursor => {
                if done {
                    self.pending = Command::PollKey;
                } else {
                    self.abandon();
                }
            },
            Command::PollKey => match report {
                Report::Key(event) => self.process_key(event),
                Report::Idle => {},
                Report::Done | Report::Failed => self.abandon(),
            },
            Command::Store => {
                if !done {
                    self.fail(ErrorKind::FileWriteError);
                }
                self.pending = Command::LeaveRawMode;
            },
            Command::LeaveRawMode => {
                if !done {
                    self.fail(ErrorKind::TerminalModeError);
                }
                self.pending = Command::Finish;
            },
            Command::Finish => {},
        }
    }

    /// Plays a session forward through a run of reports, each taken as the
    /// answer to the command then pending, and returns those commands in order.
    pub fn run(&mut self, reports: &Vec<Report>) -> (commands: Vec<Command>)
        ensures
            final(self)@ == old(self)@.run(reports@),
            commands@ == old(self)@.performed(reports@),
    {
        let mut commands: Vec<Command> = Vec::new();
        let mut i: usize = 0;
        while i < reports.len()
            invariant
                i <= reports.len(),
                self@ == old(self)@.run(reports@.take(i as int)),
                commands@ == old(self)@.performed(reports@.take(i as int)),
            decreases reports.len() - i,
        {
            assert(reports@.take(i + 1).drop_last() == reports@.take(i as int));
            commands.push(self.pending);
            self.advance(reports[i]);
            i += 1;
        }
        assert(reports@.take(reports@.len() as int) == reports@);
        commands
    }
}

} // verus!
