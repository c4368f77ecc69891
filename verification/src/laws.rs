//! What holds of the editor over whole runs of moves, edits and reports.

use vstd::prelude::*;
use crate::buffer::BufferState;
use crate::key::{arrow, meaning, Action, Direction, KeyCode, KeyEvent, QUIT_KEY, SAVE_KEY};
use crate::layout::{
    clamp, last_row, lemma_edge_rows, lemma_position, lemma_row_begins, lemma_same_row,
    lemma_stepped, row_width, stepped, unbroken,
};
use crate::session::{Command, EditorState, Phase, Report, SessionOutcome};

verus! {

/// A run of steps, as the actions that ask for them.
pub open spec fn as_moves(steps: Seq<Direction>) -> Seq<Action> {
    steps.map_values(|direction: Direction| Action::MoveCursor(direction))
}

/// Where a row and a column end up when the unit step of each move is added in
/// turn and the sum is clamped to the document after every addition: the row to
/// the rows there are, the column to the width of the row arrived at.
pub open spec fn paced(text: Seq<char>, row: int, column: int, steps: Seq<Direction>) -> (int, int)
    decreases steps.len(),
{
    if steps.len() == 0 {
        (row, column)
    } else {
        let (r, c) = paced(text, row, column, steps.drop_last());
        let landed = clamp(r + steps.last().row_delta(), 0, last_row(text));
        (landed, clamp(c + steps.last().column_delta(), 0, row_width(text, landed)))
    }
}

/// However many moves are made, in whatever directions, the text is untouched,
/// the cursor stays inside the document, and its row and column are the clamped
/// sum of the moves' unit steps.
pub proof fn moves_add_up_clamped(buffer: BufferState, steps: Seq<Direction>)
    requires
        buffer.well_formed(),
    ensures
        buffer.edited(as_moves(steps)).text == buffer.text,
        buffer.edited(as_moves(steps)).well_formed(),
        (buffer.edited(as_moves(steps)).row(), buffer.edited(as_moves(steps)).column()) == paced(
            buffer.text,
            buffer.row(),
            buffer.column(),
            steps,
        ),
    decreases steps.len(),
{
    if steps.len() > 0 {
        let direction = steps.last();
        assert(as_moves(steps).drop_last() == as_moves(steps.drop_last()));
        assert(as_moves(steps).last() == Action::MoveCursor(direction));
        moves_add_up_clamped(buffer, steps.drop_last());
        let before = buffer.edited(as_moves(steps.drop_last()));
        lemma_stepped(buffer.text, before.cursor, direction);
        lemma_edge_rows(buffer.text, before.cursor);
        let row = clamp(before.row() + direction.row_delta(), 0, last_row(buffer.text));
        lemma_row_begins(buffer.text, row);
        let column = clamp(
            before.column() + direction.column_delta(),
            0,
            row_width(buffer.text, row),
        );
        lemma_position(buffer.text, row, column);
    }
}

/// In a document of a single row the cursor's offset is its column: a step adds
/// the move's unit step along the row to the offset and clamps the sum to the
/// document, from zero to its length. Steps up and down change nothing.
pub proof fn single_row_steps_clamp_the_offset(text: Seq<char>, cursor: int, direction: Direction)
    requires
        0 <= cursor <= text.len(),
        unbroken(text, 0, text.len() as int),
    ensures
        stepped(text, cursor, direction) == clamp(
            cursor + direction.column_delta(),
            0,
            text.len() as int,
        ),
{
    lemma_stepped(text, cursor, direction);
    lemma_same_row(text, 0, cursor);
    lemma_same_row(text, cursor, text.len() as int);
}

/// The insertions among a run of actions, each with the offset the cursor had
/// when its turn came.
pub open spec fn insertions(buffer: BufferState, actions: Seq<Action>) -> Seq<(int, char)>
    decreases actions.len(),
{
    if actions.len() == 0 {
        Seq::empty()
    } else {
        let earlier = insertions(buffer, actions.drop_last());
        match actions.last() {
            Action::InsertChar(c) => earlier.push((buffer.edited(actions.drop_last()).cursor, c)),
            _ => earlier,
        }
    }
}

/// A text after recorded insertions are made in it, first to last.
pub open spec fn replayed(text: Seq<char>, log: Seq<(int, char)>) -> Seq<char>
    decreases log.len(),
{
    if log.len() == 0 {
        text
    } else {
        replayed(text, log.drop_last()).insert(log.last().0, log.last().1)
    }
}

/// After any run of moves and insertions the text is the loaded text with each
/// inserted character put in where the cursor stood when it was typed, in the
/// order of typing; the cursor is still inside the document.
pub proof fn text_is_loaded_text_with_insertions(buffer: BufferState, actions: Seq<Action>)
    requires
        buffer.well_formed(),
    ensures
        buffer.edited(actions).well_formed(),
        buffer.edited(actions).text == replayed(buffer.text, insertions(buffer, actions)),
        buffer.edited(actions).text.len() == buffer.text.len() + insertions(buffer, actions).len(),
    decreases actions.len(),
{
    if actions.len() > 0 {
        text_is_loaded_text_with_insertions(buffer, actions.drop_last());
        let before = buffer.edited(actions.drop_last());
        let earlier = insertions(buffer, actions.drop_last());
        match actions.last() {
            Action::MoveCursor(direction) => {
                lemma_stepped(before.text, before.cursor, direction);
            },
            Action::InsertChar(c) => {
                assert(earlier.push((before.cursor, c)).drop_last() == earlier);
            },
            _ => {},
        }
    }
}

/// None of the reports is a key that types a character.
pub open spec fn types_nothing(reports: Seq<Report>) -> bool {
    forall|i: int|
        0 <= i < reports.len() ==> !(#[trigger] reports[i] matches Report::Key(event) && meaning(
            event,
        ) is InsertChar)
}

/// A session in which nothing is typed keeps the text it was opened with, up to
/// and including the moment it is stored.
pub proof fn untyped_text_is_kept(session: EditorState, reports: Seq<Report>)
    requires
        types_nothing(reports),
    ensures
        session.run(reports).buffer.text == session.buffer.text,
    decreases reports.len(),
{
    if reports.len() > 0 {
        assert(types_nothing(reports.drop_last())) by {
            assert forall|i: int| 0 <= i < reports.drop_last().len() implies !(
            #[trigger] reports.drop_last()[i] matches Report::Key(event) && meaning(
                event,
            ) is InsertChar) by {
                assert(reports.drop_last()[i] == reports[i]);
            }
        }
        untyped_text_is_kept(session, reports.drop_last());
        assert(reports.last() == reports[reports.len() - 1]);
    }
}

/// One answered command keeps a session well formed, and an outcome that is
/// settled stays as it is.
pub proof fn step_keeps_session_sound(session: EditorState, report: Report)
    requires
        session.well_formed(),
    ensures
        session.next(report).well_formed(),
        session.outcome is Some ==> session.next(report).outcome == session.outcome,
{
    if let Report::Key(event) = report {
        if let Action::MoveCursor(direction) = meaning(event) {
            lemma_stepped(session.buffer.text, session.buffer.cursor, direction);
        }
    }
}

/// Every session stays well formed however it is driven; its outcome, once
/// settled, is never revisited; and the document is only ever stored in a
/// session whose outcome is to persist the changes.
pub proof fn sessions_stay_sound(session: EditorState, reports: Seq<Report>)
    requires
        session.well_formed(),
    ensures
        session.run(reports).well_formed(),
        session.outcome is Some ==> session.run(reports).outcome == session.outcome,
        session.performed(reports).len() == reports.len(),
        session.performed(reports).contains(Command::Store) ==> session.run(reports).outcome
            == Some(SessionOutcome::PersistChanges),
    decreases reports.len(),
{
    if reports.len() > 0 {
        let before = session.run(reports.drop_last());
        let earlier = session.performed(reports.drop_last());
        sessions_stay_sound(session, reports.drop_last());
        step_keeps_session_sound(before, reports.last());
        if session.performed(reports).contains(Command::Store) {
            let i = choose|i: int|
                0 <= i < session.performed(reports).len() && session.performed(reports)[i]
                    == Command::Store;
            if i < earlier.len() {
                assert(earlier[i] == Command::Store);
            }
        }
    }
}

/// A session that ends by discarding the changes never told its caller to
/// store the document, whatever was edited before: the file is as it was.
pub proof fn discarding_stores_nothing(text: Seq<char>, reports: Seq<Report>)
    ensures
        EditorState::opened(text).run(reports).outcome == Some(SessionOutcome::DiscardChanges)
            ==> !EditorState::opened(text).performed(reports).contains(Command::Store),
{
    sessions_stay_sound(EditorState::opened(text), reports);
}

/// Every command of a run went well.
pub open spec fn went_well(session: EditorState, reports: Seq<Report>) -> bool
    decreases reports.len(),
{
    reports.len() == 0 || (went_well(session, reports.drop_last()) && session.run(
        reports.drop_last(),
    ).served_by(reports.last()))
}

/// A session ends with a failure, and so with a status other than zero,
/// exactly if one of its commands failed.
pub proof fn session_fails_exactly_if_a_command_failed(text: Seq<char>, reports: Seq<Report>)
    ensures
        EditorState::opened(text).run(reports).error is None <==> went_well(
            EditorState::opened(text),
            reports,
        ),
    decreases reports.len(),
{
    if reports.len() > 0 {
        session_fails_exactly_if_a_command_failed(text, reports.drop_last());
        sessions_stay_sound(EditorState::opened(text), reports.drop_last());
    }
}

/// None of the reports is a key that asks to save or to quit.
pub open spec fn asks_no_end(reports: Seq<Report>) -> bool {
    forall|i: int|
        0 <= i < reports.len() ==> !(#[trigger] reports[i] matches Report::Key(event) && (meaning(
            event,
        ) == Action::RequestSave || meaning(event) == Action::RequestDiscardAndQuit))
}

/// The editing ends in two ways only: a key asks for it, or a command fails.
/// As long as neither happens the session goes on editing, with no outcome.
pub proof fn editing_ends_only_on_request(session: EditorState, reports: Seq<Report>)
    requires
        session.well_formed(),
        session.phase() == Phase::Editing,
        went_well(session, reports),
        asks_no_end(reports),
    ensures
        session.run(reports).phase() == Phase::Editing,
        session.run(reports).outcome is None,
    decreases reports.len(),
{
    if reports.len() > 0 {
        assert(asks_no_end(reports.drop_last())) by {
            assert forall|i: int| 0 <= i < reports.drop_last().len() implies !(
            #[trigger] reports.drop_last()[i] matches Report::Key(event) && (meaning(event)
                == Action::RequestSave || meaning(event) == Action::RequestDiscardAndQuit)) by {
                assert(reports.drop_last()[i] == reports[i]);
            }
        }
        editing_ends_only_on_request(session, reports.drop_last());
        sessions_stay_sound(session, reports.drop_last());
        assert(reports.last() == reports[reports.len() - 1]);
    }
}

/// How often a command occurs in a run of commands.
pub open spec fn times(commands: Seq<Command>, wanted: Command) -> nat
    decreases commands.len(),
{
    if commands.len() == 0 {
        0
    } else if commands.last() == wanted {
        times(commands.drop_last(), wanted) + 1
    } else {
        times(commands.drop_last(), wanted)
    }
}

/// How often raw mode was entered in a run: the requests to enter it that were
/// answered as done.
pub open spec fn raw_entries(session: EditorState, reports: Seq<Report>) -> nat
    decreases reports.len(),
{
    if reports.len() == 0 {
        0
    } else if session.run(reports.drop_last()).pending == Command::EnterRawMode
        && reports.last() == Report::Done {
        raw_entries(session, reports.drop_last()) + 1
    } else {
        raw_entries(session, reports.drop_last())
    }
}

/// Raw mode is left exactly as often as it was entered, on every path through
/// a session.
///
/// The caller is asked to enter raw mode once, first of all. However the
/// session goes on from there, the number of times raw mode was entered is the
/// number of times the caller was asked to leave it, plus one while the
/// terminal is still in raw mode: so in a closed session the two are equal. A
/// session that reached an outcome, by a save, a discard or a failure on the
/// way, entered raw mode once, and once closed has left it once.
pub proof fn raw_mode_is_left_as_often_as_entered(text: Seq<char>, reports: Seq<Report>)
    ensures
        ({
            let start = EditorState::opened(text);
            let end = start.run(reports);
            let asked_to_enter = times(start.performed(reports), Command::EnterRawMode);
            let asked_to_leave = times(start.performed(reports), Command::LeaveRawMode);
            let entered = raw_entries(start, reports);
            &&& asked_to_enter == if end.phase() == Phase::Loaded {
                0nat
            } else {
                1nat
            }
            &&& entered <= asked_to_enter
            &&& entered == asked_to_leave + if end.in_raw_mode() {
                1nat
            } else {
                0nat
            }
            &&& end.outcome is Some ==> entered == 1
        }),
    decreases reports.len(),
{
    if reports.len() > 0 {
        let start = EditorState::opened(text);
        raw_mode_is_left_as_often_as_entered(text, reports.drop_last());
        sessions_stay_sound(start, reports.drop_last());
        assert(start.performed(reports).drop_last() == start.performed(reports.drop_last()));
    }
}

/// Waiting in vain changes nothing: while a session waits for a key, any number
/// of polls that run out leave it exactly as it was, and all that the caller
/// was told to do meanwhile is to poll again.
pub proof fn idle_polls_change_nothing(session: EditorState, reports: Seq<Report>)
    requires
        session.pending == Command::PollKey,
        forall|i: int| 0 <= i < reports.len() ==> reports[i] == Report::Idle,
    ensures
        session.run(reports) == session,
        session.performed(reports) == Seq::new(reports.len(), |i: int| Command::PollKey),
    decreases reports.len(),
{
    if reports.len() > 0 {
        idle_polls_change_nothing(session, reports.drop_last());
        assert(reports.last() == Report::Idle);
    }
}

/// A key pressed with Control that is neither an arrow nor the save or the quit
/// character means nothing, and a key that means nothing leaves the session as
/// it was: document, cursor and phase. The session goes on waiting for keys.
pub proof fn unrecognized_key_is_ignored(session: EditorState, event: KeyEvent)
    ensures
        event.modifiers.control && arrow(event.code) is None && event.code != KeyCode::Char(
            SAVE_KEY,
        ) && event.code != KeyCode::Char(QUIT_KEY) ==> meaning(event) == Action::Noop,
        meaning(event) == Action::Noop ==> session.keyed(event) == session,
        meaning(event) == Action::Noop && session.pending == Command::PollKey ==> session.next(
            Report::Key(event),
        ) == session,
{
}

} // verus!
