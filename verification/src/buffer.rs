//! The document being edited, and the cursor in it.

use vstd::prelude::*;
use crate::key::{Action, Direction};
use crate::layout::{
    column_of, lemma_stepped, line_end, line_start, row_of, shown, stepped, CARRIAGE_RETURN,
    LINE_BREAK,
};

verus! {

/// What a buffer holds: the characters of the document, and the cursor as an
/// offset into them.
pub struct BufferState {
    pub text: Seq<char>,
    pub cursor: int,
}

impl BufferState {
    /// The cursor lies in the text or right after its last character.
    pub open spec fn well_formed(self) -> bool {
        0 <= self.cursor <= self.text.len()
    }

    /// A freshly loaded document, with the cursor on its first character.
    pub open spec fn loaded(text: Seq<char>) -> BufferState {
        BufferState { text, cursor: 0 }
    }

    /// The row the cursor is on.
    pub open spec fn row(self) -> int {
        row_of(self.text, self.cursor)
    }

    /// The column the cursor is in.
    pub open spec fn column(self) -> int {
        column_of(self.text, self.cursor)
    }

    /// The cursor taken one step; a step off the document leaves it in place.
    pub open spec fn moved(self, direction: Direction) -> BufferState {
        BufferState { text: self.text, cursor: stepped(self.text, self.cursor, direction) }
    }

    /// The character put in at the cursor, and the cursor taken past it.
    pub open spec fn inserted(self, c: char) -> BufferState {
        BufferState { text: self.text.insert(self.cursor, c), cursor: self.cursor + 1 }
    }

    /// What an action does to the document: moves and insertions act on it, the
    /// others leave it alone.
    pub open spec fn applied(self, action: Action) -> BufferState {
        match action {
            Action::MoveCursor(direction) => self.moved(direction),
            Action::InsertChar(c) => self.inserted(c),
            Action::RequestSave | Action::RequestDiscardAndQuit | Action::Noop => self,
        }
    }

    /// What a run of actions does to the document, one after another.
    pub open spec fn edited(self, actions: Seq<Action>) -> BufferState
        decreases actions.len(),
    {
        if actions.len() == 0 {
            self
        } else {
            self.edited(actions.drop_last()).applied(actions.last())
        }
    }
}

/// `String::push`: the string afterwards is the string before with the
/// character appended. Taken on trust from the standard library's documentation.
#[verifier::external_body]
fn push_char(text: &mut String, c: char)
    ensures
        final(text)@ == old(text)@.push(c),
{
    text.push(c);
}

/// The document in memory, with the cursor.
pub struct Buffer {
    text: Vec<char>,
    cursor: usize,
}

impl View for Buffer {
    type V = BufferState;

    closed spec fn view(&self) -> BufferState {
        BufferState { text: self.text@, cursor: self.cursor as int }
    }
}

impl Buffer {
    #[verifier::type_invariant]
    spec fn cursor_in_text(self) -> bool {
        self.cursor <= self.text.len()
    }

    /// Loads a document. The cursor starts on its first character.
    pub fn from_text(text: &str) -> (buffer: Buffer)
        ensures
            buffer@ == BufferState::loaded(text@),
    {
        let mut chars: Vec<char> = Vec::new();
        for c in it: text.chars()
            invariant
                it.seq() == text@,
                chars@ == text@.take(it.index()),
        {
            chars.push(c);
        }
        assert(text@.take(text@.len() as int) == text@);
        Buffer { text: chars, cursor: 0 }
    }

    /// The number of characters in the document.
    pub fn len(&self) -> (n: usize)
        ensures
            n == self@.text.len(),
    {
        self.text.len()
    }

    /// The cursor, as an offset into the document. It never lies past the end.
    pub fn cursor(&self) -> (offset: usize)
        ensures
            offset == self@.cursor,
            self@.well_formed(),
    {
        proof {
            use_type_invariant(self);
        }
        self.cursor
    }

    fn start_of_line(&self, pos: usize) -> (start: usize)
        requires
            pos <= self.text.len(),
        ensures
            start == line_start(self.text@, pos as int),
            start <= pos,
    {
        let mut start: usize = pos;
        while start > 0 && self.text[start - 1] != LINE_BREAK
            invariant
                start <= pos <= self.text.len(),
                line_start(self.text@, start as int) == line_start(self.text@, pos as int),
            decreases start,
        {
            start -= 1;
        }
        start
    }

    fn end_of_line(&self, pos: usize) -> (end: usize)
        requires
            pos <= self.text.len(),
        ensures
            end == line_end(self.text@, pos as int),
            pos <= end <= self.text.len(),
    {
        let mut end: usize = pos;
        while end < self.text.len() && self.text[end] != LINE_BREAK
            invariant
                pos <= end <= self.text.len(),
                line_end(self.text@, end as int) == line_end(self.text@, pos as int),
            decreases self.text.len() - end,
        {
            end += 1;
        }
        end
    }

    /// The row the cursor is on, counted from zero.
    pub fn row(&self) -> (row: usize)
        ensures
            row == self@.row(),
    {
        proof {
            use_type_invariant(self);
        }
        let mut row: usize = 0;
        let mut pos: usize = 0;
        while pos < self.cursor
            invariant
                pos <= self.cursor <= self.text.len(),
                row == row_of(self.text@, pos as int),
                row <= pos,
            decreases self.cursor - pos,
        {
            if self.text[pos] == LINE_BREAK {
                row += 1;
            }
            pos += 1;
        }
        row
    }

    /// The column the cursor is in, counted from zero.
    pub fn column(&self) -> (column: usize)
        ensures
            column == self@.column(),
    {
        proof {
            use_type_invariant(self);
        }
        self.cursor - self.start_of_line(self.cursor)
    }

    /// Takes the cursor one step in the given direction, and says whether it
    /// went anywhere. At an edge of the document it stays where it is.
    pub fn apply_move(&mut self, direction: Direction) -> (moved: bool)
        ensures
            final(self)@ == old(self)@.moved(direction),
            final(self)@.well_formed(),
            moved == (final(self)@.cursor != old(self)@.cursor),
    {
        proof {
            use_type_invariant(&*self);
            lemma_stepped(self.text@, self.cursor as int, direction);
        }
        let cursor: usize = self.cursor;
        let start: usize = self.start_of_line(cursor);
        let target: usize = match direction {
            Direction::Left => if start < cursor {
                cursor - 1
            } else {
                cursor
            },
            Direction::Right => if cursor < self.end_of_line(cursor) {
                cursor + 1
            } else {
                cursor
            },
            Direction::Up => if start == 0 {
                cursor
            } else {
                let above: usize = self.start_of_line(start - 1);
                let column: usize = cursor - start;
                let width: usize = start - 1 - above;
                above + if column <= width {
                    column
                } else {
                    width
                }
            },
            Direction::Down => {
                let end: usize = self.end_of_line(cursor);
                if end == self.text.len() {
                    cursor
                } else {
                    let below: usize = end + 1;
                    let column: usize = cursor - start;
                    let width: usize = self.end_of_line(below) - below;
                    below + if column <= width {
                        column
                    } else {
                        width
                    }
                }
            },
        };
        self.cursor = target;
        target != cursor
    }

    /// Puts a character in at the cursor and takes the cursor past it.
    pub fn apply_insert(&mut self, c: char)
        ensures
            final(self)@ == old(self)@.inserted(c),
            final(self)@.well_formed(),
    {
        proof {
            use_type_invariant(&*self);
        }
        // The characters are taken out for the insertion, so that the buffer is
        // whole at every moment: an empty one with the cursor at its start.
        let cursor: usize = self.cursor;
        let mut text: Vec<char> = Vec::new();
        self.cursor = 0;
        std::mem::swap(&mut text, &mut self.text);
        text.insert(cursor, c);
        assert(cursor < text.len());
        self.text = text;
        self.cursor = cursor + 1;
    }

    /// Carries out an action on the document. Only moves and insertions touch
    /// it.
    pub fn apply(&mut self, action: Action)
        ensures
            final(self)@ == old(self)@.applied(action),
            final(self)@.well_formed(),
    {
        proof {
            use_type_invariant(&*self);
        }
        match action {
            Action::MoveCursor(direction) => {
                self.apply_move(direction);
            },
            Action::InsertChar(c) => {
                self.apply_insert(c);
            },
            Action::RequestSave | Action::RequestDiscardAndQuit | Action::Noop => {},
        }
    }

    /// What is to be written to a terminal in raw mode, from its top left
    /// corner, for it to show the document.
    pub fn render_refresh(&self) -> (screen: String)
        ensures
            screen@ == shown(self@.text),
    {
        let mut screen = String::new();
        let mut i: usize = 0;
        while i < self.text.len()
            invariant
                i <= self.text.len(),
                screen@ == shown(self.text@.take(i as int)),
            decreases self.text.len() - i,
        {
            assert(self.text@.take(i + 1).drop_last() == self.text@.take(i as int));
            let c: char = self.text[i];
            if c == LINE_BREAK {
                push_char(&mut screen, CARRIAGE_RETURN);
            }
            push_char(&mut screen, c);
            i += 1;
        }
        assert(self.text@.take(self.text@.len() as int) == self.text@);
        screen
    }

    /// The whole document as it now stands.
    pub fn full_text(&self) -> (text: String)
        ensures
            text@ == self@.text,
    {
        let mut text = String::new();
        let mut i: usize = 0;
        while i < self.text.len()
            invariant
                i <= self.text.len(),
                text@ == self.text@.take(i as int),
            decreases self.text.len() - i,
        {
            push_char(&mut text, self.text[i]);
            i += 1;
        }
        assert(self.text@.take(self.text@.len() as int) == self.text@);
        text
    }
}

} // verus!
