use tiny_editor::buffer::Buffer;
use tiny_editor::key::{Action, Direction};

const SAMPLE: &str = "ab\ncde\n\nf";

fn walk(buffer: &mut Buffer, steps: &[Direction]) {
    for step in steps {
        buffer.apply_move(*step);
    }
}

#[test]
fn loading_keeps_the_text_and_starts_at_the_top() {
    let buffer = Buffer::from_text(SAMPLE);
    assert_eq!(buffer.full_text(), SAMPLE);
    assert_eq!(buffer.len(), 9);
    assert_eq!(buffer.cursor(), 0);
    assert_eq!(buffer.row(), 0);
    assert_eq!(buffer.column(), 0);
}

#[test]
fn empty_document_has_one_empty_row() {
    let mut buffer = Buffer::from_text("");
    assert_eq!(buffer.len(), 0);
    for step in [Direction::Up, Direction::Down, Direction::Left, Direction::Right] {
        assert!(!buffer.apply_move(step));
        assert_eq!(buffer.cursor(), 0);
    }
    assert_eq!(buffer.full_text(), "");
}

#[test]
fn length_counts_characters_not_bytes() {
    let buffer = Buffer::from_text("h\u{e9}llo \u{4e16}\u{754c}");
    assert_eq!(buffer.len(), 8);
    assert_eq!(buffer.full_text(), "h\u{e9}llo \u{4e16}\u{754c}");
}

#[test]
fn right_stops_at_the_end_of_the_row() {
    let mut buffer = Buffer::from_text(SAMPLE);
    assert!(buffer.apply_move(Direction::Right));
    assert_eq!(buffer.cursor(), 1);
    assert!(buffer.apply_move(Direction::Right));
    assert_eq!(buffer.cursor(), 2);
    assert!(!buffer.apply_move(Direction::Right));
    assert_eq!(buffer.cursor(), 2);
    assert_eq!((buffer.row(), buffer.column()), (0, 2));
}

#[test]
fn left_stops_at_the_start_of_the_row() {
    let mut buffer = Buffer::from_text(SAMPLE);
    walk(&mut buffer, &[Direction::Down, Direction::Right]);
    assert_eq!(buffer.cursor(), 4);
    assert!(buffer.apply_move(Direction::Left));
    assert_eq!(buffer.cursor(), 3);
    assert!(!buffer.apply_move(Direction::Left));
    assert_eq!(buffer.cursor(), 3);
    assert_eq!((buffer.row(), buffer.column()), (1, 0));
}

#[test]
fn up_stops_at_the_first_row() {
    let mut buffer = Buffer::from_text(SAMPLE);
    buffer.apply_move(Direction::Right);
    assert!(!buffer.apply_move(Direction::Up));
    assert_eq!(buffer.cursor(), 1);
}

#[test]
fn down_stops_at_the_last_row() {
    let mut buffer = Buffer::from_text(SAMPLE);
    walk(&mut buffer, &[Direction::Down, Direction::Down, Direction::Down]);
    assert_eq!(buffer.cursor(), 8);
    assert_eq!((buffer.row(), buffer.column()), (3, 0));
    assert!(!buffer.apply_move(Direction::Down));
    assert_eq!(buffer.cursor(), 8);
}

#[test]
fn down_keeps_the_column_where_the_row_is_wide_enough() {
    let mut buffer = Buffer::from_text(SAMPLE);
    walk(&mut buffer, &[Direction::Right, Direction::Right, Direction::Down]);
    assert_eq!(buffer.cursor(), 5);
    assert_eq!((buffer.row(), buffer.column()), (1, 2));
}

#[test]
fn down_pulls_the_column_into_a_shorter_row() {
    let mut buffer = Buffer::from_text(SAMPLE);
    walk(
        &mut buffer,
        &[Direction::Down, Direction::Right, Direction::Right, Direction::Right],
    );
    assert_eq!(buffer.cursor(), 6);
    assert!(buffer.apply_move(Direction::Down));
    assert_eq!(buffer.cursor(), 7);
    assert_eq!((buffer.row(), buffer.column()), (2, 0));
}

#[test]
fn up_pulls_the_column_into_a_shorter_row() {
    let mut buffer = Buffer::from_text(SAMPLE);
    walk(
        &mut buffer,
        &[Direction::Down, Direction::Right, Direction::Right, Direction::Right, Direction::Up],
    );
    assert_eq!(buffer.cursor(), 2);
    assert_eq!((buffer.row(), buffer.column()), (0, 2));
}

#[test]
fn a_long_walk_follows_the_clamped_steps() {
    let mut buffer = Buffer::from_text(SAMPLE);
    let steps = [
        (Direction::Right, 1),
        (Direction::Right, 2),
        (Direction::Right, 2),
        (Direction::Down, 5),
        (Direction::Right, 6),
        (Direction::Right, 6),
        (Direction::Down, 7),
        (Direction::Down, 8),
        (Direction::Down, 8),
        (Direction::Right, 9),
        (Direction::Right, 9),
        (Direction::Up, 7),
        (Direction::Up, 3),
        (Direction::Left, 3),
        (Direction::Up, 0),
        (Direction::Up, 0),
        (Direction::Left, 0),
    ];
    for (step, expected) in steps {
        let before = buffer.cursor();
        let moved = buffer.apply_move(step);
        assert_eq!(buffer.cursor(), expected);
        assert_eq!(moved, before != expected);
        assert!(buffer.cursor() <= buffer.len());
    }
    assert_eq!(buffer.full_text(), SAMPLE);
}

#[test]
fn repeated_moves_never_leave_the_document() {
    let mut buffer = Buffer::from_text(SAMPLE);
    for round in 0..40 {
        let step = match round % 7 {
            0 | 1 | 2 => Direction::Right,
            3 | 4 => Direction::Down,
            5 => Direction::Left,
            _ => Direction::Up,
        };
        buffer.apply_move(step);
        assert!(buffer.cursor() <= buffer.len());
    }
    for _ in 0..20 {
        buffer.apply_move(Direction::Down);
        buffer.apply_move(Direction::Right);
    }
    assert_eq!(buffer.cursor(), 9);
    for _ in 0..20 {
        buffer.apply_move(Direction::Up);
        buffer.apply_move(Direction::Left);
    }
    assert_eq!(buffer.cursor(), 0);
}

#[test]
fn insert_at_the_start_advances_the_cursor() {
    let mut buffer = Buffer::from_text("bc");
    buffer.apply_insert('a');
    assert_eq!(buffer.full_text(), "abc");
    assert_eq!(buffer.cursor(), 1);
    assert_eq!(buffer.len(), 3);
}

#[test]
fn insert_in_the_middle_shifts_the_rest() {
    let mut buffer = Buffer::from_text("held");
    walk(&mut buffer, &[Direction::Right, Direction::Right, Direction::Right]);
    buffer.apply_insert('l');
    buffer.apply_insert('o');
    assert_eq!(buffer.full_text(), "hellod");
    assert_eq!(buffer.cursor(), 5);
}

#[test]
fn insert_at_the_end_appends() {
    let mut buffer = Buffer::from_text("hello");
    for _ in 0..5 {
        buffer.apply_move(Direction::Right);
    }
    for c in " world".chars() {
        buffer.apply_insert(c);
    }
    assert_eq!(buffer.full_text(), "hello world");
    assert_eq!(buffer.cursor(), 11);
}

#[test]
fn insert_into_an_empty_document() {
    let mut buffer = Buffer::from_text("");
    buffer.apply_insert('x');
    assert_eq!(buffer.full_text(), "x");
    assert_eq!(buffer.cursor(), 1);
}

#[test]
fn inserted_line_break_opens_a_row() {
    let mut buffer = Buffer::from_text("ab");
    buffer.apply_move(Direction::Right);
    buffer.apply_insert('\n');
    assert_eq!(buffer.full_text(), "a\nb");
    assert_eq!((buffer.row(), buffer.column()), (1, 0));
    assert!(!buffer.apply_move(Direction::Left));
    assert!(buffer.apply_move(Direction::Up));
    assert_eq!(buffer.cursor(), 0);
}

#[test]
fn inserts_between_moves_land_where_the_cursor_stood() {
    let mut buffer = Buffer::from_text("ad\nxz");
    let actions = [
        Action::MoveCursor(Direction::Right),
        Action::InsertChar('b'),
        Action::InsertChar('c'),
        Action::MoveCursor(Direction::Down),
        Action::MoveCursor(Direction::Left),
        Action::InsertChar('y'),
        Action::Noop,
        Action::RequestSave,
        Action::RequestDiscardAndQuit,
    ];
    let mut expected: Vec<char> = "ad\nxz".chars().collect();
    for action in actions {
        if let Action::InsertChar(c) = action {
            expected.insert(buffer.cursor(), c);
        }
        buffer.apply(action);
        assert_eq!(buffer.full_text(), expected.iter().collect::<String>());
    }
    assert_eq!(buffer.full_text(), "abcd\nxyz");
    assert_eq!(buffer.cursor(), 7);
}

#[test]
fn actions_that_are_no_edits_leave_the_buffer_alone() {
    let mut buffer = Buffer::from_text(SAMPLE);
    buffer.apply_move(Direction::Down);
    for action in [Action::Noop, Action::RequestSave, Action::RequestDiscardAndQuit] {
        buffer.apply(action);
        assert_eq!(buffer.full_text(), SAMPLE);
        assert_eq!(buffer.cursor(), 3);
    }
}

#[test]
fn a_line_break_is_shown_with_a_carriage_return() {
    assert_eq!(Buffer::from_text("a\nb").render_refresh(), "a\r\nb");
    assert_eq!(Buffer::from_text(SAMPLE).render_refresh(), "ab\r\ncde\r\n\r\nf");
    assert_eq!(Buffer::from_text("\n").render_refresh(), "\r\n");
}

#[test]
fn text_without_line_breaks_is_shown_as_it_is() {
    assert_eq!(Buffer::from_text("").render_refresh(), "");
    assert_eq!(Buffer::from_text("hello world").render_refresh(), "hello world");
}

#[test]
fn what_is_shown_follows_the_edits() {
    let mut buffer = Buffer::from_text("ab");
    buffer.apply_move(Direction::Right);
    buffer.apply_insert('\n');
    assert_eq!(buffer.render_refresh(), "a\r\nb");
    assert_eq!(buffer.full_text(), "a\nb");
}
