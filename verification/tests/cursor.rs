use kilo::editor::Editor;
use kilo::errors::CoreError;
use kilo::input::KeyEvent;

fn editor(rows: u16, cols: u16) -> Editor {
    Editor::try_new(rows, cols).unwrap()
}

#[test]
fn try_new_starts_at_origin() {
    let e = editor(24, 80);
    assert_eq!(e.cursor_row, 0);
    assert_eq!(e.cursor_col, 0);
    assert_eq!(e.screen_rows, 24);
    assert_eq!(e.screen_cols, 80);
    assert_eq!(e.num_rows, 0);
    assert_eq!(e.line, Vec::<u8>::new());
}

#[test]
fn try_new_rejects_zero_geometry() {
    assert_eq!(Editor::try_new(0, 80).err().unwrap(), CoreError::InvalidGeometry);
    assert_eq!(Editor::try_new(24, 0).err().unwrap(), CoreError::InvalidGeometry);
    assert_eq!(Editor::try_new(0, 0).err().unwrap(), CoreError::InvalidGeometry);
}

#[test]
fn left_at_left_edge_saturates() {
    let mut e = editor(24, 80);
    for _ in 0..5 {
        e.move_cursor(KeyEvent::ArrowLeft);
        assert_eq!(e.cursor_col, 0);
    }
}

#[test]
fn right_at_right_edge_saturates() {
    let mut e = editor(24, 80);
    e.move_cursor(KeyEvent::End);
    assert_eq!(e.cursor_col, 79);
    for _ in 0..5 {
        e.move_cursor(KeyEvent::ArrowRight);
        assert_eq!(e.cursor_col, 79);
    }
}

#[test]
fn up_at_top_saturates() {
    let mut e = editor(24, 80);
    for _ in 0..5 {
        e.move_cursor(KeyEvent::ArrowUp);
        assert_eq!(e.cursor_row, 0);
    }
}

#[test]
fn down_at_bottom_saturates() {
    let mut e = editor(24, 80);
    e.move_cursor(KeyEvent::PageDown);
    assert_eq!(e.cursor_row, 23);
    for _ in 0..5 {
        e.move_cursor(KeyEvent::ArrowDown);
        assert_eq!(e.cursor_row, 23);
    }
}

#[test]
fn arrows_move_one_step_inside() {
    let mut e = editor(24, 80);
    e.move_cursor(KeyEvent::ArrowRight);
    e.move_cursor(KeyEvent::ArrowRight);
    e.move_cursor(KeyEvent::ArrowDown);
    assert_eq!((e.cursor_row, e.cursor_col), (1, 2));
    e.move_cursor(KeyEvent::ArrowLeft);
    e.move_cursor(KeyEvent::ArrowUp);
    assert_eq!((e.cursor_row, e.cursor_col), (0, 1));
}

#[test]
fn home_and_end_jump_to_columns() {
    let mut e = editor(10, 40);
    e.move_cursor(KeyEvent::ArrowRight);
    e.move_cursor(KeyEvent::End);
    assert_eq!(e.cursor_col, 39);
    e.move_cursor(KeyEvent::Home);
    assert_eq!(e.cursor_col, 0);
}

#[test]
fn page_up_reaches_top_in_one_call() {
    let mut e = editor(24, 80);
    for _ in 0..7 {
        e.move_cursor(KeyEvent::ArrowDown);
    }
    assert_eq!(e.cursor_row, 7);
    e.move_cursor(KeyEvent::PageUp);
    assert_eq!(e.cursor_row, 0);
}

#[test]
fn page_down_reaches_bottom_in_one_call() {
    let mut e = editor(24, 80);
    e.move_cursor(KeyEvent::ArrowDown);
    e.move_cursor(KeyEvent::PageDown);
    assert_eq!(e.cursor_row, 23);
    e.move_cursor(KeyEvent::PageUp);
    e.move_cursor(KeyEvent::PageDown);
    assert_eq!(e.cursor_row, 23);
}

#[test]
fn one_by_one_screen_never_moves() {
    let mut e = editor(1, 1);
    for key in [
        KeyEvent::ArrowUp,
        KeyEvent::ArrowDown,
        KeyEvent::ArrowLeft,
        KeyEvent::ArrowRight,
        KeyEvent::Home,
        KeyEvent::End,
        KeyEvent::PageUp,
        KeyEvent::PageDown,
    ] {
        e.move_cursor(key);
        assert_eq!((e.cursor_row, e.cursor_col), (0, 0));
    }
}

#[test]
fn printable_and_unrecognized_do_not_move() {
    let mut e = editor(24, 80);
    e.move_cursor(KeyEvent::ArrowRight);
    e.move_cursor(KeyEvent::PrintableByte(b'w'));
    e.move_cursor(KeyEvent::Unrecognized);
    assert_eq!((e.cursor_row, e.cursor_col), (0, 1));
}

#[test]
fn exit_event_quits_from_any_cursor_position() {
    let mut e = editor(24, 80);
    assert!(e.process_keypress(KeyEvent::ControlExit));

    let mut e = editor(24, 80);
    e.move_cursor(KeyEvent::PageDown);
    e.move_cursor(KeyEvent::End);
    assert!(e.process_keypress(KeyEvent::ControlExit));
    assert_eq!((e.cursor_row, e.cursor_col), (23, 79));
}

#[test]
fn other_events_do_not_quit() {
    let mut e = editor(24, 80);
    assert!(!e.process_keypress(KeyEvent::ArrowDown));
    assert_eq!(e.cursor_row, 1);
    assert!(!e.process_keypress(KeyEvent::PrintableByte(b'q')));
    assert!(!e.process_keypress(KeyEvent::Unrecognized));
    assert_eq!((e.cursor_row, e.cursor_col), (1, 0));
}

#[test]
fn open_strips_one_trailing_line_feed() {
    let mut e = editor(24, 80);
    e.open(b"hello\n".to_vec());
    assert_eq!(e.line, b"hello".to_vec());
    assert_eq!(e.num_rows, 1);

    let mut e = editor(24, 80);
    e.open(b"hello".to_vec());
    assert_eq!(e.line, b"hello".to_vec());

    let mut e = editor(24, 80);
    e.open(b"\n".to_vec());
    assert_eq!(e.line, Vec::<u8>::new());

    let mut e = editor(24, 80);
    e.open(Vec::new());
    assert_eq!(e.line, Vec::<u8>::new());
    assert_eq!(e.num_rows, 1);
}
