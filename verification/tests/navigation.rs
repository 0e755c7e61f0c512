use ox::editor::{Buffer, Cursor, Editor};
use ox::event::{Key, Terminal};

fn open(lines: &[&str], width: u16, height: u16) -> Editor {
    let buffer = Buffer { lines: lines.iter().map(|l| l.to_string()).collect() };
    Editor::new(buffer, Terminal { width, height })
}

fn numbered(count: usize) -> Vec<String> {
    (0..count).map(|i| format!("line {}", i)).collect()
}

fn open_numbered(count: usize, width: u16, height: u16) -> Editor {
    Editor::new(Buffer { lines: numbered(count) }, Terminal { width, height })
}

fn press(editor: &mut Editor, key: Key, times: usize) {
    for _ in 0..times {
        assert!(editor.accepts(key));
        editor.dispatch(key);
    }
}

fn place(editor: &Editor) -> (u16, u16, u64) {
    let Cursor { x, y } = editor.cursor();
    (x, y, editor.offset())
}

fn lines_of(editor: &Editor) -> Vec<String> {
    editor.buffer().lines.clone()
}

#[test]
fn new_editor_starts_at_top_left() {
    let editor = open(&["abc", "de"], 80, 24);
    assert_eq!(editor.cursor(), Cursor { x: 0, y: 0 });
    assert_eq!(editor.offset(), 0);
    assert!(!editor.is_exiting());
    assert_eq!(editor.command_bar(), "Welcome to Ox!");
    assert_eq!(editor.terminal(), Terminal { width: 80, height: 24 });
    assert_eq!(lines_of(&editor), vec!["abc".to_string(), "de".to_string()]);
}

#[test]
fn empty_buffer_has_no_lines() {
    assert!(Buffer::new().lines.is_empty());
}

#[test]
fn right_at_end_of_line_wraps_to_next_line() {
    let mut editor = open(&["abc", "de"], 80, 24);
    press(&mut editor, Key::Right, 3);
    assert_eq!(place(&editor), (3, 0, 0));
    press(&mut editor, Key::Right, 1);
    assert_eq!(place(&editor), (0, 1, 0));
}

#[test]
fn right_inside_line_moves_one_column() {
    let mut editor = open(&["abc", "de"], 80, 24);
    press(&mut editor, Key::Right, 1);
    assert_eq!(place(&editor), (1, 0, 0));
    press(&mut editor, Key::Right, 1);
    assert_eq!(place(&editor), (2, 0, 0));
}

#[test]
fn right_at_end_of_last_line_stays() {
    let mut editor = open(&["abc", "de"], 80, 24);
    press(&mut editor, Key::Down, 1);
    press(&mut editor, Key::End, 1);
    assert_eq!(place(&editor), (2, 1, 0));
    press(&mut editor, Key::Right, 1);
    assert_eq!(place(&editor), (2, 1, 0));
}

#[test]
fn right_stops_at_last_terminal_column() {
    let mut editor = open(&["abcdefghij"], 5, 24);
    press(&mut editor, Key::Right, 4);
    assert_eq!(place(&editor), (4, 0, 0));
    press(&mut editor, Key::Right, 3);
    assert_eq!(place(&editor), (4, 0, 0));
}

#[test]
fn right_at_bottom_margin_scrolls_instead_of_moving_row() {
    let lines: Vec<&str> = vec![""; 20];
    let mut editor = open(&lines, 80, 10);
    press(&mut editor, Key::Right, 7);
    assert_eq!(place(&editor), (0, 7, 0));
    press(&mut editor, Key::Right, 1);
    assert_eq!(place(&editor), (0, 7, 1));
    press(&mut editor, Key::Right, 11);
    assert_eq!(place(&editor), (0, 7, 12));
    press(&mut editor, Key::Right, 1);
    assert_eq!(place(&editor), (0, 7, 12));
}

#[test]
fn left_inside_line_moves_one_column() {
    let mut editor = open(&["abc", "de"], 80, 24);
    press(&mut editor, Key::End, 1);
    press(&mut editor, Key::Left, 1);
    assert_eq!(place(&editor), (2, 0, 0));
}

#[test]
fn left_at_start_of_first_line_stays() {
    let mut editor = open(&["abc", "de"], 80, 24);
    press(&mut editor, Key::Left, 1);
    assert_eq!(place(&editor), (0, 0, 0));
}

#[test]
fn left_at_column_zero_goes_to_end_of_previous_line() {
    let mut editor = open(&["abc", "de"], 80, 24);
    press(&mut editor, Key::Down, 1);
    press(&mut editor, Key::Home, 1);
    assert_eq!(place(&editor), (0, 1, 0));
    press(&mut editor, Key::Left, 1);
    assert_eq!(place(&editor), (3, 0, 0));
}

#[test]
fn left_wrap_is_bounded_by_terminal_width() {
    let mut editor = open(&["abcdefghij", "x"], 4, 24);
    press(&mut editor, Key::Down, 1);
    press(&mut editor, Key::Left, 1);
    assert_eq!(place(&editor), (4, 0, 0));
}

#[test]
fn left_at_top_row_scrolls_up() {
    let mut editor = open_numbered(20, 80, 10);
    press(&mut editor, Key::Down, 9);
    press(&mut editor, Key::PageUp, 1);
    assert_eq!(place(&editor), (0, 0, 2));
    press(&mut editor, Key::Left, 1);
    assert_eq!(place(&editor), (6, 0, 1));
}

#[test]
fn up_moves_row_and_clamps_column() {
    let mut editor = open(&["ab", "abcdef"], 80, 24);
    press(&mut editor, Key::Down, 1);
    press(&mut editor, Key::End, 1);
    assert_eq!(place(&editor), (6, 1, 0));
    press(&mut editor, Key::Up, 1);
    assert_eq!(place(&editor), (2, 0, 0));
}

#[test]
fn up_at_top_row_scrolls_and_clamps_column() {
    let mut lines = numbered(20);
    lines[1] = "ab".to_string();
    lines[2] = "abcdefgh".to_string();
    let mut editor = Editor::new(Buffer { lines }, Terminal { width: 80, height: 10 });
    press(&mut editor, Key::Down, 9);
    press(&mut editor, Key::PageUp, 1);
    press(&mut editor, Key::End, 1);
    assert_eq!(place(&editor), (8, 0, 2));
    press(&mut editor, Key::Up, 1);
    assert_eq!(place(&editor), (2, 0, 1));
    press(&mut editor, Key::Up, 1);
    assert_eq!(place(&editor), (2, 0, 0));
    press(&mut editor, Key::Up, 1);
    assert_eq!(place(&editor), (2, 0, 0));
}

#[test]
fn down_moves_row_and_clamps_column() {
    let mut editor = open(&["abcdef", "ab"], 80, 24);
    press(&mut editor, Key::End, 1);
    press(&mut editor, Key::Down, 1);
    assert_eq!(place(&editor), (2, 1, 0));
}

#[test]
fn down_at_last_line_stays() {
    let mut editor = open(&["abc", "de"], 80, 24);
    press(&mut editor, Key::Down, 1);
    assert_eq!(place(&editor), (0, 1, 0));
    press(&mut editor, Key::Down, 1);
    assert_eq!(place(&editor), (0, 1, 0));
}

#[test]
fn down_at_bottom_margin_scrolls() {
    let mut editor = open_numbered(20, 80, 10);
    press(&mut editor, Key::Down, 7);
    assert_eq!(place(&editor), (0, 7, 0));
    press(&mut editor, Key::Down, 1);
    assert_eq!(place(&editor), (0, 7, 1));
}

#[test]
fn down_never_leaves_the_buffer() {
    let mut editor = open_numbered(20, 80, 10);
    press(&mut editor, Key::Down, 50);
    assert_eq!(place(&editor), (0, 7, 12));
}

#[test]
fn page_up_jumps_to_top_row() {
    let mut editor = open(&["ab", "abcdef", "abc"], 80, 24);
    press(&mut editor, Key::Down, 1);
    press(&mut editor, Key::End, 1);
    press(&mut editor, Key::PageUp, 1);
    assert_eq!(place(&editor), (2, 0, 0));
}

#[test]
fn page_down_jumps_to_bottom_margin() {
    let mut editor = open_numbered(20, 80, 10);
    press(&mut editor, Key::PageDown, 1);
    assert_eq!(place(&editor), (0, 7, 0));
}

#[test]
fn page_down_jumps_to_last_line_of_short_buffer() {
    let mut editor = open(&["abcdef", "abc", "a"], 80, 24);
    press(&mut editor, Key::End, 1);
    press(&mut editor, Key::PageDown, 1);
    assert_eq!(place(&editor), (1, 2, 0));
}

#[test]
fn page_down_on_empty_buffer_stays() {
    let mut editor = open(&[], 80, 24);
    press(&mut editor, Key::PageDown, 1);
    assert_eq!(place(&editor), (0, 0, 0));
}

#[test]
fn page_down_is_refused_when_it_would_leave_the_buffer() {
    let mut editor = open_numbered(20, 80, 10);
    press(&mut editor, Key::Down, 19);
    assert_eq!(place(&editor), (0, 7, 12));
    assert!(editor.accepts(Key::PageDown));
    press(&mut editor, Key::Up, 3);
    assert_eq!(place(&editor), (0, 4, 12));
    assert!(editor.accepts(Key::PageDown));
    press(&mut editor, Key::PageDown, 1);
    assert_eq!(place(&editor), (0, 7, 12));
    editor.resize(Terminal { width: 80, height: 24 });
    assert!(!editor.accepts(Key::PageDown));
    assert!(editor.accepts(Key::Down));
    assert!(editor.accepts(Key::Char('x')));
}

#[test]
fn home_goes_to_column_zero() {
    let mut editor = open(&["abc"], 80, 24);
    press(&mut editor, Key::Right, 2);
    press(&mut editor, Key::Home, 1);
    assert_eq!(place(&editor), (0, 0, 0));
}

#[test]
fn end_goes_to_end_of_line() {
    let mut editor = open(&["hello"], 80, 24);
    press(&mut editor, Key::End, 1);
    assert_eq!(place(&editor), (5, 0, 0));
}

#[test]
fn end_is_bounded_by_last_terminal_column() {
    let mut editor = open(&["abcdefghij"], 5, 24);
    press(&mut editor, Key::End, 1);
    assert_eq!(place(&editor), (4, 0, 0));
    let mut narrow = open(&["abcdefghij"], 0, 24);
    press(&mut narrow, Key::End, 1);
    assert_eq!(place(&narrow), (0, 0, 0));
}

#[test]
fn column_never_passes_end_of_line() {
    let mut editor = open(&["abcdef", "", "abc", "abcdefgh"], 80, 24);
    press(&mut editor, Key::End, 1);
    let lengths = [6u16, 0, 3, 8];
    for step in 0..3 {
        press(&mut editor, Key::Down, 1);
        let (x, y, offset) = place(&editor);
        assert_eq!((y, offset), (step + 1, 0));
        assert!(x <= lengths[y as usize]);
    }
    assert_eq!(place(&editor), (0, 3, 0));
}

#[test]
fn row_plus_offset_always_addresses_a_line() {
    let mut editor = open_numbered(5, 80, 6);
    let keys = [
        Key::Down, Key::Down, Key::Down, Key::Down, Key::Down, Key::Down, Key::Right, Key::End,
        Key::Right, Key::Up, Key::Left, Key::Left, Key::PageUp, Key::Up, Key::Up, Key::Home,
        Key::Left, Key::Left,
    ];
    for key in keys {
        if editor.accepts(key) {
            editor.dispatch(key);
        }
        let (x, y, offset) = place(&editor);
        let index = y as u64 + offset;
        assert!(index < 5);
        assert!(x as usize <= lines_of(&editor)[index as usize].len());
    }
}

#[test]
fn right_then_left_returns_inside_a_line() {
    let mut editor = open_numbered(20, 80, 10);
    press(&mut editor, Key::Down, 9);
    press(&mut editor, Key::Right, 3);
    let before = place(&editor);
    assert_eq!(before, (3, 7, 2));
    press(&mut editor, Key::Right, 1);
    assert_eq!(place(&editor), (4, 7, 2));
    press(&mut editor, Key::Left, 1);
    assert_eq!(place(&editor), before);
}

#[test]
fn right_then_left_loses_a_column_at_last_terminal_column() {
    let mut editor = open(&["abcdefghij", "x"], 5, 24);
    press(&mut editor, Key::Right, 4);
    assert_eq!(place(&editor), (4, 0, 0));
    press(&mut editor, Key::Right, 1);
    press(&mut editor, Key::Left, 1);
    assert_eq!(place(&editor), (3, 0, 0));
}

#[test]
fn single_line_buffer_never_wraps() {
    let mut editor = open(&["abc"], 80, 24);
    press(&mut editor, Key::Left, 1);
    assert_eq!(place(&editor), (0, 0, 0));
    press(&mut editor, Key::Right, 10);
    assert_eq!(place(&editor), (3, 0, 0));
}

#[test]
fn empty_buffer_pins_cursor_and_offset() {
    let keys = [
        Key::Left, Key::Right, Key::Up, Key::Down, Key::PageUp, Key::PageDown, Key::Home,
        Key::End, Key::Backspace, Key::Char('a'),
    ];
    for key in keys {
        let mut editor = open(&[], 80, 24);
        press(&mut editor, key, 3);
        assert_eq!(place(&editor), (0, 0, 0));
        assert!(lines_of(&editor).is_empty());
    }
}

#[test]
fn small_terminals_do_not_underflow() {
    for height in 0..4u16 {
        let mut editor = open(&["", "", ""], 80, height);
        press(&mut editor, Key::Right, 1);
        assert_eq!(place(&editor), (0, 0, 1));
        press(&mut editor, Key::Down, 1);
        assert_eq!(place(&editor), (0, 0, 2));
        press(&mut editor, Key::Up, 2);
        assert_eq!(place(&editor), (0, 0, 0));
        press(&mut editor, Key::PageDown, 1);
        assert_eq!(place(&editor), (0, 0, 0));
    }
    let mut editor = open(&["", "", ""], 80, 4);
    press(&mut editor, Key::Down, 2);
    assert_eq!(place(&editor), (0, 1, 1));
}

#[test]
fn correct_line_pulls_column_back() {
    let mut editor = open(&["abcdef", "ab"], 80, 24);
    press(&mut editor, Key::End, 1);
    editor.correct_line();
    assert_eq!(place(&editor), (6, 0, 0));
    let mut blank = open(&[], 80, 24);
    blank.correct_line();
    assert_eq!(place(&blank), (0, 0, 0));
}

#[test]
fn named_moves_match_their_keys() {
    let mut editor = open(&["abc", "de", "f"], 80, 24);
    editor.move_right();
    assert_eq!(place(&editor), (1, 0, 0));
    editor.move_down();
    assert_eq!(place(&editor), (1, 1, 0));
    editor.end();
    assert_eq!(place(&editor), (2, 1, 0));
    editor.move_left();
    assert_eq!(place(&editor), (1, 1, 0));
    editor.move_up();
    assert_eq!(place(&editor), (1, 0, 0));
    editor.page_down();
    assert_eq!(place(&editor), (1, 2, 0));
    editor.page_up();
    assert_eq!(place(&editor), (1, 0, 0));
    editor.home();
    assert_eq!(place(&editor), (0, 0, 0));
}
