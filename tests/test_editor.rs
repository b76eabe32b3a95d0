use rk::editor::{Command, Direction, Editor, InputEvent, MouseKind};
use rk::keys::{parse, KeyCode, KeyEvent, KeyModifiers};
use rk::screen::{Color, DrawOp};
use rk::tty::Terminal;

fn editor_with(lines: &[&str], cols: u16, rows: u16) -> Editor {
    let mut e = Editor::new(Terminal::new(cols, rows));
    e.open(Some(String::from("f.txt")), lines.iter().map(|l| l.to_string()).collect());
    e
}

fn text(e: &Editor) -> Vec<String> {
    (0..e.line_count()).map(|i| e.line(i)).collect()
}

fn key(name: &str) -> Option<InputEvent> {
    Some(InputEvent::Key(parse(name).unwrap()))
}

fn typed(c: char) -> Option<InputEvent> {
    Some(InputEvent::Key(KeyEvent { code: KeyCode::Char(c), modifiers: KeyModifiers::empty() }))
}

#[test]
fn new_editor_has_one_empty_line() {
    let e = Editor::new(Terminal::new(80, 24));
    assert_eq!(text(&e), vec![String::new()]);
    assert_eq!(e.cursor(), (0, 0));
    assert_eq!(e.offset(), (0, 0));
    assert_eq!(e.file_name(), "*scratch*");
}

#[test]
fn open_without_lines_keeps_one_empty_line() {
    let mut e = Editor::new(Terminal::new(80, 24));
    e.open(None, Vec::new());
    assert_eq!(text(&e), vec![String::new()]);
    assert_eq!(e.file_name(), "*scratch*");
}

#[test]
fn down_twice_then_backspace_joins_third_line_into_second() {
    let mut e = editor_with(&["one", "two", "three"], 80, 24);
    e.update(key("down"));
    e.update(key("down"));
    assert_eq!(e.cursor(), (0, 2));
    e.update(key("backspace"));
    assert_eq!(text(&e), vec!["one", "twothree"]);
    assert_eq!(e.line_count(), 2);
    assert_eq!(e.cursor(), (3, 1));
}

#[test]
fn newline_then_backspace_restores_line_and_cursor() {
    let mut e = editor_with(&["hello world"], 80, 24);
    e.exec_cmd(Command::MoveTo(5, 0));
    e.exec_cmd(Command::InsertCharacter('\n'));
    assert_eq!(text(&e), vec!["hello", " world"]);
    assert_eq!(e.cursor(), (0, 1));
    e.exec_cmd(Command::Erase(Direction::Left));
    assert_eq!(text(&e), vec!["hello world"]);
    assert_eq!(e.cursor(), (5, 0));
}

#[test]
fn top_left_and_last_line_boundaries() {
    let mut e = editor_with(&["ab", "cd"], 80, 24);
    e.exec_cmd(Command::Move(Direction::Left));
    assert_eq!(e.cursor(), (0, 0));
    e.exec_cmd(Command::Erase(Direction::Left));
    assert_eq!(text(&e), vec!["ab", "cd"]);
    assert_eq!(e.cursor(), (0, 0));
    e.exec_cmd(Command::Move(Direction::Up));
    assert_eq!(e.cursor(), (0, 0));
    e.exec_cmd(Command::Move(Direction::Down));
    e.exec_cmd(Command::Move(Direction::Down));
    assert_eq!(e.cursor(), (0, 1));
    e.exec_cmd(Command::MoveLineEnd);
    e.exec_cmd(Command::Move(Direction::Right));
    e.exec_cmd(Command::Move(Direction::Right));
    assert_eq!(e.cursor(), (2, 1));
}

#[test]
fn inserting_and_erasing_by_code_point() {
    let mut e = editor_with(&["καλημέρα"], 80, 24);
    e.exec_cmd(Command::MoveTo(4, 0));
    e.exec_cmd(Command::InsertCharacter('😀'));
    assert_eq!(text(&e), vec!["καλη😀μέρα"]);
    assert_eq!(e.cursor(), (5, 0));
    e.exec_cmd(Command::Erase(Direction::Left));
    e.exec_cmd(Command::Erase(Direction::Left));
    assert_eq!(text(&e), vec!["καλμέρα"]);
    assert_eq!(e.cursor(), (3, 0));
}

#[test]
fn forward_erase_does_nothing() {
    let mut e = editor_with(&["ab", "cd"], 80, 24);
    e.exec_cmd(Command::MoveLineEnd);
    e.exec_cmd(Command::Erase(Direction::Right));
    assert_eq!(text(&e), vec!["ab", "cd"]);
}

#[test]
fn move_to_clamps_line_then_column() {
    let mut e = editor_with(&["abc", "de"], 80, 24);
    e.exec_cmd(Command::MoveTo(10, 10));
    assert_eq!(e.cursor(), (2, 1));
    e.exec_cmd(Command::MoveTo(1, 0));
    assert_eq!(e.cursor(), (1, 0));
}

#[test]
fn moving_vertically_clamps_the_column() {
    let mut e = editor_with(&["abcdef", "ab"], 80, 24);
    e.exec_cmd(Command::MoveTo(5, 0));
    e.exec_cmd(Command::Move(Direction::Down));
    assert_eq!(e.cursor(), (2, 1));
}

#[test]
fn paging_moves_by_window_height() {
    let lines: Vec<String> = (0..30).map(|i| i.to_string()).collect();
    let refs: Vec<&str> = lines.iter().map(|s| s.as_str()).collect();
    let mut e = editor_with(&refs, 80, 11);
    e.exec_cmd(Command::MovePageDown);
    assert_eq!(e.cursor(), (0, 10));
    e.exec_cmd(Command::MovePageDown);
    e.exec_cmd(Command::MovePageDown);
    assert_eq!(e.cursor(), (0, 29));
    e.exec_cmd(Command::MovePageUp);
    assert_eq!(e.cursor(), (0, 19));
    e.exec_cmd(Command::MoveTo(0, 3));
    e.exec_cmd(Command::MovePageUp);
    assert_eq!(e.cursor(), (0, 0));
}

#[test]
fn line_end_and_home() {
    let mut e = editor_with(&["abcd", ""], 80, 24);
    e.exec_cmd(Command::MoveLineEnd);
    assert_eq!(e.cursor(), (3, 0));
    e.exec_cmd(Command::MoveLineHome);
    assert_eq!(e.cursor(), (0, 0));
    e.exec_cmd(Command::Move(Direction::Down));
    e.exec_cmd(Command::MoveLineEnd);
    assert_eq!(e.cursor(), (0, 1));
}

#[test]
fn exit_is_reported() {
    let mut e = editor_with(&["a"], 80, 24);
    assert!(e.exec_cmd(Command::Exit).is_some());
    assert!(e.exec_cmd(Command::Nothing).is_none());
    let (status, _) = e.update(key("c-q"));
    assert!(status.is_some());
}

#[test]
fn horizontal_paging_turns_one_page() {
    let line = "x".repeat(120);
    let mut e = editor_with(&[line.as_str()], 101, 25);
    assert_eq!(e.terminal_size().wx, 100);
    e.exec_cmd(Command::MoveTo(95, 0));
    e.scroll_to_cursor();
    assert_eq!(e.offset().0, 85);
    e.update(None);
    assert_eq!(e.offset().0, 85);
    e.exec_cmd(Command::MoveTo(89, 0));
    e.update(None);
    assert_eq!(e.offset().0, 0);
}

#[test]
fn vertical_scroll_is_minimal_and_idempotent() {
    let lines: Vec<String> = (0..50).map(|i| i.to_string()).collect();
    let refs: Vec<&str> = lines.iter().map(|s| s.as_str()).collect();
    let mut e = editor_with(&refs, 80, 11);
    e.exec_cmd(Command::MoveTo(0, 25));
    e.update_screen();
    assert_eq!(e.offset().1, 16);
    e.update_screen();
    assert_eq!(e.offset().1, 16);
    e.exec_cmd(Command::MoveTo(0, 3));
    e.update_screen();
    assert_eq!(e.offset().1, 3);
    e.update_screen();
    assert_eq!(e.offset().1, 3);
}

#[test]
fn unbound_key_is_reported_and_plain_characters_type() {
    let mut e = editor_with(&[""], 80, 24);
    e.update(typed('h'));
    e.update(typed('i'));
    assert_eq!(text(&e), vec!["hi"]);
    let c = e.update_input(key("c-x"));
    assert_eq!(c, Command::Nothing);
    assert_eq!(e.message(), "key not bound: C-x");
    assert_eq!(e.update_input(key("enter")), Command::InsertCharacter('\n'));
    assert_eq!(e.update_input(key("a-f")), Command::Move(Direction::Right));
    assert_eq!(e.update_input(key("delete")), Command::Erase(Direction::Right));
}

#[test]
fn mouse_and_resize_events() {
    let mut e = editor_with(&["abc", "def"], 80, 24);
    assert_eq!(e.update_input(Some(InputEvent::Mouse(MouseKind::Down, 2, 1))), Command::MoveTo(2, 1));
    assert_eq!(e.update_input(Some(InputEvent::Mouse(MouseKind::ScrollUp, 0, 0))), Command::MovePageUp);
    assert_eq!(e.update_input(Some(InputEvent::Mouse(MouseKind::ScrollDown, 0, 0))), Command::MovePageDown);
    assert_eq!(e.update_input(Some(InputEvent::Resize(40, 10))), Command::Nothing);
    assert_eq!(e.terminal_size(), Terminal { wx: 39, wy: 9 });
    assert_eq!(e.update_input(None), Command::Nothing);
    e.update(Some(InputEvent::Mouse(MouseKind::Drag, 1, 1)));
    assert_eq!(e.cursor(), (1, 1));
}

#[test]
fn frame_of_a_small_window() {
    let mut e = editor_with(&["hello", "καλημέρα"], 6, 4);
    e.set_message(String::from("m"));
    e.exec_cmd(Command::MoveTo(1, 1));
    let ops = e.update_screen();
    let p = |s: &str| DrawOp::Print(s.to_string());
    let mut want = vec![DrawOp::HideCursor, DrawOp::MoveTo(0, 0)];
    for l in ["hello", "καλημέ"] {
        want.extend([DrawOp::ClearLine, p(l), p("\r\n"), DrawOp::ResetColor]);
    }
    want.push(DrawOp::Foreground(Color::Blue));
    want.extend([DrawOp::ClearLine, p("~\r\n")]);
    want.extend([DrawOp::Background(Color::Blue), DrawOp::Foreground(Color::Black), p("? f.tx")]);
    want.extend([DrawOp::ResetColor, DrawOp::MoveTo(1, 1), DrawOp::ShowCursor]);
    assert_eq!(ops, want);
}

#[test]
fn status_line_is_padded() {
    let mut e = editor_with(&["a"], 30, 3);
    let ops = e.init();
    let status = "? f.txt 1:0 -- ";
    let i = ops.iter().position(|o| *o == DrawOp::Print(status.to_string())).unwrap();
    let spaces = ops[i + 1..].iter().filter(|o| **o == DrawOp::Print(" ".to_string())).count();
    assert_eq!(spaces, 30 - status.chars().count());
}

#[test]
fn long_status_is_cut_to_the_window_width() {
    let mut e = editor_with(&["a"], 11, 3);
    let ops = e.update_screen();
    let status = "? f.txt 1:0 -- ".chars().take(11).collect::<String>();
    let i = ops.iter().position(|o| *o == DrawOp::Print(status.clone())).unwrap();
    assert_eq!(status.chars().count(), 11);
    assert_eq!(ops[i + 1], DrawOp::ResetColor);
}

#[test]
fn zero_sized_window_is_empty() {
    let t = Terminal::new(0, 0);
    assert_eq!((t.wx, t.wy), (0, 0));
    let mut e = editor_with(&["a"], 80, 24);
    assert_eq!(e.update_input(Some(InputEvent::Resize(0, 5))), Command::Nothing);
    assert_eq!(e.terminal_size(), Terminal { wx: 0, wy: 4 });
    let (_, ops) = e.update(None);
    assert!(ops.is_empty());
}

#[test]
fn empty_window_draws_nothing() {
    let mut e = editor_with(&["a"], 1, 1);
    assert!(e.update_screen().is_empty());
}

#[test]
fn terminal_size_and_description() {
    let t = Terminal::new(80, 24);
    assert_eq!((t.wx, t.wy), (79, 23));
    assert_eq!(t.describe(), "Terminal { wx: 79, wy: 23 }");
}

#[test]
fn edit_operations_at_the_boundaries() {
    let mut e = editor_with(&["ab", "cd", "ef"], 80, 24);
    e.exec_cmd_move(Direction::Left);
    assert_eq!(e.cursor(), (0, 0));
    e.exec_cmd_erase(Direction::Left);
    assert_eq!(text(&e), vec!["ab", "cd", "ef"]);
    e.exec_cmd_move_to(1, 2);
    e.exec_cmd_move(Direction::Down);
    assert_eq!(e.cursor(), (1, 2));
    e.exec_cmd_insert('\n');
    assert_eq!(text(&e), vec!["ab", "cd", "e", "f"]);
    assert_eq!(e.cursor(), (0, 3));
    e.exec_cmd_erase(Direction::Left);
    assert_eq!(text(&e), vec!["ab", "cd", "ef"]);
    assert_eq!(e.cursor(), (1, 2));
    e.exec_cmd_move_to(0, 2);
    e.exec_cmd_erase(Direction::Left);
    assert_eq!(text(&e), vec!["ab", "cdef"]);
    assert_eq!(e.cursor(), (2, 1));
}
