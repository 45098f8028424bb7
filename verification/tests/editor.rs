use xedit::buffer::{Buf, LoadError, ReadOutcome};
use xedit::editor::{symbol_for_key, Action, Editor};
use xedit::mode::{Command, EditorMode, Mode};

fn buffer(path: &str, texts: &[&str]) -> Buf {
    Buf::from_lines(path.to_string(), texts.iter().map(|t| t.to_string()).collect())
}

fn numbered(path: &str, count: usize) -> Buf {
    Buf::from_lines(path.to_string(), (0..count).map(|i| format!("line {}", i)).collect())
}

/// Everything of the state that a command can change.
fn state(editor: &Editor) -> (EditorMode, (usize, usize), usize, bool, bool, usize, String) {
    (
        editor.mode(),
        editor.cursor(),
        editor.start_line(),
        editor.should_quit(),
        editor.shows_line_numbers(),
        editor.buffers().len(),
        editor.buffers().get_current_buffer().name().to_string(),
    )
}

#[test]
fn editor_starts_in_command_mode_at_the_top() {
    let mut editor = Editor::new(buffer("a.txt", &["one", "two"]), 10);
    assert_eq!(editor.mode(), EditorMode::Command);
    assert_eq!(editor.cursor(), (0, 0));
    assert_eq!(editor.start_line(), 0);
    assert!(!editor.should_quit());
    assert!(!editor.shows_line_numbers());
    assert_eq!(editor.buffers().len(), 1);
    assert!(editor.take_redisplay());
    assert!(!editor.take_redisplay());
}

#[test]
fn quit_sets_the_quit_flag() {
    let mut editor = Editor::new(buffer("a.txt", &["one"]), 10);
    assert_eq!(editor.run_cmd("q"), Action::Continue);
    assert!(editor.should_quit());
    assert_eq!(editor.mode(), EditorMode::Command);
}

#[test]
fn unbound_symbols_are_ignored() {
    let mut editor = Editor::new(buffer("a.txt", &["one", "two"]), 10);
    editor.run_cmd("j");
    editor.take_redisplay();
    let before = state(&editor);
    for symbol in ["Z", "Q", "J", "", "jj", "key_down", "KEY_F(1)", "\u{e9}"] {
        assert_eq!(editor.run_cmd(symbol), Action::Continue);
        assert_eq!(state(&editor), before);
        assert!(!editor.take_redisplay());
    }
}

#[test]
fn symbols_are_told_apart_by_case() {
    let mut editor = Editor::new(numbered("a.txt", 5), 10);
    editor.run_cmd("g");
    assert_eq!(editor.cursor(), (0, 0));
    editor.run_cmd("G");
    assert_eq!(editor.cursor(), (4, 0));
}

#[test]
fn aliases_take_the_same_step() {
    let pairs = [
        ("j", "KEY_DOWN"),
        ("k", "KEY_UP"),
        ("l", "KEY_RIGHT"),
        ("h", "KEY_LEFT"),
        ("^", "0"),
        ("^", "KEY_HOME"),
        ("$", "KEY_END"),
        (" ", "KEY_NPAGE"),
    ];
    for (a, b) in pairs {
        let mut left = Editor::new(numbered("a.txt", 50), 10);
        let mut right = Editor::new(numbered("a.txt", 50), 10);
        for warm_up in ["j", "j", "l", "l", " "] {
            left.run_cmd(warm_up);
            right.run_cmd(warm_up);
        }
        left.take_redisplay();
        right.take_redisplay();
        assert_eq!(left.run_cmd(a), right.run_cmd(b));
        assert_eq!(state(&left), state(&right));
        assert_eq!(left.take_redisplay(), right.take_redisplay());
    }
}

#[test]
fn cursor_moves_down_and_stops_at_the_last_line() {
    let mut editor = Editor::new(numbered("a.txt", 5), 10);
    let mut rows = Vec::new();
    for _ in 0..8 {
        editor.run_cmd("j");
        rows.push(editor.cursor().0);
    }
    assert_eq!(rows, vec![1, 2, 3, 4, 4, 4, 4, 4]);
    assert_eq!(editor.start_line(), 0);
}

#[test]
fn cursor_moves_up_and_stops_at_the_first_row() {
    let mut editor = Editor::new(numbered("a.txt", 5), 10);
    editor.run_cmd("j");
    editor.run_cmd("j");
    editor.run_cmd("k");
    assert_eq!(editor.cursor(), (1, 0));
    editor.run_cmd("k");
    editor.run_cmd("k");
    assert_eq!(editor.cursor(), (0, 0));
}

#[test]
fn cursor_moves_right_and_stops_at_the_end_of_the_line() {
    let mut editor = Editor::new(buffer("a.txt", &["abc", "z"]), 10);
    let mut cols = Vec::new();
    for _ in 0..5 {
        editor.run_cmd("l");
        cols.push(editor.cursor().1);
    }
    assert_eq!(cols, vec![1, 2, 3, 3, 3]);
    editor.run_cmd("h");
    assert_eq!(editor.cursor(), (0, 2));
}

#[test]
fn cursor_stops_at_the_start_of_the_line() {
    let mut editor = Editor::new(buffer("a.txt", &["abc"]), 10);
    editor.run_cmd("h");
    assert_eq!(editor.cursor(), (0, 0));
}

#[test]
fn column_is_held_to_the_line_that_the_cursor_moves_to() {
    let mut editor = Editor::new(buffer("a.txt", &["a long line", "ab", ""]), 10);
    editor.run_cmd("$");
    assert_eq!(editor.cursor(), (0, 11));
    editor.run_cmd("j");
    assert_eq!(editor.cursor(), (1, 2));
    editor.run_cmd("j");
    assert_eq!(editor.cursor(), (2, 0));
    editor.run_cmd("k");
    assert_eq!(editor.cursor(), (1, 0));
}

#[test]
fn moving_the_cursor_asks_for_no_redisplay() {
    let mut editor = Editor::new(buffer("a.txt", &["abc", "def"]), 10);
    editor.take_redisplay();
    for symbol in ["j", "l", "k", "h", "$", "^"] {
        editor.run_cmd(symbol);
        assert!(!editor.take_redisplay());
    }
}

#[test]
fn line_edges() {
    let mut editor = Editor::new(buffer("a.txt", &["hello", "h\u{e9}!"]), 10);
    editor.run_cmd("$");
    assert_eq!(editor.cursor(), (0, 5));
    assert_eq!(editor.get_current_line_len(), 5);
    editor.run_cmd("^");
    assert_eq!(editor.cursor(), (0, 0));
    editor.run_cmd("j");
    editor.run_cmd("KEY_END");
    assert_eq!(editor.cursor(), (1, 3));
    editor.run_cmd("0");
    assert_eq!(editor.cursor(), (1, 0));
    editor.move_to_line_edge(true);
    assert_eq!(editor.cursor(), (1, 3));
    editor.move_to_line_edge(false);
    assert_eq!(editor.cursor(), (1, 0));
}

#[test]
fn editor_jumps_to_the_end_of_a_short_file() {
    let mut editor = Editor::new(numbered("a.txt", 5), 10);
    editor.take_redisplay();
    editor.run_cmd("G");
    assert_eq!(editor.start_line(), 0);
    assert_eq!(editor.cursor().0, 4);
    assert!(editor.take_redisplay());
}

#[test]
fn editor_jumps_to_the_end_of_a_long_file() {
    let mut editor = Editor::new(numbered("a.txt", 100), 20);
    editor.run_cmd("l");
    editor.run_cmd("G");
    assert_eq!(editor.start_line(), 80);
    assert_eq!(editor.cursor(), (19, 1));
}

#[test]
fn jump_to_the_start_of_the_file() {
    let mut editor = Editor::new(numbered("a.txt", 100), 20);
    editor.run_cmd("G");
    editor.take_redisplay();
    editor.move_to_file_edge(false);
    assert_eq!(editor.start_line(), 0);
    assert_eq!(editor.cursor().0, 0);
    assert!(editor.take_redisplay());
}

#[test]
fn paging_forward_and_backward() {
    let mut editor = Editor::new(numbered("a.txt", 100), 20);
    editor.take_redisplay();
    editor.run_cmd(" ");
    assert_eq!(editor.start_line(), 20);
    assert!(editor.take_redisplay());
    editor.run_cmd("KEY_NPAGE");
    assert_eq!(editor.start_line(), 40);
    editor.run_cmd("KEY_PPAGE");
    assert_eq!(editor.start_line(), 20);
    assert!(editor.take_redisplay());
    editor.run_cmd("KEY_PPAGE");
    editor.run_cmd("KEY_PPAGE");
    assert_eq!(editor.start_line(), 0);
}

#[test]
fn paging_forward_stops_at_the_last_line() {
    let mut editor = Editor::new(numbered("a.txt", 100), 20);
    let mut starts = Vec::new();
    for _ in 0..7 {
        editor.run_cmd(" ");
        starts.push(editor.start_line());
    }
    assert_eq!(starts, vec![20, 40, 60, 80, 99, 99, 99]);
    assert_eq!(editor.display_rows(), vec!["line 99"]);
}

#[test]
fn paging_forward_from_line_85() {
    // A buffer of 105 lines brings the viewport to line 85; the buffer of
    // 100 lines that is opened then keeps it there.
    let mut editor = Editor::new(numbered("long.txt", 105), 20);
    editor.run_cmd("G");
    assert_eq!(editor.start_line(), 85);
    editor.run_cmd("o");
    editor.finish_open(Ok(numbered("a.txt", 100)));
    assert_eq!(editor.start_line(), 85);
    editor.run_cmd(" ");
    assert_eq!(editor.start_line(), 99);
}

#[test]
fn page_increment_of_zero_pages_backward() {
    let mut editor = Editor::new(numbered("a.txt", 100), 20);
    editor.move_page(1);
    editor.move_page(7);
    assert_eq!(editor.start_line(), 40);
    editor.move_page(0);
    assert_eq!(editor.start_line(), 20);
    editor.move_page(-3);
    assert_eq!(editor.start_line(), 0);
}

#[test]
fn toggling_line_numbers() {
    let mut editor = Editor::new(buffer("a.txt", &["abcd"]), 10);
    editor.take_redisplay();
    assert_eq!(editor.run_cmd("."), Action::Continue);
    assert!(editor.shows_line_numbers());
    assert!(editor.take_redisplay());
    editor.run_cmd(".");
    assert!(!editor.shows_line_numbers());
    assert!(editor.take_redisplay());
}

#[test]
fn rows_show_the_lines_from_the_viewport_on() {
    let mut editor = Editor::new(numbered("a.txt", 10), 4);
    assert_eq!(editor.display_rows(), vec!["line 0", "line 1", "line 2", "line 3"]);
    editor.run_cmd(" ");
    assert_eq!(editor.display_rows(), vec!["line 4", "line 5", "line 6", "line 7"]);
    editor.run_cmd(" ");
    assert_eq!(editor.display_rows(), vec!["line 8", "line 9"]);
    editor.run_cmd(" ");
    assert_eq!(editor.display_rows(), vec!["line 9"]);
}

#[test]
fn rows_of_a_short_buffer() {
    let editor = Editor::new(buffer("a.txt", &["only"]), 10);
    assert_eq!(editor.display_rows(), vec!["only"]);
    let editor = Editor::new(buffer("a.txt", &[]), 10);
    assert!(editor.display_rows().is_empty());
}

#[test]
fn rows_with_line_numbers() {
    let mut editor = Editor::new(buffer("a.txt", &["abcd", "", "h\u{e9}llo"]), 10);
    editor.run_cmd(".");
    assert_eq!(
        editor.display_rows(),
        vec![
            "    1: abcd [gap_start: 4, gap_end: 20, size: 20]",
            "    2:  [gap_start: 0, gap_end: 16, size: 16]",
            "    3: h\u{e9}llo [gap_start: 5, gap_end: 22, size: 22]",
        ]
    );
}

#[test]
fn line_numbers_count_from_the_start_of_the_file() {
    let mut editor = Editor::new(numbered("a.txt", 12000), 3);
    editor.run_cmd(".");
    editor.run_cmd("G");
    assert_eq!(
        editor.display_rows(),
        vec![
            "11998: line 11997 [gap_start: 10, gap_end: 26, size: 26]",
            "11999: line 11998 [gap_start: 10, gap_end: 26, size: 26]",
            "12000: line 11999 [gap_start: 10, gap_end: 26, size: 26]",
        ]
    );
}

#[test]
fn rows_are_empty_when_the_viewport_starts_past_the_file() {
    let mut editor = Editor::new(numbered("long.txt", 105), 20);
    editor.run_cmd("G");
    editor.finish_open(Ok(numbered("short.txt", 5)));
    assert_eq!(editor.start_line(), 85);
    assert!(editor.display_rows().is_empty());
    assert_eq!(editor.get_current_line_len(), 0);
    editor.run_cmd("j");
    assert_eq!(editor.cursor().0, 0);
}

#[test]
fn mode_line_names_buffer_and_mode() {
    let mut editor = Editor::new(buffer("notes.txt", &["a"]), 10);
    assert_eq!(editor.mode_line(), "[-] notes.txt ------ [CMD]");
    editor.run_cmd("/");
    editor.finish_search("needle");
    assert_eq!(editor.mode_line(), "[-] notes.txt ------ [SEARCH]");
}

#[test]
fn first_frame_draws_everything() {
    let mut editor = Editor::new(buffer("a.txt", &["one", "two"]), 10);
    let frame = editor.frame();
    assert_eq!(frame.rows, Some(vec!["one".to_string(), "two".to_string()]));
    assert_eq!(frame.mode_line, "[-] a.txt ------ [CMD]");
    assert_eq!(frame.cursor, (0, 0));
}

#[test]
fn frame_draws_the_rows_only_when_a_redisplay_is_pending() {
    let mut editor = Editor::new(buffer("a.txt", &["one", "two"]), 10);
    editor.frame();
    editor.run_cmd("j");
    editor.run_cmd("l");
    let frame = editor.frame();
    assert_eq!(frame.rows, None);
    assert_eq!(frame.mode_line, "[-] a.txt ------ [CMD]");
    assert_eq!(frame.cursor, (1, 1));
    editor.run_cmd(".");
    let frame = editor.frame();
    assert_eq!(
        frame.rows,
        Some(vec![
            "    1: one [gap_start: 3, gap_end: 19, size: 19]".to_string(),
            "    2: two [gap_start: 3, gap_end: 19, size: 19]".to_string(),
        ])
    );
    assert_eq!(editor.frame().rows, None);
}

#[test]
fn frame_serves_the_redisplay() {
    let mut editor = Editor::new(buffer("a.txt", &["one"]), 10);
    editor.frame();
    assert!(!editor.take_redisplay());
    editor.mark_redisplay();
    assert!(editor.frame().rows.is_some());
    assert!(!editor.take_redisplay());
}

#[test]
fn open_file_asks_for_a_path() {
    let mut editor = Editor::new(buffer("a.txt", &["a"]), 10);
    editor.take_redisplay();
    let action = editor.run_cmd("o");
    assert_eq!(action, Action::AskFile);
    assert_eq!(action.prompt(), Some("File: "));
    assert!(editor.take_redisplay());
    assert_eq!(editor.buffers().len(), 1);
}

#[test]
fn opened_file_is_appended_and_current() {
    let mut editor = Editor::new(buffer("a.txt", &["a"]), 10);
    editor.run_cmd("o");
    editor.take_redisplay();
    let shown = editor.finish_open(Ok(buffer("b.txt", &["b1", "b2"])));
    assert_eq!(shown, None);
    assert_eq!(editor.buffers().len(), 2);
    assert_eq!(editor.buffers().get_current_buffer().name(), "b.txt");
    assert_eq!(editor.mode(), EditorMode::Command);
    assert!(editor.take_redisplay());
    assert_eq!(editor.display_rows(), vec!["b1", "b2"]);
    assert_eq!(editor.mode_line(), "[-] b.txt ------ [CMD]");
}

#[test]
fn missing_file_opens_as_a_blank_buffer() {
    let mut editor = Editor::new(buffer("a.txt", &["a"]), 10);
    editor.run_cmd("o");
    let loaded = Buf::load("new.txt".to_string(), ReadOutcome::NotFound);
    assert_eq!(editor.finish_open(loaded), None);
    assert_eq!(editor.buffers().len(), 2);
    assert_eq!(editor.buffers().get_current_buffer().line_count(), 1);
    assert_eq!(editor.display_rows(), vec![""]);
}

#[test]
fn failed_open_gives_the_message_to_show() {
    let mut editor = Editor::new(buffer("a.txt", &["a"]), 10);
    editor.run_cmd("o");
    editor.take_redisplay();
    let loaded = Buf::load(
        "/root/secret".to_string(),
        ReadOutcome::Failed("Permission denied (os error 13)".to_string()),
    );
    let shown = editor.finish_open(loaded);
    assert_eq!(
        shown,
        Some("Error opening file: Permission denied (os error 13)".to_string())
    );
    assert_eq!(editor.buffers().len(), 1);
    assert_eq!(editor.buffers().get_current_buffer().name(), "a.txt");
    assert_eq!(editor.mode(), EditorMode::Command);
    assert!(editor.take_redisplay());
}

#[test]
fn failed_open_with_an_empty_cause() {
    let mut editor = Editor::new(buffer("a.txt", &["a"]), 10);
    let shown = editor.finish_open(Err(LoadError::Io(String::new())));
    assert_eq!(shown, Some("Error opening file: ".to_string()));
}

#[test]
fn opening_a_file_leaves_search_mode() {
    let mut editor = Editor::new(buffer("a.txt", &["a"]), 10);
    editor.finish_search("x");
    assert_eq!(editor.mode(), EditorMode::Search);
    editor.finish_open(Ok(buffer("b.txt", &[])));
    assert_eq!(editor.mode(), EditorMode::Command);
}

#[test]
fn search_asks_for_a_string_and_enters_search_mode() {
    let mut editor = Editor::new(buffer("a.txt", &["a"]), 10);
    editor.take_redisplay();
    let action = editor.run_cmd("/");
    assert_eq!(action, Action::AskSearch);
    assert_eq!(action.prompt(), Some("Search Forward: "));
    assert_eq!(editor.mode(), EditorMode::Command);
    assert!(editor.take_redisplay());
    let before = (editor.cursor(), editor.start_line(), editor.buffers().len());
    editor.finish_search("needle");
    assert_eq!(editor.mode(), EditorMode::Search);
    assert!(editor.take_redisplay());
    assert_eq!((editor.cursor(), editor.start_line(), editor.buffers().len()), before);
}

#[test]
fn search_and_insert_mode_bind_nothing() {
    let mut editor = Editor::new(numbered("a.txt", 5), 10);
    editor.finish_search("needle");
    editor.take_redisplay();
    let before = state(&editor);
    for symbol in ["q", "j", "G", ".", "o", "/", " ", "KEY_DOWN"] {
        assert_eq!(editor.run_cmd(symbol), Action::Continue);
        assert_eq!(state(&editor), before);
        assert!(!editor.take_redisplay());
    }
}

#[test]
fn continue_has_no_prompt() {
    assert_eq!(Action::Continue.prompt(), None);
}

#[test]
fn commands_can_be_executed_without_a_binding() {
    let mut editor = Editor::new(numbered("a.txt", 30), 10);
    assert_eq!(editor.execute(Command::MovePoint { dy: 3, dx: 2 }), Action::Continue);
    assert_eq!(editor.cursor(), (3, 2));
    assert_eq!(editor.execute(Command::MovePoint { dy: 100, dx: 100 }), Action::Continue);
    assert_eq!(editor.cursor(), (9, 6));
    assert_eq!(editor.execute(Command::MovePoint { dy: -100, dx: -100 }), Action::Continue);
    assert_eq!(editor.cursor(), (0, 0));
    assert_eq!(editor.execute(Command::MoveToFileEdge { to_end: false }), Action::Continue);
    assert_eq!(editor.execute(Command::OpenFile), Action::AskFile);
    assert_eq!(editor.execute(Command::Search), Action::AskSearch);
    assert_eq!(editor.execute(Command::Quit), Action::Continue);
    assert!(editor.should_quit());
}

#[test]
fn mode_binds_several_symbols_to_one_command() {
    let mut mode = Mode::new("TEST");
    assert_eq!(mode.name(), "TEST");
    assert_eq!(mode.lookup("a"), None);
    mode.add_command(&["a", "b", "KEY_A"], Command::ToggleLineNumbers);
    mode.add_command(&[], Command::Quit);
    assert_eq!(mode.lookup("a"), Some(Command::ToggleLineNumbers));
    assert_eq!(mode.lookup("b"), Some(Command::ToggleLineNumbers));
    assert_eq!(mode.lookup("KEY_A"), Some(Command::ToggleLineNumbers));
    assert_eq!(mode.lookup("A"), None);
    assert_eq!(mode.lookup("c"), None);
}

#[test]
fn binding_a_symbol_again_replaces_its_command() {
    let mut mode = Mode::new("TEST");
    mode.add_command(&["a", "b"], Command::Quit);
    mode.add_command(&["b"], Command::MovePage { increment: 1 });
    assert_eq!(mode.lookup("a"), Some(Command::Quit));
    assert_eq!(mode.lookup("b"), Some(Command::MovePage { increment: 1 }));
}

#[test]
fn mode_positions() {
    assert_eq!(EditorMode::Command.index(), 0);
    assert_eq!(EditorMode::Insert.index(), 1);
    assert_eq!(EditorMode::Search.index(), 2);
}

#[test]
fn symbol_of_a_named_key_is_its_name() {
    assert_eq!(symbol_for_key(258, Some("KEY_DOWN".to_string())), "KEY_DOWN");
    assert_eq!(symbol_for_key(106, Some("j".to_string())), "j");
}

#[test]
fn symbol_of_a_nameless_key_is_its_low_byte() {
    assert_eq!(symbol_for_key(106, None), "j");
    assert_eq!(symbol_for_key(32, None), " ");
    assert_eq!(symbol_for_key(0xe9, None), "\u{e9}");
    assert_eq!(symbol_for_key(0x100 + 65, None), "A");
    assert_eq!(symbol_for_key(-1, None), "\u{ff}");
}
