//! The editor's state and the steps that input takes it through.
//!
//! The editor never reads input and never draws. Its caller reads one input
//! symbol and hands it to [`Editor::run_cmd`]; the answer says whether the
//! caller has to ask the user for something before the next symbol is read,
//! and [`Editor::finish_open`] and [`Editor::finish_search`] take what the
//! user answered. Before each symbol is read, [`Editor::frame`] says what is
//! to be drawn.

use crate::buffer::{texts, Buf, BufList, BufListView, BufView, LineView, LoadError, XLine};
use crate::mode::{bind_all, binds, Command, EditorMode, Mode, ModeView};
use crate::text::{decimal, pad_left, push_padded_decimal};
use crate::viewport::{
    file_end_row, file_end_row_spec, file_end_start, file_end_start_spec, page_backward,
    page_backward_spec, page_forward, page_forward_spec, target_col, target_col_spec, target_row,
    target_row_spec,
};
use vstd::prelude::*;

verus! {

/// Width of the field that a line number is written in.
pub const LINE_NUMBER_WIDTH: usize = 5;

/// What the caller has to do after a step, before it reads the next symbol.
#[derive(Clone, Copy, PartialEq, Eq, Debug, Structural)]
pub enum Action {
    /// Nothing.
    Continue,
    /// Ask for the path of a file, read that file, and hand what came of it
    /// to [`Editor::finish_open`].
    AskFile,
    /// Ask for a search string and hand it to [`Editor::finish_search`].
    AskSearch,
}

impl Action {
    /// The text to prompt the user with, where the action asks for input.
    pub open spec fn prompt_spec(self) -> Option<Seq<char>> {
        match self {
            Action::Continue => None,
            Action::AskFile => Some("File: "@),
            Action::AskSearch => Some("Search Forward: "@),
        }
    }

    /// The text to prompt the user with, where the action asks for input.
    pub fn prompt(self) -> (text: Option<&'static str>)
        ensures
            text is Some <==> self.prompt_spec() is Some,
            text matches Some(t) ==> Some(t@) == self.prompt_spec(),
    {
        match self {
            Action::Continue => None,
            Action::AskFile => Some("File: "),
            Action::AskSearch => Some("Search Forward: "),
        }
    }
}

/// The bindings of command mode.
pub open spec fn command_keymap() -> Map<Seq<char>, Command> {
    Map::<Seq<char>, Command>::empty()
        .insert("q"@, Command::Quit)
        .insert("j"@, Command::MovePoint { dy: 1, dx: 0 })
        .insert("KEY_DOWN"@, Command::MovePoint { dy: 1, dx: 0 })
        .insert("k"@, Command::MovePoint { dy: -1i32, dx: 0 })
        .insert("KEY_UP"@, Command::MovePoint { dy: -1i32, dx: 0 })
        .insert("l"@, Command::MovePoint { dy: 0, dx: 1 })
        .insert("KEY_RIGHT"@, Command::MovePoint { dy: 0, dx: 1 })
        .insert("h"@, Command::MovePoint { dy: 0, dx: -1i32 })
        .insert("KEY_LEFT"@, Command::MovePoint { dy: 0, dx: -1i32 })
        .insert("^"@, Command::MoveToLineEdge { to_end: false })
        .insert("0"@, Command::MoveToLineEdge { to_end: false })
        .insert("KEY_HOME"@, Command::MoveToLineEdge { to_end: false })
        .insert("$"@, Command::MoveToLineEdge { to_end: true })
        .insert("KEY_END"@, Command::MoveToLineEdge { to_end: true })
        .insert("G"@, Command::MoveToFileEdge { to_end: true })
        .insert(" "@, Command::MovePage { increment: 1 })
        .insert("KEY_NPAGE"@, Command::MovePage { increment: 1 })
        .insert("KEY_PPAGE"@, Command::MovePage { increment: -1i32 })
        .insert("."@, Command::ToggleLineNumbers)
        .insert("o"@, Command::OpenFile)
        .insert("/"@, Command::Search)
}

/// The table of command mode. Each of the twenty-one symbols is bound to its
/// command, symbols that share a command among them, and no other symbol is
/// bound.
pub proof fn lemma_command_keymap()
    ensures
        binds(command_keymap(), "q"@, Command::Quit),
        binds(command_keymap(), "j"@, Command::MovePoint { dy: 1, dx: 0 }),
        binds(command_keymap(), "KEY_DOWN"@, Command::MovePoint { dy: 1, dx: 0 }),
        binds(command_keymap(), "k"@, Command::MovePoint { dy: -1i32, dx: 0 }),
        binds(command_keymap(), "KEY_UP"@, Command::MovePoint { dy: -1i32, dx: 0 }),
        binds(command_keymap(), "l"@, Command::MovePoint { dy: 0, dx: 1 }),
        binds(command_keymap(), "KEY_RIGHT"@, Command::MovePoint { dy: 0, dx: 1 }),
        binds(command_keymap(), "h"@, Command::MovePoint { dy: 0, dx: -1i32 }),
        binds(command_keymap(), "KEY_LEFT"@, Command::MovePoint { dy: 0, dx: -1i32 }),
        binds(command_keymap(), "^"@, Command::MoveToLineEdge { to_end: false }),
        binds(command_keymap(), "0"@, Command::MoveToLineEdge { to_end: false }),
        binds(command_keymap(), "KEY_HOME"@, Command::MoveToLineEdge { to_end: false }),
        binds(command_keymap(), "$"@, Command::MoveToLineEdge { to_end: true }),
        binds(command_keymap(), "KEY_END"@, Command::MoveToLineEdge { to_end: true }),
        binds(command_keymap(), "G"@, Command::MoveToFileEdge { to_end: true }),
        binds(command_keymap(), " "@, Command::MovePage { increment: 1 }),
        binds(command_keymap(), "KEY_NPAGE"@, Command::MovePage { increment: 1 }),
        binds(command_keymap(), "KEY_PPAGE"@, Command::MovePage { increment: -1i32 }),
        binds(command_keymap(), "."@, Command::ToggleLineNumbers),
        binds(command_keymap(), "o"@, Command::OpenFile),
        binds(command_keymap(), "/"@, Command::Search),
        command_keymap().dom() == set![
            "q"@,
            "j"@,
            "KEY_DOWN"@,
            "k"@,
            "KEY_UP"@,
            "l"@,
            "KEY_RIGHT"@,
            "h"@,
            "KEY_LEFT"@,
            "^"@,
            "0"@,
            "KEY_HOME"@,
            "$"@,
            "KEY_END"@,
            "G"@,
            " "@,
            "KEY_NPAGE"@,
            "KEY_PPAGE"@,
            "."@,
            "o"@,
            "/"@,
        ],
{
    lemma_key_marks();
}

/// Length and one telling character of each symbol that command mode binds:
/// enough to tell any two of them apart.
proof fn lemma_key_marks()
    ensures
        "q"@.len() == 1 && "q"@[0] == 'q',
        "j"@.len() == 1 && "j"@[0] == 'j',
        "k"@.len() == 1 && "k"@[0] == 'k',
        "l"@.len() == 1 && "l"@[0] == 'l',
        "h"@.len() == 1 && "h"@[0] == 'h',
        "^"@.len() == 1 && "^"@[0] == '^',
        "0"@.len() == 1 && "0"@[0] == '0',
        "$"@.len() == 1 && "$"@[0] == '$',
        "G"@.len() == 1 && "G"@[0] == 'G',
        " "@.len() == 1 && " "@[0] == ' ',
        "."@.len() == 1 && "."@[0] == '.',
        "o"@.len() == 1 && "o"@[0] == 'o',
        "/"@.len() == 1 && "/"@[0] == '/',
        "KEY_DOWN"@.len() == 8 && "KEY_DOWN"@[4] == 'D',
        "KEY_UP"@.len() == 6 && "KEY_UP"@[4] == 'U',
        "KEY_RIGHT"@.len() == 9 && "KEY_RIGHT"@[4] == 'R',
        "KEY_LEFT"@.len() == 8 && "KEY_LEFT"@[4] == 'L',
        "KEY_HOME"@.len() == 8 && "KEY_HOME"@[4] == 'H',
        "KEY_END"@.len() == 7 && "KEY_END"@[4] == 'E',
        "KEY_NPAGE"@.len() == 9 && "KEY_NPAGE"@[4] == 'N',
        "KEY_PPAGE"@.len() == 9 && "KEY_PPAGE"@[4] == 'P',
{
    reveal_strlit("q");
    reveal_strlit("j");
    reveal_strlit("k");
    reveal_strlit("l");
    reveal_strlit("h");
    reveal_strlit("^");
    reveal_strlit("0");
    reveal_strlit("$");
    reveal_strlit("G");
    reveal_strlit(" ");
    reveal_strlit(".");
    reveal_strlit("o");
    reveal_strlit("/");
    reveal_strlit("KEY_DOWN");
    reveal_strlit("KEY_UP");
    reveal_strlit("KEY_RIGHT");
    reveal_strlit("KEY_LEFT");
    reveal_strlit("KEY_HOME");
    reveal_strlit("KEY_END");
    reveal_strlit("KEY_NPAGE");
    reveal_strlit("KEY_PPAGE");
}

/// The modes an editor starts with, in the order of [`EditorMode::index`]:
/// command mode with its bindings, and insert and search mode, which bind
/// nothing.
pub open spec fn initial_modes() -> Seq<ModeView> {
    seq![
        ModeView { name: "CMD"@, keymap: command_keymap() },
        ModeView { name: "INSERT"@, keymap: Map::empty() },
        ModeView { name: "SEARCH"@, keymap: Map::empty() },
    ]
}

/// The text of a row that shows `line`, the line at `position`, with its
/// number: the number, counted from one, in a field of `LINE_NUMBER_WIDTH`
/// characters, the text of the line, and the diagnostics of its line store.
pub open spec fn numbered_row(position: nat, line: LineView) -> Seq<char> {
    pad_left(decimal(position + 1), LINE_NUMBER_WIDTH as nat) + ": "@ + line.text + " "@
        + line.store.info()
}

/// The message shown when a file could not be opened.
pub open spec fn open_error_text(cause: Seq<char>) -> Seq<char> {
    "Error opening file: "@ + cause
}

/// What an editor is, as plain values.
pub struct EditorView {
    /// The modes, in the order of [`EditorMode::index`].
    pub modes: Seq<ModeView>,
    /// The active mode.
    pub mode: EditorMode,
    /// Number of rows of the window that shows the buffer.
    pub window_height: nat,
    /// The open buffers.
    pub buffers: BufListView,
    /// Whether the buffer has to be drawn anew.
    pub redisplay: bool,
    /// Whether the editor was asked to quit.
    pub quit: bool,
    /// Row of the cursor, counted from the top of the window.
    pub row: nat,
    /// Column of the cursor, counted from the start of its line.
    pub col: nat,
    /// Index of the first line shown.
    pub start_line: nat,
    /// Whether lines are shown with their numbers.
    pub line_number_show: bool,
}

impl EditorView {
    /// There is a mode for each [`EditorMode`], the window has a row, and
    /// the registry holds a current buffer.
    pub open spec fn wf(self) -> bool {
        &&& self.modes.len() == 3
        &&& self.window_height >= 1
        &&& self.buffers.wf()
    }

    /// The editor as it starts: command mode, cursor at the top left of the
    /// first line, the buffer yet to be drawn.
    pub open spec fn initial(buffer: BufView, window_height: nat) -> EditorView {
        EditorView {
            modes: initial_modes(),
            mode: EditorMode::Command,
            window_height,
            buffers: BufListView::single(buffer),
            redisplay: true,
            quit: false,
            row: 0,
            col: 0,
            start_line: 0,
            line_number_show: false,
        }
    }

    /// The active mode's name and bindings.
    pub open spec fn active(self) -> ModeView {
        self.modes[self.mode.index_spec() as int]
    }

    /// The current buffer.
    pub open spec fn buffer(self) -> BufView {
        self.buffers.current_buffer()
    }

    /// Number of lines of the current buffer.
    pub open spec fn line_count(self) -> nat {
        self.buffer().lines.len()
    }

    /// Index of the line that the cursor is on.
    pub open spec fn current_line_idx(self) -> nat {
        self.start_line + self.row
    }

    /// Number of characters of the line that the cursor is on, and `0` where
    /// the buffer has no such line.
    pub open spec fn current_line_len(self) -> nat {
        self.buffer().line_len(self.current_line_idx() as int)
    }

    /// The same editor with a redisplay pending.
    pub open spec fn mark_redisplay(self) -> EditorView {
        EditorView { redisplay: true, ..self }
    }

    /// The editor after the cursor moved by `dy` rows and `dx` columns. The
    /// row is settled first; the column is held to the line of the new row.
    pub open spec fn move_point(self, dy: int, dx: int) -> EditorView {
        let row = target_row_spec(
            self.row as int,
            dy,
            self.start_line as int,
            self.window_height as int,
            self.line_count() as int,
        );
        let col = target_col_spec(
            self.col as int,
            dx,
            self.buffer().line_len(self.start_line + row) as int,
        );
        EditorView { row: row as nat, col: col as nat, ..self }
    }

    /// The editor after the cursor moved to the end of its line, or to its
    /// start.
    pub open spec fn move_to_line_edge(self, to_end: bool) -> EditorView {
        EditorView {
            col: if to_end {
                self.current_line_len()
            } else {
                0
            },
            ..self
        }
    }

    /// The editor after a jump to the end of the file, or to its start.
    pub open spec fn move_to_file_edge(self, to_end: bool) -> EditorView {
        if to_end {
            EditorView {
                start_line: file_end_start_spec(
                    self.line_count() as int,
                    self.window_height as int,
                ) as nat,
                row: file_end_row_spec(self.line_count() as int, self.window_height as int) as nat,
                redisplay: true,
                ..self
            }
        } else {
            EditorView { start_line: 0, row: 0, redisplay: true, ..self }
        }
    }

    /// The editor after paging: forward where `increment` is positive,
    /// backward otherwise.
    pub open spec fn move_page(self, increment: int) -> EditorView {
        EditorView {
            start_line: if increment > 0 {
                page_forward_spec(
                    self.start_line as int,
                    self.window_height as int,
                    self.line_count() as int,
                ) as nat
            } else {
                page_backward_spec(self.start_line as int, self.window_height as int) as nat
            },
            redisplay: true,
            ..self
        }
    }

    /// The editor after a command named `next` as the mode to go on in: the
    /// mode changes, and a redisplay is asked for, only if `next` is not the
    /// active mode already.
    pub open spec fn enter(self, next: EditorMode) -> EditorView {
        if self.mode != next {
            EditorView { mode: next, redisplay: true, ..self }
        } else {
            self
        }
    }

    /// The editor after `command` did what it can do without the user. The
    /// two commands that ask the user for input leave a redisplay pending,
    /// since the prompt covers the screen.
    pub open spec fn execute(self, command: Command) -> EditorView {
        match command {
            Command::Quit => EditorView { quit: true, ..self },
            Command::MovePoint { dy, dx } => self.move_point(dy as int, dx as int),
            Command::MoveToLineEdge { to_end } => self.move_to_line_edge(to_end),
            Command::MoveToFileEdge { to_end } => self.move_to_file_edge(to_end),
            Command::MovePage { increment } => self.move_page(increment as int),
            Command::ToggleLineNumbers => EditorView {
                line_number_show: !self.line_number_show,
                redisplay: true,
                ..self
            },
            Command::OpenFile => self.mark_redisplay(),
            Command::Search => self.mark_redisplay(),
        }
    }

    /// What `command` leaves for the caller to do.
    pub open spec fn action(command: Command) -> Action {
        match command {
            Command::OpenFile => Action::AskFile,
            Command::Search => Action::AskSearch,
            _ => Action::Continue,
        }
    }

    /// The editor after the input symbol `symbol`: the command it is bound
    /// to in the active mode is executed; a symbol without a binding changes
    /// nothing.
    pub open spec fn run_cmd(self, symbol: Seq<char>) -> EditorView {
        match self.active().lookup(symbol) {
            Some(command) => self.execute(command),
            None => self,
        }
    }

    /// What the input symbol `symbol` leaves for the caller to do.
    pub open spec fn request(self, symbol: Seq<char>) -> Action {
        match self.active().lookup(symbol) {
            Some(command) => Self::action(command),
            None => Action::Continue,
        }
    }

    /// The editor after the file that the user asked for was loaded as
    /// `buffer`: it is appended and current, and the editor is in command
    /// mode.
    pub open spec fn file_opened(self, buffer: BufView) -> EditorView {
        (EditorView {
            buffers: self.buffers.append(buffer),
            redisplay: true,
            ..self
        }).enter(EditorMode::Command)
    }

    /// The editor after the file that the user asked for could not be
    /// loaded: nothing is appended, and the editor is in command mode.
    pub open spec fn file_failed(self) -> EditorView {
        self.mark_redisplay().enter(EditorMode::Command)
    }

    /// The editor after the user gave a search string: it is in search mode.
    pub open spec fn search_entered(self) -> EditorView {
        self.mark_redisplay().enter(EditorMode::Search)
    }

    /// Number of rows that show a line: the lines from the first visible one
    /// to the last, but no more than the window has rows.
    pub open spec fn visible_rows(self) -> nat {
        if self.start_line >= self.line_count() {
            0
        } else if self.line_count() - self.start_line >= self.window_height {
            self.window_height
        } else {
            (self.line_count() - self.start_line) as nat
        }
    }

    /// The text shown in row `row`.
    pub open spec fn row_text(self, row: int) -> Seq<char> {
        let position = self.start_line + row;
        let line = self.buffer().lines[position];
        if self.line_number_show {
            numbered_row(position as nat, line)
        } else {
            line.text
        }
    }

    /// The texts of the rows that show a line, from the top.
    pub open spec fn display_rows(self) -> Seq<Seq<char>> {
        Seq::new(self.visible_rows(), |row: int| self.row_text(row))
    }

    /// The text of the mode line: whether the current buffer is modified,
    /// its name, and the name of the active mode.
    pub open spec fn mode_line(self) -> Seq<char> {
        "["@ + (if self.buffer().modified {
            "*"@
        } else {
            "-"@
        }) + "] "@ + self.buffer().name + " ------ ["@ + self.active().name + "]"@
    }

    /// The rows to draw before the next symbol is read: all of them where a
    /// redisplay is pending, none otherwise.
    pub open spec fn frame_rows(self) -> Option<Seq<Seq<char>>> {
        if self.redisplay {
            Some(self.display_rows())
        } else {
            None
        }
    }

    /// The same editor with no redisplay pending.
    pub open spec fn drawn(self) -> EditorView {
        EditorView { redisplay: false, ..self }
    }

    /// Aliasing law. Two symbols that the active mode binds to the same
    /// command take the editor to the same state and leave the same for the
    /// caller to do.
    pub proof fn lemma_aliases(self, a: Seq<char>, b: Seq<char>)
        requires
            self.active().keymap.contains_key(a),
            self.active().keymap.contains_key(b),
            self.active().keymap[a] == self.active().keymap[b],
        ensures
            self.run_cmd(a) == self.run_cmd(b),
            self.request(a) == self.request(b),
    {
    }

    /// Every step keeps the editor well formed.
    pub proof fn lemma_steps_keep_wf(self, symbol: Seq<char>, buffer: BufView)
        requires
            self.wf(),
        ensures
            self.run_cmd(symbol).wf(),
            self.file_opened(buffer).wf(),
            self.file_failed().wf(),
            self.search_entered().wf(),
    {
    }

    /// Cursor law. After the cursor was moved, it is inside the window, on a
    /// column of its line, and not on a row past the last line of the buffer
    /// unless it is in row `0`.
    pub proof fn lemma_move_point_bounds(self, dy: int, dx: int)
        requires
            self.wf(),
        ensures
            self.move_point(dy, dx).row <= self.window_height - 1,
            self.move_point(dy, dx).col <= self.move_point(dy, dx).current_line_len(),
            self.move_point(dy, dx).row == 0 || self.move_point(dy, dx).current_line_idx()
                < self.line_count(),
    {
    }
}

/// What is to be drawn before the next input symbol is read.
pub struct Frame {
    /// The rows of the buffer window, from the top, where that window is to
    /// be drawn anew; `None` where it stays as it is.
    pub rows: Option<Vec<String>>,
    /// The text of the mode line.
    pub mode_line: String,
    /// Row and column of the cursor.
    pub cursor: (usize, usize),
}

impl Frame {
    /// The texts of the rows to draw, if the buffer window is to be drawn.
    pub open spec fn rows_view(self) -> Option<Seq<Seq<char>>> {
        match self.rows {
            Some(rows) => Some(texts(rows@)),
            None => None,
        }
    }
}

/// The state of the editor: its modes, its buffers, the cursor and the
/// viewport, and what is pending.
pub struct Editor {
    modes: Vec<Mode>,
    mode: EditorMode,
    window_height: usize,
    buffers: BufList,
    redisplay: bool,
    quit: bool,
    cursor: (usize, usize),
    start_line: usize,
    line_number_show: bool,
}

impl View for Editor {
    type V = EditorView;

    closed spec fn view(&self) -> EditorView {
        EditorView {
            modes: Seq::new(self.modes@.len(), |i: int| self.modes@[i]@),
            mode: self.mode,
            window_height: self.window_height as nat,
            buffers: self.buffers@,
            redisplay: self.redisplay,
            quit: self.quit,
            row: self.cursor.0 as nat,
            col: self.cursor.1 as nat,
            start_line: self.start_line as nat,
            line_number_show: self.line_number_show,
        }
    }
}

/// Makes command mode with its bindings.
fn command_mode() -> (mode: Mode)
    ensures
        mode@ == (ModeView { name: "CMD"@, keymap: command_keymap() }),
{
    let mut cmd_mode = Mode::new("CMD");
    proof {
        reveal_with_fuel(bind_all, 4);
    }
    cmd_mode.add_command(&["q"], Command::Quit);
    cmd_mode.add_command(&["j", "KEY_DOWN"], Command::MovePoint { dy: 1, dx: 0 });
    cmd_mode.add_command(&["k", "KEY_UP"], Command::MovePoint { dy: -1, dx: 0 });
    cmd_mode.add_command(&["l", "KEY_RIGHT"], Command::MovePoint { dy: 0, dx: 1 });
    cmd_mode.add_command(&["h", "KEY_LEFT"], Command::MovePoint { dy: 0, dx: -1 });
    cmd_mode.add_command(&["^", "0", "KEY_HOME"], Command::MoveToLineEdge { to_end: false });
    cmd_mode.add_command(&["$", "KEY_END"], Command::MoveToLineEdge { to_end: true });
    cmd_mode.add_command(&["G"], Command::MoveToFileEdge { to_end: true });
    cmd_mode.add_command(&[" ", "KEY_NPAGE"], Command::MovePage { increment: 1 });
    cmd_mode.add_command(&["KEY_PPAGE"], Command::MovePage { increment: -1 });
    cmd_mode.add_command(&["."], Command::ToggleLineNumbers);
    cmd_mode.add_command(&["o"], Command::OpenFile);
    cmd_mode.add_command(&["/"], Command::Search);
    cmd_mode
}

/// Builds the text of a row that shows `line`, the line at `position`, with
/// its number.
fn numbered_text(position: usize, line: &XLine) -> (text: String)
    requires
        position < usize::MAX,
    ensures
        text@ == numbered_row(position as nat, line@),
{
    let mut text = String::new();
    push_padded_decimal(&mut text, position + 1, LINE_NUMBER_WIDTH);
    text.append(": ");
    text.append(line.data());
    text.append(" ");
    let info = line.gap_data().gap_info();
    text.append(info.as_str());
    assert(text@ =~= numbered_row(position as nat, line@));
    text
}

impl Editor {
    /// Makes an editor that shows `initial_buffer` in a window of
    /// `window_height` rows.
    pub fn new(initial_buffer: Buf, window_height: usize) -> (editor: Self)
        requires
            window_height >= 1,
        ensures
            editor@ == EditorView::initial(initial_buffer@, window_height as nat),
            editor@.wf(),
    {
        let mut modes: Vec<Mode> = Vec::new();
        modes.push(command_mode());
        modes.push(Mode::new("INSERT"));
        modes.push(Mode::new("SEARCH"));
        let editor = Self {
            modes,
            mode: EditorMode::Command,
            window_height,
            buffers: BufList::new(initial_buffer),
            redisplay: true,
            quit: false,
            cursor: (0, 0),
            start_line: 0,
            line_number_show: false,
        };
        assert(editor@.modes =~= initial_modes());
        editor
    }

    /// Takes one input symbol: executes the command that the active mode
    /// binds it to, and ignores a symbol that is not bound.
    pub fn run_cmd(&mut self, cmd: &str) -> (action: Action)
        requires
            old(self)@.wf(),
        ensures
            final(self)@ == old(self)@.run_cmd(cmd@),
            action == old(self)@.request(cmd@),
            final(self)@.wf(),
    {
        match self.modes[self.mode.index()].lookup(cmd) {
            Some(command) => self.execute(command),
            None => Action::Continue,
        }
    }

    /// Executes `command` as far as it goes without the user, and says what
    /// is left for the caller to do.
    pub fn execute(&mut self, command: Command) -> (action: Action)
        requires
            old(self)@.wf(),
        ensures
            final(self)@ == old(self)@.execute(command),
            action == EditorView::action(command),
            final(self)@.wf(),
    {
        match command {
            Command::Quit => {
                self.quit = true;
                Action::Continue
            },
            Command::MovePoint { dy, dx } => {
                self.move_point(dy, dx);
                Action::Continue
            },
            Command::MoveToLineEdge { to_end } => {
                self.move_to_line_edge(to_end);
                Action::Continue
            },
            Command::MoveToFileEdge { to_end } => {
                self.move_to_file_edge(to_end);
                Action::Continue
            },
            Command::MovePage { increment } => {
                self.move_page(increment);
                Action::Continue
            },
            Command::ToggleLineNumbers => {
                self.line_number_show = !self.line_number_show;
                self.mark_redisplay();
                Action::Continue
            },
            Command::OpenFile => {
                self.mark_redisplay();
                Action::AskFile
            },
            Command::Search => {
                self.mark_redisplay();
                Action::AskSearch
            },
        }
    }

    /// Takes what came of loading the file that the user asked for. A loaded
    /// buffer is appended and becomes current; a failure gives the message
    /// to show. Either way the editor is in command mode afterwards.
    pub fn finish_open(&mut self, loaded: Result<Buf, LoadError>) -> (shown: Option<String>)
        requires
            old(self)@.wf(),
        ensures
            match loaded {
                Ok(buffer) => shown is None && final(self)@ == old(self)@.file_opened(buffer@),
                Err(error) => final(self)@ == old(self)@.file_failed() && (shown matches Some(
                    message,
                ) && message@ == open_error_text(error.cause())),
            },
            final(self)@.wf(),
    {
        let shown = match loaded {
            Ok(buffer) => {
                self.buffers.append(buffer);
                None
            },
            Err(error) => {
                let mut message = "Error opening file: ".to_owned();
                message.append(error.message());
                Some(message)
            },
        };
        self.mark_redisplay();
        self.enter(EditorMode::Command);
        shown
    }

    /// Takes the search string that the user gave and enters search mode.
    /// Nothing is searched for yet: the string is not looked at.
    pub fn finish_search(&mut self, _query: &str)
        requires
            old(self)@.wf(),
        ensures
            final(self)@ == old(self)@.search_entered(),
            final(self)@.wf(),
    {
        self.mark_redisplay();
        self.enter(EditorMode::Search);
    }

    /// Goes on in mode `next`, and asks for a redisplay if that is a change.
    fn enter(&mut self, next: EditorMode)
        ensures
            final(self)@ == old(self)@.enter(next),
    {
        if self.mode != next {
            self.mode = next;
            self.mark_redisplay();
        }
    }

    /// Asks for the buffer to be drawn anew.
    pub fn mark_redisplay(&mut self)
        ensures
            final(self)@ == old(self)@.mark_redisplay(),
    {
        self.redisplay = true;
    }

    /// Says whether the buffer has to be drawn anew, and takes the request
    /// as served.
    pub fn take_redisplay(&mut self) -> (pending: bool)
        ensures
            pending == old(self)@.redisplay,
            final(self)@ == old(self)@.drawn(),
    {
        let pending = self.redisplay;
        self.redisplay = false;
        pending
    }

    /// Says what is to be drawn before the next symbol is read: the mode
    /// line and the cursor always, the rows of the buffer window only where
    /// a redisplay is pending. The redisplay counts as served.
    pub fn frame(&mut self) -> (frame: Frame)
        requires
            old(self)@.wf(),
        ensures
            frame.rows_view() == old(self)@.frame_rows(),
            frame.mode_line@ == old(self)@.mode_line(),
            frame.cursor.0 == old(self)@.row,
            frame.cursor.1 == old(self)@.col,
            final(self)@ == old(self)@.drawn(),
            final(self)@.wf(),
    {
        let rows = if self.take_redisplay() {
            Some(self.display_rows())
        } else {
            None
        };
        Frame { rows, mode_line: self.mode_line(), cursor: self.cursor }
    }

    /// Number of characters of the line in row `row`, and `0` where the
    /// buffer has no such line.
    fn line_len_at(&self, row: usize) -> (n: usize)
        requires
            self@.wf(),
        ensures
            n == self@.buffer().line_len(self@.start_line + row),
    {
        let buffer = self.buffers.get_current_buffer();
        let num_lines = buffer.line_count();
        match self.start_line.checked_add(row) {
            Some(position) => buffer.line_len(position),
            None => {
                assert(self@.start_line + row >= num_lines);
                0
            },
        }
    }

    /// Number of characters of the line that the cursor is on, and `0` where
    /// the buffer has no such line.
    pub fn get_current_line_len(&self) -> (n: usize)
        requires
            self@.wf(),
        ensures
            n == self@.current_line_len(),
    {
        self.line_len_at(self.cursor.0)
    }

    /// Moves the cursor by `dy` rows and `dx` columns, holding it inside the
    /// window and on the text of the buffer.
    pub fn move_point(&mut self, dy: i32, dx: i32)
        requires
            old(self)@.wf(),
        ensures
            final(self)@ == old(self)@.move_point(dy as int, dx as int),
            final(self)@.wf(),
    {
        let num_lines = self.buffers.get_current_buffer().line_count();
        let row = target_row(self.cursor.0, dy, self.start_line, self.window_height, num_lines);
        let line_len = self.line_len_at(row);
        let col = target_col(self.cursor.1, dx, line_len);
        self.cursor = (row, col);
    }

    /// Moves the cursor to the end of its line, or to its start.
    pub fn move_to_line_edge(&mut self, to_end: bool)
        requires
            old(self)@.wf(),
        ensures
            final(self)@ == old(self)@.move_to_line_edge(to_end),
            final(self)@.wf(),
    {
        if to_end {
            self.cursor.1 = self.get_current_line_len();
        } else {
            self.cursor.1 = 0;
        }
    }

    /// Jumps to the end of the file, showing its last lines with the cursor
    /// on the last one, or to its start.
    pub fn move_to_file_edge(&mut self, to_end: bool)
        requires
            old(self)@.wf(),
        ensures
            final(self)@ == old(self)@.move_to_file_edge(to_end),
            final(self)@.wf(),
    {
        if to_end {
            let num_lines = self.buffers.get_current_buffer().line_count();
            self.start_line = file_end_start(num_lines, self.window_height);
            self.cursor.0 = file_end_row(num_lines, self.window_height);
        } else {
            self.start_line = 0;
            self.cursor.0 = 0;
        }
        self.mark_redisplay();
    }

    /// Pages forward where `increment` is positive, backward otherwise.
    pub fn move_page(&mut self, increment: i32)
        requires
            old(self)@.wf(),
        ensures
            final(self)@ == old(self)@.move_page(increment as int),
            final(self)@.wf(),
    {
        let num_lines = self.buffers.get_current_buffer().line_count();
        let new_start_line = if increment > 0 {
            page_forward(self.start_line, self.window_height, num_lines)
        } else {
            page_backward(self.start_line, self.window_height)
        };
        self.start_line = new_start_line;
        self.mark_redisplay();
    }

    /// The text of the mode line.
    pub fn mode_line(&self) -> (line: String)
        requires
            self@.wf(),
        ensures
            line@ == self@.mode_line(),
    {
        let buffer = self.buffers.get_current_buffer();
        let modified_char = if buffer.is_modified() {
            "*"
        } else {
            "-"
        };
        let mut line = "[".to_owned();
        line.append(modified_char);
        line.append("] ");
        line.append(buffer.name());
        line.append(" ------ [");
        line.append(self.modes[self.mode.index()].name());
        line.append("]");
        line
    }

    /// The texts of the rows of the window that show a line, from the top:
    /// the lines from the first visible one on, each with its number and its
    /// diagnostics where line numbers are shown.
    pub fn display_rows(&self) -> (rows: Vec<String>)
        requires
            self@.wf(),
        ensures
            texts(rows@) == self@.display_rows(),
            rows@.len() == self@.visible_rows(),
            forall|row: int| 0 <= row < rows@.len() ==> (#[trigger] rows@[row])@ == self@.row_text(row),
    {
        let buffer = self.buffers.get_current_buffer();
        let num_lines = buffer.line_count();
        let mut rows: Vec<String> = Vec::new();
        let mut i: usize = 0;
        while i < self.window_height && self.start_line < num_lines && i < num_lines
            - self.start_line
            invariant
                self@.wf(),
                buffer@ == self@.buffer(),
                num_lines == self@.line_count(),
                i <= self@.visible_rows(),
                rows@.len() == i,
                forall|row: int| 0 <= row < i ==> (#[trigger] rows@[row])@ == self@.row_text(row),
            decreases self.window_height - i,
        {
            let line_idx = self.start_line + i;
            let line = buffer.line(line_idx);
            let text = if self.line_number_show {
                numbered_text(line_idx, line)
            } else {
                line.data().to_owned()
            };
            rows.push(text);
            i += 1;
        }
        rows
    }

    /// Whether the editor was asked to quit.
    pub fn should_quit(&self) -> (quit: bool)
        ensures
            quit == self@.quit,
    {
        self.quit
    }

    /// The active mode.
    pub fn mode(&self) -> (mode: EditorMode)
        ensures
            mode == self@.mode,
    {
        self.mode
    }

    /// Row and column of the cursor.
    pub fn cursor(&self) -> (cursor: (usize, usize))
        ensures
            cursor.0 == self@.row,
            cursor.1 == self@.col,
    {
        self.cursor
    }

    /// Index of the first line shown.
    pub fn start_line(&self) -> (start: usize)
        ensures
            start == self@.start_line,
    {
        self.start_line
    }

    /// Whether lines are shown with their numbers.
    pub fn shows_line_numbers(&self) -> (shown: bool)
        ensures
            shown == self@.line_number_show,
    {
        self.line_number_show
    }

    /// The open buffers.
    pub fn buffers(&self) -> (buffers: &BufList)
        ensures
            buffers@ == self@.buffers,
    {
        &self.buffers
    }
}

/// The input symbol for a key: the name of the key where it has one, and
/// else the character whose code is the low byte of the key's code.
pub fn symbol_for_key(code: i32, name: Option<String>) -> (symbol: String)
    ensures
        symbol@ == match name {
            Some(name) => name@,
            None => seq![(code as u8) as char],
        },
{
    match name {
        Some(name) => name,
        None => {
            let mut symbol = String::new();
            symbol.push(#[verifier::truncate] (code as u8) as char);
            symbol
        },
    }
}

} // verus!
