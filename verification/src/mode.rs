//! Modes and the commands that their input symbols are bound to.

use vstd::hash_map::StringHashMap;
use vstd::prelude::*;

verus! {

/// The modes of the editor. `Command` is the one it starts and rests in.
#[derive(Clone, Copy, PartialEq, Eq, Debug, Structural)]
pub enum EditorMode {
    Command,
    Insert,
    Search,
}

impl EditorMode {
    /// Position of the mode in the editor's list of modes.
    pub open spec fn index_spec(self) -> usize {
        match self {
            EditorMode::Command => 0,
            EditorMode::Insert => 1,
            EditorMode::Search => 2,
        }
    }

    /// Position of the mode in the editor's list of modes.
    #[verifier::when_used_as_spec(index_spec)]
    pub fn index(self) -> (i: usize)
        ensures
            i == self.index_spec(),
            i < 3,
    {
        match self {
            EditorMode::Command => 0,
            EditorMode::Insert => 1,
            EditorMode::Search => 2,
        }
    }
}

/// What an input symbol can be bound to.
#[derive(Clone, Copy, PartialEq, Eq, Debug, Structural)]
pub enum Command {
    /// Leave the editor.
    Quit,
    /// Move the cursor by `dy` rows and `dx` columns.
    MovePoint { dy: i32, dx: i32 },
    /// Move the cursor to the end of its line, or to its start.
    MoveToLineEdge { to_end: bool },
    /// Jump to the end of the file, or to its start.
    MoveToFileEdge { to_end: bool },
    /// Page forward where `increment` is positive, backward otherwise.
    MovePage { increment: i32 },
    /// Show or hide line numbers.
    ToggleLineNumbers,
    /// Ask for a path and open that file in a new buffer.
    OpenFile,
    /// Ask for a search string and enter search mode.
    Search,
}

/// What a mode is: its name and the command of each bound symbol.
pub struct ModeView {
    pub name: Seq<char>,
    pub keymap: Map<Seq<char>, Command>,
}

impl ModeView {
    /// The command that `symbol` is bound to, if any.
    pub open spec fn lookup(self, symbol: Seq<char>) -> Option<Command> {
        if self.keymap.contains_key(symbol) {
            Some(self.keymap[symbol])
        } else {
            None
        }
    }
}

/// Whether `keymap` binds `symbol` to `command`.
pub open spec fn binds(keymap: Map<Seq<char>, Command>, symbol: Seq<char>, command: Command) -> bool {
    keymap.contains_key(symbol) && keymap[symbol] == command
}

/// The keymap `keymap` after each symbol of `keys` was bound to `command`,
/// in order; a symbol bound before is bound anew.
pub open spec fn bind_all(
    keymap: Map<Seq<char>, Command>,
    keys: Seq<&str>,
    command: Command,
) -> Map<Seq<char>, Command>
    decreases keys.len(),
{
    if keys.len() == 0 {
        keymap
    } else {
        bind_all(keymap, keys.drop_last(), command).insert(keys.last()@, command)
    }
}

/// Whether `symbol` is one of `keys`.
pub open spec fn names(keys: Seq<&str>, symbol: Seq<char>) -> bool {
    exists|i: int| 0 <= i < keys.len() && (#[trigger] keys[i])@ == symbol
}

/// After binding, each of the symbols is bound to the command, and every
/// other symbol is bound as before.
pub proof fn lemma_bind_all(
    keymap: Map<Seq<char>, Command>,
    keys: Seq<&str>,
    command: Command,
    symbol: Seq<char>,
)
    ensures
        bind_all(keymap, keys, command).contains_key(symbol) <==> names(keys, symbol)
            || keymap.contains_key(symbol),
        names(keys, symbol) ==> bind_all(keymap, keys, command)[symbol] == command,
        !names(keys, symbol) ==> bind_all(keymap, keys, command)[symbol] == keymap[symbol],
    decreases keys.len(),
{
    if keys.len() > 0 {
        let front = keys.drop_last();
        lemma_bind_all(keymap, front, command, symbol);
        if names(front, symbol) {
            let i = choose|i: int| 0 <= i < front.len() && (#[trigger] front[i])@ == symbol;
            assert(keys[i]@ == symbol);
        }
        if keys.last()@ == symbol {
            assert(keys[keys.len() - 1]@ == symbol);
        }
        if names(keys, symbol) {
            let i = choose|i: int| 0 <= i < keys.len() && (#[trigger] keys[i])@ == symbol;
            if i < keys.len() - 1 {
                assert(front[i]@ == symbol);
            }
        }
    }
}

/// A named set of bindings from input symbols to commands.
pub struct Mode {
    name: String,
    keymap: StringHashMap<Command>,
}

impl View for Mode {
    type V = ModeView;

    closed spec fn view(&self) -> ModeView {
        ModeView { name: self.name@, keymap: self.keymap@ }
    }
}

impl Mode {
    /// Makes a mode called `name` that binds no symbol.
    pub fn new(name: &str) -> (mode: Self)
        ensures
            mode@ == (ModeView { name: name@, keymap: Map::empty() }),
    {
        Self { name: name.to_owned(), keymap: StringHashMap::new() }
    }

    /// Binds each symbol of `keys` to `command`. Symbols are told apart by
    /// case, and several of them may share one command.
    pub fn add_command(&mut self, keys: &[&str], command: Command)
        ensures
            final(self)@.name == old(self)@.name,
            final(self)@.keymap == bind_all(old(self)@.keymap, keys@, command),
            forall|symbol: Seq<char>|
                #[trigger] final(self)@.lookup(symbol) == if names(keys@, symbol) {
                    Some(command)
                } else {
                    old(self)@.lookup(symbol)
                },
    {
        let mut i: usize = 0;
        while i < keys.len()
            invariant
                i <= keys@.len(),
                self@.name == old(self)@.name,
                self@.keymap == bind_all(old(self)@.keymap, keys@.take(i as int), command),
            decreases keys@.len() - i,
        {
            proof {
                assert(keys@.take(i + 1).drop_last() =~= keys@.take(i as int));
            }
            self.keymap.insert(keys[i].to_owned(), command);
            i += 1;
        }
        proof {
            assert(keys@.take(keys@.len() as int) =~= keys@);
            assert forall|symbol: Seq<char>|
                #[trigger] self@.lookup(symbol) == if names(keys@, symbol) {
                    Some(command)
                } else {
                    old(self)@.lookup(symbol)
                } by {
                lemma_bind_all(old(self)@.keymap, keys@, command, symbol);
            }
        }
    }

    /// The command that the symbol `cmd` is bound to, if any.
    pub fn lookup(&self, cmd: &str) -> (found: Option<Command>)
        ensures
            found == self@.lookup(cmd@),
    {
        match self.keymap.get(cmd) {
            Some(command) => Some(*command),
            None => None,
        }
    }

    /// The name of the mode.
    pub fn name(&self) -> (name: &str)
        ensures
            name@ == self@.name,
    {
        self.name.as_str()
    }
}

} // verus!
