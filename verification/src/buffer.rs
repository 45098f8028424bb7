//! Lines, buffers, and the registry of open buffers.

use crate::gap_line::{storable, GapLine, GapModel};
use vstd::prelude::*;
use vstd::utf8::encode_utf8;

verus! {

/// What a line is: its ordinal in the file, counted from zero, its text, and
/// its line store.
pub struct LineView {
    pub number: nat,
    pub text: Seq<char>,
    pub store: GapModel,
}

impl LineView {
    /// The line with ordinal `number` and text `text`, as it is made: its
    /// line store is the one built from `text`.
    pub open spec fn of(number: nat, text: Seq<char>) -> LineView {
        LineView { number, text, store: GapModel::from_text(text) }
    }
}

/// One line of a buffer: its ordinal, its text, and the line store built from
/// that text when the line was made.
pub struct XLine {
    line_number: usize,
    data: String,
    gap_data: GapLine,
}

impl View for XLine {
    type V = LineView;

    closed spec fn view(&self) -> LineView {
        LineView { number: self.line_number as nat, text: self.data@, store: self.gap_data@ }
    }
}

impl XLine {
    /// Makes the line with ordinal `line_number` and text `data`, and builds
    /// its line store from `data`.
    pub fn new(line_number: usize, data: String) -> (line: Self)
        requires
            storable(data@),
        ensures
            line@ == LineView::of(line_number as nat, data@),
    {
        let gap_data = GapLine::from_str(data.as_str());
        Self { line_number, data, gap_data }
    }

    /// Number of characters of the line.
    pub fn size(&self) -> (n: usize)
        ensures
            n == self@.text.len(),
    {
        self.data.as_str().unicode_len()
    }

    /// The ordinal given to the line when it was made.
    pub fn line_number(&self) -> (n: usize)
        ensures
            n == self@.number,
    {
        self.line_number
    }

    /// The text of the line.
    pub fn data(&self) -> (text: &str)
        ensures
            text@ == self@.text,
    {
        self.data.as_str()
    }

    /// The line store.
    pub fn gap_data(&self) -> (store: &GapLine)
        ensures
            store@ == self@.store,
    {
        &self.gap_data
    }
}

/// What reading a file gave: its lines in order, or that no such file
/// exists, or the cause of another failure.
pub enum ReadOutcome {
    Lines(Vec<String>),
    NotFound,
    Failed(String),
}

/// Why a buffer could not be loaded.
#[derive(Debug)]
pub enum LoadError {
    /// Opening or reading failed for a reason other than absence; the field
    /// holds the cause.
    Io(String),
}

impl LoadError {
    /// The cause of the failure, in words.
    pub fn message(&self) -> (text: &str)
        ensures
            text@ == self.cause(),
    {
        match self {
            LoadError::Io(cause) => cause.as_str(),
        }
    }

    /// The cause of the failure.
    pub open spec fn cause(&self) -> Seq<char> {
        match self {
            LoadError::Io(cause) => cause@,
        }
    }
}

/// What a buffer is: the path of its file, its display name, its lines in
/// order, and whether it was changed since it was loaded.
pub struct BufView {
    pub path: Seq<char>,
    pub name: Seq<char>,
    pub lines: Seq<LineView>,
    pub modified: bool,
}

impl BufView {
    /// The buffer that a file with the lines `texts` loads as: it is named
    /// by its path, its lines are numbered from zero in their order, each
    /// with the line store built from its text, and it is not modified.
    pub open spec fn loaded(path: Seq<char>, texts: Seq<Seq<char>>) -> BufView {
        BufView {
            path,
            name: path,
            lines: Seq::new(texts.len(), |i: int| LineView::of(i as nat, texts[i])),
            modified: false,
        }
    }

    /// The buffer that stands for a file that does not exist yet: one empty
    /// line.
    pub open spec fn blank(path: Seq<char>) -> BufView {
        Self::loaded(path, seq![Seq::<char>::empty()])
    }

    /// Number of characters of line `i`, and `0` where there is no such line.
    pub open spec fn line_len(self, i: int) -> nat {
        if 0 <= i < self.lines.len() {
            self.lines[i].text.len()
        } else {
            0
        }
    }
}

/// The texts of `lines`, as a sequence of character sequences.
pub open spec fn texts(lines: Seq<String>) -> Seq<Seq<char>> {
    Seq::new(lines.len(), |i: int| lines[i]@)
}

/// A file held in memory: its lines in order, with the file's path, a
/// display name and a modified flag.
pub struct Buf {
    file_path: String,
    buffer_name: String,
    lines: Vec<XLine>,
    modified: bool,
}

impl View for Buf {
    type V = BufView;

    closed spec fn view(&self) -> BufView {
        BufView {
            path: self.file_path@,
            name: self.buffer_name@,
            lines: Seq::new(self.lines@.len(), |i: int| self.lines@[i]@),
            modified: self.modified,
        }
    }
}

impl Buf {
    /// Makes the buffer for the file at `path` from what reading that file
    /// gave. A file that does not exist gives a buffer of one empty line; a
    /// failure of another kind is handed on with its cause.
    pub fn load(path: String, outcome: ReadOutcome) -> (result: Result<Buf, LoadError>)
        requires
            outcome matches ReadOutcome::Lines(lines) ==> forall|i: int|
                0 <= i < lines@.len() ==> storable(#[trigger] lines@[i]@),
        ensures
            match outcome {
                ReadOutcome::Lines(lines) => result matches Ok(buf) && buf@ == BufView::loaded(
                    path@,
                    texts(lines@),
                ),
                ReadOutcome::NotFound => result matches Ok(buf) && buf@ == BufView::blank(path@),
                ReadOutcome::Failed(cause) => result matches Err(e) && e == LoadError::Io(cause),
            },
    {
        match outcome {
            ReadOutcome::Lines(lines) => Ok(Self::from_lines(path, lines)),
            ReadOutcome::NotFound => Ok(Self::empty(path)),
            ReadOutcome::Failed(cause) => Err(LoadError::Io(cause)),
        }
    }

    /// Makes the buffer whose lines have the texts `lines`, numbered from
    /// zero in their order.
    pub fn from_lines(path: String, lines: Vec<String>) -> (buf: Buf)
        requires
            forall|i: int| 0 <= i < lines@.len() ==> storable(#[trigger] lines@[i]@),
        ensures
            buf@ == BufView::loaded(path@, texts(lines@)),
    {
        let ghost given = lines@;
        let mut built: Vec<XLine> = Vec::new();
        for line in it: lines
            invariant
                it.seq() == given,
                built@.len() == it.index(),
                forall|k: int| 0 <= k < given.len() ==> storable(#[trigger] given[k]@),
                forall|k: int|
                    0 <= k < built@.len() ==> (#[trigger] built@[k])@ == LineView::of(
                        k as nat,
                        given[k]@,
                    ),
        {
            let number = built.len();
            built.push(XLine::new(number, line));
        }
        let buffer_name = path.clone();
        let buf = Buf { file_path: path, buffer_name, lines: built, modified: false };
        assert(buf@.lines =~= BufView::loaded(path@, texts(given)).lines);
        buf
    }

    /// Makes the buffer that stands for a file that does not exist yet: one
    /// line, which is empty, and not modified.
    pub fn empty(path: String) -> (buf: Buf)
        ensures
            buf@ == BufView::blank(path@),
    {
        let text = String::new();
        proof {
            assert(encode_utf8(text@).len() == 0);
        }
        let mut built: Vec<XLine> = Vec::new();
        built.push(XLine::new(0, text));
        let buffer_name = path.clone();
        let buf = Buf { file_path: path, buffer_name, lines: built, modified: false };
        assert(buf@.lines =~= BufView::blank(path@).lines);
        buf
    }

    /// Number of lines.
    pub fn line_count(&self) -> (n: usize)
        ensures
            n == self@.lines.len(),
    {
        self.lines.len()
    }

    /// Line `i`.
    pub fn line(&self, i: usize) -> (line: &XLine)
        requires
            i < self@.lines.len(),
        ensures
            line@ == self@.lines[i as int],
    {
        &self.lines[i]
    }

    /// Number of characters of line `i`, and `0` where there is no such line.
    pub fn line_len(&self, i: usize) -> (n: usize)
        ensures
            n == self@.line_len(i as int),
    {
        if i < self.lines.len() {
            self.lines[i].size()
        } else {
            0
        }
    }

    /// The display name: the path the buffer was loaded from.
    pub fn name(&self) -> (name: &str)
        ensures
            name@ == self@.name,
    {
        self.buffer_name.as_str()
    }

    /// The path of the buffer's file.
    pub fn path(&self) -> (path: &str)
        ensures
            path@ == self@.path,
    {
        self.file_path.as_str()
    }

    /// Whether the buffer was changed since it was loaded.
    pub fn is_modified(&self) -> (modified: bool)
        ensures
            modified == self@.modified,
    {
        self.modified
    }
}

/// What a registry is: its buffers in the order in which they were added,
/// and the index of the current one.
pub struct BufListView {
    pub buffers: Seq<BufView>,
    pub current: nat,
}

impl BufListView {
    /// The registry is not empty and its index addresses one of its buffers.
    pub open spec fn wf(self) -> bool {
        self.current < self.buffers.len()
    }

    /// The registry that holds `first` alone.
    pub open spec fn single(first: BufView) -> BufListView {
        BufListView { buffers: seq![first], current: 0 }
    }

    /// The registry after `buffer` was added at its end and selected.
    pub open spec fn append(self, buffer: BufView) -> BufListView {
        BufListView { buffers: self.buffers.push(buffer), current: self.buffers.len() }
    }

    /// The registry after the buffers of `added` were appended one by one.
    pub open spec fn append_all(self, added: Seq<BufView>) -> BufListView
        decreases added.len(),
    {
        if added.len() == 0 {
            self
        } else {
            self.append_all(added.drop_last()).append(added.last())
        }
    }

    /// The selected buffer.
    pub open spec fn current_buffer(self) -> BufView {
        self.buffers[self.current as int]
    }

    /// Registry law. Whatever buffers are appended to a well-formed registry,
    /// and in whatever number, the registry stays well formed, so it is never
    /// empty; it holds the old buffers followed by the new ones; and the
    /// current buffer is the one appended last.
    pub proof fn lemma_append_all(self, added: Seq<BufView>)
        requires
            self.wf(),
        ensures
            self.append_all(added).wf(),
            self.append_all(added).buffers.len() >= 1,
            self.append_all(added).buffers == self.buffers + added,
            added.len() > 0 ==> self.append_all(added).current_buffer() == added.last(),
        decreases added.len(),
    {
        if added.len() == 0 {
            assert(self.buffers + added =~= self.buffers);
        } else {
            self.lemma_append_all(added.drop_last());
            assert(added =~= added.drop_last().push(added.last()));
            assert(self.append_all(added).buffers =~= self.buffers + added);
        }
    }
}

/// The open buffers, one of which is current.
pub struct BufList {
    buffers: Vec<Buf>,
    current_idx: usize,
}

impl View for BufList {
    type V = BufListView;

    closed spec fn view(&self) -> BufListView {
        BufListView {
            buffers: Seq::new(self.buffers@.len(), |i: int| self.buffers@[i]@),
            current: self.current_idx as nat,
        }
    }
}

impl BufList {
    /// Makes the registry that holds `first_buffer`, which is current.
    pub fn new(first_buffer: Buf) -> (list: Self)
        ensures
            list@ == BufListView::single(first_buffer@),
            list@.wf(),
    {
        let mut buffers: Vec<Buf> = Vec::new();
        buffers.push(first_buffer);
        let list = Self { buffers, current_idx: 0 };
        assert(list@.buffers =~= seq![first_buffer@]);
        list
    }

    /// Adds `buffer` at the end and makes it current.
    pub fn append(&mut self, buffer: Buf)
        ensures
            final(self)@ == old(self)@.append(buffer@),
            final(self)@.wf(),
    {
        self.buffers.push(buffer);
        self.current_idx = self.buffers.len() - 1;
        assert(self@.buffers =~= old(self)@.buffers.push(buffer@));
    }

    /// The current buffer.
    pub fn get_current_buffer(&self) -> (buffer: &Buf)
        requires
            self@.wf(),
        ensures
            buffer@ == self@.current_buffer(),
    {
        &self.buffers[self.current_idx]
    }

    /// The current buffer, for changing it in place.
    pub fn get_current_buffer_mut(&mut self) -> (buffer: &mut Buf)
        requires
            old(self)@.wf(),
        ensures
            buffer@ == old(self)@.current_buffer(),
            final(self)@.current == old(self)@.current,
            final(self)@.buffers == old(self)@.buffers.update(
                old(self)@.current as int,
                final(buffer)@,
            ),
    {
        &mut self.buffers[self.current_idx]
    }

    /// Number of buffers.
    pub fn len(&self) -> (n: usize)
        ensures
            n == self@.buffers.len(),
    {
        self.buffers.len()
    }
}

} // verus!
