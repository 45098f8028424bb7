//! A gap buffer holding the characters of one line of text.

use crate::text::{decimal, push_decimal};
use vstd::arithmetic::power2::{lemma2_to64, lemma_pow2_adds, pow2};
use vstd::prelude::*;
use vstd::utf8::encode_utf8;

verus! {

/// Smallest capacity a line store is ever given, and the slack added to the
/// byte length of a string that a store is built from.
pub const DEFAULT_GAP_SIZE: usize = 16;

/// Whether a line store can be built from `text`: its capacity, the byte
/// length of `text` in UTF-8 plus `DEFAULT_GAP_SIZE`, is a `usize`.
pub open spec fn storable(text: Seq<char>) -> bool {
    encode_utf8(text).len() + DEFAULT_GAP_SIZE <= usize::MAX
}

/// Tests whether a line store can be built from `text`.
pub fn is_storable(text: &str) -> (ok: bool)
    ensures
        ok == storable(text@),
{
    text.as_bytes().len() <= usize::MAX - DEFAULT_GAP_SIZE
}

/// Mathematical model of a gap buffer: the characters before the gap, the
/// characters after it, and the number of cells of the backing array.
pub struct GapModel {
    pub before: Seq<char>,
    pub after: Seq<char>,
    pub capacity: nat,
}

impl GapModel {
    /// The two regions fit into the backing array.
    pub open spec fn wf(self) -> bool {
        &&& self.before.len() + self.after.len() <= self.capacity
        &&& self.capacity >= DEFAULT_GAP_SIZE
    }

    /// Index of the first free cell.
    pub open spec fn gap_start(self) -> nat {
        self.before.len()
    }

    /// Index one past the last free cell.
    pub open spec fn gap_end(self) -> nat {
        (self.capacity - self.after.len()) as nat
    }

    /// Number of free cells.
    pub open spec fn gap_len(self) -> nat {
        (self.capacity - self.before.len() - self.after.len()) as nat
    }

    /// Number of characters stored.
    pub open spec fn len(self) -> nat {
        self.before.len() + self.after.len()
    }

    /// The logical content: the region before the gap followed by the region
    /// after it.
    pub open spec fn text(self) -> Seq<char> {
        self.before + self.after
    }

    /// An empty buffer of at least `DEFAULT_GAP_SIZE` cells whose gap spans
    /// all of them.
    pub open spec fn empty(capacity: nat) -> GapModel {
        GapModel {
            before: Seq::empty(),
            after: Seq::empty(),
            capacity: if capacity < DEFAULT_GAP_SIZE {
                DEFAULT_GAP_SIZE as nat
            } else {
                capacity
            },
        }
    }

    /// The same content in a backing array of twice the size.
    pub open spec fn grow(self) -> GapModel {
        GapModel { capacity: 2 * self.capacity, ..self }
    }

    /// Whether an insertion has to double the capacity first: fewer than two
    /// free cells are left.
    pub open spec fn must_grow(self) -> bool {
        self.gap_len() < 2
    }

    /// The buffer after writing `ch` at the start of the gap.
    pub open spec fn insert(self, ch: char) -> GapModel {
        let base = if self.must_grow() {
            self.grow()
        } else {
            self
        };
        GapModel { before: base.before.push(ch), ..base }
    }

    /// The buffer after inserting the characters of `s` one by one, in order.
    pub open spec fn insert_all(self, s: Seq<char>) -> GapModel
        decreases s.len(),
    {
        if s.len() == 0 {
            self
        } else {
            self.insert_all(s.drop_last()).insert(s.last())
        }
    }

    /// The buffer built from the text `s`: an empty buffer with
    /// `DEFAULT_GAP_SIZE` cells more than `s` has bytes in UTF-8, into which
    /// the characters of `s` are inserted in order.
    pub open spec fn from_text(s: Seq<char>) -> GapModel {
        Self::empty((encode_utf8(s).len() + DEFAULT_GAP_SIZE) as nat).insert_all(s)
    }

    /// The diagnostic line that names the gap's bounds and the capacity.
    pub open spec fn info(self) -> Seq<char> {
        "[gap_start: "@ + decimal(self.gap_start()) + ", gap_end: "@ + decimal(self.gap_end())
            + ", size: "@ + decimal(self.capacity) + "]"@
    }

    /// An insertion keeps the buffer well formed, adds exactly its character
    /// at the gap, and either keeps or doubles the capacity.
    pub proof fn lemma_insert(self, ch: char)
        requires
            self.wf(),
        ensures
            self.insert(ch).wf(),
            self.insert(ch).text() == self.before.push(ch) + self.after,
            self.insert(ch).len() == self.len() + 1,
            self.insert(ch).after == self.after,
            self.insert(ch).capacity == if self.must_grow() {
                2 * self.capacity
            } else {
                self.capacity
            },
    {
    }

    /// Growth law. Inserting the characters of `s` into a well-formed buffer
    /// puts them, in order, between the two regions and adds their number to
    /// the length. The capacity is doubled some number of times, and at least
    /// once when the new length exceeds the old capacity.
    pub proof fn lemma_insert_all(self, s: Seq<char>)
        requires
            self.wf(),
        ensures
            self.insert_all(s).wf(),
            self.insert_all(s).before == self.before + s,
            self.insert_all(s).after == self.after,
            self.insert_all(s).text() == self.before + s + self.after,
            self.insert_all(s).len() == self.len() + s.len(),
            exists|k: nat| self.insert_all(s).capacity == self.capacity * pow2(k),
            self.len() + s.len() > self.capacity ==> self.insert_all(s).capacity >= 2
                * self.capacity,
        decreases s.len(),
    {
        if s.len() == 0 {
            lemma2_to64();
            assert(self.capacity == self.capacity * pow2(0));
            assert(self.before + s =~= self.before);
        } else {
            let prev = self.insert_all(s.drop_last());
            self.lemma_insert_all(s.drop_last());
            prev.lemma_insert(s.last());
            let next = prev.insert(s.last());
            assert(self.insert_all(s) == next);
            assert(next.before =~= self.before + s) by {
                assert(s =~= s.drop_last().push(s.last()));
            }
            let k = choose|k: nat| prev.capacity == self.capacity * pow2(k);
            if prev.must_grow() {
                lemma_pow2_adds(k, 1);
                lemma2_to64();
                assert(self.capacity * (pow2(k) * 2) == 2 * (self.capacity * pow2(k)))
                    by (nonlinear_arith);
                assert(next.capacity == self.capacity * pow2(k + 1));
            } else {
                assert(next.capacity == self.capacity * pow2(k));
            }
            if self.len() + s.len() > self.capacity {
                if k == 0 {
                    lemma2_to64();
                    assert(prev.capacity == self.capacity);
                    assert(prev.must_grow());
                } else {
                    lemma_pow2_adds((k - 1) as nat, 1);
                    lemma2_to64();
                    assert(pow2(k) >= 2) by {
                        vstd::arithmetic::power2::lemma_pow2_pos((k - 1) as nat);
                    }
                    assert(self.capacity * pow2(k) >= self.capacity * 2) by (nonlinear_arith)
                        requires
                            pow2(k) >= 2,
                    ;
                }
            }
        }
    }

    /// Round-trip law. The buffer built from a text renders as that text:
    /// its characters all lie before the gap, and no doubling was needed.
    pub proof fn lemma_from_text(s: Seq<char>)
        ensures
            Self::from_text(s).wf(),
            Self::from_text(s).text() == s,
            Self::from_text(s).before == s,
            Self::from_text(s).after == Seq::<char>::empty(),
            Self::from_text(s).len() == s.len(),
            Self::from_text(s).capacity == encode_utf8(s).len() + DEFAULT_GAP_SIZE,
    {
        let start = Self::empty((encode_utf8(s).len() + DEFAULT_GAP_SIZE) as nat);
        lemma_utf8_len(s);
        lemma_insert_all_roomy(start, s);
        assert(start.before + s =~= s);
        assert(s + start.after =~= s);
    }
}

/// A text has at least as many bytes in UTF-8 as it has characters.
pub proof fn lemma_utf8_len(s: Seq<char>)
    ensures
        encode_utf8(s).len() >= s.len(),
    decreases s.len(),
{
    if s.len() > 0 {
        lemma_utf8_len(s.drop_first());
    }
}

/// Insertions into a buffer whose gap has room for them and one cell more
/// never double the capacity.
proof fn lemma_insert_all_roomy(m: GapModel, s: Seq<char>)
    requires
        m.wf(),
        m.gap_len() > s.len(),
    ensures
        m.insert_all(s).wf(),
        m.insert_all(s).before == m.before + s,
        m.insert_all(s).after == m.after,
        m.insert_all(s).capacity == m.capacity,
    decreases s.len(),
{
    if s.len() == 0 {
        assert(m.before + s =~= m.before);
    } else {
        lemma_insert_all_roomy(m, s.drop_last());
        assert(s =~= s.drop_last().push(s.last()));
        assert(m.insert_all(s).before =~= m.before + s);
    }
}

/// An editable line: a character array with one contiguous run of free cells,
/// the gap, at which characters are inserted.
pub struct GapLine {
    buf: Vec<char>,
    gap_start: usize,
    gap_end: usize,
}

impl View for GapLine {
    type V = GapModel;

    closed spec fn view(&self) -> GapModel {
        GapModel {
            before: self.buf@.subrange(0, self.gap_start as int),
            after: self.buf@.subrange(self.gap_end as int, self.buf@.len() as int),
            capacity: self.buf@.len(),
        }
    }
}

impl GapLine {
    #[verifier::type_invariant]
    spec fn inv(self) -> bool {
        &&& self.gap_start <= self.gap_end <= self.buf@.len()
        &&& self.buf@.len() >= DEFAULT_GAP_SIZE
    }

    /// Creates an empty line with room for `initial_capacity` characters, and
    /// never fewer than `DEFAULT_GAP_SIZE`.
    pub fn new(initial_capacity: usize) -> (line: Self)
        ensures
            line@ == GapModel::empty(initial_capacity as nat),
            line@.wf(),
    {
        let capacity: usize = if initial_capacity < DEFAULT_GAP_SIZE {
            DEFAULT_GAP_SIZE
        } else {
            initial_capacity
        };
        let line = Self { buf: vec!['\0'; capacity], gap_start: 0, gap_end: capacity };
        assert(line@.before =~= Seq::<char>::empty());
        assert(line@.after =~= Seq::<char>::empty());
        line
    }

    /// Doubles the backing array, keeping the characters before the gap at
    /// its front and the characters after the gap at its very end.
    fn expand(&mut self)
        requires
            2 * old(self)@.capacity <= usize::MAX,
        ensures
            final(self)@ == old(self)@.grow(),
            final(self).gap_start == old(self).gap_start,
            final(self).gap_end == old(self).gap_end + old(self).buf@.len(),
            final(self).buf@.len() == 2 * old(self).buf@.len(),
    {
        proof {
            use_type_invariant(&*self);
        }
        let old_size: usize = self.buf.len();
        let new_size: usize = old_size * 2;
        let mut new_buf: Vec<char> = vec!['\0'; new_size];
        let old_tail_len: usize = old_size - self.gap_end;
        let new_tail_start: usize = new_size - old_tail_len;

        let mut i: usize = 0;
        while i < self.gap_start
            invariant
                i <= self.gap_start <= self.gap_end <= old_size,
                old_size == self.buf@.len(),
                new_buf@.len() == new_size,
                new_size == old_size * 2,
                forall|k: int| 0 <= k < i ==> new_buf@[k] == self.buf@[k],
            decreases self.gap_start - i,
        {
            new_buf.set(i, self.buf[i]);
            i += 1;
        }

        let mut j: usize = 0;
        while j < old_tail_len
            invariant
                j <= old_tail_len,
                self.gap_start <= self.gap_end <= old_size,
                old_tail_len == old_size - self.gap_end,
                new_tail_start == new_size - old_tail_len,
                old_size == self.buf@.len(),
                new_buf@.len() == new_size,
                new_size == old_size * 2,
                forall|k: int| 0 <= k < self.gap_start ==> new_buf@[k] == self.buf@[k],
                forall|k: int|
                    new_tail_start <= k < new_tail_start + j ==> #[trigger] new_buf@[k]
                        == self.buf@[k - new_tail_start + self.gap_end],
            decreases old_tail_len - j,
        {
            new_buf.set(new_tail_start + j, self.buf[self.gap_end + j]);
            j += 1;
        }

        self.buf = new_buf;
        self.gap_end = new_tail_start;
        assert(self@.before =~= old(self)@.before);
        assert(self@.after =~= old(self)@.after);
    }

    /// Writes `ch` at the start of the gap, doubling the capacity first when
    /// fewer than two free cells are left.
    pub fn insert_char(&mut self, ch: char)
        requires
            old(self)@.must_grow() ==> 2 * old(self)@.capacity <= usize::MAX,
        ensures
            final(self)@ == old(self)@.insert(ch),
            final(self)@.wf(),
    {
        proof {
            use_type_invariant(&*self);
        }
        if self.gap_end - self.gap_start < 2 {
            self.expand();
        }
        proof {
            use_type_invariant(&*self);
        }
        assert(self.gap_start < self.gap_end);
        let ghost base = self@;
        self.buf[self.gap_start] = ch;
        self.gap_start += 1;
        assert(self@.before =~= base.before.push(ch));
        assert(self@.after =~= base.after);
    }

    /// Builds a line from `s`: the capacity is the byte length of `s` plus
    /// `DEFAULT_GAP_SIZE`, and the characters are inserted in order.
    pub fn from_str(s: &str) -> (line: Self)
        requires
            storable(s@),
        ensures
            line@ == GapModel::from_text(s@),
            line@.text() == s@,
            line@.wf(),
    {
        let mut gl = GapLine::new(s.len() + DEFAULT_GAP_SIZE);
        let ghost start = gl@;
        proof {
            lemma_utf8_len(s@);
        }
        for ch in it: s.chars()
            invariant
                it.seq() == s@,
                start.wf(),
                start.gap_len() > s@.len(),
                gl@ == start.insert_all(s@.take(it.index())),
        {
            proof {
                let done = s@.take(it.index());
                lemma_insert_all_roomy(start, done);
                assert(s@.take(it.index() + 1).drop_last() =~= done);
            }
            gl.insert_char(ch);
        }
        proof {
            assert(s@.take(s@.len() as int) =~= s@);
            GapModel::lemma_from_text(s@);
        }
        gl
    }

    /// Renders the logical content: the characters before the gap, then the
    /// characters after it.
    pub fn to_string(&self) -> (s: String)
        ensures
            s@ == self@.text(),
    {
        proof {
            use_type_invariant(self);
        }
        let mut s = String::new();
        let mut i: usize = 0;
        while i < self.gap_start
            invariant
                i <= self.gap_start <= self.gap_end <= self.buf@.len(),
                s@ == self.buf@.subrange(0, i as int),
            decreases self.gap_start - i,
        {
            s.push(self.buf[i]);
            i += 1;
            assert(s@ =~= self.buf@.subrange(0, i as int));
        }
        let mut j: usize = self.gap_end;
        while j < self.buf.len()
            invariant
                self.gap_start <= self.gap_end <= j <= self.buf@.len(),
                s@ == self@.before + self.buf@.subrange(self.gap_end as int, j as int),
            decreases self.buf@.len() - j,
        {
            s.push(self.buf[j]);
            j += 1;
            assert(s@ =~= self@.before + self.buf@.subrange(self.gap_end as int, j as int));
        }
        s
    }

    /// Describes the gap for diagnostics: where it starts, where it ends, and
    /// the capacity, each as a decimal number.
    pub fn gap_info(&self) -> (info: String)
        ensures
            info@ == self@.info(),
    {
        proof {
            use_type_invariant(self);
        }
        let mut info = "[gap_start: ".to_owned();
        push_decimal(&mut info, self.gap_start);
        info.append(", gap_end: ");
        push_decimal(&mut info, self.gap_end);
        info.append(", size: ");
        push_decimal(&mut info, self.buf.len());
        info.append("]");
        info
    }

    /// Number of characters stored.
    pub fn len(&self) -> (n: usize)
        ensures
            n == self@.len(),
            n == self@.text().len(),
            self@.wf(),
    {
        proof {
            use_type_invariant(self);
        }
        self.gap_start + (self.buf.len() - self.gap_end)
    }
}

} // verus!
