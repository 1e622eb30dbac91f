use vstd::prelude::*;

use crate::protocol::symbols::{ByteRange, LinePosition, SourceSpan};
use crate::text::utf8;

verus! {

/// Byte offsets of line starts in a text, for converting between offsets and positions.
#[derive(Debug, PartialEq, Eq)]
pub struct LineIndex {
    line_starts: Vec<usize>,
    len: usize,
}

/// A zero-based row and column, the position form an incremental parser takes.
#[derive(Debug, Clone, Copy, PartialEq, Eq, Structural)]
pub struct TextPoint {
    pub row: usize,
    pub column: usize,
}

/// The window of a text that changed between two versions.
#[derive(Debug, Clone, Copy, PartialEq, Eq, Structural)]
pub struct TextEdit {
    pub start_byte: usize,
    pub old_end_byte: usize,
    pub new_end_byte: usize,
    pub start_position: TextPoint,
    pub old_end_position: TextPoint,
    pub new_end_position: TextPoint,
}

/// The offsets at which lines start: 0, and one past every newline byte.
pub open spec fn line_starts_of(bytes: Seq<u8>) -> Seq<usize>
    decreases bytes.len(),
{
    if bytes.len() == 0 {
        seq![0usize]
    } else {
        let starts = line_starts_of(bytes.drop_last());
        if bytes.last() == 10u8 { starts.push(bytes.len() as usize) } else { starts }
    }
}

/// The number of newline bytes in `bytes`.
pub open spec fn newline_count(bytes: Seq<u8>) -> nat
    decreases bytes.len(),
{
    if bytes.len() == 0 {
        0
    } else {
        newline_count(bytes.drop_last()) + if bytes.last() == 10u8 { 1nat } else { 0 }
    }
}

/// A text has one line more than it has newline bytes.
pub proof fn law_line_count(bytes: Seq<u8>)
    ensures
        line_starts_of(bytes).len() == 1 + newline_count(bytes),
    decreases bytes.len(),
{
    if bytes.len() > 0 {
        law_line_count(bytes.drop_last());
    }
}

/// Starts at 0, strictly increasing, and never past `len`.
pub open spec fn starts_ok(starts: Seq<usize>, len: usize) -> bool {
    &&& starts.len() > 0
    &&& starts[0] == 0
    &&& forall|i: int, j: int| 0 <= i < j < starts.len() ==> starts[i] < starts[j]
    &&& forall|i: int| 0 <= i < starts.len() ==> starts[i] <= len
}

/// The index of the last start at or before `x`.
pub open spec fn last_at_or_before(starts: Seq<usize>, x: int) -> int
    decreases starts.len(),
{
    if starts.len() == 0 {
        -1
    } else if starts.last() <= x {
        starts.len() - 1
    } else {
        last_at_or_before(starts.drop_last(), x)
    }
}

/// The one-based line and column of a byte offset, clamped to the text of length `len`.
pub open spec fn line_position(starts: Seq<usize>, len: usize, offset: usize) -> LinePosition {
    let clamped = if offset < len { offset } else { len };
    let line = last_at_or_before(starts, clamped as int);
    LinePosition { line: (line + 1) as u32, column: (clamped - starts[line] + 1) as u32 }
}

/// The byte offset of a one-based line and column, if the line exists and the column does
/// not run past the line's end (the next line's start, or the end of the text).
pub open spec fn position_byte(starts: Seq<usize>, len: usize, line: u32, column: u32) -> Option<usize> {
    if line == 0 || column == 0 || line as int - 1 >= starts.len() {
        None
    } else {
        let start = starts[line as int - 1];
        let end = if (line as int) < starts.len() { starts[line as int] as int } else { len as int };
        if start + column - 1 <= end { Some((start + column - 1) as usize) } else { None }
    }
}

/// The zero-based row and column of a byte offset, clamped to the text.
pub open spec fn point_at(starts: Seq<usize>, len: usize, offset: usize) -> TextPoint {
    let pos = line_position(starts, len, offset);
    TextPoint {
        row: (if pos.line > 0 { pos.line - 1 } else { 0 }) as usize,
        column: (if pos.column > 0 { pos.column - 1 } else { 0 }) as usize,
    }
}

/// The end of line `i`: the next line's start, or the end of the text.
pub open spec fn line_end(starts: Seq<usize>, len: usize, i: int) -> int {
    if i + 1 < starts.len() { starts[i + 1] as int } else { len as int }
}

/// Reading a byte offset as a line and column and back gives the offset again, for every
/// offset within the text, as long as line numbers and columns fit in 32 bits: at most
/// `u32::MAX` lines, each shorter than `u32::MAX` bytes.
pub proof fn law_position_round_trip(starts: Seq<usize>, len: usize, offset: usize)
    requires
        starts_ok(starts, len),
        offset <= len,
        starts.len() <= u32::MAX,
        forall|i: int| 0 <= i < starts.len() ==> line_end(starts, len, i) - starts[i] < u32::MAX,
    ensures
        position_byte(starts, len, line_position(starts, len, offset).line, line_position(starts, len, offset).column) == Some(offset),
{
    lemma_last_at_or_before(starts, len, offset as int);
    let k = last_at_or_before(starts, offset as int);
    assert(line_end(starts, len, k) - starts[k] < u32::MAX);
}

proof fn lemma_line_starts_ok(bytes: Seq<u8>)
    requires
        bytes.len() <= usize::MAX,
    ensures
        starts_ok(line_starts_of(bytes), bytes.len() as usize),
    decreases bytes.len(),
{
    if bytes.len() > 0 {
        lemma_line_starts_ok(bytes.drop_last());
    }
}

proof fn lemma_last_at_or_before(starts: Seq<usize>, len: usize, x: int)
    requires
        starts_ok(starts, len),
        x >= 0,
    ensures
        0 <= last_at_or_before(starts, x) < starts.len(),
        starts[last_at_or_before(starts, x)] <= x,
        last_at_or_before(starts, x) + 1 < starts.len() ==> starts[last_at_or_before(starts, x) + 1] > x,
    decreases starts.len(),
{
    if starts.last() > x {
        let prev = starts.drop_last();
        assert(starts_ok(prev, len)) by {
            assert(prev.len() > 0) by {
                if prev.len() == 0 {
                    assert(starts.last() == starts[0]);
                }
            }
        }
        lemma_last_at_or_before(prev, len, x);
        let k = last_at_or_before(prev, x);
        if k + 1 < prev.len() {
            assert(starts[k + 1] == prev[k + 1]);
        } else {
            assert(k + 1 == starts.len() - 1);
        }
    }
}

impl Clone for LineIndex {
    fn clone(&self) -> (r: Self)
        ensures
            r.starts() == self.starts(),
            r.len_view() == self.len_view(),
    {
        proof {
            use_type_invariant(self);
        }
        let mut starts: Vec<usize> = Vec::new();
        let mut i: usize = 0;
        while i < self.line_starts.len()
            invariant
                0 <= i <= self.line_starts@.len(),
                starts@ == self.line_starts@.subrange(0, i as int),
            decreases self.line_starts@.len() - i,
        {
            starts.push(self.line_starts[i]);
            assert(self.line_starts@.subrange(0, i + 1) =~= self.line_starts@.subrange(0, i as int).push(self.line_starts@[i as int]));
            i = i + 1;
        }
        assert(self.line_starts@.subrange(0, self.line_starts@.len() as int) =~= self.line_starts@);
        LineIndex { line_starts: starts, len: self.len }
    }
}

impl LineIndex {
    /// The line starts.
    pub closed spec fn starts(&self) -> Seq<usize> {
        self.line_starts@
    }

    /// The length of the text in bytes.
    pub closed spec fn len_view(&self) -> usize {
        self.len
    }

    #[verifier::type_invariant]
    closed spec fn wf(&self) -> bool {
        starts_ok(self.line_starts@, self.len)
    }

    /// An index of the same line starts and length as this one.
    pub fn duplicate(&self) -> (r: Self)
        ensures
            r.starts() == self.starts(),
            r.len_view() == self.len_view(),
    {
        proof {
            use_type_invariant(self);
        }
        let mut starts: Vec<usize> = Vec::new();
        let mut i: usize = 0;
        while i < self.line_starts.len()
            invariant
                0 <= i <= self.line_starts@.len(),
                starts@ == self.line_starts@.subrange(0, i as int),
            decreases self.line_starts@.len() - i,
        {
            starts.push(self.line_starts[i]);
            assert(self.line_starts@.subrange(0, i + 1) =~= self.line_starts@.subrange(0, i as int).push(self.line_starts@[i as int]));
            i = i + 1;
        }
        assert(self.line_starts@.subrange(0, self.line_starts@.len() as int) =~= self.line_starts@);
        LineIndex { line_starts: starts, len: self.len }
    }

    /// The index of a text.
    pub fn new(contents: &str) -> (r: Self)
        ensures
            r.starts() == line_starts_of(utf8(contents@)),
            r.starts().len() == 1 + newline_count(utf8(contents@)),
            starts_ok(r.starts(), r.len_view()),
            r.len_view() == utf8(contents@).len(),
    {
        let bytes = contents.as_bytes();
        let ghost b = bytes@;
        let mut line_starts: Vec<usize> = vec![0];
        let mut i: usize = 0;
        assert(b.subrange(0, 0) =~= Seq::<u8>::empty());
        while i < bytes.len()
            invariant
                0 <= i <= b.len(),
                b == bytes@,
                line_starts@ == line_starts_of(b.subrange(0, i as int)),
            decreases b.len() - i,
        {
            assert(b.subrange(0, i + 1).drop_last() =~= b.subrange(0, i as int));
            if bytes[i] == 10u8 {
                line_starts.push(i + 1);
            }
            i = i + 1;
        }
        assert(b.subrange(0, b.len() as int) =~= b);
        proof {
            lemma_line_starts_ok(b);
            law_line_count(b);
        }
        LineIndex { line_starts, len: bytes.len() }
    }

    /// The length of the text in bytes.
    pub fn len(&self) -> (n: usize)
        ensures
            n == self.len_view(),
    {
        self.len
    }

    /// Whether the text is empty.
    pub fn is_empty(&self) -> (r: bool)
        ensures
            r == (self.len_view() == 0),
    {
        self.len == 0
    }

    /// The number of lines.
    pub fn line_count(&self) -> (n: usize)
        ensures
            n == self.starts().len(),
    {
        self.line_starts.len()
    }

    /// The one-based line and column of a byte offset, clamped to the text.
    pub fn byte_to_line_position(&self, byte_offset: usize) -> (p: LinePosition)
        ensures
            p == line_position(self.starts(), self.len_view(), byte_offset),
    {
        proof {
            use_type_invariant(self);
        }
        let clamped = if byte_offset < self.len { byte_offset } else { self.len };
        let line = self.line_of(clamped);
        let count = self.line_starts.len();
        let line_start = self.line_starts[line];
        let offset = clamped - line_start;
        let column: u32 = if offset < usize::MAX {
            #[verifier::truncate] ((offset + 1) as u32)
        } else {
            assert((offset as int + 1) as u32 == 0) by {
                assert(offset as int + 1 == 0x1_0000_0000 || offset as int + 1 == 0x1_0000_0000_0000_0000);
                assert(0x1_0000_0000int as u32 == 0) by (bit_vector);
                assert(0x1_0000_0000_0000_0000int as u32 == 0) by (bit_vector);
            }
            0
        };
        LinePosition { line: #[verifier::truncate] ((line + 1) as u32), column }
    }

    /// The index of the line holding `x`, by binary search.
    fn line_of(&self, x: usize) -> (line: usize)
        requires
            x <= self.len_view(),
        ensures
            line as int == last_at_or_before(self.starts(), x as int),
            line < self.starts().len(),
            self.starts()[line as int] <= x,
    {
        proof {
            use_type_invariant(self);
            lemma_last_at_or_before(self.line_starts@, self.len, x as int);
        }
        let ghost target = last_at_or_before(self.line_starts@, x as int);
        let mut lo: usize = 0;
        let mut hi: usize = self.line_starts.len();
        while lo + 1 < hi
            invariant
                0 <= lo < hi <= self.line_starts@.len(),
                starts_ok(self.line_starts@, self.len),
                lo <= target < hi,
                0 <= target < self.line_starts@.len(),
                self.line_starts@[target] <= x,
                target + 1 < self.line_starts@.len() ==> self.line_starts@[target + 1] > x,
            decreases hi - lo,
        {
            let mid = lo + (hi - lo) / 2;
            if self.line_starts[mid] <= x {
                proof {
                    if mid as int > target {
                        assert(self.line_starts@[target + 1] <= self.line_starts@[mid as int]);
                    }
                }
                lo = mid;
            } else {
                proof {
                    if mid as int <= target {
                        assert(self.line_starts@[mid as int] <= self.line_starts@[target]);
                    }
                }
                hi = mid;
            }
        }
        lo
    }

    /// The byte offset of a one-based line and column, if the line exists and the column
    /// does not run past the line's end (the next line's start, or the end of the text).
    pub fn line_column_to_byte(&self, line: u32, column: u32) -> (r: Option<usize>)
        ensures
            r == position_byte(self.starts(), self.len_view(), line, column),
    {
        proof {
            use_type_invariant(self);
        }
        if line == 0 || column == 0 {
            return None;
        }
        let index = (line - 1) as usize;
        if index >= self.line_starts.len() {
            return None;
        }
        let start = self.line_starts[index];
        let end = if index + 1 < self.line_starts.len() { self.line_starts[index + 1] } else { self.len };
        let offset = (column - 1) as usize;
        if offset > end - start {
            None
        } else {
            Some(start + offset)
        }
    }

    /// The span between two byte offsets, each clamped to the text.
    pub open spec fn span_between(&self, start: usize, end: usize) -> SourceSpan {
        let cs = if start < self.len_view() { start } else { self.len_view() };
        let ce = if end < self.len_view() { end } else { self.len_view() };
        SourceSpan {
            start: line_position(self.starts(), self.len_view(), cs),
            end: line_position(self.starts(), self.len_view(), ce),
            bytes: ByteRange { start: cs as u32, end: ce as u32 },
        }
    }

    /// The span between two byte offsets, each clamped to the text.
    pub fn byte_range_to_span(&self, start: usize, end: usize) -> (s: SourceSpan)
        ensures
            s == self.span_between(start, end),
            ({
                let cs = if start < self.len_view() { start } else { self.len_view() };
                let ce = if end < self.len_view() { end } else { self.len_view() };
                &&& s.bytes == (ByteRange { start: cs as u32, end: ce as u32 })
                &&& s.start == line_position(self.starts(), self.len_view(), cs)
                &&& s.end == line_position(self.starts(), self.len_view(), ce)
            }),
    {
        let clamped_start = if start < self.len { start } else { self.len };
        let clamped_end = if end < self.len { end } else { self.len };
        SourceSpan {
            start: self.byte_to_line_position(clamped_start),
            end: self.byte_to_line_position(clamped_end),
            bytes: ByteRange { start: clamped_start as u32, end: clamped_end as u32 },
        }
    }

    /// The zero-based row and column of a byte offset, clamped to the text.
    pub fn point_for_byte(&self, byte_offset: usize) -> (p: TextPoint)
        ensures
            p == point_at(self.starts(), self.len_view(), byte_offset),
    {
        let position = self.byte_to_line_position(byte_offset);
        let row: u32 = if position.line > 0 { position.line - 1 } else { 0 };
        let column: u32 = if position.column > 0 { position.column - 1 } else { 0 };
        TextPoint { row: row as usize, column: column as usize }
    }

    /// The edit that turns `old_contents` (this index's text) into `new_contents`: the
    /// longest shared prefix and, after it, the longest shared suffix stay untouched.
    pub fn edit_from(&self, old_contents: &str, new_contents: &str, new_index: &LineIndex) -> (e: TextEdit)
        ensures
            ({
                let old_bytes = utf8(old_contents@);
                let new_bytes = utf8(new_contents@);
                let p = common_prefix_len(old_bytes, new_bytes);
                let s = common_suffix_len(old_bytes, new_bytes, p);
                &&& e.start_byte == p
                &&& e.old_end_byte == old_bytes.len() - s
                &&& e.new_end_byte == new_bytes.len() - s
                &&& e.start_position == point_at(self.starts(), self.len_view(), e.start_byte)
                &&& e.old_end_position == point_at(self.starts(), self.len_view(), e.old_end_byte)
                &&& e.new_end_position == point_at(new_index.starts(), new_index.len_view(), e.new_end_byte)
            }),
    {
        let old_bytes = old_contents.as_bytes();
        let new_bytes = new_contents.as_bytes();
        let prefix_len = shared_prefix_len(old_bytes, new_bytes);
        let suffix_len = shared_suffix_len(old_bytes, new_bytes, prefix_len);
        let old_end_byte = old_bytes.len() - suffix_len;
        let new_end_byte = new_bytes.len() - suffix_len;
        TextEdit {
            start_byte: prefix_len,
            old_end_byte,
            new_end_byte,
            start_position: self.point_for_byte(prefix_len),
            old_end_position: self.point_for_byte(old_end_byte),
            new_end_position: new_index.point_for_byte(new_end_byte),
        }
    }
}

/// The length of the longest common prefix of `a` and `b`.
pub open spec fn common_prefix_len(a: Seq<u8>, b: Seq<u8>) -> nat
    decreases a.len(),
{
    if a.len() == 0 || b.len() == 0 || a[0] != b[0] {
        0
    } else {
        1 + common_prefix_len(a.drop_first(), b.drop_first())
    }
}

/// The length of the longest common suffix of `a` and `b` that leaves the first `p` bytes
/// of each alone.
pub open spec fn common_suffix_len(a: Seq<u8>, b: Seq<u8>, p: nat) -> nat
    decreases a.len(),
{
    if p >= a.len() || p >= b.len() || a.last() != b.last() {
        0
    } else {
        1 + common_suffix_len(a.drop_last(), b.drop_last(), p)
    }
}

fn shared_prefix_len(left: &[u8], right: &[u8]) -> (n: usize)
    ensures
        n == common_prefix_len(left@, right@),
        n <= left@.len(),
        n <= right@.len(),
{
    let mut n: usize = 0;
    assert(left@.subrange(0, left@.len() as int) =~= left@);
    assert(right@.subrange(0, right@.len() as int) =~= right@);
    while n < left.len() && n < right.len() && left[n] == right[n]
        invariant
            0 <= n <= left@.len(),
            n <= right@.len(),
            common_prefix_len(left@, right@) == n + common_prefix_len(
                left@.subrange(n as int, left@.len() as int),
                right@.subrange(n as int, right@.len() as int),
            ),
        decreases left@.len() - n,
    {
        let ghost l = left@.subrange(n as int, left@.len() as int);
        let ghost r = right@.subrange(n as int, right@.len() as int);
        assert(l[0] == left@[n as int] && r[0] == right@[n as int]);
        assert(l.drop_first() =~= left@.subrange(n + 1, left@.len() as int));
        assert(r.drop_first() =~= right@.subrange(n + 1, right@.len() as int));
        n = n + 1;
    }
    let ghost l = left@.subrange(n as int, left@.len() as int);
    let ghost r = right@.subrange(n as int, right@.len() as int);
    if n < left.len() && n < right.len() {
        assert(l[0] == left@[n as int] && r[0] == right@[n as int]);
    }
    n
}

fn shared_suffix_len(left: &[u8], right: &[u8], prefix_len: usize) -> (n: usize)
    requires
        prefix_len <= left@.len(),
        prefix_len <= right@.len(),
    ensures
        n == common_suffix_len(left@, right@, prefix_len as nat),
        n + prefix_len <= left@.len(),
        n + prefix_len <= right@.len(),
{
    let mut n: usize = 0;
    let left_len = left.len();
    let right_len = right.len();
    assert(left@.subrange(0, left@.len() as int) =~= left@);
    assert(right@.subrange(0, right@.len() as int) =~= right@);
    while n + prefix_len < left_len && n + prefix_len < right_len
        && left[left_len - 1 - n] == right[right_len - 1 - n]
        invariant
            left_len == left@.len(),
            right_len == right@.len(),
            n + prefix_len <= left@.len(),
            n + prefix_len <= right@.len(),
            common_suffix_len(left@, right@, prefix_len as nat) == n + common_suffix_len(
                left@.subrange(0, left@.len() - n),
                right@.subrange(0, right@.len() - n),
                prefix_len as nat,
            ),
        decreases left@.len() - n,
    {
        let ghost l = left@.subrange(0, left@.len() - n);
        let ghost r = right@.subrange(0, right@.len() - n);
        assert(l.last() == left@[left@.len() - 1 - n]);
        assert(r.last() == right@[right@.len() - 1 - n]);
        assert(l.drop_last() =~= left@.subrange(0, left@.len() - (n + 1)));
        assert(r.drop_last() =~= right@.subrange(0, right@.len() - (n + 1)));
        n = n + 1;
    }
    let ghost l = left@.subrange(0, left@.len() - n);
    let ghost r = right@.subrange(0, right@.len() - n);
    if n + prefix_len < left.len() && n + prefix_len < right.len() {
        assert(l.last() == left@[left@.len() - 1 - n]);
        assert(r.last() == right@[right@.len() - 1 - n]);
    }
    n
}

} // verus!
