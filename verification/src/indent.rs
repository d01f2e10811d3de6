//! Indentation arithmetic of CommonMark lines, as rushdown's `util` module
//! computes it: spaces count one column, a tab advances to the next multiple
//! of four columns.
use vstd::prelude::*;
use vstd::string::StringSliceAdditionalSpecFns;

verus! {

/// The bytes that rushdown treats as space characters: tab, line feed,
/// carriage return and space.
pub open spec fn is_space_byte(c: u8) -> bool {
    c == 0x09u8 || c == 0x0au8 || c == 0x0du8 || c == 0x20u8
}

/// `s` is empty or holds only space characters.
pub open spec fn is_blank_bytes(s: Seq<u8>) -> bool {
    forall|i: int| 0 <= i < s.len() ==> is_space_byte(#[trigger] s[i])
}

/// The columns that a tab at column `pos` spans.
pub open spec fn tab_columns(pos: int) -> int {
    4 - pos % 4
}

/// Scans the leading spaces and tabs of `s` from byte `i`, at width `width`
/// so far; the line starts at column `current_pos`. Gives the width and the
/// index of the first byte that is neither.
pub open spec fn indent_scan(s: Seq<u8>, current_pos: int, i: int, width: int) -> (int, int)
    decreases s.len() - i,
{
    if 0 <= i < s.len() && s[i] == 0x20u8 {
        indent_scan(s, current_pos, i + 1, width + 1)
    } else if 0 <= i < s.len() && s[i] == 0x09u8 {
        indent_scan(s, current_pos, i + 1, width + tab_columns(current_pos + width))
    } else {
        (width, i)
    }
}

/// The indentation width of `s` and the number of bytes it takes, for a line
/// that starts at column `current_pos`.
pub open spec fn indent_width_of(s: Seq<u8>, current_pos: int) -> (int, int) {
    indent_scan(s, current_pos, 0, 0)
}

/// Scans spaces and tabs of `s` from byte `i` (width `w` so far) until the
/// width `width` is reached.
pub open spec fn position_scan(s: Seq<u8>, current_pos: int, width: int, i: int, w: int) -> (int, int)
    decreases s.len() - i,
{
    if 0 <= i < s.len() && w < width && s[i] == 0x09u8 {
        position_scan(s, current_pos, width, i + 1, w + tab_columns(current_pos + w))
    } else if 0 <= i < s.len() && w < width && s[i] == 0x20u8 {
        position_scan(s, current_pos, width, i + 1, w + 1)
    } else {
        (i, w)
    }
}

/// The byte position at which the indentation of `s` reaches `width`
/// columns, with the columns of a tab that overshoots it (the padding); `None`
/// when the indentation of `s` is narrower than `width`.
pub open spec fn indent_position_of(s: Seq<u8>, current_pos: int, width: int) -> Option<(int, int)> {
    if width == 0 {
        Some((0, 0))
    } else {
        let (i, w) = position_scan(s, current_pos, width, 0, 0);
        if w >= width {
            Some((i, w - width))
        } else {
            None
        }
    }
}

/// The number of space characters at the end of `s`.
pub open spec fn trailing_space_count(s: Seq<u8>) -> nat
    decreases s.len(),
{
    if s.len() > 0 && is_space_byte(s.last()) {
        1 + trailing_space_count(s.drop_last())
    } else {
        0
    }
}

/// A line of a block's source: bytes `start..stop` of the document, preceded
/// by `padding` columns left over from a tab.
#[derive(Debug, Clone, Copy, PartialEq, Eq)]
pub struct SourceLine {
    pub start: usize,
    pub stop: usize,
    pub padding: u8,
}

/// `line` without its trailing space characters, as `Segment::trim_right_space`
/// gives it: a line of spaces only becomes the empty line at its start, without
/// padding.
pub open spec fn trimmed_line(line: SourceLine, source: Seq<u8>) -> SourceLine {
    let v = source.subrange(line.start as int, line.stop as int);
    let l = trailing_space_count(v);
    if l == v.len() {
        SourceLine { start: line.start, stop: line.start, padding: 0 }
    } else {
        SourceLine { start: line.start, stop: (line.stop - l) as usize, padding: line.padding }
    }
}

/// Calls `rushdown::util::is_blank`, which is true exactly when every byte of
/// `s` is a space character (tab, line feed, carriage return or space).
#[verifier::external_body]
pub(crate) fn is_blank(s: &[u8]) -> (r: bool)
    ensures
        r == is_blank_bytes(s@),
{
    rushdown::util::is_blank(s)
}

/// Calls `rushdown::util::indent_width`, which counts the leading spaces (one
/// column each) and tabs (to the next multiple of four columns, counted from
/// `current_pos`) of `s` and gives their width and their number of bytes.
/// Its sums stay below the bound of `requires`.
#[verifier::external_body]
pub(crate) fn indent_width(s: &[u8], current_pos: usize) -> (r: (usize, usize))
    requires
        current_pos + 4 * s@.len() <= usize::MAX,
    ensures
        (r.0 as int, r.1 as int) == indent_width_of(s@, current_pos as int),
{
    rushdown::util::indent_width(s, current_pos)
}

/// Calls `rushdown::util::indent_position`, which walks the leading spaces and
/// tabs of `s` until their width reaches `width` and gives the byte position
/// there and the columns by which a tab overshot it, or `None` when the
/// indentation is narrower. Its sums stay below the bound of `requires`.
#[verifier::external_body]
pub(crate) fn indent_position(s: &[u8], current_pos: usize, width: usize) -> (r: Option<(usize, usize)>)
    requires
        current_pos + width + 4 <= usize::MAX,
    ensures
        match r {
            Some((p, pad)) => indent_position_of(s@, current_pos as int, width as int) == Some(
                (p as int, pad as int),
            ),
            None => indent_position_of(s@, current_pos as int, width as int) is None,
        },
{
    rushdown::util::indent_position(s, current_pos, width)
}

/// Calls `rushdown::text::Segment::trim_right_space` on the segment of `line`:
/// it drops the trailing space characters of bytes `start..stop` of `source`,
/// and a segment of spaces only becomes empty, at its start, without padding.
#[verifier::external_body]
pub(crate) fn trim_right_space(line: SourceLine, source: &str) -> (r: SourceLine)
    requires
        line.start <= line.stop <= source.spec_bytes().len(),
    ensures
        r == trimmed_line(line, source.spec_bytes()),
{
    let seg = rushdown::text::Segment::new_with_padding(line.start, line.stop, line.padding as usize);
    let t = seg.trim_right_space(source);
    SourceLine { start: t.start(), stop: t.stop(), padding: t.padding() as u8 }
}

/// The position scan stops within `s`.
pub proof fn lemma_position_scan_bounded(s: Seq<u8>, current_pos: int, width: int, i: int, w: int)
    requires
        0 <= i <= s.len(),
    ensures
        i <= position_scan(s, current_pos, width, i, w).0 <= s.len(),
    decreases s.len() - i,
{
    if w < width && i < s.len() {
        if s[i] == 0x09u8 {
            lemma_position_scan_bounded(s, current_pos, width, i + 1, w + tab_columns(current_pos + w));
        } else if s[i] == 0x20u8 {
            lemma_position_scan_bounded(s, current_pos, width, i + 1, w + 1);
        }
    }
}

/// The position at which an indentation reaches a width lies within the line.
pub proof fn lemma_indent_position_bounded(s: Seq<u8>, current_pos: int, width: int)
    ensures
        indent_position_of(s, current_pos, width) matches Some((p, pad)) ==> 0 <= p <= s.len()
            && pad >= 0,
{
    lemma_position_scan_bounded(s, current_pos, width, 0, 0);
}

/// Over a run of spaces the indentation scan gains one column per byte.
pub proof fn lemma_indent_scan_spaces(s: Seq<u8>, current_pos: int, i: int, w: int, k: int)
    requires
        0 <= i <= k <= s.len(),
        forall|j: int| i <= j < k ==> s[j] == 0x20u8,
    ensures
        indent_scan(s, current_pos, i, w).0 >= w + (k - i),
    decreases s.len() - i,
{
    if i < k {
        lemma_indent_scan_spaces(s, current_pos, i + 1, w + 1, k);
    } else {
        lemma_indent_scan_at_least(s, current_pos, i, w);
    }
}

/// The indentation scan never loses width.
pub proof fn lemma_indent_scan_at_least(s: Seq<u8>, current_pos: int, i: int, w: int)
    requires
        0 <= i,
    ensures
        indent_scan(s, current_pos, i, w).0 >= w,
    decreases s.len() - i,
{
    if i < s.len() {
        if s[i] == 0x20u8 {
            lemma_indent_scan_at_least(s, current_pos, i + 1, w + 1);
        } else if s[i] == 0x09u8 {
            lemma_indent_scan_at_least(s, current_pos, i + 1, w + tab_columns(current_pos + w));
        }
    }
}

/// Over a run of at least `width - w` spaces the position scan stops exactly
/// at `width`, after one byte per column.
pub proof fn lemma_position_scan_spaces(s: Seq<u8>, current_pos: int, width: int, i: int, w: int)
    requires
        0 <= i,
        w <= width,
        i + (width - w) <= s.len(),
        forall|j: int| i <= j < i + (width - w) ==> s[j] == 0x20u8,
    ensures
        position_scan(s, current_pos, width, i, w) == (i + (width - w), width),
    decreases s.len() - i,
{
    if w < width {
        lemma_position_scan_spaces(s, current_pos, width, i + 1, w + 1);
    }
}

/// The last byte kept by trimming is not a space.
pub proof fn lemma_trailing_space_count(s: Seq<u8>)
    ensures
        trailing_space_count(s) <= s.len(),
        trailing_space_count(s) < s.len() ==> !is_space_byte(s[s.len() - trailing_space_count(s) - 1]),
        forall|j: int|
            s.len() - trailing_space_count(s) <= j < s.len() ==> is_space_byte(#[trigger] s[j]),
    decreases s.len(),
{
    if s.len() > 0 && is_space_byte(s.last()) {
        lemma_trailing_space_count(s.drop_last());
        assert forall|j: int| s.len() - trailing_space_count(s) <= j < s.len() implies is_space_byte(
            #[trigger] s[j],
        ) by {
            if j < s.len() - 1 {
                assert(s[j] == s.drop_last()[j]);
            }
        }
    }
}

/// The position scan overshoots `width` by less than a tab's four columns.
pub proof fn lemma_position_scan_overshoot(s: Seq<u8>, current_pos: int, width: int, i: int, w: int)
    requires
        0 <= i,
        w < width + 4,
    ensures
        position_scan(s, current_pos, width, i, w).1 < width + 4,
    decreases s.len() - i,
{
    if w < width && i < s.len() {
        if s[i] == 0x09u8 {
            lemma_position_scan_overshoot(s, current_pos, width, i + 1, w + tab_columns(current_pos + w));
        } else if s[i] == 0x20u8 {
            lemma_position_scan_overshoot(s, current_pos, width, i + 1, w + 1);
        }
    }
}

/// The bytes that the position scan passes over are indentation whose width
/// is the width the scan ends at: scanning just those bytes for indentation
/// gives that width and stops where the position scan stopped.
pub proof fn lemma_position_scan_prefix(s: Seq<u8>, current_pos: int, width: int, j: int, wj: int)
    requires
        0 <= j <= s.len(),
    ensures
        ({
            let (i, w) = position_scan(s, current_pos, width, j, wj);
            indent_scan(s.subrange(0, i), current_pos, j, wj) == (w, i)
        }),
    decreases s.len() - j,
{
    let (i, w) = position_scan(s, current_pos, width, j, wj);
    lemma_position_scan_bounded(s, current_pos, width, j, wj);
    let t = s.subrange(0, i);
    if j < s.len() && wj < width && (s[j] == 0x09u8 || s[j] == 0x20u8) {
        let wn = if s[j] == 0x09u8 { wj + tab_columns(current_pos + wj) } else { wj + 1 };
        lemma_position_scan_prefix(s, current_pos, width, j + 1, wn);
        lemma_position_scan_bounded(s, current_pos, width, j + 1, wn);
        assert(t[j] == s[j]);
    } else {
        assert(i == j);
    }
}

/// Before its last byte, the bytes that the position scan passes over are
/// narrower than `width`: the scan stops at the first byte at which the
/// indentation reaches `width`.
pub proof fn lemma_position_scan_first(s: Seq<u8>, current_pos: int, width: int, j: int, wj: int)
    requires
        0 <= j <= s.len(),
        j < position_scan(s, current_pos, width, j, wj).0,
    ensures
        indent_scan(s.subrange(0, position_scan(s, current_pos, width, j, wj).0 - 1), current_pos, j, wj).0
            < width,
    decreases s.len() - j,
{
    let (i, w) = position_scan(s, current_pos, width, j, wj);
    lemma_position_scan_bounded(s, current_pos, width, j, wj);
    let t = s.subrange(0, i - 1);
    let wn = if s[j] == 0x09u8 { wj + tab_columns(current_pos + wj) } else { wj + 1 };
    lemma_position_scan_bounded(s, current_pos, width, j + 1, wn);
    if j + 1 < i {
        lemma_position_scan_first(s, current_pos, width, j + 1, wn);
        assert(t[j] == s[j]);
    }
}

/// Where the indentation of `s` reaches `width` at byte `p` with overshoot
/// `pad`, the bytes before `p` are indentation `width + pad` columns wide,
/// and those before its last byte are narrower than `width`.
pub proof fn lemma_indent_position_columns(s: Seq<u8>, current_pos: int, width: int)
    requires
        width > 0,
        indent_position_of(s, current_pos, width) is Some,
    ensures
        ({
            let (p, pad) = indent_position_of(s, current_pos, width).unwrap();
            &&& 0 < p <= s.len()
            &&& 0 <= pad < 4
            &&& indent_width_of(s.subrange(0, p), current_pos) == (width + pad, p)
            &&& indent_width_of(s.subrange(0, p - 1), current_pos).0 < width
        }),
{
    lemma_position_scan_prefix(s, current_pos, width, 0, 0);
    lemma_position_scan_bounded(s, current_pos, width, 0, 0);
    lemma_position_scan_first(s, current_pos, width, 0, 0);
    lemma_position_scan_overshoot(s, current_pos, width, 0, 0);
}

/// Where the indentation scan of a line reaches `width`, the position scan
/// from the same point reaches it too.
pub proof fn lemma_position_scan_reaches(s: Seq<u8>, current_pos: int, width: int, i: int, w: int)
    requires
        0 <= i,
        indent_scan(s, current_pos, i, w).0 >= width,
    ensures
        position_scan(s, current_pos, width, i, w).1 >= width,
        w < width ==> position_scan(s, current_pos, width, i, w).1 - width < 4,
    decreases s.len() - i,
{
    if w < width && i < s.len() {
        if s[i] == 0x09u8 {
            lemma_position_scan_reaches(s, current_pos, width, i + 1, w + tab_columns(current_pos + w));
        } else if s[i] == 0x20u8 {
            lemma_position_scan_reaches(s, current_pos, width, i + 1, w + 1);
        }
    }
}

/// A line whose indentation is at least `width` columns wide has a position
/// at which it reaches `width`, and the overshoot of a tab there is less than
/// four columns.
pub proof fn lemma_indent_position_exists(s: Seq<u8>, current_pos: int, width: int)
    requires
        0 <= width <= indent_width_of(s, current_pos).0,
    ensures
        indent_position_of(s, current_pos, width) is Some,
        indent_position_of(s, current_pos, width).unwrap().1 < 4,
        indent_position_of(s, current_pos, width).unwrap().1 >= 0,
{
    if width > 0 {
        lemma_position_scan_reaches(s, current_pos, width, 0, 0);
    }
}

} // verus!
