//! The text buffer of the editing engine: owns the line content and the
//! insertion point, and provides grapheme-, word- and line-aware navigation
//! as well as range mutation.
//!
//! Positions are indices into the buffer's sequence of Unicode scalar values
//! (`char`s).  A carriage return immediately followed by a line feed forms a
//! single grapheme cluster; apart from that pair, every `char` is one
//! grapheme.  The insertion point always lies on a grapheme boundary.

use vstd::prelude::*;
use vstd::string::StrSliceExecFns;
use vstd::string::StringExecFns;

verus! {

// === Character classification ==============================================

/// The Unicode `White_Space` code points.
pub open spec fn is_whitespace(c: char) -> bool {
    ||| c == ' '
    ||| c == '\t'
    ||| c == '\n'
    ||| c == '\u{b}'
    ||| c == '\u{c}'
    ||| c == '\r'
    ||| c == '\u{85}'
    ||| c == '\u{a0}'
    ||| c == '\u{1680}'
    ||| ('\u{2000}' <= c && c <= '\u{200a}')
    ||| c == '\u{2028}'
    ||| c == '\u{2029}'
    ||| c == '\u{202f}'
    ||| c == '\u{205f}'
    ||| c == '\u{3000}'
}

/// A character that forms "small words": alphanumeric or underscore.
/// Characters beyond ASCII count as word characters unless they are
/// whitespace.
pub open spec fn is_word_char(c: char) -> bool {
    ||| ('a' <= c && c <= 'z')
    ||| ('A' <= c && c <= 'Z')
    ||| ('0' <= c && c <= '9')
    ||| c == '_'
    ||| (c > '\u{7f}' && !is_whitespace(c))
}

/// The three character classes that delimit small words: whitespace,
/// word characters, and everything else (punctuation).
#[derive(Clone, Copy, Debug, PartialEq, Eq, Structural)]
pub enum CharClass {
    Whitespace,
    Word,
    Other,
}

pub open spec fn class_of(c: char) -> CharClass {
    if is_whitespace(c) {
        CharClass::Whitespace
    } else if is_word_char(c) {
        CharClass::Word
    } else {
        CharClass::Other
    }
}

pub(crate) fn char_is_whitespace(c: char) -> (r: bool)
    ensures
        r == is_whitespace(c),
{
    c == ' ' || c == '\t' || c == '\n' || c == '\u{b}' || c == '\u{c}' || c == '\r'
        || c == '\u{85}' || c == '\u{a0}' || c == '\u{1680}'
        || ('\u{2000}' <= c && c <= '\u{200a}') || c == '\u{2028}' || c == '\u{2029}'
        || c == '\u{202f}' || c == '\u{205f}' || c == '\u{3000}'
}

pub(crate) fn char_class(c: char) -> (r: CharClass)
    ensures
        r == class_of(c),
{
    if char_is_whitespace(c) {
        CharClass::Whitespace
    } else if ('a' <= c && c <= 'z') || ('A' <= c && c <= 'Z') || ('0' <= c && c <= '9')
        || c == '_' || c > '\u{7f}' {
        CharClass::Word
    } else {
        CharClass::Other
    }
}

// === Grapheme boundaries ===================================================

/// Position `i` splits a CRLF pair.
pub open spec fn splits_crlf(s: Seq<char>, i: int) -> bool {
    0 < i < s.len() && s[i - 1] == '\r' && s[i] == '\n'
}

/// Position `i` lies on a grapheme-cluster boundary of `s`.
pub open spec fn is_boundary(s: Seq<char>, i: int) -> bool {
    0 <= i <= s.len() && !splits_crlf(s, i)
}

/// The nearest boundary at or below `i`, after clamping `i` to the buffer.
pub open spec fn clamp_boundary(s: Seq<char>, i: int) -> int {
    let j = if i > s.len() {
        s.len() as int
    } else if i < 0 {
        0
    } else {
        i
    };
    if splits_crlf(s, j) {
        j - 1
    } else {
        j
    }
}

/// One grapheme cluster to the right of `i`; the identity at the buffer end.
pub open spec fn grapheme_right_at(s: Seq<char>, i: int) -> int {
    if i < 0 {
        0
    } else if i >= s.len() {
        i
    } else if s[i] == '\r' && i + 1 < s.len() && s[i + 1] == '\n' {
        i + 2
    } else {
        i + 1
    }
}

/// One grapheme cluster to the left of `i`; the identity at the buffer start.
pub open spec fn grapheme_left_at(s: Seq<char>, i: int) -> int {
    if i <= 0 {
        0
    } else if i >= 2 && s[i - 2] == '\r' && s[i - 1] == '\n' {
        i - 2
    } else {
        i - 1
    }
}

pub proof fn lemma_grapheme_steps_stay_on_boundaries(s: Seq<char>, i: int)
    requires
        is_boundary(s, i),
    ensures
        is_boundary(s, grapheme_right_at(s, i)),
        is_boundary(s, grapheme_left_at(s, i)),
        i <= grapheme_right_at(s, i) <= s.len(),
        0 <= grapheme_left_at(s, i) <= i,
        i < s.len() ==> i < grapheme_right_at(s, i),
        i > 0 ==> grapheme_left_at(s, i) < i,
{
}

// === Line boundaries =======================================================

/// The start of the line containing position `i`: position zero, or the
/// position just after the closest line feed at or before `i - 1`.
pub open spec fn line_start_from(s: Seq<char>, i: int) -> int
    recommends
        0 <= i <= s.len(),
    decreases i,
{
    if i <= 0 {
        0
    } else if s[i - 1] == '\n' {
        i
    } else {
        line_start_from(s, i - 1)
    }
}

/// The position of the first line feed at or after `i`, or the buffer length.
pub open spec fn next_newline(s: Seq<char>, i: int) -> int
    recommends
        0 <= i <= s.len(),
    decreases s.len() - i,
{
    if 0 <= i < s.len() {
        if s[i] == '\n' {
            i
        } else {
            next_newline(s, i + 1)
        }
    } else {
        s.len() as int
    }
}

/// The end of the line containing position `i`.  A carriage return
/// immediately preceding the terminating line feed belongs to the line
/// terminator, so the line ends at the carriage return.
pub open spec fn line_end_from(s: Seq<char>, i: int) -> int
    recommends
        0 <= i <= s.len(),
{
    let p = next_newline(s, i);
    if p > i && s[p - 1] == '\r' {
        p - 1
    } else {
        p
    }
}

pub proof fn lemma_line_start_props(s: Seq<char>, i: int)
    requires
        0 <= i <= s.len(),
    ensures
        0 <= line_start_from(s, i) <= i,
        line_start_from(s, i) == 0 || s[line_start_from(s, i) - 1] == '\n',
        is_boundary(s, line_start_from(s, i)),
    decreases i,
{
    if i > 0 && s[i - 1] != '\n' {
        lemma_line_start_props(s, i - 1);
    }
}

/// A line feed occurs at some position in `[from, to)`.
pub open spec fn contains_newline(s: Seq<char>, from: int, to: int) -> bool {
    exists|k: int| from <= k < to && 0 <= k < s.len() && s[k] == '\n'
}

// === Word boundaries =======================================================

/// Skips whitespace leftwards: the closest position at or below `i` whose
/// left neighbour is not whitespace.
pub open spec fn skip_whitespace_left(s: Seq<char>, i: int) -> int
    recommends
        0 <= i <= s.len(),
    decreases i,
{
    if i > 0 && i <= s.len() && is_whitespace(s[i - 1]) {
        skip_whitespace_left(s, i - 1)
    } else {
        i
    }
}

/// Skips a run of characters of class `cls` leftwards.
pub open spec fn skip_class_left(s: Seq<char>, i: int, cls: CharClass) -> int
    recommends
        0 <= i <= s.len(),
    decreases i,
{
    if i > 0 && i <= s.len() && class_of(s[i - 1]) == cls {
        skip_class_left(s, i - 1, cls)
    } else {
        i
    }
}

/// Skips a run of non-whitespace characters leftwards.
pub open spec fn skip_non_whitespace_left(s: Seq<char>, i: int) -> int
    recommends
        0 <= i <= s.len(),
    decreases i,
{
    if i > 0 && i <= s.len() && !is_whitespace(s[i - 1]) {
        skip_non_whitespace_left(s, i - 1)
    } else {
        i
    }
}

/// Skips whitespace rightwards: the closest position at or above `i` that
/// does not sit on a whitespace character.
pub open spec fn skip_whitespace_right(s: Seq<char>, i: int) -> int
    recommends
        0 <= i <= s.len(),
    decreases s.len() - i,
{
    if 0 <= i < s.len() && is_whitespace(s[i]) {
        skip_whitespace_right(s, i + 1)
    } else {
        i
    }
}

/// Skips a run of characters of class `cls` rightwards.
pub open spec fn skip_class_right(s: Seq<char>, i: int, cls: CharClass) -> int
    recommends
        0 <= i <= s.len(),
    decreases s.len() - i,
{
    if 0 <= i < s.len() && class_of(s[i]) == cls {
        skip_class_right(s, i + 1, cls)
    } else {
        i
    }
}

/// Skips a run of non-whitespace characters rightwards.
pub open spec fn skip_non_whitespace_right(s: Seq<char>, i: int) -> int
    recommends
        0 <= i <= s.len(),
    decreases s.len() - i,
{
    if 0 <= i < s.len() && !is_whitespace(s[i]) {
        skip_non_whitespace_right(s, i + 1)
    } else {
        i
    }
}

/// The start of the small word at or before `i`: whitespace is skipped, then
/// the run of characters sharing the class of the first one found.
pub open spec fn word_left_from(s: Seq<char>, i: int) -> int
    recommends
        0 <= i <= s.len(),
{
    let j = skip_whitespace_left(s, i);
    if j > 0 {
        skip_class_left(s, j, class_of(s[j - 1]))
    } else {
        0
    }
}

/// The start of the big word at or before `i`: whitespace is skipped, then
/// the whole run of non-whitespace characters.
pub open spec fn big_word_left_from(s: Seq<char>, i: int) -> int
    recommends
        0 <= i <= s.len(),
{
    skip_non_whitespace_left(s, skip_whitespace_left(s, i))
}

/// The start of the next small word after `i`: the rest of the current word
/// run (if `i` sits on one) and the following whitespace are skipped.
pub open spec fn word_right_start_from(s: Seq<char>, i: int) -> int
    recommends
        0 <= i <= s.len(),
{
    if 0 <= i < s.len() && !is_whitespace(s[i]) {
        skip_whitespace_right(s, skip_class_right(s, i, class_of(s[i])))
    } else {
        skip_whitespace_right(s, i)
    }
}

/// The start of the next big word after `i`.
pub open spec fn big_word_right_start_from(s: Seq<char>, i: int) -> int
    recommends
        0 <= i <= s.len(),
{
    skip_whitespace_right(s, skip_non_whitespace_right(s, i))
}

/// One position past the end of the current or next small word: one grapheme
/// step, then whitespace, then the rest of that word's run.
pub open spec fn word_right_end_from(s: Seq<char>, i: int) -> int
    recommends
        0 <= i <= s.len(),
{
    let j = grapheme_right_at(s, i);
    let k = skip_whitespace_right(s, j);
    if 0 <= k < s.len() {
        skip_class_right(s, k, class_of(s[k]))
    } else {
        k
    }
}

/// One position past the end of the current or next big word.
pub open spec fn big_word_right_end_from(s: Seq<char>, i: int) -> int
    recommends
        0 <= i <= s.len(),
{
    skip_non_whitespace_right(s, skip_whitespace_right(s, grapheme_right_at(s, i)))
}

// === Character search ======================================================

/// The first occurrence of `c` at a position in `[j, limit)`.
pub open spec fn scan_char_right(s: Seq<char>, c: char, j: int, limit: int) -> Option<int>
    decreases limit - j,
{
    if j < limit && 0 <= j < s.len() {
        if s[j] == c {
            Some(j)
        } else {
            scan_char_right(s, c, j + 1, limit)
        }
    } else {
        None
    }
}

/// The last occurrence of `c` at a position in `[limit, j]`.
pub open spec fn scan_char_left(s: Seq<char>, c: char, j: int, limit: int) -> Option<int>
    decreases j - limit + 1,
{
    if j >= limit && 0 <= j < s.len() {
        if s[j] == c {
            Some(j)
        } else {
            scan_char_left(s, c, j - 1, limit)
        }
    } else {
        None
    }
}

// === Delimiter pairs =======================================================

/// Backward scan for the innermost unmatched opening delimiter at or before
/// `i`.  A closing delimiter increases the nesting depth; an opening
/// delimiter at depth zero is the candidate, otherwise it decreases the
/// depth.  When the two delimiters are equal this degenerates to a plain
/// backward search.
pub open spec fn scan_open_left(s: Seq<char>, lc: char, rc: char, i: int, depth: nat) -> Option<
    int,
>
    decreases i + 1,
{
    if !(0 <= i < s.len()) {
        None
    } else if s[i] == lc {
        if depth == 0 {
            Some(i)
        } else {
            scan_open_left(s, lc, rc, i - 1, (depth - 1) as nat)
        }
    } else if s[i] == rc {
        scan_open_left(s, lc, rc, i - 1, depth + 1)
    } else {
        scan_open_left(s, lc, rc, i - 1, depth)
    }
}

/// Forward scan for the closing delimiter matching an opening one: a further
/// opening delimiter increases the nesting depth; a closing delimiter at
/// depth zero is the match, otherwise it decreases the depth.
pub open spec fn scan_close_right(s: Seq<char>, lc: char, rc: char, i: int, depth: nat) -> Option<
    int,
>
    decreases s.len() - i,
{
    if !(0 <= i < s.len()) {
        None
    } else if s[i] == rc {
        if depth == 0 {
            Some(i)
        } else {
            scan_close_right(s, lc, rc, i + 1, (depth - 1) as nat)
        }
    } else if s[i] == lc {
        scan_close_right(s, lc, rc, i + 1, depth + 1)
    } else {
        scan_close_right(s, lc, rc, i + 1, depth)
    }
}

/// The innermost pair of delimiters enclosing `cursor`: the opening
/// delimiter found scanning backward from the cursor, and its matching
/// closing delimiter found scanning forward from just after it.
pub open spec fn matching_pair(s: Seq<char>, lc: char, rc: char, cursor: int) -> Option<
    (int, int),
> {
    let start = if cursor >= s.len() {
        s.len() - 1
    } else {
        cursor
    };
    match scan_open_left(s, lc, rc, start, 0) {
        Some(lp) => match scan_close_right(s, lc, rc, lp + 1, 0) {
            Some(rp) => Some((lp, rp)),
            None => None,
        },
        None => None,
    }
}

pub proof fn lemma_scan_open_left_bounds(s: Seq<char>, lc: char, rc: char, i: int, depth: nat)
    ensures
        scan_open_left(s, lc, rc, i, depth) matches Some(v) ==> 0 <= v <= i && v < s.len()
            && s[v] == lc,
    decreases i + 1,
{
    if 0 <= i < s.len() && !(s[i] == lc && depth == 0) {
        if s[i] == lc {
            lemma_scan_open_left_bounds(s, lc, rc, i - 1, (depth - 1) as nat);
        } else if s[i] == rc {
            lemma_scan_open_left_bounds(s, lc, rc, i - 1, depth + 1);
        } else {
            lemma_scan_open_left_bounds(s, lc, rc, i - 1, depth);
        }
    }
}

pub proof fn lemma_scan_close_right_bounds(s: Seq<char>, lc: char, rc: char, i: int, depth: nat)
    ensures
        scan_close_right(s, lc, rc, i, depth) matches Some(v) ==> i <= v < s.len() && s[v] == rc,
    decreases s.len() - i,
{
    if 0 <= i < s.len() && !(s[i] == rc && depth == 0) {
        if s[i] == rc {
            lemma_scan_close_right_bounds(s, lc, rc, i + 1, (depth - 1) as nat);
        } else if s[i] == lc {
            lemma_scan_close_right_bounds(s, lc, rc, i + 1, depth + 1);
        } else {
            lemma_scan_close_right_bounds(s, lc, rc, i + 1, depth);
        }
    }
}

pub proof fn lemma_matching_pair_bounds(s: Seq<char>, lc: char, rc: char, cursor: int)
    ensures
        matching_pair(s, lc, rc, cursor) matches Some(p) ==> 0 <= p.0 < p.1 < s.len()
            && s[p.0] == lc && s[p.1] == rc,
{
    let start = if cursor >= s.len() {
        s.len() - 1
    } else {
        cursor
    };
    lemma_scan_open_left_bounds(s, lc, rc, start, 0);
    match scan_open_left(s, lc, rc, start, 0) {
        Some(lp) => lemma_scan_close_right_bounds(s, lc, rc, lp + 1, 0),
        None => (),
    }
}

// === Case mapping ==========================================================

/// ASCII uppercase: maps `a`-`z` to `A`-`Z` and leaves the rest alone.
pub open spec fn upper_char(c: char) -> char {
    if 'a' <= c && c <= 'z' {
        ((c as u32) - 32) as char
    } else {
        c
    }
}

/// ASCII lowercase: maps `A`-`Z` to `a`-`z` and leaves the rest alone.
pub open spec fn lower_char(c: char) -> char {
    if 'A' <= c && c <= 'Z' {
        ((c as u32) + 32) as char
    } else {
        c
    }
}

/// Swaps the case of an ASCII letter.
pub open spec fn toggle_char(c: char) -> char {
    if 'a' <= c && c <= 'z' {
        upper_char(c)
    } else {
        lower_char(c)
    }
}

pub open spec fn upper_seq(s: Seq<char>) -> Seq<char> {
    Seq::new(s.len(), |i: int| upper_char(s[i]))
}

pub open spec fn lower_seq(s: Seq<char>) -> Seq<char> {
    Seq::new(s.len(), |i: int| lower_char(s[i]))
}

pub(crate) fn to_upper_char(c: char) -> (r: char)
    ensures
        r == upper_char(c),
{
    match c {
        'a' => 'A',
        'b' => 'B',
        'c' => 'C',
        'd' => 'D',
        'e' => 'E',
        'f' => 'F',
        'g' => 'G',
        'h' => 'H',
        'i' => 'I',
        'j' => 'J',
        'k' => 'K',
        'l' => 'L',
        'm' => 'M',
        'n' => 'N',
        'o' => 'O',
        'p' => 'P',
        'q' => 'Q',
        'r' => 'R',
        's' => 'S',
        't' => 'T',
        'u' => 'U',
        'v' => 'V',
        'w' => 'W',
        'x' => 'X',
        'y' => 'Y',
        'z' => 'Z',
        _ => c,
    }
}

pub(crate) fn to_lower_char(c: char) -> (r: char)
    ensures
        r == lower_char(c),
{
    match c {
        'A' => 'a',
        'B' => 'b',
        'C' => 'c',
        'D' => 'd',
        'E' => 'e',
        'F' => 'f',
        'G' => 'g',
        'H' => 'h',
        'I' => 'i',
        'J' => 'j',
        'K' => 'k',
        'L' => 'l',
        'M' => 'm',
        'N' => 'n',
        'O' => 'o',
        'P' => 'p',
        'Q' => 'q',
        'R' => 'r',
        'S' => 's',
        'T' => 't',
        'U' => 'u',
        'V' => 'v',
        'W' => 'w',
        'X' => 'x',
        'Y' => 'y',
        'Z' => 'z',
        _ => c,
    }
}

pub(crate) fn to_toggled_char(c: char) -> (r: char)
    ensures
        r == toggle_char(c),
{
    if 'a' <= c && c <= 'z' {
        to_upper_char(c)
    } else {
        to_lower_char(c)
    }
}

// === Words under the cursor ================================================

/// The character run forming the word at `i`: the run of the cursor's own
/// class when the cursor sits on a non-whitespace character, otherwise the
/// next word to the right (empty at the buffer end).
pub open spec fn word_range_at(s: Seq<char>, i: int) -> (int, int)
    recommends
        0 <= i <= s.len(),
{
    if 0 <= i < s.len() && !is_whitespace(s[i]) {
        let cls = class_of(s[i]);
        (skip_class_left(s, i, cls), skip_class_right(s, i, cls))
    } else {
        let k = skip_whitespace_right(s, i);
        if 0 <= k < s.len() {
            (k, skip_class_right(s, k, class_of(s[k])))
        } else {
            (k, k)
        }
    }
}

// === Vertical movement =====================================================

/// The position one line up, keeping the column clamped to the previous
/// line's length; the identity on the first line.
pub open spec fn line_up_target(s: Seq<char>, i: int) -> int
    recommends
        0 <= i <= s.len(),
{
    let start = line_start_from(s, i);
    if start > 0 {
        let prev = line_start_from(s, start - 1);
        let plen = start - prev;
        let rel = i - start;
        prev + if rel < plen {
            rel
        } else {
            plen
        }
    } else {
        i
    }
}

/// The position one line down, keeping the column clamped to the next
/// line's length; the identity on the last line.
pub open spec fn line_down_target(s: Seq<char>, i: int) -> int
    recommends
        0 <= i <= s.len(),
{
    let start = line_start_from(s, i);
    let rel = i - start;
    let eol = line_end_from(s, i);
    if eol < s.len() {
        let nls = eol + 1;
        let nle = line_end_from(s, nls);
        let nlen = nle - nls;
        nls + if rel < nlen {
            rel
        } else {
            nlen
        }
    } else {
        i
    }
}

// === Mutation ==============================================================

/// `s` with the range `[start, end)` removed.
pub open spec fn remove_range(s: Seq<char>, start: int, end: int) -> Seq<char>
    recommends
        0 <= start <= end <= s.len(),
{
    s.subrange(0, start) + s.subrange(end, s.len() as int)
}

/// `s` with `t` inserted at position `at`.
pub open spec fn insert_at(s: Seq<char>, at: int, t: Seq<char>) -> Seq<char>
    recommends
        0 <= at <= s.len(),
{
    s.subrange(0, at) + t + s.subrange(at, s.len() as int)
}

/// Where the insertion point lands when `[start, end)` is removed: positions
/// inside the removed range collapse to its start, later positions shift
/// left, and the result snaps to the nearest grapheme boundary at or below
/// it.
pub open spec fn cursor_after_remove(s: Seq<char>, ip: int, start: int, end: int) -> int
    recommends
        0 <= start <= end <= s.len(),
{
    let raw = if ip <= start {
        ip
    } else if ip <= end {
        start
    } else {
        ip - (end - start)
    };
    clamp_boundary(remove_range(s, start, end), raw)
}

// === The buffer ============================================================

/// A spec-level snapshot of a [`LineBuffer`]: its characters and the
/// insertion point.
#[verifier::ext_equal]
pub ghost struct BufferModel {
    pub text: Seq<char>,
    pub cursor: int,
}

impl BufferModel {
    pub open spec fn wf(&self) -> bool {
        is_boundary(self.text, self.cursor)
    }
}

/// Stores the edited text along with a single insertion point.
///
/// All mutating operations keep the insertion point inside the buffer and on
/// a grapheme boundary; positions received from callers are clamped to the
/// nearest valid boundary rather than rejected.
pub struct LineBuffer {
    buffer: String,
    insertion_point: usize,
}

impl LineBuffer {
    pub closed spec fn text(&self) -> Seq<char> {
        self.buffer@
    }

    pub closed spec fn cursor(&self) -> int {
        self.insertion_point as int
    }

    pub open spec fn model(&self) -> BufferModel {
        BufferModel { text: self.text(), cursor: self.cursor() }
    }

    /// The buffer invariant: the insertion point lies inside the buffer on a
    /// grapheme boundary.
    pub open spec fn wf(&self) -> bool {
        is_boundary(self.text(), self.cursor())
    }

    /// An empty buffer with the cursor at position zero.
    pub fn new() -> (r: LineBuffer)
        ensures
            r.wf(),
            r.text() == Seq::<char>::empty(),
            r.cursor() == 0,
    {
        LineBuffer { buffer: String::new(), insertion_point: 0 }
    }

    /// The buffer content as a string slice.
    pub fn get_buffer(&self) -> (r: &str)
        ensures
            r@ == self.text(),
    {
        self.buffer.as_str()
    }

    /// The length of the buffer in characters.
    pub fn len(&self) -> (r: usize)
        ensures
            r == self.text().len(),
    {
        self.buffer.as_str().unicode_len()
    }

    pub fn is_empty(&self) -> (r: bool)
        ensures
            r == (self.text().len() == 0),
    {
        self.buffer.as_str().is_empty()
    }

    /// The current insertion point.
    pub fn insertion_point(&self) -> (r: usize)
        ensures
            r == self.cursor(),
    {
        self.insertion_point
    }

    /// Moves the insertion point to `pos`, clamped to the nearest grapheme
    /// boundary at or below it.
    pub fn set_insertion_point(&mut self, pos: usize)
        ensures
            final(self).text() == old(self).text(),
            final(self).cursor() == clamp_boundary(old(self).text(), pos as int),
            final(self).wf(),
    {
        let n = self.buffer.as_str().unicode_len();
        let mut p = if pos > n {
            n
        } else {
            pos
        };
        if p > 0 && p < n {
            let prev = self.buffer.as_str().get_char(p - 1);
            let cur = self.buffer.as_str().get_char(p);
            if prev == '\r' && cur == '\n' {
                p = p - 1;
            }
        }
        self.insertion_point = p;
    }

    /// The character at position `i`.
    fn char_at(&self, i: usize) -> (r: char)
        requires
            i < self.text().len(),
        ensures
            r == self.text()[i as int],
    {
        self.buffer.as_str().get_char(i)
    }

    /// The position one grapheme cluster right of the insertion point; the
    /// insertion point itself at the end of the buffer.
    pub fn grapheme_right_index(&self) -> (r: usize)
        requires
            self.wf(),
        ensures
            r == grapheme_right_at(self.text(), self.cursor()),
            r <= self.text().len(),
    {
        self.grapheme_right_index_from_pos(self.insertion_point)
    }

    /// The position one grapheme cluster right of `pos` (clamped to the
    /// buffer length).
    pub fn grapheme_right_index_from_pos(&self, pos: usize) -> (r: usize)
        ensures
            r == grapheme_right_at(
                self.text(),
                if pos > self.text().len() {
                    self.text().len() as int
                } else {
                    pos as int
                },
            ),
    {
        let n = self.buffer.as_str().unicode_len();
        let i = if pos > n {
            n
        } else {
            pos
        };
        if i >= n {
            i
        } else if self.char_at(i) == '\r' && i + 1 < n && self.char_at(i + 1) == '\n' {
            i + 2
        } else {
            i + 1
        }
    }

    /// The position one grapheme cluster left of the insertion point; the
    /// insertion point itself at the start of the buffer.
    pub fn grapheme_left_index(&self) -> (r: usize)
        requires
            self.wf(),
        ensures
            r == grapheme_left_at(self.text(), self.cursor()),
            r <= self.text().len(),
    {
        let i = self.insertion_point;
        if i == 0 {
            0
        } else if i >= 2 && self.char_at(i - 2) == '\r' && self.char_at(i - 1) == '\n' {
            i - 2
        } else {
            i - 1
        }
    }

    /// The start of the line containing the insertion point: position zero or
    /// the position just after the previous line feed.
    #[verifier::loop_isolation(false)]
    pub fn find_current_line_start(&self) -> (r: usize)
        requires
            self.wf(),
        ensures
            r == line_start_from(self.text(), self.cursor()),
            0 <= r <= self.cursor(),
    {
        let mut j = self.insertion_point;
        loop
            invariant
                0 <= j <= self.cursor(),
                line_start_from(self.text(), self.cursor()) == line_start_from(
                    self.text(),
                    j as int,
                ),
            decreases j,
        {
            if j == 0 {
                return 0;
            }
            if self.char_at(j - 1) == '\n' {
                return j;
            }
            j = j - 1;
        }
    }

    /// The end of the line containing the insertion point: the position of
    /// the next line feed (or of the carriage return preceding it), or the
    /// buffer length on the last line.
    pub fn find_current_line_end(&self) -> (r: usize)
        requires
            self.wf(),
        ensures
            r == line_end_from(self.text(), self.cursor()),
            self.cursor() <= r <= self.text().len(),
    {
        self.find_line_end_after(self.insertion_point)
    }

    /// The start of the line containing position `pos - 1`, so for `pos` the
    /// start of a line, the start of the previous line.  Positions are
    /// clamped to the buffer.
    #[verifier::loop_isolation(false)]
    pub fn find_line_start_before(&self, pos: usize) -> (r: usize)
        ensures
            r == ({
                let p = if pos > self.text().len() {
                    self.text().len() as int
                } else {
                    pos as int
                };
                if p == 0 {
                    0
                } else {
                    line_start_from(self.text(), p - 1)
                }
            }),
            pos > 0 ==> r < pos,
    {
        let n = self.buffer.as_str().unicode_len();
        let p = if pos > n {
            n
        } else {
            pos
        };
        if p == 0 {
            return 0;
        }
        let mut j = p - 1;
        loop
            invariant
                0 <= j <= p - 1,
                line_start_from(self.text(), p - 1) == line_start_from(self.text(), j as int),
            decreases j,
        {
            if j == 0 {
                return 0;
            }
            if self.char_at(j - 1) == '\n' {
                return j;
            }
            j = j - 1;
        }
    }

    /// The line end (as in [`Self::find_current_line_end`]) for the line
    /// containing `pos`, clamped to the buffer.
    #[verifier::loop_isolation(false)]
    pub fn find_line_end_after(&self, pos: usize) -> (r: usize)
        ensures
            r == ({
                let p = if pos > self.text().len() {
                    self.text().len() as int
                } else {
                    pos as int
                };
                line_end_from(self.text(), p)
            }),
            r <= self.text().len(),
            r >= (if pos > self.text().len() {
                self.text().len() as int
            } else {
                pos as int
            }),
    {
        let n = self.buffer.as_str().unicode_len();
        let start = if pos > n {
            n
        } else {
            pos
        };
        let mut j = start;
        loop
            invariant
                start <= j <= n,
                next_newline(self.text(), start as int) == next_newline(self.text(), j as int),
            decreases n - j,
        {
            if j == n {
                break;
            }
            if self.char_at(j) == '\n' {
                break;
            }
            j = j + 1;
        }
        if j > start && self.char_at(j - 1) == '\r' {
            j - 1
        } else {
            j
        }
    }

    /// Whether no line break lies before the insertion point.
    #[verifier::loop_isolation(false)]
    pub fn is_cursor_at_first_line(&self) -> (r: bool)
        requires
            self.wf(),
        ensures
            r == !contains_newline(self.text(), 0, self.cursor()),
    {
        let mut j: usize = 0;
        loop
            invariant
                0 <= j <= self.cursor(),
                !contains_newline(self.text(), 0, j as int),
            decreases self.cursor() - j,
        {
            if j == self.insertion_point {
                return true;
            }
            if self.char_at(j) == '\n' {
                return false;
            }
            j = j + 1;
        }
    }

    /// Whether no line break lies at or after the insertion point.
    #[verifier::loop_isolation(false)]
    pub fn is_cursor_at_last_line(&self) -> (r: bool)
        requires
            self.wf(),
        ensures
            r == !contains_newline(self.text(), self.cursor(), self.text().len() as int),
    {
        let n = self.buffer.as_str().unicode_len();
        let mut j = self.insertion_point;
        loop
            invariant
                self.cursor() <= j <= n,
                !contains_newline(self.text(), self.cursor(), j as int),
            decreases n - j,
        {
            if j == n {
                return true;
            }
            if self.char_at(j) == '\n' {
                return false;
            }
            j = j + 1;
        }
    }

    #[verifier::loop_isolation(false)]
    fn skip_ws_left(&self, from: usize) -> (r: usize)
        requires
            from <= self.text().len(),
        ensures
            r == skip_whitespace_left(self.text(), from as int),
            r <= from,
    {
        let mut j = from;
        loop
            invariant
                0 <= j <= from,
                skip_whitespace_left(self.text(), from as int) == skip_whitespace_left(
                    self.text(),
                    j as int,
                ),
            decreases j,
        {
            if j == 0 {
                return j;
            }
            if !char_is_whitespace(self.char_at(j - 1)) {
                return j;
            }
            j = j - 1;
        }
    }

    #[verifier::loop_isolation(false)]
    fn skip_class_left(&self, from: usize, cls: CharClass) -> (r: usize)
        requires
            from <= self.text().len(),
        ensures
            r == skip_class_left(self.text(), from as int, cls),
            r <= from,
    {
        let mut j = from;
        loop
            invariant
                0 <= j <= from,
                skip_class_left(self.text(), from as int, cls) == skip_class_left(
                    self.text(),
                    j as int,
                    cls,
                ),
            decreases j,
        {
            if j == 0 {
                return j;
            }
            if !(char_class(self.char_at(j - 1)) == cls) {
                return j;
            }
            j = j - 1;
        }
    }

    #[verifier::loop_isolation(false)]
    fn skip_non_ws_left(&self, from: usize) -> (r: usize)
        requires
            from <= self.text().len(),
        ensures
            r == skip_non_whitespace_left(self.text(), from as int),
            r <= from,
    {
        let mut j = from;
        loop
            invariant
                0 <= j <= from,
                skip_non_whitespace_left(self.text(), from as int) == skip_non_whitespace_left(
                    self.text(),
                    j as int,
                ),
            decreases j,
        {
            if j == 0 {
                return j;
            }
            if char_is_whitespace(self.char_at(j - 1)) {
                return j;
            }
            j = j - 1;
        }
    }

    #[verifier::loop_isolation(false)]
    fn skip_ws_right(&self, from: usize) -> (r: usize)
        requires
            from <= self.text().len(),
        ensures
            r == skip_whitespace_right(self.text(), from as int),
            from <= r <= self.text().len(),
    {
        let n = self.buffer.as_str().unicode_len();
        let mut j = from;
        loop
            invariant
                from <= j <= n,
                skip_whitespace_right(self.text(), from as int) == skip_whitespace_right(
                    self.text(),
                    j as int,
                ),
            decreases n - j,
        {
            if j == n {
                return j;
            }
            if !char_is_whitespace(self.char_at(j)) {
                return j;
            }
            j = j + 1;
        }
    }

    #[verifier::loop_isolation(false)]
    fn skip_class_right(&self, from: usize, cls: CharClass) -> (r: usize)
        requires
            from <= self.text().len(),
        ensures
            r == skip_class_right(self.text(), from as int, cls),
            from <= r <= self.text().len(),
    {
        let n = self.buffer.as_str().unicode_len();
        let mut j = from;
        loop
            invariant
                from <= j <= n,
                skip_class_right(self.text(), from as int, cls) == skip_class_right(
                    self.text(),
                    j as int,
                    cls,
                ),
            decreases n - j,
        {
            if j == n {
                return j;
            }
            if !(char_class(self.char_at(j)) == cls) {
                return j;
            }
            j = j + 1;
        }
    }

    #[verifier::loop_isolation(false)]
    fn skip_non_ws_right(&self, from: usize) -> (r: usize)
        requires
            from <= self.text().len(),
        ensures
            r == skip_non_whitespace_right(self.text(), from as int),
            from <= r <= self.text().len(),
    {
        let n = self.buffer.as_str().unicode_len();
        let mut j = from;
        loop
            invariant
                from <= j <= n,
                skip_non_whitespace_right(self.text(), from as int) == skip_non_whitespace_right(
                    self.text(),
                    j as int,
                ),
            decreases n - j,
        {
            if j == n {
                return j;
            }
            if char_is_whitespace(self.char_at(j)) {
                return j;
            }
            j = j + 1;
        }
    }

    /// The start of the small word at or before the insertion point.
    pub fn word_left_index(&self) -> (r: usize)
        requires
            self.wf(),
        ensures
            r == word_left_from(self.text(), self.cursor()),
            r <= self.text().len(),
    {
        let j = self.skip_ws_left(self.insertion_point);
        if j > 0 {
            let cls = char_class(self.char_at(j - 1));
            self.skip_class_left(j, cls)
        } else {
            0
        }
    }

    /// The start of the big word at or before the insertion point.
    pub fn big_word_left_index(&self) -> (r: usize)
        requires
            self.wf(),
        ensures
            r == big_word_left_from(self.text(), self.cursor()),
            r <= self.text().len(),
    {
        let j = self.skip_ws_left(self.insertion_point);
        self.skip_non_ws_left(j)
    }

    /// The start of the next small word after the insertion point.
    pub fn word_right_start_index(&self) -> (r: usize)
        requires
            self.wf(),
        ensures
            r == word_right_start_from(self.text(), self.cursor()),
            r <= self.text().len(),
    {
        let n = self.buffer.as_str().unicode_len();
        let i = self.insertion_point;
        if i < n && !char_is_whitespace(self.char_at(i)) {
            let cls = char_class(self.char_at(i));
            let j = self.skip_class_right(i, cls);
            self.skip_ws_right(j)
        } else {
            self.skip_ws_right(i)
        }
    }

    /// The start of the next big word after the insertion point.
    pub fn big_word_right_start_index(&self) -> (r: usize)
        requires
            self.wf(),
        ensures
            r == big_word_right_start_from(self.text(), self.cursor()),
            r <= self.text().len(),
    {
        let j = self.skip_non_ws_right(self.insertion_point);
        self.skip_ws_right(j)
    }

    /// One position past the end of the current or next small word.
    pub fn word_right_end_index(&self) -> (r: usize)
        requires
            self.wf(),
        ensures
            r == word_right_end_from(self.text(), self.cursor()),
            r <= self.text().len(),
    {
        let n = self.buffer.as_str().unicode_len();
        let j = self.grapheme_right_index();
        let k = self.skip_ws_right(j);
        if k < n {
            let cls = char_class(self.char_at(k));
            self.skip_class_right(k, cls)
        } else {
            k
        }
    }

    /// One position past the end of the current or next big word.
    pub fn big_word_right_end_index(&self) -> (r: usize)
        requires
            self.wf(),
        ensures
            r == big_word_right_end_from(self.text(), self.cursor()),
            r <= self.text().len(),
    {
        let j = self.grapheme_right_index();
        let k = self.skip_ws_right(j);
        self.skip_non_ws_right(k)
    }

    /// The first occurrence of `c` strictly after the insertion point, on
    /// the current line only when `current_line` is set.
    #[verifier::loop_isolation(false)]
    pub fn find_char_right(&self, c: char, current_line: bool) -> (r: Option<usize>)
        requires
            self.wf(),
        ensures
            ({
                let limit = if current_line {
                    line_end_from(self.text(), self.cursor())
                } else {
                    self.text().len() as int
                };
                let sc = scan_char_right(self.text(), c, self.cursor() + 1, limit);
                match r {
                    Some(v) => sc == Some(v as int),
                    None => sc is None,
                }
            }),
            r matches Some(v) ==> v < self.text().len(),
    {
        let n = self.buffer.as_str().unicode_len();
        let limit = if current_line {
            self.find_current_line_end()
        } else {
            n
        };
        if self.insertion_point >= limit {
            return None;
        }
        let mut j = self.insertion_point + 1;
        loop
            invariant
                self.cursor() + 1 <= j <= limit,
                scan_char_right(self.text(), c, self.cursor() + 1, limit as int)
                    == scan_char_right(self.text(), c, j as int, limit as int),
            decreases limit - j,
        {
            if j == limit {
                return None;
            }
            if self.char_at(j) == c {
                return Some(j);
            }
            j = j + 1;
        }
    }

    /// The last occurrence of `c` strictly before the insertion point, on
    /// the current line only when `current_line` is set.
    #[verifier::loop_isolation(false)]
    pub fn find_char_left(&self, c: char, current_line: bool) -> (r: Option<usize>)
        requires
            self.wf(),
        ensures
            ({
                let limit = if current_line {
                    line_start_from(self.text(), self.cursor())
                } else {
                    0
                };
                let sc = scan_char_left(self.text(), c, self.cursor() - 1, limit);
                match r {
                    Some(v) => sc == Some(v as int),
                    None => sc is None,
                }
            }),
            r matches Some(v) ==> v < self.text().len(),
    {
        let limit = if current_line {
            self.find_current_line_start()
        } else {
            0
        };
        if self.insertion_point <= limit {
            return None;
        }
        let mut j = self.insertion_point - 1;
        loop
            invariant
                limit <= j < self.cursor(),
                scan_char_left(self.text(), c, self.cursor() - 1, limit as int)
                    == scan_char_left(self.text(), c, j as int, limit as int),
            decreases j,
        {
            if self.char_at(j) == c {
                return Some(j);
            }
            if j == limit {
                proof {
                    assert(scan_char_left(self.text(), c, j - 1, limit as int) is None);
                }
                return None;
            }
            j = j - 1;
        }
    }

    /// The innermost delimiter pair enclosing `cursor`, as positions of the
    /// opening and closing delimiter.
    #[verifier::loop_isolation(false)]
    pub fn find_matching_pair(&self, left_char: char, right_char: char, cursor: usize) -> (r:
        Option<(usize, usize)>)
        ensures
            ({
                let mp = matching_pair(self.text(), left_char, right_char, cursor as int);
                match r {
                    Some(p) => mp == Some((p.0 as int, p.1 as int)),
                    None => mp is None,
                }
            }),
            r matches Some(p) ==> p.0 < p.1 < self.text().len(),
    {
        proof {
            lemma_matching_pair_bounds(self.text(), left_char, right_char, cursor as int);
        }
        let n = self.buffer.as_str().unicode_len();
        if n == 0 {
            return None;
        }
        let start = if cursor >= n {
            n - 1
        } else {
            cursor
        };
        let mut j = start;
        let mut depth: usize = 0;
        let lp: usize;
        loop
            invariant
                0 <= j <= start < n,
                depth <= start - j,
                scan_open_left(self.text(), left_char, right_char, start as int, 0)
                    == scan_open_left(self.text(), left_char, right_char, j as int, depth as nat),
            decreases j,
        {
            let c = self.char_at(j);
            if c == left_char && depth == 0 {
                lp = j;
                break;
            }
            if c == left_char {
                depth = depth - 1;
            } else if c == right_char {
                depth = depth + 1;
            }
            if j == 0 {
                proof {
                    assert(scan_open_left(
                        self.text(),
                        left_char,
                        right_char,
                        -1,
                        depth as nat,
                    ) is None);
                }
                return None;
            }
            j = j - 1;
        }
        let mut k = lp + 1;
        let mut depth2: usize = 0;
        loop
            invariant
                lp + 1 <= k <= n,
                depth2 <= k - (lp + 1),
                scan_close_right(self.text(), left_char, right_char, lp + 1 as int, 0)
                    == scan_close_right(
                    self.text(),
                    left_char,
                    right_char,
                    k as int,
                    depth2 as nat,
                ),
            decreases n - k,
        {
            if k == n {
                return None;
            }
            let c = self.char_at(k);
            if c == right_char && depth2 == 0 {
                return Some((lp, k));
            }
            if c == right_char {
                depth2 = depth2 - 1;
            } else if c == left_char {
                depth2 = depth2 + 1;
            }
            k = k + 1;
        }
    }

    /// Replaces the characters in `[start, end)` by `repl` and parks the
    /// insertion point at the nearest boundary at or below `start`.
    fn splice(&mut self, start: usize, end: usize, repl: &str)
        requires
            start <= end <= old(self).text().len(),
        ensures
            final(self).text() == old(self).text().subrange(0, start as int) + repl@ + old(
                self,
            ).text().subrange(end as int, old(self).text().len() as int),
            final(self).cursor() == clamp_boundary(final(self).text(), start as int),
            final(self).wf(),
    {
        let n = self.buffer.as_str().unicode_len();
        let mut nb = self.buffer.as_str().substring_char(0, start).to_owned();
        nb.append(repl);
        nb.append(self.buffer.as_str().substring_char(end, n));
        self.buffer = nb;
        self.set_insertion_point(start);
    }

    /// Removes the characters in `[start, end)`.  An insertion point inside
    /// the removed range moves to its start; one past it shifts left with
    /// the text.
    pub fn clear_range(&mut self, start: usize, end: usize)
        requires
            start <= end <= old(self).text().len(),
        ensures
            final(self).text() == remove_range(old(self).text(), start as int, end as int),
            final(self).cursor() == cursor_after_remove(
                old(self).text(),
                old(self).cursor(),
                start as int,
                end as int,
            ),
            final(self).wf(),
    {
        proof {
            reveal_strlit("");
        }
        let old_ip = self.insertion_point;
        self.splice(start, end, "");
        let new_ip = if old_ip <= start {
            old_ip
        } else if old_ip <= end {
            start
        } else {
            old_ip - (end - start)
        };
        self.set_insertion_point(new_ip);
        proof {
            assert(final(self).text() =~= remove_range(
                old(self).text(),
                start as int,
                end as int,
            ));
        }
    }

    /// Removes a character range given in either order; the bounds are
    /// clamped to the buffer length.
    pub fn clear_range_safe(&mut self, start: usize, end: usize)
        ensures
            ({
                let n = old(self).text().len() as int;
                let a0 = if start <= end {
                    start as int
                } else {
                    end as int
                };
                let b0 = if start <= end {
                    end as int
                } else {
                    start as int
                };
                let a = if a0 > n {
                    n
                } else {
                    a0
                };
                let b = if b0 > n {
                    n
                } else {
                    b0
                };
                final(self).text() == remove_range(old(self).text(), a, b) && final(self).cursor()
                    == cursor_after_remove(old(self).text(), old(self).cursor(), a, b)
            }),
            final(self).wf(),
    {
        let n = self.buffer.as_str().unicode_len();
        let (a0, b0) = if start <= end {
            (start, end)
        } else {
            (end, start)
        };
        let a = if a0 > n {
            n
        } else {
            a0
        };
        let b = if b0 > n {
            n
        } else {
            b0
        };
        self.clear_range(a, b);
    }

    /// Inserts `string` at the insertion point, which ends up just after the
    /// inserted text.
    pub fn insert_str(&mut self, string: &str)
        requires
            old(self).wf(),
        ensures
            final(self).text() == insert_at(old(self).text(), old(self).cursor(), string@),
            final(self).cursor() == clamp_boundary(
                final(self).text(),
                old(self).cursor() + string@.len(),
            ),
            final(self).wf(),
    {
        let ip = self.insertion_point;
        let n = self.buffer.as_str().unicode_len();
        self.splice(ip, ip, string);
        let m = self.buffer.as_str().unicode_len();
        let new_ip = m - (n - ip);
        self.set_insertion_point(new_ip);
        proof {
            assert(final(self).text() =~= insert_at(
                old(self).text(),
                old(self).cursor(),
                string@,
            ));
        }
    }

    /// Inserts one character at the insertion point.
    pub fn insert_char(&mut self, c: char)
        requires
            old(self).wf(),
        ensures
            final(self).text() == insert_at(old(self).text(), old(self).cursor(), seq![c]),
            final(self).cursor() == clamp_boundary(final(self).text(), old(self).cursor() + 1),
            final(self).wf(),
    {
        let mut t = String::new();
        push_char(&mut t, c);
        proof {
            assert(t@ =~= seq![c]);
        }
        self.insert_str(t.as_str());
    }

    /// Inserts a line feed at the insertion point.
    pub fn insert_newline(&mut self)
        requires
            old(self).wf(),
        ensures
            final(self).text() == insert_at(old(self).text(), old(self).cursor(), seq!['\n']),
            final(self).cursor() == clamp_boundary(final(self).text(), old(self).cursor() + 1),
            final(self).wf(),
    {
        self.insert_char('\n');
    }

    /// Removes the grapheme cluster left of the insertion point.
    pub fn delete_left_grapheme(&mut self)
        requires
            old(self).wf(),
        ensures
            ({
                let l = grapheme_left_at(old(self).text(), old(self).cursor());
                final(self).text() == remove_range(old(self).text(), l, old(self).cursor())
                    && final(self).cursor() == cursor_after_remove(
                    old(self).text(),
                    old(self).cursor(),
                    l,
                    old(self).cursor(),
                )
            }),
            final(self).wf(),
    {
        let l = self.grapheme_left_index();
        let ip = self.insertion_point;
        proof {
            lemma_grapheme_steps_stay_on_boundaries(self.text(), self.cursor());
        }
        self.clear_range(l, ip);
    }

    /// Removes the grapheme cluster right of the insertion point.
    pub fn delete_right_grapheme(&mut self)
        requires
            old(self).wf(),
        ensures
            ({
                let r = grapheme_right_at(old(self).text(), old(self).cursor());
                final(self).text() == remove_range(old(self).text(), old(self).cursor(), r)
                    && final(self).cursor() == cursor_after_remove(
                    old(self).text(),
                    old(self).cursor(),
                    old(self).cursor(),
                    r,
                )
            }),
            final(self).wf(),
    {
        let r = self.grapheme_right_index();
        let ip = self.insertion_point;
        proof {
            lemma_grapheme_steps_stay_on_boundaries(self.text(), self.cursor());
        }
        self.clear_range(ip, r);
    }

    /// The characters in `[start, end)` as a slice.
    pub fn substring(&self, start: usize, end: usize) -> (r: &str)
        requires
            start <= end <= self.text().len(),
        ensures
            r@ == self.text().subrange(start as int, end as int),
    {
        self.buffer.as_str().substring_char(start, end)
    }

    /// The position one grapheme cluster left of `pos`.
    fn grapheme_left_index_at(&self, pos: usize) -> (r: usize)
        requires
            pos <= self.text().len(),
        ensures
            r == grapheme_left_at(self.text(), pos as int),
    {
        if pos == 0 {
            0
        } else if pos >= 2 && self.char_at(pos - 2) == '\r' && self.char_at(pos - 1) == '\n' {
            pos - 2
        } else {
            pos - 1
        }
    }

    /// The grapheme cluster right of the insertion point, as a slice (empty
    /// at the buffer end).
    pub fn grapheme_right(&self) -> (r: &str)
        requires
            self.wf(),
        ensures
            r@ == self.text().subrange(
                self.cursor(),
                grapheme_right_at(self.text(), self.cursor()),
            ),
    {
        let g = self.grapheme_right_index();
        self.buffer.as_str().substring_char(self.insertion_point, g)
    }

    /// The grapheme cluster left of the insertion point, as a slice (empty
    /// at the buffer start).
    pub fn grapheme_left(&self) -> (r: &str)
        requires
            self.wf(),
        ensures
            r@ == self.text().subrange(
                grapheme_left_at(self.text(), self.cursor()),
                self.cursor(),
            ),
    {
        let g = self.grapheme_left_index();
        self.buffer.as_str().substring_char(g, self.insertion_point)
    }

    /// The boundaries of the word under (or right of) the cursor.
    fn current_word_range(&self) -> (r: (usize, usize))
        requires
            self.wf(),
        ensures
            (r.0 as int, r.1 as int) == word_range_at(self.text(), self.cursor()),
            r.0 <= r.1 <= self.text().len(),
    {
        let n = self.buffer.as_str().unicode_len();
        let i = self.insertion_point;
        if i < n && !char_is_whitespace(self.char_at(i)) {
            let cls = char_class(self.char_at(i));
            (self.skip_class_left(i, cls), self.skip_class_right(i, cls))
        } else {
            let k = self.skip_ws_right(i);
            if k < n {
                let cls = char_class(self.char_at(k));
                (k, self.skip_class_right(k, cls))
            } else {
                (k, k)
            }
        }
    }

    /// The position one line up from the insertion point, keeping the
    /// column clamped to the previous line's length.
    pub fn line_up_index(&self) -> (r: usize)
        requires
            self.wf(),
        ensures
            r == line_up_target(self.text(), self.cursor()),
            r <= self.text().len(),
    {
        let start = self.find_current_line_start();
        if start == 0 {
            return self.insertion_point;
        }
        let prev = self.find_line_start_before(start);
        let plen = start - prev;
        let rel = self.insertion_point - start;
        prev + if rel < plen {
            rel
        } else {
            plen
        }
    }

    /// The position one line down from the insertion point, keeping the
    /// column clamped to the next line's length.
    pub fn line_down_index(&self) -> (r: usize)
        requires
            self.wf(),
        ensures
            r == line_down_target(self.text(), self.cursor()),
            r <= self.text().len(),
    {
        let n = self.buffer.as_str().unicode_len();
        let start = self.find_current_line_start();
        let rel = self.insertion_point - start;
        let eol = self.find_current_line_end();
        if eol < n {
            let nls = eol + 1;
            let nle = self.find_line_end_after(nls);
            let nlen = nle - nls;
            nls + if rel < nlen {
                rel
            } else {
                nlen
            }
        } else {
            self.insertion_point
        }
    }

    /// Moves the insertion point to the start of the current line.
    pub fn move_to_line_start(&mut self)
        requires
            old(self).wf(),
        ensures
            final(self).text() == old(self).text(),
            final(self).cursor() == line_start_from(old(self).text(), old(self).cursor()),
            final(self).wf(),
    {
        proof {
            lemma_line_start_props(self.text(), self.cursor());
        }
        let t = self.find_current_line_start();
        self.set_insertion_point(t);
    }

    /// Moves the insertion point one line up, keeping the column clamped to
    /// the previous line's length.
    pub fn move_line_up(&mut self)
        requires
            old(self).wf(),
        ensures
            final(self).text() == old(self).text(),
            final(self).cursor() == clamp_boundary(
                old(self).text(),
                line_up_target(old(self).text(), old(self).cursor()),
            ),
            final(self).wf(),
    {
        let t = self.line_up_index();
        self.set_insertion_point(t);
    }

    /// Uppercases the word under the cursor; the insertion point stays
    /// where it was.
    pub fn uppercase_word(&mut self)
        requires
            old(self).wf(),
        ensures
            ({
                let (a, b) = word_range_at(old(self).text(), old(self).cursor());
                let s = old(self).text();
                final(self).text() == s.subrange(0, a) + upper_seq(s.subrange(a, b)) + s.subrange(
                    b,
                    s.len() as int,
                )
            }),
            final(self).cursor() == clamp_boundary(final(self).text(), old(self).cursor()),
            final(self).wf(),
    {
        let (a, b) = self.current_word_range();
        let old_ip = self.insertion_point;
        let mut mid = String::new();
        let mut j = a;
        while j < b
            invariant
                a <= j <= b <= self.text().len(),
                self == old(self),
                mid@ =~= upper_seq(self.text().subrange(a as int, j as int)),
            decreases b - j,
        {
            let c = to_upper_char(self.char_at(j));
            push_char(&mut mid, c);
            proof {
                assert(mid@ =~= upper_seq(self.text().subrange(a as int, j + 1 as int)));
            }
            j = j + 1;
        }
        self.splice(a, b, mid.as_str());
        proof {
            let s = old(self).text();
            assert(self.text() =~= s.subrange(0, a as int) + upper_seq(
                s.subrange(a as int, b as int),
            ) + s.subrange(b as int, s.len() as int));
        }
        self.set_insertion_point(old_ip);
    }

    /// Lowercases the word under the cursor; the insertion point stays
    /// where it was.
    pub fn lowercase_word(&mut self)
        requires
            old(self).wf(),
        ensures
            ({
                let (a, b) = word_range_at(old(self).text(), old(self).cursor());
                let s = old(self).text();
                final(self).text() == s.subrange(0, a) + lower_seq(s.subrange(a, b)) + s.subrange(
                    b,
                    s.len() as int,
                )
            }),
            final(self).cursor() == clamp_boundary(final(self).text(), old(self).cursor()),
            final(self).wf(),
    {
        let (a, b) = self.current_word_range();
        let old_ip = self.insertion_point;
        let mut mid = String::new();
        let mut j = a;
        while j < b
            invariant
                a <= j <= b <= self.text().len(),
                self == old(self),
                mid@ =~= lower_seq(self.text().subrange(a as int, j as int)),
            decreases b - j,
        {
            let c = to_lower_char(self.char_at(j));
            push_char(&mut mid, c);
            proof {
                assert(mid@ =~= lower_seq(self.text().subrange(a as int, j + 1 as int)));
            }
            j = j + 1;
        }
        self.splice(a, b, mid.as_str());
        proof {
            let s = old(self).text();
            assert(self.text() =~= s.subrange(0, a as int) + lower_seq(
                s.subrange(a as int, b as int),
            ) + s.subrange(b as int, s.len() as int));
        }
        self.set_insertion_point(old_ip);
    }

    /// Replaces the character at `pos` by `c`; the insertion point moves to
    /// the position right of the replaced character.
    fn replace_char_at(&mut self, pos: usize, c: char)
        requires
            old(self).wf(),
            pos < old(self).text().len(),
        ensures
            final(self).text() == old(self).text().update(pos as int, c),
            final(self).cursor() == clamp_boundary(
                final(self).text(),
                grapheme_right_at(final(self).text(), pos as int),
            ),
            final(self).wf(),
    {
        let n = self.buffer.as_str().unicode_len();
        let mut t = String::new();
        push_char(&mut t, c);
        self.splice(pos, pos + 1, t.as_str());
        proof {
            assert(t@ =~= seq![c]);
            assert(self.text() =~= old(self).text().update(pos as int, c));
        }
        let g = self.grapheme_right_index_from_pos(pos);
        self.set_insertion_point(g);
    }

    /// Toggles the case of the character under the cursor and advances the
    /// insertion point past it; a no-op at the buffer end.
    pub fn switchcase_char(&mut self)
        requires
            old(self).wf(),
        ensures
            ({
                let s = old(self).text();
                let i = old(self).cursor();
                if i < s.len() {
                    final(self).text() == s.update(i, toggle_char(s[i])) && final(self).cursor()
                        == clamp_boundary(
                        final(self).text(),
                        grapheme_right_at(final(self).text(), i),
                    )
                } else {
                    *final(self) == *old(self)
                }
            }),
            final(self).wf(),
    {
        let n = self.buffer.as_str().unicode_len();
        let i = self.insertion_point;
        if i < n {
            let c = to_toggled_char(self.char_at(i));
            self.replace_char_at(i, c);
        }
    }

    /// Uppercases the character under the cursor and advances the insertion
    /// point past it; a no-op at the buffer end.
    pub fn capitalize_char(&mut self)
        requires
            old(self).wf(),
        ensures
            ({
                let s = old(self).text();
                let i = old(self).cursor();
                if i < s.len() {
                    final(self).text() == s.update(i, upper_char(s[i])) && final(self).cursor()
                        == clamp_boundary(
                        final(self).text(),
                        grapheme_right_at(final(self).text(), i),
                    )
                } else {
                    *final(self) == *old(self)
                }
            }),
            final(self).wf(),
    {
        let n = self.buffer.as_str().unicode_len();
        let i = self.insertion_point;
        if i < n {
            let c = to_upper_char(self.char_at(i));
            self.replace_char_at(i, c);
        }
    }

    /// Swaps the two grapheme clusters around the insertion point (stepping
    /// inward first when the cursor sits at the buffer start or end) and
    /// places the cursor after the swapped pair.
    pub fn swap_graphemes(&mut self)
        requires
            old(self).wf(),
        ensures
            ({
                let s = old(self).text();
                let i0 = if old(self).cursor() == 0 {
                    grapheme_right_at(s, 0)
                } else if old(self).cursor() == s.len() {
                    grapheme_left_at(s, s.len() as int)
                } else {
                    old(self).cursor()
                };
                let l = grapheme_left_at(s, i0);
                let r = grapheme_right_at(s, i0);
                final(self).text() == s.subrange(0, l) + s.subrange(i0, r) + s.subrange(l, i0)
                    + s.subrange(r, s.len() as int) && final(self).cursor() == clamp_boundary(
                    final(self).text(),
                    r,
                )
            }),
            final(self).wf(),
    {
        let n = self.buffer.as_str().unicode_len();
        let i0 = if self.insertion_point == 0 {
            self.grapheme_right_index()
        } else if self.insertion_point == n {
            self.grapheme_left_index()
        } else {
            self.insertion_point
        };
        proof {
            lemma_grapheme_steps_stay_on_boundaries(self.text(), self.cursor());
        }
        let l = self.grapheme_left_index_at(i0);
        let r = self.grapheme_right_index_from_pos(i0);
        let mut mid = self.buffer.as_str().substring_char(i0, r).to_owned();
        mid.append(self.buffer.as_str().substring_char(l, i0));
        self.splice(l, r, mid.as_str());
        proof {
            let s = old(self).text();
            assert(self.text() =~= s.subrange(0, l as int) + s.subrange(i0 as int, r as int)
                + s.subrange(l as int, i0 as int) + s.subrange(r as int, s.len() as int));
        }
        self.set_insertion_point(r);
    }

    /// Swaps the word under the cursor with the word that follows it; the
    /// insertion point stays where it was (clamped).  A no-op when there is
    /// no following word.
    pub fn swap_words(&mut self)
        requires
            old(self).wf(),
        ensures
            ({
                let s = old(self).text();
                let (a1, b1) = word_range_at(s, old(self).cursor());
                let a2 = skip_whitespace_right(s, b1);
                let b2 = if a2 < s.len() {
                    skip_class_right(s, a2, class_of(s[a2]))
                } else {
                    a2
                };
                if a1 < b1 && a2 < b2 {
                    final(self).text() == s.subrange(0, a1) + s.subrange(a2, b2) + s.subrange(
                        b1,
                        a2,
                    ) + s.subrange(a1, b1) + s.subrange(b2, s.len() as int) && final(self).cursor()
                        == clamp_boundary(final(self).text(), old(self).cursor())
                } else {
                    *final(self) == *old(self)
                }
            }),
            final(self).wf(),
    {
        let n = self.buffer.as_str().unicode_len();
        let old_ip = self.insertion_point;
        let (a1, b1) = self.current_word_range();
        let a2 = self.skip_ws_right(b1);
        let b2 = if a2 < n {
            let cls = char_class(self.char_at(a2));
            self.skip_class_right(a2, cls)
        } else {
            a2
        };
        if a1 < b1 && a2 < b2 {
            let mut mid = self.buffer.as_str().substring_char(a2, b2).to_owned();
            mid.append(self.buffer.as_str().substring_char(b1, a2));
            mid.append(self.buffer.as_str().substring_char(a1, b1));
            self.splice(a1, b2, mid.as_str());
            proof {
                let s = old(self).text();
                assert(self.text() =~= s.subrange(0, a1 as int) + s.subrange(a2 as int, b2 as int)
                    + s.subrange(b1 as int, a2 as int) + s.subrange(a1 as int, b1 as int)
                    + s.subrange(b2 as int, s.len() as int));
            }
            self.set_insertion_point(old_ip);
        }
    }

    /// Replaces the whole content; the insertion point moves to the end of
    /// the new buffer.
    pub fn set_buffer(&mut self, buffer: String)
        ensures
            final(self).text() == buffer@,
            final(self).cursor() == buffer@.len(),
            final(self).wf(),
    {
        let n = buffer.as_str().unicode_len();
        self.buffer = buffer;
        self.insertion_point = n;
    }
}

impl Clone for LineBuffer {
    /// An independent copy: later mutation of either buffer leaves the
    /// other untouched.
    fn clone(&self) -> (r: Self)
        ensures
            r == *self,
    {
        LineBuffer { buffer: self.buffer.clone(), insertion_point: self.insertion_point }
    }
}

/// Relies on `String::push`: appends exactly the given character.
#[verifier::external_body]
pub(crate) fn push_char(s: &mut String, c: char)
    ensures
        final(s)@ == old(s)@.push(c),
{
    s.push(c);
}

} // verus!
