//! Character-level helpers shared by the textual parsers: splitting on
//! separators, lines, whitespace and decimal counts.

use vstd::prelude::*;

verus! {

/// `String::push` appends one character at the end of the string.
pub assume_specification[ String::push ](s: &mut String, ch: char)
    ensures
        final(s)@ == old(s)@.push(ch),
;

/// The predicate that holds of `sep` alone.
pub open spec fn char_is(sep: char) -> spec_fn(char) -> bool {
    |c: char| c == sep
}

/// The predicate that holds of the white-space characters.
pub open spec fn whitespace() -> spec_fn(char) -> bool {
    |c: char| is_space(c)
}

/// The predicate that holds of the zero byte.
pub open spec fn nul() -> spec_fn(u8) -> bool {
    |b: u8| b == 0
}

/// Characters with the Unicode `White_Space` property.
pub open spec fn is_space(c: char) -> bool {
    let n = c as u32;
    ||| 0x09 <= n <= 0x0D
    ||| n == 0x20
    ||| n == 0x85
    ||| n == 0xA0
    ||| n == 0x1680
    ||| 0x2000 <= n <= 0x200A
    ||| n == 0x2028
    ||| n == 0x2029
    ||| n == 0x202F
    ||| n == 0x205F
    ||| n == 0x3000
}

/// Index of the first element at or after `from` of which `sep` holds, or the
/// length of `s` when there is none.
pub open spec fn scan_to<T>(s: Seq<T>, from: int, sep: spec_fn(T) -> bool) -> int
    decreases s.len() - from,
{
    if from < 0 || from >= s.len() {
        s.len() as int
    } else if sep(s[from]) {
        from
    } else {
        scan_to(s, from + 1, sep)
    }
}

/// `scan_to` stops at the first separator and never moves backwards.
pub proof fn lemma_scan_bounds<T>(s: Seq<T>, from: int, sep: spec_fn(T) -> bool)
    requires
        0 <= from <= s.len(),
    ensures
        from <= scan_to(s, from, sep) <= s.len(),
        scan_to(s, from, sep) < s.len() ==> sep(s[scan_to(s, from, sep)]),
        forall|k: int| from <= k < scan_to(s, from, sep) ==> !sep(#[trigger] s[k]),
    decreases s.len() - from,
{
    if from < s.len() && !sep(s[from]) {
        lemma_scan_bounds(s, from + 1, sep);
    }
}

/// The fields of `s` from `from` on, cut at every separator; empty fields
/// are kept, so there is always one field more than there are separators.
pub open spec fn fields_from<T>(s: Seq<T>, from: int, sep: spec_fn(T) -> bool) -> Seq<Seq<T>>
    decreases s.len() - from,
{
    if from < 0 || from > s.len() {
        Seq::empty()
    } else {
        let end = scan_to(s, from, sep);
        if end >= s.len() {
            seq![s.subrange(from, s.len() as int)]
        } else {
            proof {
                lemma_scan_bounds(s, from, sep);
            }
            seq![s.subrange(from, end)] + fields_from(s, end + 1, sep)
        }
    }
}

/// The maximal non-empty runs of elements between separators, from `from` on.
pub open spec fn tokens_from<T>(s: Seq<T>, from: int, sep: spec_fn(T) -> bool) -> Seq<Seq<T>>
    decreases s.len() - from,
{
    if from < 0 || from >= s.len() {
        Seq::empty()
    } else {
        let end = scan_to(s, from, sep);
        let head = if end > from {
            seq![s.subrange(from, end)]
        } else {
            Seq::empty()
        };
        if end >= s.len() {
            head
        } else {
            proof {
                lemma_scan_bounds(s, from, sep);
            }
            head + tokens_from(s, end + 1, sep)
        }
    }
}

/// `line` without one trailing carriage return.
pub open spec fn strip_cr(line: Seq<char>) -> Seq<char> {
    if line.len() > 0 && line.last() == '\r' {
        line.drop_last()
    } else {
        line
    }
}

/// The lines of `s` from `from` on. A line ends at a line feed; the carriage
/// return before that line feed is not part of the line. Text after the last
/// line feed is a line of its own, kept as it is, unless it is empty.
pub open spec fn lines_from(s: Seq<char>, from: int) -> Seq<Seq<char>>
    decreases s.len() - from,
{
    if from < 0 || from >= s.len() {
        Seq::empty()
    } else {
        let end = scan_to(s, from, char_is('\n'));
        if end >= s.len() {
            seq![s.subrange(from, s.len() as int)]
        } else {
            proof {
                lemma_scan_bounds(s, from, char_is('\n'));
            }
            seq![strip_cr(s.subrange(from, end))] + lines_from(s, end + 1)
        }
    }
}

/// All lines of `s`.
pub open spec fn lines(s: Seq<char>) -> Seq<Seq<char>> {
    lines_from(s, 0)
}

/// The pieces of `s` that `ranges` name, in order.
pub open spec fn cut<T>(s: Seq<T>, ranges: Seq<(usize, usize)>) -> Seq<Seq<T>> {
    Seq::new(ranges.len(), |i: int| s.subrange(ranges[i].0 as int, ranges[i].1 as int))
}

/// Whether every range lies within a sequence of length `len`.
pub open spec fn ranges_within(ranges: Seq<(usize, usize)>, len: nat) -> bool {
    forall|i: int|
        0 <= i < ranges.len() ==> (#[trigger] ranges[i]).0 <= ranges[i].1 && ranges[i].1 <= len
}

/// End of `s` once trailing white space is dropped.
pub open spec fn trim_end(s: Seq<char>) -> int
    decreases s.len(),
{
    if s.len() == 0 || !is_space(s.last()) {
        s.len() as int
    } else {
        trim_end(s.drop_last())
    }
}

/// Start of `s` once leading white space is dropped, or its length when `s`
/// is blank.
pub open spec fn trim_start(s: Seq<char>) -> int {
    scan_to(s, 0, |c: char| !is_space(c))
}

/// `s` without leading and trailing white space.
pub open spec fn trim(s: Seq<char>) -> Seq<char> {
    let end = trim_end(s);
    let start = trim_start(s);
    if start >= end {
        Seq::empty()
    } else {
        s.subrange(start, end)
    }
}

/// Whether `c` is one of the ten ASCII digits.
pub open spec fn is_digit(c: char) -> bool {
    '0' <= c <= '9'
}

/// Whether `s` holds ASCII digits only.
pub open spec fn all_digits(s: Seq<char>) -> bool {
    forall|i: int| 0 <= i < s.len() ==> is_digit(#[trigger] s[i])
}

/// The number that the decimal digits of `s` denote.
pub open spec fn digits_value(s: Seq<char>) -> nat
    decreases s.len(),
{
    if s.len() == 0 {
        0
    } else {
        (digits_value(s.drop_last()) * 10 + (s.last() as u32 - '0' as u32)) as nat
    }
}

/// `s` without one leading plus sign.
pub open spec fn unsigned_part(s: Seq<char>) -> Seq<char> {
    if s.len() > 0 && s[0] == '+' {
        s.skip(1)
    } else {
        s
    }
}

/// The count that `s` spells: an optional plus sign followed by at least one
/// digit, as long as the number fits the machine word. `None` for any other
/// text.
pub open spec fn parse_count(s: Seq<char>) -> Option<usize> {
    let body = unsigned_part(s);
    if body.len() > 0 && all_digits(body) && digits_value(body) <= usize::MAX {
        Some(digits_value(body) as usize)
    } else {
        None
    }
}

/// `parts` joined with `sep` between neighbours.
pub open spec fn join<T>(parts: Seq<Seq<T>>, sep: T) -> Seq<T>
    decreases parts.len(),
{
    if parts.len() == 0 {
        Seq::empty()
    } else if parts.len() == 1 {
        parts[0]
    } else {
        join(parts.drop_last(), sep).push(sep) + parts.last()
    }
}

/// A longer run of digits never denotes a smaller number.
pub proof fn lemma_digits_prefix(s: Seq<char>, n: int)
    requires
        0 <= n <= s.len(),
        all_digits(s),
    ensures
        digits_value(s.take(n)) <= digits_value(s),
    decreases s.len(),
{
    if n < s.len() {
        assert(s.drop_last().take(n) =~= s.take(n));
        lemma_digits_prefix(s.drop_last(), n);
        assert(is_digit(s.last()));
        assert(digits_value(s.drop_last()) * 10 >= digits_value(s.drop_last())) by (nonlinear_arith);
    } else {
        assert(s.take(n) =~= s);
    }
}

/// How a text is cut into pieces.
#[derive(Debug, Clone, Copy, PartialEq, Eq, Structural)]
pub enum Delim {
    /// At every occurrence of one character.
    Char(char),
    /// At every white-space character.
    Space,
}

impl Delim {
    /// The separator predicate of this delimiter.
    pub open spec fn pred(self) -> spec_fn(char) -> bool {
        match self {
            Delim::Char(sep) => char_is(sep),
            Delim::Space => whitespace(),
        }
    }

    /// Whether `c` separates pieces.
    pub fn holds(&self, c: char) -> (b: bool)
        ensures
            b == (self.pred())(c),
    {
        match self {
            Delim::Char(sep) => c == *sep,
            Delim::Space => is_whitespace(c),
        }
    }
}

/// Whether `c` has the Unicode `White_Space` property.
pub fn is_whitespace(c: char) -> (b: bool)
    ensures
        b == is_space(c),
{
    let n: u32 = c as u32;
    (0x09 <= n && n <= 0x0D) || n == 0x20 || n == 0x85 || n == 0xA0 || n == 0x1680 || (0x2000 <= n
        && n <= 0x200A) || n == 0x2028 || n == 0x2029 || n == 0x202F || n == 0x205F || n == 0x3000
}

/// The characters of `s`, in order.
pub fn to_chars(s: &str) -> (v: Vec<char>)
    ensures
        v@ == s@,
{
    let mut v: Vec<char> = Vec::new();
    for c in it: s.chars()
        invariant
            v@ == it.seq().take(it.index()),
            it.seq() == s@,
    {
        v.push(c);
    }
    v
}

/// The string made of the characters of `s`.
pub fn from_chars(s: &[char]) -> (r: String)
    ensures
        r@ == s@,
{
    let mut r = String::new();
    let mut i: usize = 0;
    while i < s.len()
        invariant
            i <= s.len(),
            r@ == s@.take(i as int),
        decreases s.len() - i,
    {
        r.push(s[i]);
        i += 1;
    }
    r
}

/// Position of the first separator at or after `from`, or the length of `s`.
pub fn find_delim(s: &[char], from: usize, d: Delim) -> (end: usize)
    ensures
        end <= s.len(),
        from <= s.len() ==> from <= end,
        end == scan_to(s@, from as int, d.pred()),
{
    if from >= s.len() {
        return s.len();
    }
    let mut i: usize = from;
    while i < s.len() && !d.holds(s[i])
        invariant
            from <= i <= s.len(),
            scan_to(s@, i as int, d.pred()) == scan_to(s@, from as int, d.pred()),
        decreases s.len() - i,
    {
        i += 1;
    }
    i
}

/// Where the fields of `s` lie, empty fields included.
pub fn field_ranges(s: &[char], d: Delim) -> (r: Vec<(usize, usize)>)
    ensures
        ranges_within(r@, s@.len()),
        cut(s@, r@) == fields_from(s@, 0, d.pred()),
        r.len() >= 1,
{
    let mut r: Vec<(usize, usize)> = Vec::new();
    let mut pos: usize = 0;
    loop
        invariant_except_break
            pos <= s.len(),
            cut(s@, r@) + fields_from(s@, pos as int, d.pred()) == fields_from(
                s@,
                0,
                d.pred(),
            ),
        invariant
            ranges_within(r@, s@.len()),
        ensures
            ranges_within(r@, s@.len()),
            cut(s@, r@) == fields_from(s@, 0, d.pred()),
            r.len() >= 1,
        decreases s.len() - pos,
    {
        let end = find_delim(s, pos, d);
        let ghost before = r@;
        r.push((pos, end));
        assert(cut(s@, r@) =~= cut(s@, before) + seq![s@.subrange(pos as int, end as int)]);
        if end >= s.len() {
            break;
        }
        pos = end + 1;
    }
    r
}

/// Where the non-empty pieces of `s` between separators lie.
pub fn token_ranges(s: &[char], d: Delim) -> (r: Vec<(usize, usize)>)
    ensures
        ranges_within(r@, s@.len()),
        cut(s@, r@) == tokens_from(s@, 0, d.pred()),
{
    let mut r: Vec<(usize, usize)> = Vec::new();
    let mut pos: usize = 0;
    while pos < s.len()
        invariant
            pos <= s.len(),
            ranges_within(r@, s@.len()),
            cut(s@, r@) + tokens_from(s@, pos as int, d.pred()) == tokens_from(
                s@,
                0,
                d.pred(),
            ),
        decreases s.len() - pos,
    {
        let end = find_delim(s, pos, d);
        proof {
            lemma_scan_bounds(s@, pos as int, d.pred());
        }
        if end > pos {
            let ghost before = r@;
            r.push((pos, end));
            assert(cut(s@, r@) =~= cut(s@, before) + seq![s@.subrange(pos as int, end as int)]);
        }
        if end >= s.len() {
            pos = s.len();
        } else {
            pos = end + 1;
        }
        assert(cut(s@, r@) + tokens_from(s@, pos as int, d.pred()) =~= tokens_from(s@, 0, d.pred()));
    }
    r
}

/// Where the lines of `s` lie.
pub fn line_ranges(s: &[char]) -> (r: Vec<(usize, usize)>)
    ensures
        ranges_within(r@, s@.len()),
        cut(s@, r@) == lines(s@),
{
    let mut r: Vec<(usize, usize)> = Vec::new();
    let mut pos: usize = 0;
    while pos < s.len()
        invariant
            pos <= s.len(),
            ranges_within(r@, s@.len()),
            cut(s@, r@) + lines_from(s@, pos as int) == lines_from(s@, 0),
        decreases s.len() - pos,
    {
        let end = find_delim(s, pos, Delim::Char('\n'));
        let ghost before = r@;
        if end >= s.len() {
            r.push((pos, end));
            assert(cut(s@, r@) =~= cut(s@, before) + seq![s@.subrange(pos as int, end as int)]);
            pos = s.len();
        } else {
            let stop: usize = if end > pos && s[end - 1] == '\r' {
                end - 1
            } else {
                end
            };
            r.push((pos, stop));
            assert(s@.subrange(pos as int, stop as int) =~= strip_cr(
                s@.subrange(pos as int, end as int),
            ));
            assert(cut(s@, r@) =~= cut(s@, before) + seq![s@.subrange(pos as int, stop as int)]);
            pos = end + 1;
        }
    }
    r
}

/// Where `s` without leading and trailing white space lies.
pub fn trim_range(s: &[char]) -> (r: (usize, usize))
    ensures
        r.0 <= r.1 <= s@.len(),
        s@.subrange(r.0 as int, r.1 as int) == trim(s@),
{
    let mut end: usize = s.len();
    assert(s@.take(end as int) =~= s@);
    while end > 0 && is_whitespace(s[end - 1])
        invariant
            end <= s.len(),
            trim_end(s@.take(end as int)) == trim_end(s@),
        decreases end,
    {
        assert(s@.take(end as int).drop_last() =~= s@.take(end - 1));
        end -= 1;
    }
    assert(s@.take(end as int) =~= s@ || end < s.len());
    assert(trim_end(s@) == end) by {
        if end > 0 {
            assert(s@.take(end as int).last() == s@[end - 1]);
        }
    }
    let mut start: usize = 0;
    while start < s.len() && is_whitespace(s[start])
        invariant
            start <= s.len(),
            scan_to(s@, start as int, |c: char| !is_space(c)) == trim_start(s@),
        decreases s.len() - start,
    {
        start += 1;
    }
    if start >= end {
        assert(s@.subrange(end as int, end as int) =~= Seq::<char>::empty());
        (end, end)
    } else {
        (start, end)
    }
}

/// The count that `s` spells, if it spells one.
pub fn count_of(s: &[char]) -> (r: Option<usize>)
    ensures
        r == parse_count(s@),
{
    let start: usize = if s.len() > 0 && s[0] == '+' {
        1
    } else {
        0
    };
    let ghost body = unsigned_part(s@);
    assert(body =~= s@.subrange(start as int, s@.len() as int));
    if start >= s.len() {
        return None;
    }
    let mut acc: usize = 0;
    let mut i: usize = start;
    while i < s.len()
        invariant
            start <= i <= s.len(),
            body == s@.subrange(start as int, s@.len() as int),
            body == unsigned_part(s@),
            all_digits(body.take(i - start)),
            acc == digits_value(body.take(i - start)),
        decreases s.len() - i,
    {
        let c = s[i];
        assert(body[i - start] == c);
        if !('0' <= c && c <= '9') {
            assert(!is_digit(body[i - start]));
            return None;
        }
        let d: usize = (c as u32 - '0' as u32) as usize;
        let ghost next = body.take(i - start + 1);
        assert(next.drop_last() =~= body.take(i - start));
        assert(next.last() == c);
        assert(all_digits(next)) by {
            assert forall|j: int| 0 <= j < next.len() implies is_digit(#[trigger] next[j]) by {
                if j < next.len() - 1 {
                    assert(next[j] == body.take(i - start)[j]);
                }
            }
        }
        if acc > (usize::MAX - d) / 10 {
            proof {
                assert(digits_value(next) > usize::MAX);
                if all_digits(body) {
                    lemma_digits_prefix(body, i - start + 1);
                }
            }
            return None;
        }
        acc = acc * 10 + d;
        i += 1;
    }
    assert(body.take(i - start) =~= body);
    Some(acc)
}

} // verus!
