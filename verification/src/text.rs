//! Bytes as text: decoding, and the small scans over ASCII delimiters that
//! header values are read with.

use vstd::prelude::*;
use vstd::slice::*;
use vstd::string::*;
use vstd::utf8::*;

verus! {

/// The text that `bytes` encode: `None` where they are not valid UTF-8.
pub open spec fn text_of(bytes: Seq<u8>) -> Option<Seq<char>> {
    if valid_utf8(bytes) {
        Some(decode_utf8(bytes))
    } else {
        None
    }
}

/// The view of an optional string slice.
pub open spec fn str_view(text: Option<&str>) -> Option<Seq<char>> {
    match text {
        Some(s) => Some(s@),
        None => None,
    }
}

/// The view of an optional string.
pub open spec fn string_view(text: Option<String>) -> Option<Seq<char>> {
    match text {
        Some(s) => Some(s@),
        None => None,
    }
}

/// `std::str::from_utf8`: the bytes as text, without copying them, where
/// they are valid UTF-8; `None` where the function reports an error.
#[verifier::external_body]
pub(crate) fn decode<'a>(bytes: &'a [u8]) -> (text: Option<&'a str>)
    ensures
        str_view(text) == text_of(bytes@),
{
    std::str::from_utf8(bytes).ok()
}

/// The lower-case form of an ASCII letter; any other byte as it is.
pub open spec fn lower(b: u8) -> u8 {
    if 0x41 <= b <= 0x5a {
        (b + 0x20) as u8
    } else {
        b
    }
}

/// Two byte strings are equal but for the case of ASCII letters.
pub open spec fn same_ignoring_case(a: Seq<u8>, b: Seq<u8>) -> bool {
    &&& a.len() == b.len()
    &&& forall|i: int| 0 <= i < a.len() ==> lower(#[trigger] a[i]) == lower(b[i])
}

/// ASCII white space: space, tab, line feed, vertical tab, form feed,
/// carriage return.
pub open spec fn is_space(b: u8) -> bool {
    b == 0x20 || (0x09 <= b <= 0x0d)
}

/// What is stripped from the ends of a piece of a header value: double
/// quotes where `quotes` is set, white space elsewhere.
pub open spec fn is_padding(quotes: bool, b: u8) -> bool {
    if quotes {
        b == 0x22
    } else {
        is_space(b)
    }
}

/// The first position in `from..to` at which `s` holds `b`; `to` where there
/// is none.
pub open spec fn find(s: Seq<u8>, b: u8, from: int, to: int) -> int
    decreases to - from,
{
    if from >= to {
        to
    } else if s[from] == b {
        from
    } else {
        find(s, b, from + 1, to)
    }
}

/// The first position in `from..to` that holds no padding; `to` where all of
/// it is padding.
pub open spec fn skip_leading(s: Seq<u8>, quotes: bool, from: int, to: int) -> int
    decreases to - from,
{
    if from >= to {
        to
    } else if !is_padding(quotes, s[from]) {
        from
    } else {
        skip_leading(s, quotes, from + 1, to)
    }
}

/// The end of `from..to` once the padding at its end is dropped: `from` where
/// all of it is padding.
pub open spec fn skip_trailing(s: Seq<u8>, quotes: bool, from: int, to: int) -> int
    decreases to - from,
{
    if to <= from {
        from
    } else if !is_padding(quotes, s[to - 1]) {
        to
    } else {
        skip_trailing(s, quotes, from, to - 1)
    }
}

/// Where `find` stops, the byte that was looked for stands, unless it stops
/// at the end.
pub proof fn lemma_find(s: Seq<u8>, b: u8, from: int, to: int)
    requires
        0 <= from <= to <= s.len(),
    ensures
        from <= find(s, b, from, to) <= to,
        find(s, b, from, to) < to ==> s[find(s, b, from, to)] == b,
    decreases to - from,
{
    if from < to && s[from] != b {
        lemma_find(s, b, from + 1, to);
    }
}

/// What `skip_leading` passes over is padding.
pub proof fn lemma_skip_leading(s: Seq<u8>, quotes: bool, from: int, to: int)
    requires
        0 <= from <= to <= s.len(),
    ensures
        from <= skip_leading(s, quotes, from, to) <= to,
        from < skip_leading(s, quotes, from, to) ==> is_padding(
            quotes,
            s[skip_leading(s, quotes, from, to) - 1],
        ),
    decreases to - from,
{
    if from < to && is_padding(quotes, s[from]) {
        lemma_skip_leading(s, quotes, from + 1, to);
    }
}

/// What `skip_trailing` drops is padding.
pub proof fn lemma_skip_trailing(s: Seq<u8>, quotes: bool, from: int, to: int)
    requires
        0 <= from <= to <= s.len(),
    ensures
        from <= skip_trailing(s, quotes, from, to) <= to,
        skip_trailing(s, quotes, from, to) < to ==> is_padding(
            quotes,
            s[skip_trailing(s, quotes, from, to)],
        ),
    decreases to - from,
{
    if from < to && is_padding(quotes, s[to - 1]) {
        lemma_skip_trailing(s, quotes, from, to - 1);
    }
}

/// In valid UTF-8, a character starts behind every ASCII byte.
pub proof fn lemma_boundary_after_ascii(bytes: Seq<u8>, i: int)
    requires
        valid_utf8(bytes),
        0 <= i < bytes.len(),
        bytes[i] < 0x80,
    ensures
        is_char_boundary(bytes, i),
        is_char_boundary(bytes, i + 1),
    decreases bytes.len(),
{
    is_char_boundary_iff_not_is_continuation_byte(bytes, i);
    if i == 0 {
        assert(length_of_first_scalar(bytes) == 1);
        assert(is_char_boundary(pop_first_scalar(bytes), 0));
    } else {
        let width = length_of_first_scalar(bytes);
        let rest = pop_first_scalar(bytes);
        assert(is_char_boundary(rest, i - width));
        assert(i - width >= 0);
        assert(rest[i - width] == bytes[i]);
        lemma_boundary_after_ascii(rest, i - width);
    }
}

/// In valid UTF-8, a character starts at every ASCII byte, and at the end.
pub proof fn lemma_boundary_at_ascii(bytes: Seq<u8>, i: int)
    requires
        valid_utf8(bytes),
        0 <= i <= bytes.len(),
        i < bytes.len() ==> bytes[i] < 0x80,
    ensures
        is_char_boundary(bytes, i),
{
    if i < bytes.len() {
        is_char_boundary_iff_not_is_continuation_byte(bytes, i);
    } else {
        is_char_boundary_start_end_of_seq(bytes);
    }
}

/// A piece of valid UTF-8 that is cut out where characters start is valid
/// UTF-8.
pub proof fn lemma_piece_is_text(bytes: Seq<u8>, from: int, to: int)
    requires
        valid_utf8(bytes),
        0 <= from <= to <= bytes.len(),
        is_char_boundary(bytes, from),
        is_char_boundary(bytes, to),
    ensures
        valid_utf8(bytes.subrange(from, to)),
{
    valid_utf8_split(bytes, from);
    let tail = bytes.subrange(from, bytes.len() as int);
    if to == from {
        assert(bytes.subrange(from, to) =~= Seq::<u8>::empty());
    } else {
        lemma_boundary_in_tail(bytes, from, to);
        valid_utf8_split(tail, to - from);
        assert(tail.subrange(0, to - from) =~= bytes.subrange(from, to));
    }
}

/// Where characters start in valid UTF-8, they start in what follows an
/// earlier start.
proof fn lemma_boundary_in_tail(bytes: Seq<u8>, from: int, to: int)
    requires
        valid_utf8(bytes),
        0 <= from <= to <= bytes.len(),
        is_char_boundary(bytes, from),
        is_char_boundary(bytes, to),
    ensures
        valid_utf8(bytes.subrange(from, bytes.len() as int)),
        is_char_boundary(bytes.subrange(from, bytes.len() as int), to - from),
{
    valid_utf8_split(bytes, from);
    let tail = bytes.subrange(from, bytes.len() as int);
    if to == bytes.len() {
        is_char_boundary_start_end_of_seq(tail);
    } else if to == from {
    } else {
        is_char_boundary_iff_not_is_continuation_byte(bytes, to);
        assert(tail[to - from] == bytes[to]);
        is_char_boundary_iff_not_is_continuation_byte(tail, to - from);
    }
}

/// The lower-case form of an ASCII letter; any other byte as it is.
pub fn to_lower(b: u8) -> (l: u8)
    ensures
        l == lower(b),
{
    if 0x41 <= b && b <= 0x5a {
        b + 0x20
    } else {
        b
    }
}

/// Whether `a` and `b` are equal but for the case of ASCII letters.
pub fn eq_ignoring_case(a: &[u8], b: &[u8]) -> (same: bool)
    ensures
        same == same_ignoring_case(a@, b@),
{
    if a.len() != b.len() {
        return false;
    }
    let mut i: usize = 0;
    while i < a.len()
        invariant
            a@.len() == b@.len(),
            i <= a@.len(),
            forall|j: int| 0 <= j < i ==> lower(#[trigger] a@[j]) == lower(b@[j]),
        decreases a@.len() - i,
    {
        if to_lower(a[i]) != to_lower(b[i]) {
            return false;
        }
        i += 1;
    }
    true
}

/// Whether `a` and `b` hold the same bytes.
pub fn bytes_equal(a: &[u8], b: &[u8]) -> (same: bool)
    ensures
        same == (a@ == b@),
{
    if a.len() != b.len() {
        return false;
    }
    let mut i: usize = 0;
    while i < a.len()
        invariant
            a@.len() == b@.len(),
            i <= a@.len(),
            forall|j: int| 0 <= j < i ==> a@[j] == b@[j],
        decreases a@.len() - i,
    {
        if a[i] != b[i] {
            return false;
        }
        i += 1;
    }
    assert(a@ =~= b@);
    true
}

/// The first position in `from..to` at which `s` holds `b`; `to` where there
/// is none.
pub fn find_byte(s: &[u8], b: u8, from: usize, to: usize) -> (at: usize)
    requires
        from <= to <= s@.len(),
    ensures
        at == find(s@, b, from as int, to as int),
        from <= at <= to,
{
    let mut i: usize = from;
    while i < to && s[i] != b
        invariant
            from <= i <= to <= s@.len(),
            find(s@, b, from as int, to as int) == find(s@, b, i as int, to as int),
        decreases to - i,
    {
        i += 1;
    }
    i
}

/// The range `from..to` of `s` without the padding at its two ends, as its
/// start and its end.
pub fn strip(s: &[u8], quotes: bool, from: usize, to: usize) -> (range: (usize, usize))
    requires
        from <= to <= s@.len(),
    ensures
        range.0 == skip_leading(s@, quotes, from as int, to as int),
        range.1 == skip_trailing(s@, quotes, range.0 as int, to as int),
        from <= range.0 <= range.1 <= to,
{
    let mut start: usize = from;
    while start < to && is_padding_byte(quotes, s[start])
        invariant
            from <= start <= to <= s@.len(),
            skip_leading(s@, quotes, from as int, to as int) == skip_leading(
                s@,
                quotes,
                start as int,
                to as int,
            ),
        decreases to - start,
    {
        start += 1;
    }
    let mut end: usize = to;
    while start < end && is_padding_byte(quotes, s[end - 1])
        invariant
            start <= end <= to <= s@.len(),
            skip_trailing(s@, quotes, start as int, to as int) == skip_trailing(
                s@,
                quotes,
                start as int,
                end as int,
            ),
        decreases end - start,
    {
        end -= 1;
    }
    (start, end)
}

/// Whether `b` is padding: a double quote where `quotes` is set, white space
/// elsewhere.
pub fn is_padding_byte(quotes: bool, b: u8) -> (padding: bool)
    ensures
        padding == is_padding(quotes, b),
{
    if quotes {
        b == 0x22
    } else {
        b == 0x20 || (0x09 <= b && b <= 0x0d)
    }
}

/// The character for a decimal digit.
pub open spec fn digit(d: nat) -> char {
    if d == 0 {
        '0'
    } else if d == 1 {
        '1'
    } else if d == 2 {
        '2'
    } else if d == 3 {
        '3'
    } else if d == 4 {
        '4'
    } else if d == 5 {
        '5'
    } else if d == 6 {
        '6'
    } else if d == 7 {
        '7'
    } else if d == 8 {
        '8'
    } else {
        '9'
    }
}

/// A number in decimal digits, without leading zeros.
pub open spec fn decimal(n: nat) -> Seq<char>
    decreases n,
{
    if n < 10 {
        seq![digit(n)]
    } else {
        decimal(n / 10).push(digit(n % 10))
    }
}

/// One decimal digit as text.
fn digit_text(d: usize) -> (text: &'static str)
    requires
        d < 10,
    ensures
        text@ == seq![digit(d as nat)],
{
    proof {
        reveal_strlit("0");
        reveal_strlit("1");
        reveal_strlit("2");
        reveal_strlit("3");
        reveal_strlit("4");
        reveal_strlit("5");
        reveal_strlit("6");
        reveal_strlit("7");
        reveal_strlit("8");
        reveal_strlit("9");
    }
    let text = if d == 0 {
        "0"
    } else if d == 1 {
        "1"
    } else if d == 2 {
        "2"
    } else if d == 3 {
        "3"
    } else if d == 4 {
        "4"
    } else if d == 5 {
        "5"
    } else if d == 6 {
        "6"
    } else if d == 7 {
        "7"
    } else if d == 8 {
        "8"
    } else {
        "9"
    };
    assert(text@ =~= seq![digit(d as nat)]);
    text
}

/// A number in decimal digits, without leading zeros.
pub fn decimal_text(n: usize) -> (text: String)
    ensures
        text@ == decimal(n as nat),
    decreases n,
{
    if n < 10 {
        String::from_str(digit_text(n))
    } else {
        let mut text = decimal_text(n / 10);
        text.append(digit_text(n % 10));
        assert(text@ =~= decimal(n as nat));
        text
    }
}

} // verus!
