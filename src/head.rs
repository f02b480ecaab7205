//! Parsing the head of an HTTP response: the status line, `Content-Length`
//! and `Content-Encoding`.
use crate::text::has_prefix;
use vstd::prelude::*;

verus! {

pub open spec fn is_digit(b: u8) -> bool {
    48 <= b <= 57
}

pub open spec fn all_digits(s: Seq<u8>) -> bool {
    forall|i: int| 0 <= i < s.len() ==> is_digit(#[trigger] s[i])
}

/// The number that decimal digits spell.
pub open spec fn digits_value(s: Seq<u8>) -> nat
    decreases s.len(),
{
    if s.len() == 0 {
        0
    } else {
        digits_value(s.drop_last()) * 10 + (s.last() - 48) as nat
    }
}

/// The digits of an unsigned number as written: an optional `+` sign before
/// them.
pub open spec fn unsigned_digits(s: Seq<u8>) -> Seq<u8> {
    if s.len() > 0 && s[0] == 43 {
        s.drop_first()
    } else {
        s
    }
}

/// The value of an unsigned decimal number: an optional `+`, then one digit
/// or more. `None` for anything else.
pub open spec fn unsigned_value(s: Seq<u8>) -> Option<nat> {
    let d = unsigned_digits(s);
    if d.len() > 0 && all_digits(d) {
        Some(digits_value(d))
    } else {
        None
    }
}

proof fn lemma_value_grows(d: Seq<u8>, i: int, j: int)
    requires
        all_digits(d),
        0 <= i <= j <= d.len(),
    ensures
        digits_value(d.subrange(0, i)) <= digits_value(d.subrange(0, j)),
    decreases j - i,
{
    if i < j {
        lemma_value_grows(d, i, j - 1);
        assert(d.subrange(0, j).drop_last() =~= d.subrange(0, j - 1));
    }
}

/// Reads an unsigned decimal number of at most `max`, as `str::parse` reads
/// one of an unsigned integer type whose largest value is `max`.
pub fn parse_unsigned(s: &Vec<u8>, max: u64) -> (r: Option<u64>)
    ensures
        r is Some <==> (unsigned_value(s@) is Some && unsigned_value(s@)->0 <= max),
        r matches Some(v) ==> v as nat == unsigned_value(s@)->0,
{
    let start: usize = if s.len() > 0 && s[0] == 43 {
        1
    } else {
        0
    };
    let ghost d = unsigned_digits(s@);
    assert(d =~= s@.subrange(start as int, s.len() as int));
    if start == s.len() {
        return None;
    }
    let mut v: u128 = 0;
    let mut i: usize = start;
    while i < s.len()
        invariant
            d == unsigned_digits(s@),
            d == s@.subrange(start as int, s.len() as int),
            start <= i <= s.len(),
            forall|k: int| 0 <= k < i - start ==> is_digit(#[trigger] d[k]),
            v as nat == digits_value(d.subrange(0, i - start)),
            v <= max,
        decreases s.len() - i,
    {
        let b = s[i];
        if b < 48 || b > 57 {
            assert(d[i - start] == b);
            assert(!all_digits(d));
            return None;
        }
        assert(d.subrange(0, i - start + 1).drop_last() =~= d.subrange(0, i - start));
        assert(d.subrange(0, i - start + 1).last() == b);
        let next = v * 10 + (b - 48) as u128;
        if next > max as u128 {
            proof {
                if all_digits(d) {
                    lemma_value_grows(d, i - start + 1, d.len() as int);
                    assert(d.subrange(0, d.len() as int) =~= d);
                }
            }
            return None;
        }
        v = next;
        i = i + 1;
    }
    assert(d.subrange(0, d.len() as int) =~= d);
    Some(v as u64)
}

pub open spec fn is_space(b: u8) -> bool {
    b == 9 || b == 10 || b == 11 || b == 12 || b == 13 || b == 32
}

/// `s` without white space at its start.
pub open spec fn trim_start(s: Seq<u8>) -> Seq<u8>
    decreases s.len(),
{
    if s.len() > 0 && is_space(s[0]) {
        trim_start(s.drop_first())
    } else {
        s
    }
}

/// `s` without white space at its end.
pub open spec fn trim_end(s: Seq<u8>) -> Seq<u8>
    decreases s.len(),
{
    if s.len() > 0 && is_space(s.last()) {
        trim_end(s.drop_last())
    } else {
        s
    }
}

/// `s` without white space at either end.
pub open spec fn trim(s: Seq<u8>) -> Seq<u8> {
    trim_end(trim_start(s))
}

/// Removes white space from both ends of `s`.
pub fn trim_bytes(s: &Vec<u8>) -> (r: Vec<u8>)
    ensures
        r@ == trim(s@),
{
    let mut lo: usize = 0;
    assert(s@.subrange(0, s.len() as int) =~= s@);
    while lo < s.len() && (s[lo] == 9 || s[lo] == 10 || s[lo] == 11 || s[lo] == 12 || s[lo] == 13
        || s[lo] == 32)
        invariant
            lo <= s.len(),
            trim_start(s@) == trim_start(s@.subrange(lo as int, s.len() as int)),
        decreases s.len() - lo,
    {
        assert(s@.subrange(lo as int, s.len() as int).drop_first() =~= s@.subrange(
            lo + 1,
            s.len() as int,
        ));
        lo = lo + 1;
    }
    assert(trim_start(s@) == s@.subrange(lo as int, s.len() as int));
    let mut hi: usize = s.len();
    while hi > lo && (s[hi - 1] == 9 || s[hi - 1] == 10 || s[hi - 1] == 11 || s[hi - 1] == 12 || s[hi
        - 1] == 13 || s[hi - 1] == 32)
        invariant
            lo <= hi <= s.len(),
            trim(s@) == trim_end(s@.subrange(lo as int, hi as int)),
        decreases hi - lo,
    {
        assert(s@.subrange(lo as int, hi as int).drop_last() =~= s@.subrange(
            lo as int,
            hi - 1,
        ));
        hi = hi - 1;
    }
    let mut r: Vec<u8> = Vec::new();
    let mut k: usize = lo;
    while k < hi
        invariant
            lo <= k <= hi <= s.len(),
            r@ == s@.subrange(lo as int, k as int),
        decreases hi - k,
    {
        r.push(s[k]);
        k = k + 1;
        assert(r@ =~= s@.subrange(lo as int, k as int));
    }
    r
}

/// The index of the first `b` in `s` at `i` or after it.
pub open spec fn index_from(s: Seq<u8>, b: u8, i: int) -> Option<int>
    decreases s.len() - i,
{
    if i < 0 || i >= s.len() {
        None
    } else if s[i] == b {
        Some(i)
    } else {
        index_from(s, b, i + 1)
    }
}

/// What stands between the first `sep` of `s` and the next one, or the end.
/// `None` where `s` holds no `sep`: the second of the fields that `sep`
/// separates.
pub open spec fn second_field(s: Seq<u8>, sep: u8) -> Option<Seq<u8>> {
    match index_from(s, sep, 0) {
        Some(i) => match index_from(s, sep, i + 1) {
            Some(j) => Some(s.subrange(i + 1, j)),
            None => Some(s.subrange(i + 1, s.len() as int)),
        },
        None => None,
    }
}

fn find_byte(s: &Vec<u8>, b: u8, from: usize) -> (r: Option<usize>)
    requires
        from <= s.len(),
    ensures
        r matches Some(i) ==> index_from(s@, b, from as int) == Some(i as int),
        r is None ==> index_from(s@, b, from as int) is None,
{
    let mut i: usize = from;
    while i < s.len()
        invariant
            from <= i <= s.len(),
            index_from(s@, b, from as int) == index_from(s@, b, i as int),
        decreases s.len() - i,
    {
        if s[i] == b {
            return Some(i);
        }
        i = i + 1;
    }
    None
}

/// The second of the fields that `sep` separates in `s`.
pub fn field_after(s: &Vec<u8>, sep: u8) -> (r: Option<Vec<u8>>)
    ensures
        r matches Some(f) ==> second_field(s@, sep) == Some(f@),
        r is None ==> second_field(s@, sep) is None,
{
    let i = match find_byte(s, sep, 0) {
        Some(i) => i,
        None => return None,
    };
    proof {
        lemma_index_from_bounds(s@, sep, 0);
        assert(i < s.len());
    }
    let end = match find_byte(s, sep, i + 1) {
        Some(j) => j,
        None => s.len(),
    };
    proof {
        if let Some(j) = index_from(s@, sep, i + 1) {
            lemma_index_from_bounds(s@, sep, i + 1);
        }
    }
    let mut r: Vec<u8> = Vec::new();
    let mut k: usize = i + 1;
    while k < end
        invariant
            i + 1 <= k <= end <= s.len(),
            r@ == s@.subrange(i + 1, k as int),
        decreases end - k,
    {
        r.push(s[k]);
        k = k + 1;
        assert(r@ =~= s@.subrange(i + 1, k as int));
    }
    Some(r)
}

proof fn lemma_index_from_bounds(s: Seq<u8>, b: u8, i: int)
    ensures
        index_from(s, b, i) is Some ==> i <= index_from(s, b, i)->0 < s.len(),
    decreases s.len() - i,
{
    if 0 <= i < s.len() && s[i] != b {
        lemma_index_from_bounds(s, b, i + 1);
    }
}

/// A line read from the response without its line terminator: a final `\n`,
/// and then a final `\r`.
pub open spec fn line_content(l: Seq<u8>) -> Seq<u8> {
    let a = if l.len() > 0 && l.last() == 10 {
        l.drop_last()
    } else {
        l
    };
    if a.len() > 0 && a.last() == 13 {
        a.drop_last()
    } else {
        a
    }
}

/// Removes the line terminator from a line.
pub fn strip_line_end(l: &Vec<u8>) -> (r: Vec<u8>)
    ensures
        r@ == line_content(l@),
{
    let mut end: usize = l.len();
    if end > 0 && l[end - 1] == 10 {
        end = end - 1;
    }
    if end > 0 && l[end - 1] == 13 {
        end = end - 1;
    }
    let mut r: Vec<u8> = Vec::new();
    let mut k: usize = 0;
    while k < end
        invariant
            k <= end <= l.len(),
            r@ == l@.subrange(0, k as int),
        decreases end - k,
    {
        r.push(l[k]);
        k = k + 1;
        assert(r@ =~= l@.subrange(0, k as int));
    }
    assert(r@ =~= line_content(l@));
    r
}

/// Whether the bytes of `p` begin `s`.
pub fn bytes_start_with(s: &Vec<u8>, p: &Vec<u8>) -> (r: bool)
    ensures
        r == has_prefix(s@, p@),
{
    if p.len() > s.len() {
        return false;
    }
    let mut i: usize = 0;
    while i < p.len()
        invariant
            p.len() <= s.len(),
            i <= p.len(),
            forall|j: int| 0 <= j < i ==> s@[j] == p@[j],
        decreases p.len() - i,
    {
        if s[i] != p[i] {
            assert(s@.subrange(0, p.len() as int)[i as int] != p@[i as int]);
            return false;
        }
        i = i + 1;
    }
    assert(s@.subrange(0, p.len() as int) =~= p@);
    true
}

/// Whether `s` holds exactly the bytes of `t`.
pub fn bytes_equal(s: &Vec<u8>, t: &Vec<u8>) -> (r: bool)
    ensures
        r == (s@ == t@),
{
    if s.len() != t.len() {
        return false;
    }
    let r = bytes_start_with(s, t);
    assert(s@ =~= s@.subrange(0, t@.len() as int));
    r
}

/// The index of the first of `lines` at `i` or after it that begins with `p`.
pub open spec fn first_line_from(lines: Seq<Seq<u8>>, p: Seq<u8>, i: int) -> Option<int>
    decreases lines.len() - i,
{
    if i < 0 || i >= lines.len() {
        None
    } else if has_prefix(lines[i], p) {
        Some(i)
    } else {
        first_line_from(lines, p, i + 1)
    }
}

proof fn lemma_first_line_bounds(lines: Seq<Seq<u8>>, p: Seq<u8>, i: int)
    ensures
        first_line_from(lines, p, i) is Some ==> i <= first_line_from(lines, p, i)->0 < lines.len(),
    decreases lines.len() - i,
{
    if 0 <= i < lines.len() && !has_prefix(lines[i], p) {
        lemma_first_line_bounds(lines, p, i + 1);
    }
}

/// The index of the first line that begins with `p`.
pub fn find_line(lines: &Vec<Vec<u8>>, p: &Vec<u8>) -> (r: Option<usize>)
    ensures
        r matches Some(i) ==> first_line_from(lines@.map_values(|l: Vec<u8>| l@), p@, 0) == Some(
            i as int,
        ),
        r is None ==> first_line_from(lines@.map_values(|l: Vec<u8>| l@), p@, 0) is None,
{
    let ghost ls = lines@.map_values(|l: Vec<u8>| l@);
    let mut i: usize = 0;
    while i < lines.len()
        invariant
            ls == lines@.map_values(|l: Vec<u8>| l@),
            i <= lines.len(),
            first_line_from(ls, p@, 0) == first_line_from(ls, p@, i as int),
        decreases lines.len() - i,
    {
        if bytes_start_with(&lines[i], p) {
            return Some(i);
        }
        i = i + 1;
    }
    None
}

/// What begins the status line.
pub open spec fn status_marker() -> Seq<u8> {
    seq![72u8, 84u8, 84u8, 80u8, 47u8]
}

pub open spec fn content_length_name() -> Seq<u8> {
    seq![67u8, 111u8, 110u8, 116u8, 101u8, 110u8, 116u8, 45u8, 76u8, 101u8, 110u8, 103u8, 116u8, 104u8]
}

pub open spec fn content_encoding_name() -> Seq<u8> {
    seq![67u8, 111u8, 110u8, 116u8, 101u8, 110u8, 116u8, 45u8, 69u8, 110u8, 99u8, 111u8, 100u8, 105u8, 110u8, 103u8]
}

/// The status code: the second space-separated field of the first line that
/// begins with the protocol marker. `None` where there is no such line or
/// field, or the field is no number of 16 bits.
pub open spec fn status_of(lines: Seq<Seq<u8>>) -> Option<u16> {
    match first_line_from(lines, status_marker(), 0) {
        Some(i) => match second_field(line_content(lines[i]), 32) {
            Some(f) => match unsigned_value(f) {
                Some(v) => if v <= 65535 {
                    Some(v as u16)
                } else {
                    None
                },
                None => None,
            },
            None => None,
        },
        None => None,
    }
}

/// The declared body length: the trimmed field after the colon of the first
/// `Content-Length` line, read as a `usize`; 0 where absent or unreadable.
pub open spec fn content_length_of(lines: Seq<Seq<u8>>) -> nat {
    match first_line_from(lines, content_length_name(), 0) {
        Some(i) => match second_field(line_content(lines[i]), 58) {
            Some(f) => match unsigned_value(trim(f)) {
                Some(v) => if v <= usize::MAX {
                    v
                } else {
                    0
                },
                None => 0,
            },
            None => 0,
        },
        None => 0,
    }
}

/// The content coding: the trimmed field after the colon of the first
/// `Content-Encoding` line; empty where absent.
pub open spec fn content_encoding_of(lines: Seq<Seq<u8>>) -> Seq<u8> {
    match first_line_from(lines, content_encoding_name(), 0) {
        Some(i) => match second_field(line_content(lines[i]), 58) {
            Some(f) => trim(f),
            None => Seq::empty(),
        },
        None => Seq::empty(),
    }
}

/// The view of a list of lines.
pub open spec fn lines_view(lines: Seq<Vec<u8>>) -> Seq<Seq<u8>> {
    lines.map_values(|l: Vec<u8>| l@)
}

/// The status code of a response head.
pub fn parse_status(lines: &Vec<Vec<u8>>) -> (r: Option<u16>)
    ensures
        r == status_of(lines_view(lines@)),
{
    let marker: Vec<u8> = vec![72u8, 84u8, 84u8, 80u8, 47u8];
    assert(marker@ =~= status_marker());
    let i = match find_line(lines, &marker) {
        Some(i) => i,
        None => return None,
    };
    proof {
        lemma_first_line_bounds(lines_view(lines@), status_marker(), 0);
    }
    let content = strip_line_end(&lines[i]);
    let field = match field_after(&content, 32) {
        Some(f) => f,
        None => return None,
    };
    match parse_unsigned(&field, 65535) {
        Some(v) => Some(v as u16),
        None => None,
    }
}

/// The declared body length of a response head.
pub fn parse_content_length(lines: &Vec<Vec<u8>>) -> (r: usize)
    ensures
        r as nat == content_length_of(lines_view(lines@)),
{
    let name: Vec<u8> = vec![67u8, 111u8, 110u8, 116u8, 101u8, 110u8, 116u8, 45u8, 76u8, 101u8, 110u8, 103u8, 116u8, 104u8];
    assert(name@ =~= content_length_name());
    let i = match find_line(lines, &name) {
        Some(i) => i,
        None => return 0,
    };
    proof {
        lemma_first_line_bounds(lines_view(lines@), content_length_name(), 0);
    }
    let content = strip_line_end(&lines[i]);
    let field = match field_after(&content, 58) {
        Some(f) => f,
        None => return 0,
    };
    match parse_unsigned(&trim_bytes(&field), usize::MAX as u64) {
        Some(v) => v as usize,
        None => 0,
    }
}

/// The content coding of a response head.
pub fn parse_content_encoding(lines: &Vec<Vec<u8>>) -> (r: Vec<u8>)
    ensures
        r@ == content_encoding_of(lines_view(lines@)),
{
    let name: Vec<u8> = vec![67u8, 111u8, 110u8, 116u8, 101u8, 110u8, 116u8, 45u8, 69u8, 110u8, 99u8, 111u8, 100u8, 105u8, 110u8, 103u8];
    assert(name@ =~= content_encoding_name());
    let i = match find_line(lines, &name) {
        Some(i) => i,
        None => return Vec::new(),
    };
    proof {
        lemma_first_line_bounds(lines_view(lines@), content_encoding_name(), 0);
    }
    let content = strip_line_end(&lines[i]);
    match field_after(&content, 58) {
        Some(f) => trim_bytes(&f),
        None => Vec::new(),
    }
}

} // verus!
