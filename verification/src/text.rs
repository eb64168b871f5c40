//! Small helpers on strings.

use vstd::prelude::*;

verus! {

/// Tells whether two string slices hold the same characters.
pub fn same_text(a: &str, b: &str) -> (r: bool)
    ensures
        r == (a@ == b@),
{
    let left = a.to_owned();
    let right = b.to_owned();
    left == right
}

/// An owned copy of an optional string.
pub fn copy_optional_text(text: &Option<String>) -> (r: Option<String>)
    ensures
        optional_text_view(r) == optional_text_view(*text),
{
    match text {
        Some(s) => Some(s.clone()),
        None => None,
    }
}

/// The characters of an optional string.
pub open spec fn optional_text_view(text: Option<String>) -> Option<Seq<char>> {
    match text {
        Some(s) => Some(s@),
        None => None,
    }
}

/// The characters of each string of a list.
pub open spec fn texts_view(texts: Seq<String>) -> Seq<Seq<char>> {
    texts.map_values(|s: String| s@)
}

/// An owned copy of a list of strings.
pub fn copy_texts(texts: &Vec<String>) -> (r: Vec<String>)
    ensures
        texts_view(r@) == texts_view(texts@),
{
    let mut out: Vec<String> = Vec::new();
    let mut i: usize = 0;
    while i < texts.len()
        invariant
            0 <= i <= texts.len(),
            out.len() == i,
            forall|k: int| 0 <= k < i ==> out@[k]@ == texts@[k]@,
        decreases texts.len() - i,
    {
        out.push(texts[i].clone());
        i = i + 1;
    }
    assert(texts_view(out@) =~= texts_view(texts@));
    out
}

/// `String::push_str`: the characters of the slice are added at the end.
pub assume_specification[ String::push_str ](s: &mut String, other: &str)
    ensures
        final(s)@ == old(s)@ + other@,
;

/// `String::push`: the character is added at the end.
pub assume_specification[ String::push ](s: &mut String, c: char)
    ensures
        final(s)@ == old(s)@.push(c),
;

/// The character that stands for a digit from zero to nine.
pub open spec fn digit_char(d: int) -> char {
    if d == 0 {
        '0'
    } else if d == 1 {
        '1'
    } else if d == 2 {
        '2'
    } else if d == 3 {
        '3'
    } else if d == 4 {
        '4'
    } else if d == 5 {
        '5'
    } else if d == 6 {
        '6'
    } else if d == 7 {
        '7'
    } else if d == 8 {
        '8'
    } else {
        '9'
    }
}

/// The decimal digits of a natural number, most significant first.
pub open spec fn decimal_digits(n: nat) -> Seq<char>
    decreases n,
{
    if n < 10 {
        seq![digit_char(n as int)]
    } else {
        decimal_digits(n / 10).push(digit_char((n % 10) as int))
    }
}

/// The decimal form of an integer, with a minus sign before a negative one.
pub open spec fn decimal(n: int) -> Seq<char> {
    if n < 0 {
        seq!['-'] + decimal_digits((-n) as nat)
    } else {
        decimal_digits(n as nat)
    }
}

/// `i32::to_string`: the decimal form of the number, without padding, with a
/// minus sign before a negative number.
#[verifier::external_body]
pub(crate) fn decimal_text(n: i32) -> (r: String)
    ensures
        r@ == decimal(n as int),
{
    n.to_string()
}

/// The two texts one after the other.
pub fn join_text(a: &str, b: &str) -> (r: String)
    ensures
        r@ == a@ + b@,
{
    let mut out = a.to_owned();
    out.push_str(b);
    out
}

/// Tells whether the character is white space, as Unicode defines it.
pub open spec fn spec_is_space(c: char) -> bool {
    let n = c as u32;
    (0x09 <= n <= 0x0D) || n == 0x20 || n == 0x85 || n == 0xA0 || n == 0x1680 || (0x2000 <= n
        <= 0x200A) || n == 0x2028 || n == 0x2029 || n == 0x202F || n == 0x205F || n == 0x3000
}

/// Tells whether the character is white space.
pub fn is_space(c: char) -> (r: bool)
    ensures
        r == spec_is_space(c),
{
    let n: u32 = c as u32;
    (0x09 <= n && n <= 0x0D) || n == 0x20 || n == 0x85 || n == 0xA0 || n == 0x1680 || (0x2000 <= n
        && n <= 0x200A) || n == 0x2028 || n == 0x2029 || n == 0x202F || n == 0x205F || n
        == 0x3000
}

/// The place of the first character from `from` on that is not white
/// space, or the length of the text where there is none.
pub open spec fn spec_kept_start(s: Seq<char>, from: int) -> int
    decreases s.len() - from,
{
    if 0 <= from < s.len() && spec_is_space(s[from]) {
        spec_kept_start(s, from + 1)
    } else {
        from
    }
}

/// The place after the last character before `to` that is not white
/// space, looking no further back than `start`.
pub open spec fn spec_kept_end(s: Seq<char>, start: int, to: int) -> int
    decreases to,
{
    if 0 <= start < to <= s.len() && spec_is_space(s[to - 1]) {
        spec_kept_end(s, start, to - 1)
    } else {
        to
    }
}

/// The text without the white space at its start and at its end.
pub open spec fn spec_trim(s: Seq<char>) -> Seq<char> {
    let start = spec_kept_start(s, 0);
    s.subrange(start, spec_kept_end(s, start, s.len() as int))
}

/// The text without the white space at its start and at its end.
pub fn trim_text(text: &str) -> (r: String)
    ensures
        r@ == spec_trim(text@),
{
    let n: usize = text.unicode_len();
    let mut start: usize = 0;
    while start < n && is_space(text.get_char(start))
        invariant
            0 <= start <= n,
            n == text@.len(),
            spec_kept_start(text@, 0) == spec_kept_start(text@, start as int),
        decreases n - start,
    {
        start = start + 1;
    }
    let mut end: usize = n;
    while end > start && is_space(text.get_char(end - 1))
        invariant
            start <= end <= n,
            n == text@.len(),
            spec_kept_end(text@, start as int, n as int) == spec_kept_end(
                text@,
                start as int,
                end as int,
            ),
        decreases end,
    {
        end = end - 1;
    }
    text.substring_char(start, end).to_owned()
}

/// The pieces of a text between its separators, in their order. A text
/// without a separator is one piece, and two separators in a row hold an
/// empty piece between them.
pub open spec fn spec_split(s: Seq<char>, separator: char) -> Seq<Seq<char>>
    decreases s.len(),
{
    if s.len() == 0 {
        seq![Seq::<char>::empty()]
    } else if s.last() == separator {
        spec_split(s.drop_last(), separator).push(Seq::<char>::empty())
    } else {
        let before = spec_split(s.drop_last(), separator);
        before.update(before.len() - 1, before.last().push(s.last()))
    }
}

/// A text always has at least one piece.
pub proof fn lemma_split_not_empty(s: Seq<char>, separator: char)
    ensures
        spec_split(s, separator).len() >= 1,
    decreases s.len(),
{
    if s.len() > 0 {
        lemma_split_not_empty(s.drop_last(), separator);
    }
}

/// Each piece of a list without the white space around it.
pub open spec fn spec_trim_all(pieces: Seq<Seq<char>>) -> Seq<Seq<char>> {
    pieces.map_values(|p: Seq<char>| spec_trim(p))
}

/// The pieces of the text between its commas, each without the white
/// space around it.
pub fn split_fields(text: &str) -> (r: Vec<String>)
    ensures
        texts_view(r@) == spec_trim_all(spec_split(text@, ',')),
        r@.len() >= 1,
{
    let n: usize = text.unicode_len();
    let mut done: Vec<String> = Vec::new();
    let mut current: String = String::new();
    let ghost mut raw: Seq<Seq<char>> = Seq::empty();
    let mut i: usize = 0;
    assert(text@.take(0) =~= Seq::<char>::empty());
    assert(raw.push(current@) =~= spec_split(text@.take(0), ','));
    assert(texts_view(done@) =~= spec_trim_all(raw));
    while i < n
        invariant
            0 <= i <= n,
            n == text@.len(),
            raw.push(current@) == spec_split(text@.take(i as int), ','),
            texts_view(done@) == spec_trim_all(raw),
        decreases n - i,
    {
        let c = text.get_char(i);
        proof {
            assert(text@.take(i as int + 1).drop_last() =~= text@.take(i as int));
            assert(text@.take(i as int + 1).last() == c);
            assert(raw.push(current@).last() == current@);
        }
        if c == ',' {
            let piece = trim_text(current.as_str());
            let ghost before = done@;
            done.push(piece);
            proof {
                assert(texts_view(done@) =~= texts_view(before).push(spec_trim(current@)));
                assert(spec_trim_all(raw.push(current@)) =~= spec_trim_all(raw).push(
                    spec_trim(current@),
                ));
                raw = raw.push(current@);
            }
            current = String::new();
        } else {
            let ghost held = current@;
            current.push(c);
            proof {
                assert(raw.push(held).update(raw.len() as int, held.push(c)) =~= raw.push(
                    current@,
                ));
            }
        }
        i = i + 1;
    }
    proof {
        assert(text@.take(n as int) =~= text@);
    }
    let piece = trim_text(current.as_str());
    let ghost before = done@;
    done.push(piece);
    proof {
        assert(texts_view(done@) =~= texts_view(before).push(spec_trim(current@)));
        assert(spec_trim_all(raw.push(current@)) =~= spec_trim_all(raw).push(spec_trim(current@)));
    }
    done
}

} // verus!
