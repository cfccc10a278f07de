use vstd::prelude::*;
use vstd::std_specs::iter::IteratorSpec;

verus! {

/// `String::push` appends one character at the end of the string and leaves
/// the characters before it as they were.
pub assume_specification[ std::string::String::push ](s: &mut std::string::String, c: char)
    ensures
        final(s)@ == old(s)@.push(c),
;

/// The characters of `s`, in order.
pub fn chars_of(s: &str) -> (v: Vec<char>)
    ensures
        v@ == s@,
{
    let mut it = s.chars();
    let mut v: Vec<char> = Vec::new();
    loop
        invariant
            v@ + it.remaining() == s@,
            it.decrease() is Some,
        decreases it.decrease()->0,
    {
        match it.next() {
            Some(c) => {
                proof {
                    broadcast use vstd::string::next_postcondition;
                }
                v.push(c);
            },
            None => {
                proof {
                    broadcast use vstd::string::next_postcondition;
                }
                return v;
            },
        }
    }
}

/// The string that holds the characters of `v`, in order.
pub fn string_of(v: &[char]) -> (s: String)
    ensures
        s@ == v@,
{
    let mut s = String::new();
    let mut i: usize = 0;
    while i < v.len()
        invariant
            i <= v.len(),
            s@ == v@.subrange(0, i as int),
        decreases v.len() - i,
    {
        s.push(v[i]);
        i += 1;
    }
    s
}

/// Whether `p` stands at the start of `s`.
pub fn is_prefix(p: &[char], s: &[char]) -> (r: bool)
    ensures
        r == p@.is_prefix_of(s@),
{
    if p.len() > s.len() {
        return false;
    }
    let mut i: usize = 0;
    while i < p.len()
        invariant
            i <= p.len() <= s.len(),
            forall|k: int| 0 <= k < i ==> p@[k] == s@[k],
        decreases p.len() - i,
    {
        if p[i] != s[i] {
            return false;
        }
        i += 1;
    }
    true
}

/// Whether the two slices hold the same characters.
pub fn same_chars(a: &[char], b: &[char]) -> (r: bool)
    ensures
        r == (a@ == b@),
{
    if a.len() != b.len() {
        return false;
    }
    let r = is_prefix(a, b);
    proof {
        if r {
            assert(b@.subrange(0, a@.len() as int) =~= b@);
        }
    }
    r
}

/// A copy of an optional string.
pub fn clone_optional(s: &Option<String>) -> (r: Option<String>)
    ensures
        optional_text(r) == optional_text(*s),
{
    match s {
        Some(text) => Some(text.clone()),
        None => None,
    }
}

/// The characters of an optional string.
pub open spec fn optional_text(s: Option<String>) -> Option<Seq<char>> {
    match s {
        Some(text) => Some(text@),
        None => None,
    }
}

/// The decimal digit that stands for `d`.
pub open spec fn digit_char(d: nat) -> char
    recommends
        d < 10,
{
    if d == 0 {
        '0'
    } else if d == 1 {
        '1'
    } else if d == 2 {
        '2'
    } else if d == 3 {
        '3'
    } else if d == 4 {
        '4'
    } else if d == 5 {
        '5'
    } else if d == 6 {
        '6'
    } else if d == 7 {
        '7'
    } else if d == 8 {
        '8'
    } else {
        '9'
    }
}

/// The decimal numeral of `n`, without leading zeros.
pub open spec fn decimal_text(n: nat) -> Seq<char>
    decreases n,
{
    if n < 10 {
        seq![digit_char(n)]
    } else {
        decimal_text(n / 10).push(digit_char(n % 10))
    }
}

fn digit_of(d: u64) -> (c: char)
    requires
        d < 10,
    ensures
        c == digit_char(d as nat),
{
    if d == 0 {
        '0'
    } else if d == 1 {
        '1'
    } else if d == 2 {
        '2'
    } else if d == 3 {
        '3'
    } else if d == 4 {
        '4'
    } else if d == 5 {
        '5'
    } else if d == 6 {
        '6'
    } else if d == 7 {
        '7'
    } else if d == 8 {
        '8'
    } else {
        '9'
    }
}

fn push_decimal(n: u64, out: &mut Vec<char>)
    ensures
        final(out)@ == old(out)@ + decimal_text(n as nat),
    decreases n,
{
    if n < 10 {
        out.push(digit_of(n));
    } else {
        push_decimal(n / 10, out);
        out.push(digit_of(n % 10));
        proof {
            assert((old(out)@ + decimal_text((n / 10) as nat)).push(digit_char((n % 10) as nat))
                =~= old(out)@ + decimal_text(n as nat));
        }
    }
}

/// The decimal numeral of `n` as a string.
pub fn decimal_string(n: u64) -> (s: String)
    ensures
        s@ == decimal_text(n as nat),
{
    let mut digits: Vec<char> = Vec::new();
    push_decimal(n, &mut digits);
    string_of(digits.as_slice())
}

/// `s` with each `from` replaced by the text `to`.
pub open spec fn replaced(s: Seq<char>, from: char, to: Seq<char>) -> Seq<char>
    decreases s.len(),
{
    if s.len() == 0 {
        Seq::empty()
    } else if s.last() == from {
        replaced(s.drop_last(), from, to) + to
    } else {
        replaced(s.drop_last(), from, to).push(s.last())
    }
}

/// `s` with each `from` replaced by the text `to`.
pub fn replace_char(s: &[char], from: char, to: &[char]) -> (r: Vec<char>)
    ensures
        r@ == replaced(s@, from, to@),
{
    let mut out: Vec<char> = Vec::new();
    let mut i: usize = 0;
    while i < s.len()
        invariant
            i <= s.len(),
            out@ == replaced(s@.take(i as int), from, to@),
        decreases s.len() - i,
    {
        proof {
            assert(s@.take(i + 1).drop_last() =~= s@.take(i as int));
        }
        if s[i] == from {
            let mut k: usize = 0;
            let ghost before = out@;
            while k < to.len()
                invariant
                    k <= to.len(),
                    out@ == before + to@.take(k as int),
                decreases to.len() - k,
            {
                out.push(to[k]);
                proof {
                    assert(before + to@.take(k + 1) =~= (before + to@.take(k as int)).push(
                        to@[k as int],
                    ));
                }
                k += 1;
            }
        } else {
            out.push(s[i]);
        }
        i += 1;
    }
    proof {
        assert(s@.take(i as int) =~= s@);
    }
    out
}

/// The capital letter of a small ASCII letter; any other character as it
/// is.
pub open spec fn upper_char(c: char) -> char {
    if 'a' <= c && c <= 'z' {
        ((c as u8 - 32) as u8) as char
    } else {
        c
    }
}

/// The small letter of a capital ASCII letter; any other character as it
/// is.
pub open spec fn lower_char(c: char) -> char {
    if 'A' <= c && c <= 'Z' {
        ((c as u8 + 32) as u8) as char
    } else {
        c
    }
}

/// `s` with its first character made a capital letter.
pub open spec fn capitalized(s: Seq<char>) -> Seq<char> {
    if s.len() == 0 {
        s
    } else {
        s.update(0, upper_char(s[0]))
    }
}

/// `s` with its first character made a small letter.
pub open spec fn uncapitalized(s: Seq<char>) -> Seq<char> {
    if s.len() == 0 {
        s
    } else {
        s.update(0, lower_char(s[0]))
    }
}

pub fn to_upper_char(c: char) -> (r: char)
    ensures
        r == upper_char(c),
{
    if 'a' <= c && c <= 'z' {
        ((c as u8) - 32) as char
    } else {
        c
    }
}

pub fn to_lower_char(c: char) -> (r: char)
    ensures
        r == lower_char(c),
{
    if 'A' <= c && c <= 'Z' {
        ((c as u8) + 32) as char
    } else {
        c
    }
}

/// Makes the first character of `s` a capital letter.
pub fn capitalize(s: &mut Vec<char>)
    ensures
        final(s)@ == capitalized(old(s)@),
{
    if s.len() > 0 {
        let c = to_upper_char(s[0]);
        s.set(0, c);
    }
}

/// Makes the first character of `s` a small letter.
pub fn uncapitalize(s: &mut Vec<char>)
    ensures
        final(s)@ == uncapitalized(old(s)@),
{
    if s.len() > 0 {
        let c = to_lower_char(s[0]);
        s.set(0, c);
    }
}

/// The parts of `s` that `sep` separates: one more than `sep` stands in
/// `s`, so at least one, which may be empty.
pub open spec fn split_on(s: Seq<char>, sep: char) -> Seq<Seq<char>>
    decreases s.len(),
{
    if s.len() == 0 {
        seq![Seq::empty()]
    } else {
        let parts = split_on(s.drop_last(), sep);
        if s.last() == sep {
            parts.push(Seq::empty())
        } else {
            parts.update(parts.len() - 1, parts.last().push(s.last()))
        }
    }
}

/// A text has at least one part.
pub proof fn split_on_has_parts(s: Seq<char>, sep: char)
    ensures
        split_on(s, sep).len() >= 1,
    decreases s.len(),
{
    if s.len() > 0 {
        split_on_has_parts(s.drop_last(), sep);
    }
}

/// The characters of each of `parts`.
pub open spec fn texts_of(parts: Seq<Vec<char>>) -> Seq<Seq<char>> {
    parts.map_values(|part: Vec<char>| part@)
}

/// The parts of `s` that `sep` separates.
pub fn split_chars(s: &[char], sep: char) -> (r: Vec<Vec<char>>)
    ensures
        texts_of(r@) == split_on(s@, sep),
        r.len() >= 1,
{
    let mut done: Vec<Vec<char>> = Vec::new();
    let mut current: Vec<char> = Vec::new();
    let mut i: usize = 0;
    while i < s.len()
        invariant
            i <= s.len(),
            texts_of(done@).push(current@) == split_on(s@.take(i as int), sep),
        decreases s.len() - i,
    {
        let ghost before = split_on(s@.take(i as int), sep);
        proof {
            assert(s@.take(i + 1).drop_last() =~= s@.take(i as int));
        }
        if s[i] == sep {
            done.push(current);
            current = Vec::new();
        } else {
            current.push(s[i]);
            proof {
                assert(texts_of(done@).push(current@) =~= before.update(
                    before.len() - 1,
                    before.last().push(s@[i as int]),
                ));
            }
        }
        i += 1;
    }
    done.push(current);
    proof {
        assert(s@.take(i as int) =~= s@);
    }
    done
}

/// The texts `parts` one after the other, with `sep` between two of them.
pub open spec fn joined(parts: Seq<Seq<char>>, sep: Seq<char>) -> Seq<char>
    decreases parts.len(),
{
    if parts.len() == 0 {
        Seq::empty()
    } else if parts.len() == 1 {
        parts[0]
    } else {
        joined(parts.drop_last(), sep) + sep + parts.last()
    }
}

/// The texts `parts` one after the other, with `sep` between two of them.
pub fn join_chars(parts: &Vec<Vec<char>>, sep: &[char]) -> (r: Vec<char>)
    ensures
        r@ == joined(texts_of(parts@), sep@),
{
    let mut out: Vec<char> = Vec::new();
    let mut i: usize = 0;
    while i < parts.len()
        invariant
            i <= parts.len(),
            out@ == joined(texts_of(parts@).take(i as int), sep@),
        decreases parts.len() - i,
    {
        proof {
            let part = texts_of(parts@).take(i + 1);
            assert(part.drop_last() =~= texts_of(parts@).take(i as int));
        }
        if i > 0 {
            append_chars(&mut out, sep);
        }
        append_chars(&mut out, parts[i].as_slice());
        i += 1;
    }
    proof {
        assert(texts_of(parts@).take(i as int) =~= texts_of(parts@));
    }
    out
}

/// Puts the characters of `more` at the end of `out`.
pub fn append_chars(out: &mut Vec<char>, more: &[char])
    ensures
        final(out)@ == old(out)@ + more@,
{
    let ghost before = out@;
    let mut k: usize = 0;
    while k < more.len()
        invariant
            k <= more.len(),
            out@ == before + more@.take(k as int),
        decreases more.len() - k,
    {
        out.push(more[k]);
        proof {
            assert(before + more@.take(k + 1) =~= (before + more@.take(k as int)).push(
                more@[k as int],
            ));
        }
        k += 1;
    }
}

/// The lower-case form of a text, as `str::to_lowercase` of the standard
/// library gives it.
pub uninterp spec fn lowercase(s: Seq<char>) -> Seq<char>;

/// `str::to_lowercase` gives the lower-case form of a text by the rules of
/// Unicode; the result depends on the text alone.
#[verifier::external_body]
pub(crate) fn to_lowercase(s: &str) -> (r: String)
    ensures
        r@ == lowercase(s@),
{
    s.to_lowercase()
}

/// A text without the white space at its start and at its end, as
/// `str::trim` of the standard library gives it.
pub uninterp spec fn trimmed(s: Seq<char>) -> Seq<char>;

/// `str::trim` takes the white space, as Unicode defines it, from both
/// ends of a text; the result depends on the text alone.
#[verifier::external_body]
pub(crate) fn trim(s: &str) -> (r: String)
    ensures
        r@ == trimmed(s@),
{
    s.trim().to_string()
}

} // verus!
