use vstd::prelude::*;

verus! {

pub open spec fn is_digit(c: char) -> bool {
    '0' <= c && c <= '9'
}

pub open spec fn is_lower(c: char) -> bool {
    'a' <= c && c <= 'z'
}

pub open spec fn is_upper(c: char) -> bool {
    'A' <= c && c <= 'Z'
}

pub open spec fn is_alpha(c: char) -> bool {
    is_lower(c) || is_upper(c)
}

/// The characters that separate tokens and belong to none.
pub open spec fn is_space(c: char) -> bool {
    c == ' ' || c == '\t' || c == '\n' || c == '\x0c'
}

/// The characters that may follow the first one in the scheme of a URI.
pub open spec fn is_scheme_tail(c: char) -> bool {
    is_lower(c) || is_digit(c) || c == '-'
}

/// The characters that may follow the first one in a bare identifier.
pub open spec fn is_text_tail(c: char) -> bool {
    is_alpha(c) || is_digit(c) || c == '-' || c == '_'
}

/// The characters of the opaque part of a URI.
pub open spec fn is_opaque(c: char) -> bool {
    is_alpha(c) || is_digit(c) || c == '(' || c == ')' || c == '+' || c == ',' || c == '-' || c
        == '.' || c == ':' || c == '=' || c == '@' || c == ';' || c == '$' || c == '_' || c == '!'
        || c == '*' || c == '\'' || c == '%' || c == '/' || c == '?' || c == '#'
}

/// A set of characters that a token may run over.
#[derive(Clone, Copy, Debug)]
pub enum CharClass {
    Space,
    NotNewline,
    SchemeTail,
    Opaque,
    TextTail,
    Digit,
}

impl CharClass {
    pub open spec fn contains(self, c: char) -> bool {
        match self {
            CharClass::Space => is_space(c),
            CharClass::NotNewline => c != '\n',
            CharClass::SchemeTail => is_scheme_tail(c),
            CharClass::Opaque => is_opaque(c),
            CharClass::TextTail => is_text_tail(c),
            CharClass::Digit => is_digit(c),
        }
    }

    pub fn holds(self, c: char) -> (r: bool)
        ensures
            r == self.contains(c),
    {
        match self {
            CharClass::Space => c == ' ' || c == '\t' || c == '\n' || c == '\x0c',
            CharClass::NotNewline => c != '\n',
            CharClass::SchemeTail => lower(c) || digit(c) || c == '-',
            CharClass::Opaque => lower(c) || upper(c) || digit(c) || c == '(' || c == ')' || c
                == '+' || c == ',' || c == '-' || c == '.' || c == ':' || c == '=' || c == '@' || c
                == ';' || c == '$' || c == '_' || c == '!' || c == '*' || c == '\'' || c == '%'
                || c == '/' || c == '?' || c == '#',
            CharClass::TextTail => lower(c) || upper(c) || digit(c) || c == '-' || c == '_',
            CharClass::Digit => digit(c),
        }
    }
}

pub fn digit(c: char) -> (r: bool)
    ensures
        r == is_digit(c),
{
    '0' <= c && c <= '9'
}

pub fn lower(c: char) -> (r: bool)
    ensures
        r == is_lower(c),
{
    'a' <= c && c <= 'z'
}

pub fn upper(c: char) -> (r: bool)
    ensures
        r == is_upper(c),
{
    'A' <= c && c <= 'Z'
}

/// Where the run of characters of `class` that starts at `i` ends: the first
/// position from `i` on that holds no character of `class`.
pub open spec fn run_end(s: Seq<char>, i: int, class: CharClass) -> int
    decreases s.len() - i,
{
    if 0 <= i < s.len() && class.contains(s[i]) {
        run_end(s, i + 1, class)
    } else {
        i
    }
}

/// A run ends at or after its start and within the text, on a character
/// that is not of the class, and holds only characters of the class.
pub proof fn run_end_bounds(s: Seq<char>, i: int, class: CharClass)
    requires
        0 <= i <= s.len(),
    ensures
        i <= run_end(s, i, class) <= s.len(),
        run_end(s, i, class) < s.len() ==> !class.contains(s[run_end(s, i, class)]),
        forall|k: int| i <= k < run_end(s, i, class) ==> class.contains(#[trigger] s[k]),
    decreases s.len() - i,
{
    if i < s.len() && class.contains(s[i]) {
        run_end_bounds(s, i + 1, class);
    }
}

/// A run that starts at `i` reaches `j` if every character between them is
/// of the class.
pub proof fn run_end_reaches(s: Seq<char>, i: int, j: int, class: CharClass)
    requires
        0 <= i <= j <= s.len(),
        forall|k: int| i <= k < j ==> class.contains(#[trigger] s[k]),
    ensures
        run_end(s, i, class) == run_end(s, j, class),
    decreases j - i,
{
    if i < j {
        run_end_reaches(s, i + 1, j, class);
    }
}

/// The end of the run of `class` that starts at `i`.
pub fn scan_run(s: &[char], i: usize, class: CharClass) -> (e: usize)
    requires
        i <= s.len(),
    ensures
        e == run_end(s@, i as int, class),
        i <= e <= s.len(),
{
    let mut e = i;
    while e < s.len() && class.holds(s[e])
        invariant
            i <= e <= s.len(),
            run_end(s@, i as int, class) == run_end(s@, e as int, class),
        decreases s.len() - e,
    {
        e += 1;
    }
    e
}

} // verus!
