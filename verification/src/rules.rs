use vstd::prelude::*;
use crate::chars::{
    digit, is_alpha, is_digit, is_lower, lower, run_end, run_end_bounds, scan_run, upper, CharClass,
};
use crate::text::{chars_of, is_prefix};

verus! {

/// The rules by which the scanner recognises a token, in the order in which
/// a tie between two matches of the same length is broken: the earlier rule
/// wins.
#[derive(Clone, Copy, Debug)]
pub enum Rule {
    Comment,
    As,
    Prefix,
    Using,
    Kind,
    Attribute,
    Relation,
    In,
    Colon,
    LiteralString,
    MultiLineLiteralString,
    OpenBrace,
    ClosedBrace,
    Slash,
    URI,
    Text,
    Number,
}

/// Where `lit` ends if it stands at `i`.
pub open spec fn literal_end(s: Seq<char>, i: int, lit: Seq<char>) -> Option<int> {
    if 0 <= i && i + lit.len() <= s.len() && s.subrange(i, i + lit.len()) == lit {
        Some(i + lit.len())
    } else {
        None
    }
}

/// A comment runs from `#` to the end of the line and takes the line feed
/// with it.
pub open spec fn comment_end(s: Seq<char>, i: int) -> Option<int> {
    if 0 <= i < s.len() && s[i] == '#' {
        let e = run_end(s, i + 1, CharClass::NotNewline);
        if e < s.len() {
            Some(e + 1)
        } else {
            Some(e)
        }
    } else {
        None
    }
}

/// The position of the first quote from `j` on that no backslash escapes.
/// A backslash escapes the character after it, which may be any but a line
/// feed.
pub open spec fn closing_quote(s: Seq<char>, j: int) -> Option<int>
    decreases s.len() - j,
{
    if j < 0 || j >= s.len() {
        None
    } else if s[j] == '"' {
        Some(j)
    } else if s[j] == '\\' {
        if j + 1 < s.len() && s[j + 1] != '\n' {
            closing_quote(s, j + 2)
        } else {
            None
        }
    } else {
        closing_quote(s, j + 1)
    }
}

/// A string runs from a quote to the next quote that is not escaped.
pub open spec fn string_end(s: Seq<char>, i: int) -> Option<int> {
    if 0 <= i < s.len() && s[i] == '"' {
        match closing_quote(s, i + 1) {
            Some(j) => Some(j + 1),
            None => None,
        }
    } else {
        None
    }
}

/// Whether three quotes stand at `i`.
pub open spec fn triple_quote_at(s: Seq<char>, i: int) -> bool {
    0 <= i && i + 3 <= s.len() && s[i] == '"' && s[i + 1] == '"' && s[i + 2] == '"'
}

/// A multi-line string runs from three quotes to the next three; between
/// them stands no quote that is not escaped.
pub open spec fn multiline_end(s: Seq<char>, i: int) -> Option<int> {
    if triple_quote_at(s, i) {
        match closing_quote(s, i + 3) {
            Some(j) => if triple_quote_at(s, j) {
                Some(j + 3)
            } else {
                None
            },
            None => None,
        }
    } else {
        None
    }
}

/// Where the opaque part of a URI starts if a URI starts at `i`: after a
/// scheme and its colon, after `@`, or after a leading colon.
pub open spec fn uri_opaque_start(s: Seq<char>, i: int) -> Option<int> {
    if 0 <= i < s.len() {
        if s[i] == '@' || s[i] == ':' {
            Some(i + 1)
        } else if is_lower(s[i]) || is_digit(s[i]) {
            let k = run_end(s, i + 1, CharClass::SchemeTail);
            if k < s.len() && s[k] == ':' {
                Some(k + 1)
            } else {
                None
            }
        } else {
            None
        }
    } else {
        None
    }
}

/// A URI is its head and then one or more opaque characters.
pub open spec fn uri_end(s: Seq<char>, i: int) -> Option<int> {
    match uri_opaque_start(s, i) {
        Some(j) => {
            let e = run_end(s, j, CharClass::Opaque);
            if e > j {
                Some(e)
            } else {
                None
            }
        },
        None => None,
    }
}

/// A bare identifier is a letter and then letters, digits, `-` and `_`.
pub open spec fn text_end(s: Seq<char>, i: int) -> Option<int> {
    if 0 <= i < s.len() && is_alpha(s[i]) {
        Some(run_end(s, i + 1, CharClass::TextTail))
    } else {
        None
    }
}

/// A number is one or more digits.
pub open spec fn number_end(s: Seq<char>, i: int) -> Option<int> {
    if 0 <= i < s.len() && is_digit(s[i]) {
        Some(run_end(s, i + 1, CharClass::Digit))
    } else {
        None
    }
}

impl Rule {
    /// The text of a rule that matches one fixed text only.
    pub open spec fn literal(self) -> Option<Seq<char>> {
        match self {
            Rule::As => Some("as"@),
            Rule::Prefix => Some("prefix"@),
            Rule::Using => Some("using"@),
            Rule::Kind => Some("kind"@),
            Rule::Attribute => Some("attr"@),
            Rule::Relation => Some("rel"@),
            Rule::In => Some("in"@),
            Rule::Colon => Some(":"@),
            Rule::OpenBrace => Some("{"@),
            Rule::ClosedBrace => Some("}"@),
            Rule::Slash => Some("/"@),
            _ => None,
        }
    }

    /// Where the longest match of this rule that starts at `i` ends; `None`
    /// where the rule matches nothing there.
    pub open spec fn match_end(self, s: Seq<char>, i: int) -> Option<int> {
        match self {
            Rule::Comment => comment_end(s, i),
            Rule::LiteralString => string_end(s, i),
            Rule::MultiLineLiteralString => multiline_end(s, i),
            Rule::URI => uri_end(s, i),
            Rule::Text => text_end(s, i),
            Rule::Number => number_end(s, i),
            _ => literal_end(s, i, self.literal()->0),
        }
    }
}

/// The number of rules.
pub open spec fn rule_count() -> nat {
    17
}

/// The rule that stands at place `k` in the order of the rules.
pub open spec fn rule_at(k: nat) -> Rule {
    if k == 0 {
        Rule::Comment
    } else if k == 1 {
        Rule::As
    } else if k == 2 {
        Rule::Prefix
    } else if k == 3 {
        Rule::Using
    } else if k == 4 {
        Rule::Kind
    } else if k == 5 {
        Rule::Attribute
    } else if k == 6 {
        Rule::Relation
    } else if k == 7 {
        Rule::In
    } else if k == 8 {
        Rule::Colon
    } else if k == 9 {
        Rule::LiteralString
    } else if k == 10 {
        Rule::MultiLineLiteralString
    } else if k == 11 {
        Rule::OpenBrace
    } else if k == 12 {
        Rule::ClosedBrace
    } else if k == 13 {
        Rule::Slash
    } else if k == 14 {
        Rule::URI
    } else if k == 15 {
        Rule::Text
    } else {
        Rule::Number
    }
}

/// A match: the rule that matched and the position where the match ends.
pub struct Match {
    pub rule: Rule,
    pub end: int,
}

/// The better of an earlier match and the match of a later rule: the later
/// one only if it is longer.
pub open spec fn better(earlier: Option<Match>, rule: Rule, end: Option<int>) -> Option<Match> {
    match (earlier, end) {
        (Some(m), Some(e)) => if e > m.end {
            Some(Match { rule, end: e })
        } else {
            earlier
        },
        (None, Some(e)) => Some(Match { rule, end: e }),
        (_, None) => earlier,
    }
}

/// The winning match at `i` among the first `n` rules: the longest one, and
/// among several of that length the one of the earliest rule.
pub open spec fn best_among(s: Seq<char>, i: int, n: nat) -> Option<Match>
    decreases n,
{
    if n == 0 {
        None
    } else {
        let rule = rule_at((n - 1) as nat);
        better(best_among(s, i, (n - 1) as nat), rule, rule.match_end(s, i))
    }
}

/// The winning match at `i` among all rules.
pub open spec fn best_match(s: Seq<char>, i: int) -> Option<Match> {
    best_among(s, i, rule_count())
}

/// The closing quote lies at or after the start of the search and within
/// the text.
pub proof fn closing_quote_bounds(s: Seq<char>, j: int)
    requires
        0 <= j,
    ensures
        closing_quote(s, j) matches Some(q) ==> j <= q < s.len() && s[q] == '"',
    decreases s.len() - j,
{
    if j < s.len() {
        if s[j] == '"' {
        } else if s[j] == '\\' {
            if j + 1 < s.len() && s[j + 1] != '\n' {
                closing_quote_bounds(s, j + 2);
            }
        } else {
            closing_quote_bounds(s, j + 1);
        }
    }
}

/// A match holds at least one character and ends within the text.
pub proof fn match_end_bounds(rule: Rule, s: Seq<char>, i: int)
    requires
        0 <= i <= s.len(),
    ensures
        rule.match_end(s, i) matches Some(e) ==> i < e <= s.len(),
{
    reveal_strlit("as");
    reveal_strlit("prefix");
    reveal_strlit("using");
    reveal_strlit("kind");
    reveal_strlit("attr");
    reveal_strlit("rel");
    reveal_strlit("in");
    reveal_strlit(":");
    reveal_strlit("{");
    reveal_strlit("}");
    reveal_strlit("/");
    if i < s.len() {
        run_end_bounds(s, i + 1, CharClass::NotNewline);
        run_end_bounds(s, i + 1, CharClass::SchemeTail);
        run_end_bounds(s, i + 1, CharClass::TextTail);
        run_end_bounds(s, i + 1, CharClass::Digit);
        closing_quote_bounds(s, i + 1);
        closing_quote_bounds(s, i + 3);
        match uri_opaque_start(s, i) {
            Some(j) => {
                run_end_bounds(s, j, CharClass::Opaque);
            },
            None => {},
        }
    }
}

/// The winning match holds at least one character and ends within the text.
pub proof fn best_among_bounds(s: Seq<char>, i: int, n: nat)
    requires
        0 <= i <= s.len(),
    ensures
        best_among(s, i, n) matches Some(m) ==> i < m.end <= s.len(),
    decreases n,
{
    if n > 0 {
        best_among_bounds(s, i, (n - 1) as nat);
        match_end_bounds(rule_at((n - 1) as nat), s, i);
    }
}

/// The winning match is a match of its rule.
pub proof fn best_among_is_some_match(s: Seq<char>, i: int, n: nat)
    ensures
        best_among(s, i, n) matches Some(m) ==> m.rule.match_end(s, i) == Some(m.end),
    decreases n,
{
    if n > 0 {
        best_among_is_some_match(s, i, (n - 1) as nat);
    }
}

/// Whether no rule before place `k` has a match at `i` that ends at `e` or
/// later.
pub open spec fn earlier_rules_end_before(s: Seq<char>, i: int, k: nat, e: int) -> bool {
    forall|j: nat| j < k ==> ((#[trigger] rule_at(j).match_end(s, i)) matches Some(end) ==> end < e)
}

/// Whether no rule from place `k` on has a match at `i` that ends after `e`.
pub open spec fn later_rules_end_by(s: Seq<char>, i: int, k: nat, e: int) -> bool {
    forall|j: nat|
        k <= j < rule_count() ==> ((#[trigger] rule_at(j).match_end(s, i)) matches Some(end) ==> end
            <= e)
}

proof fn best_among_earlier(s: Seq<char>, i: int, k: nat, e: int, n: nat)
    requires
        n <= k,
        earlier_rules_end_before(s, i, k, e),
    ensures
        best_among(s, i, n) matches Some(m) ==> m.end < e,
    decreases n,
{
    if n > 0 {
        best_among_earlier(s, i, k, e, (n - 1) as nat);
        let _ = rule_at((n - 1) as nat).match_end(s, i);
    }
}

proof fn best_among_later(s: Seq<char>, i: int, k: nat, e: int, n: nat)
    requires
        k < n <= rule_count(),
        rule_at(k).match_end(s, i) == Some(e),
        earlier_rules_end_before(s, i, k, e),
        later_rules_end_by(s, i, k, e),
    ensures
        best_among(s, i, n) == Some(Match { rule: rule_at(k), end: e }),
    decreases n,
{
    if n == k + 1 {
        best_among_earlier(s, i, k, e, k);
    } else {
        best_among_later(s, i, k, e, (n - 1) as nat);
        let _ = rule_at((n - 1) as nat).match_end(s, i);
    }
}

/// The winning match is that of the earliest rule among those whose match
/// is the longest: a rule wins if every earlier rule matches less and no
/// later rule matches more.
pub proof fn longest_match_wins(s: Seq<char>, i: int, k: nat, e: int)
    requires
        k < rule_count(),
        rule_at(k).match_end(s, i) == Some(e),
        earlier_rules_end_before(s, i, k, e),
        later_rules_end_by(s, i, k, e),
    ensures
        best_match(s, i) == Some(Match { rule: rule_at(k), end: e }),
{
    best_among_later(s, i, k, e, rule_count());
}

impl Rule {
    /// The place of the rule in the order of the rules.
    pub open spec fn place(self) -> nat {
        match self {
            Rule::Comment => 0,
            Rule::As => 1,
            Rule::Prefix => 2,
            Rule::Using => 3,
            Rule::Kind => 4,
            Rule::Attribute => 5,
            Rule::Relation => 6,
            Rule::In => 7,
            Rule::Colon => 8,
            Rule::LiteralString => 9,
            Rule::MultiLineLiteralString => 10,
            Rule::OpenBrace => 11,
            Rule::ClosedBrace => 12,
            Rule::Slash => 13,
            Rule::URI => 14,
            Rule::Text => 15,
            Rule::Number => 16,
        }
    }
}

/// Whether the match `m` is the first longest among the first `n` rules:
/// it is the match of its rule, no rule matches more, and no earlier rule
/// matches as much.
pub open spec fn is_first_longest(s: Seq<char>, i: int, n: nat, m: Match) -> bool {
    &&& m.rule.place() < n
    &&& rule_at(m.rule.place()) == m.rule
    &&& m.rule.match_end(s, i) == Some(m.end)
    &&& forall|j: nat|
        j < n ==> ((#[trigger] rule_at(j).match_end(s, i)) matches Some(end) ==> end <= m.end)
    &&& earlier_rules_end_before(s, i, m.rule.place(), m.end)
}

proof fn best_among_is_first_longest(s: Seq<char>, i: int, n: nat)
    requires
        n <= rule_count(),
    ensures
        match best_among(s, i, n) {
            Some(m) => is_first_longest(s, i, n, m),
            None => forall|j: nat| j < n ==> (#[trigger] rule_at(j).match_end(s, i)) is None,
        },
    decreases n,
{
    if n > 0 {
        let last = (n - 1) as nat;
        best_among_is_first_longest(s, i, last);
        let rule = rule_at(last);
        let end = rule.match_end(s, i);
        match best_among(s, i, last) {
            Some(m) => {
                if end is Some && end->0 > m.end {
                    let e = end->0;
                    assert forall|j: nat| j < n implies ((#[trigger] rule_at(j).match_end(
                        s,
                        i,
                    )) matches Some(x) ==> x <= e) by {}
                    assert forall|j: nat| j < last implies ((#[trigger] rule_at(j).match_end(
                        s,
                        i,
                    )) matches Some(x) ==> x < e) by {}
                } else {
                    assert forall|j: nat| j < n implies ((#[trigger] rule_at(j).match_end(
                        s,
                        i,
                    )) matches Some(x) ==> x <= m.end) by {}
                }
            },
            None => {},
        }
    }
}

/// The winning match is the longest match of any rule, and its rule is the
/// earliest of the rules that match that much; where nothing wins, no rule
/// matches.
pub proof fn winner_is_first_longest(s: Seq<char>, i: int)
    ensures
        match best_match(s, i) {
            Some(m) => is_first_longest(s, i, rule_count(), m),
            None => forall|j: nat|
                j < rule_count() ==> (#[trigger] rule_at(j).match_end(s, i)) is None,
        },
{
    best_among_is_first_longest(s, i, rule_count());
}

/// The text of a keyword holds small letters only; the other fixed texts
/// are one character long.
pub proof fn literal_shapes(rule: Rule)
    requires
        rule.literal() is Some,
    ensures
        rule.literal()->0.len() >= 1,
        match rule {
            Rule::Colon => rule.literal()->0 == seq![':'],
            Rule::OpenBrace => rule.literal()->0 == seq!['{'],
            Rule::ClosedBrace => rule.literal()->0 == seq!['}'],
            Rule::Slash => rule.literal()->0 == seq!['/'],
            _ => rule.literal()->0.len() >= 2 && forall|k: int|
                0 <= k < rule.literal()->0.len() ==> is_lower(#[trigger] rule.literal()->0[k]),
        },
{
    reveal_strlit("as");
    reveal_strlit("prefix");
    reveal_strlit("using");
    reveal_strlit("kind");
    reveal_strlit("attr");
    reveal_strlit("rel");
    reveal_strlit("in");
    reveal_strlit(":");
    reveal_strlit("{");
    reveal_strlit("}");
    reveal_strlit("/");
}

/// Whether `found` is the position `wanted`, or both are none.
pub open spec fn same_position(found: Option<usize>, wanted: Option<int>) -> bool {
    match found {
        Some(e) => wanted == Some(e as int),
        None => wanted is None,
    }
}

fn literal_at(s: &[char], i: usize, lit: &str) -> (r: Option<usize>)
    requires
        i <= s.len(),
    ensures
        same_position(r, literal_end(s@, i as int, lit@)),
{
    let wanted = chars_of(lit);
    if wanted.len() > s.len() - i {
        return None;
    }
    let rest = vstd::slice::slice_subrange(s, i, s.len());
    if is_prefix(wanted.as_slice(), rest) {
        proof {
            assert(s@.subrange(i as int, i + wanted@.len()) =~= rest@.subrange(
                0,
                wanted@.len() as int,
            ));
        }
        Some(i + wanted.len())
    } else {
        proof {
            assert(s@.subrange(i as int, i + wanted@.len()) =~= rest@.subrange(
                0,
                wanted@.len() as int,
            ));
        }
        None
    }
}

fn find_closing_quote(s: &[char], j: usize) -> (r: Option<usize>)
    requires
        j <= s.len(),
    ensures
        same_position(r, closing_quote(s@, j as int)),
        r matches Some(q) ==> j <= q < s.len(),
{
    let mut k = j;
    while k < s.len()
        invariant
            j <= k <= s.len(),
            closing_quote(s@, j as int) == closing_quote(s@, k as int),
        decreases s.len() - k,
    {
        let c = s[k];
        if c == '"' {
            return Some(k);
        } else if c == '\\' {
            if k + 1 < s.len() && s[k + 1] != '\n' {
                k += 2;
            } else {
                return None;
            }
        } else {
            k += 1;
        }
    }
    None
}

fn triple_quote(s: &[char], i: usize) -> (r: bool)
    requires
        i <= s.len(),
    ensures
        r == triple_quote_at(s@, i as int),
{
    s.len() - i >= 3 && s[i] == '"' && s[i + 1] == '"' && s[i + 2] == '"'
}

fn find_uri_opaque_start(s: &[char], i: usize) -> (r: Option<usize>)
    requires
        i < s.len(),
    ensures
        same_position(r, uri_opaque_start(s@, i as int)),
        r matches Some(j) ==> j <= s.len(),
{
    let c = s[i];
    if c == '@' || c == ':' {
        Some(i + 1)
    } else if lower(c) || digit(c) {
        let k = scan_run(s, i + 1, CharClass::SchemeTail);
        if k < s.len() && s[k] == ':' {
            Some(k + 1)
        } else {
            None
        }
    } else {
        None
    }
}

impl Rule {
    /// The end of the longest match of this rule that starts at `i`.
    pub fn find_end(self, s: &[char], i: usize) -> (r: Option<usize>)
        requires
            i < s.len(),
        ensures
            same_position(r, self.match_end(s@, i as int)),
            r matches Some(e) ==> i < e <= s.len(),
    {
        proof {
            match_end_bounds(self, s@, i as int);
        }
        let c = s[i];
        match self {
            Rule::Comment => {
                if c == '#' {
                    let e = scan_run(s, i + 1, CharClass::NotNewline);
                    if e < s.len() {
                        Some(e + 1)
                    } else {
                        Some(e)
                    }
                } else {
                    None
                }
            },
            Rule::LiteralString => {
                if c == '"' {
                    match find_closing_quote(s, i + 1) {
                        Some(j) => Some(j + 1),
                        None => None,
                    }
                } else {
                    None
                }
            },
            Rule::MultiLineLiteralString => {
                if triple_quote(s, i) {
                    match find_closing_quote(s, i + 3) {
                        Some(j) => {
                            if triple_quote(s, j) {
                                Some(j + 3)
                            } else {
                                None
                            }
                        },
                        None => None,
                    }
                } else {
                    None
                }
            },
            Rule::URI => {
                match find_uri_opaque_start(s, i) {
                    Some(j) => {
                        let e = scan_run(s, j, CharClass::Opaque);
                        if e > j {
                            Some(e)
                        } else {
                            None
                        }
                    },
                    None => None,
                }
            },
            Rule::Text => {
                if lower(c) || upper(c) {
                    Some(scan_run(s, i + 1, CharClass::TextTail))
                } else {
                    None
                }
            },
            Rule::Number => {
                if digit(c) {
                    Some(scan_run(s, i + 1, CharClass::Digit))
                } else {
                    None
                }
            },
            Rule::As => literal_at(s, i, "as"),
            Rule::Prefix => literal_at(s, i, "prefix"),
            Rule::Using => literal_at(s, i, "using"),
            Rule::Kind => literal_at(s, i, "kind"),
            Rule::Attribute => literal_at(s, i, "attr"),
            Rule::Relation => literal_at(s, i, "rel"),
            Rule::In => literal_at(s, i, "in"),
            Rule::Colon => literal_at(s, i, ":"),
            Rule::OpenBrace => literal_at(s, i, "{"),
            Rule::ClosedBrace => literal_at(s, i, "}"),
            Rule::Slash => literal_at(s, i, "/"),
        }
    }

    /// The rule at place `k` in the order of the rules.
    pub fn at(k: usize) -> (r: Rule)
        requires
            k < rule_count(),
        ensures
            r == rule_at(k as nat),
    {
        if k == 0 {
            Rule::Comment
        } else if k == 1 {
            Rule::As
        } else if k == 2 {
            Rule::Prefix
        } else if k == 3 {
            Rule::Using
        } else if k == 4 {
            Rule::Kind
        } else if k == 5 {
            Rule::Attribute
        } else if k == 6 {
            Rule::Relation
        } else if k == 7 {
            Rule::In
        } else if k == 8 {
            Rule::Colon
        } else if k == 9 {
            Rule::LiteralString
        } else if k == 10 {
            Rule::MultiLineLiteralString
        } else if k == 11 {
            Rule::OpenBrace
        } else if k == 12 {
            Rule::ClosedBrace
        } else if k == 13 {
            Rule::Slash
        } else if k == 14 {
            Rule::URI
        } else if k == 15 {
            Rule::Text
        } else {
            Rule::Number
        }
    }
}

/// The winning match at `i`: its rule and its end.
pub fn find_best_match(s: &[char], i: usize) -> (r: Option<(Rule, usize)>)
    requires
        i < s.len(),
    ensures
        match r {
            Some((rule, end)) => best_match(s@, i as int) == Some(Match { rule, end: end as int })
                && i < end <= s.len(),
            None => best_match(s@, i as int) is None,
        },
{
    let mut best: Option<(Rule, usize)> = None;
    let mut k: usize = 0;
    while k < 17
        invariant
            k <= 17,
            i < s.len(),
            match best {
                Some((rule, end)) => best_among(s@, i as int, k as nat) == Some(
                    Match { rule, end: end as int },
                ) && i < end <= s.len(),
                None => best_among(s@, i as int, k as nat) is None,
            },
        decreases 17 - k,
    {
        let rule = Rule::at(k);
        let found = rule.find_end(s, i);
        best =
        match (best, found) {
            (Some((r, m)), Some(e)) => {
                if e > m {
                    Some((rule, e))
                } else {
                    Some((r, m))
                }
            },
            (None, Some(e)) => Some((rule, e)),
            (b, None) => b,
        };
        k += 1;
    }
    best
}

} // verus!
