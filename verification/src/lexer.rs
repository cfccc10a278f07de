use vstd::prelude::*;
use vstd::string::StringSliceAdditionalSpecFns;
use vstd::utf8::{encode_scalar, encode_utf8};
use crate::chars::{
    is_digit, is_lower, is_opaque, is_scheme_tail, run_end, run_end_bounds, run_end_reaches,
    scan_run, CharClass,
};
use crate::rules::{
    best_among_bounds, best_match, find_best_match, match_end_bounds, rule_at, rule_count, Rule,
};
use crate::text::{chars_of, string_of};

verus! {

/// A token of the schema language.
#[derive(Debug, PartialEq)]
pub enum Token {
    Comment(String),
    As,
    Prefix,
    Using,
    Kind,
    Attribute,
    Relation,
    In,
    Colon,
    LiteralString(String),
    MultiLineLiteralString(String),
    OpenBrace,
    ClosedBrace,
    Slash,
    URI(String),
    Text(String),
    Number(u64),
    Error,
}

/// What a `Token` holds.
pub enum TokenView {
    Comment(Seq<char>),
    As,
    Prefix,
    Using,
    Kind,
    Attribute,
    Relation,
    In,
    Colon,
    LiteralString(Seq<char>),
    MultiLineLiteralString(Seq<char>),
    OpenBrace,
    ClosedBrace,
    Slash,
    URI(Seq<char>),
    Text(Seq<char>),
    Number(u64),
    Error,
}

impl View for Token {
    type V = TokenView;

    open spec fn view(&self) -> TokenView {
        match self {
            Token::Comment(s) => TokenView::Comment(s@),
            Token::As => TokenView::As,
            Token::Prefix => TokenView::Prefix,
            Token::Using => TokenView::Using,
            Token::Kind => TokenView::Kind,
            Token::Attribute => TokenView::Attribute,
            Token::Relation => TokenView::Relation,
            Token::In => TokenView::In,
            Token::Colon => TokenView::Colon,
            Token::LiteralString(s) => TokenView::LiteralString(s@),
            Token::MultiLineLiteralString(s) => TokenView::MultiLineLiteralString(s@),
            Token::OpenBrace => TokenView::OpenBrace,
            Token::ClosedBrace => TokenView::ClosedBrace,
            Token::Slash => TokenView::Slash,
            Token::URI(s) => TokenView::URI(s@),
            Token::Text(s) => TokenView::Text(s@),
            Token::Number(n) => TokenView::Number(*n),
            Token::Error => TokenView::Error,
        }
    }
}

impl DeepView for Token {
    type V = TokenView;

    open spec fn deep_view(&self) -> TokenView {
        self@
    }
}

impl Clone for Token {
    fn clone(&self) -> (r: Self)
        ensures
            r@ == self@,
    {
        match self {
            Token::Comment(s) => Token::Comment(s.clone()),
            Token::As => Token::As,
            Token::Prefix => Token::Prefix,
            Token::Using => Token::Using,
            Token::Kind => Token::Kind,
            Token::Attribute => Token::Attribute,
            Token::Relation => Token::Relation,
            Token::In => Token::In,
            Token::Colon => Token::Colon,
            Token::LiteralString(s) => Token::LiteralString(s.clone()),
            Token::MultiLineLiteralString(s) => Token::MultiLineLiteralString(s.clone()),
            Token::OpenBrace => Token::OpenBrace,
            Token::ClosedBrace => Token::ClosedBrace,
            Token::Slash => Token::Slash,
            Token::URI(s) => Token::URI(s.clone()),
            Token::Text(s) => Token::Text(s.clone()),
            Token::Number(n) => Token::Number(*n),
            Token::Error => Token::Error,
        }
    }
}

/// The number that a digit stands for.
pub open spec fn digit_value(c: char) -> nat {
    (c as int - '0' as int) as nat
}

/// The number that a decimal numeral stands for.
pub open spec fn decimal_value(digits: Seq<char>) -> nat
    decreases digits.len(),
{
    if digits.len() == 0 {
        0
    } else {
        decimal_value(digits.drop_last()) * 10 + digit_value(digits.last())
    }
}

/// The token that `rule` makes of the text it matched. A number too large
/// for 64 bits gives the error token.
pub open spec fn token_of(rule: Rule, lexeme: Seq<char>) -> TokenView {
    match rule {
        Rule::Comment => TokenView::Comment(lexeme.skip(1)),
        Rule::As => TokenView::As,
        Rule::Prefix => TokenView::Prefix,
        Rule::Using => TokenView::Using,
        Rule::Kind => TokenView::Kind,
        Rule::Attribute => TokenView::Attribute,
        Rule::Relation => TokenView::Relation,
        Rule::In => TokenView::In,
        Rule::Colon => TokenView::Colon,
        Rule::LiteralString => TokenView::LiteralString(lexeme.subrange(1, lexeme.len() - 1)),
        Rule::MultiLineLiteralString => TokenView::MultiLineLiteralString(
            lexeme.subrange(3, lexeme.len() - 3),
        ),
        Rule::OpenBrace => TokenView::OpenBrace,
        Rule::ClosedBrace => TokenView::ClosedBrace,
        Rule::Slash => TokenView::Slash,
        Rule::URI => TokenView::URI(lexeme),
        Rule::Text => TokenView::Text(lexeme),
        Rule::Number => if decimal_value(lexeme) <= u64::MAX {
            TokenView::Number(decimal_value(lexeme) as u64)
        } else {
            TokenView::Error
        },
    }
}

/// A token together with the range of characters that it was read from.
pub struct Lexeme {
    pub token: TokenView,
    pub start: int,
    pub end: int,
}

/// The first token at or after `i`: blanks are passed over, then the
/// winning match gives the token. A character at which no rule matches is an
/// error token of its own. `None` where only blanks are left.
pub open spec fn next_lexeme(s: Seq<char>, i: int) -> Option<Lexeme> {
    let j = run_end(s, i, CharClass::Space);
    if j >= s.len() {
        None
    } else {
        match best_match(s, j) {
            Some(m) => Some(
                Lexeme { token: token_of(m.rule, s.subrange(j, m.end)), start: j, end: m.end },
            ),
            None => Some(Lexeme { token: TokenView::Error, start: j, end: j + 1 }),
        }
    }
}

/// A token starts at or after the place where it was looked for, holds at
/// least one character and ends within the text.
pub proof fn next_lexeme_bounds(s: Seq<char>, i: int)
    requires
        0 <= i <= s.len(),
    ensures
        next_lexeme(s, i) matches Some(lx) ==> i <= lx.start < lx.end <= s.len(),
{
    run_end_bounds(s, i, CharClass::Space);
    let j = run_end(s, i, CharClass::Space);
    if j < s.len() {
        best_among_bounds(s, j, rule_count());
    }
}

/// All tokens from `i` on, in order.
pub open spec fn lexemes_from(s: Seq<char>, i: int) -> Seq<Lexeme>
    decreases s.len() - i,
    when 0 <= i <= s.len()
    via lexemes_from_decreases
{
    match next_lexeme(s, i) {
        Some(lx) => seq![lx] + lexemes_from(s, lx.end),
        None => Seq::empty(),
    }
}

#[via_fn]
proof fn lexemes_from_decreases(s: Seq<char>, i: int) {
    next_lexeme_bounds(s, i);
}

/// All tokens of a text, in order.
pub open spec fn lexemes(s: Seq<char>) -> Seq<Lexeme> {
    lexemes_from(s, 0)
}

/// Whether `head` is what a URI may start with: `@`, a colon, or a scheme
/// and its colon, where a scheme is a small letter or a digit and then
/// small letters, digits and `-`.
pub open spec fn is_uri_head(head: Seq<char>) -> bool {
    ||| head == seq!['@']
    ||| head == seq![':']
    ||| {
        &&& head.len() >= 2
        &&& head.last() == ':'
        &&& (is_lower(head[0]) || is_digit(head[0]))
        &&& forall|k: int| 1 <= k < head.len() - 1 ==> is_scheme_tail(#[trigger] head[k])
    }
}

/// Whether `rest` is one or more opaque characters.
pub open spec fn is_opaque_text(rest: Seq<char>) -> bool {
    rest.len() > 0 && forall|k: int| 0 <= k < rest.len() ==> is_opaque(#[trigger] rest[k])
}

/// A text of the shape of a URI, `scheme:rest`, `@rest` or `:rest`, is one
/// URI token that holds the whole text: it is never split at its colon or
/// after its `@`.
pub proof fn uri_is_one_token(head: Seq<char>, rest: Seq<char>)
    requires
        is_uri_head(head),
        is_opaque_text(rest),
    ensures
        lexemes(head + rest) == seq![
            Lexeme {
                token: TokenView::URI(head + rest),
                start: 0,
                end: (head + rest).len() as int,
            },
        ],
        tokens_of(head + rest) == seq![TokenView::URI(head + rest)],
{
    let s = head + rest;
    let h = head.len() as int;
    let n = s.len() as int;
    // the opaque part starts after the head
    if !(head == seq!['@'] || head == seq![':']) {
        assert forall|k: int| 1 <= k < h - 1 implies CharClass::SchemeTail.contains(
            #[trigger] s[k],
        ) by {}
        run_end_reaches(s, 1, h - 1, CharClass::SchemeTail);
    }
    assert forall|k: int| h <= k < n implies CharClass::Opaque.contains(#[trigger] s[k]) by {}
    run_end_reaches(s, h, n, CharClass::Opaque);
    // no earlier rule matches the whole text, no later rule matches more
    assert forall|j: nat| j < 14 implies ((#[trigger] rule_at(j).match_end(s, 0)) matches Some(
        end,
    ) ==> end < n) by {
        let rule = rule_at(j);
        if rule.literal() is Some {
            crate::rules::literal_shapes(rule);
            let lit = rule.literal()->0;
            if rule.match_end(s, 0) is Some {
                let part = s.subrange(0, lit.len() as int);
                if lit.len() == n {
                    assert(part[h - 1] == s[h - 1]);
                }
            }
        }
    }
    assert forall|j: nat| 14 <= j < rule_count() implies ((#[trigger] rule_at(j).match_end(
        s,
        0,
    )) matches Some(end) ==> end <= n) by {
        match_end_bounds(rule_at(j), s, 0);
    }
    crate::rules::longest_match_wins(s, 0, 14, n);
    assert(s.subrange(0, n) =~= s);
    assert(lexemes_from(s, n) =~= Seq::empty());
}

/// The number of bytes that the UTF-8 encoding of `s` takes.
pub open spec fn byte_len(s: Seq<char>) -> nat {
    encode_utf8(s).len()
}

/// The encoding of two texts one after the other is the encoding of the
/// first and then the encoding of the second.
pub proof fn encode_utf8_concat(a: Seq<char>, b: Seq<char>)
    ensures
        encode_utf8(a + b) == encode_utf8(a) + encode_utf8(b),
    decreases a.len(),
{
    if a.len() > 0 {
        encode_utf8_concat(a.drop_first(), b);
        assert((a + b).drop_first() =~= a.drop_first() + b);
    }
}

/// A part at the start of a text takes no more bytes than the whole.
pub proof fn byte_len_of_part(s: Seq<char>, k: int)
    requires
        0 <= k <= s.len(),
    ensures
        byte_len(s.take(k)) <= byte_len(s),
        k < s.len() ==> byte_len(s.take(k + 1)) == byte_len(s.take(k)) + encode_scalar(
            s[k] as u32,
        ).len(),
{
    encode_utf8_concat(s.take(k), s.skip(k));
    assert(s.take(k) + s.skip(k) =~= s);
    if k < s.len() {
        encode_utf8_concat(s.take(k), seq![s[k]]);
        assert(s.take(k) + seq![s[k]] =~= s.take(k + 1));
        assert(encode_utf8(seq![s[k]]) =~= encode_scalar(s[k] as u32)) by {
            reveal_with_fuel(encode_utf8, 2);
        }
    }
}

fn utf8_width(c: char) -> (w: usize)
    ensures
        w == encode_scalar(c as u32).len(),
        1 <= w <= 4,
{
    broadcast use vstd::utf8::char_is_scalar;

    let v = c as u32;
    if v <= 0x7F {
        1
    } else if v <= 0x7FF {
        2
    } else if v <= 0xFFFF {
        3
    } else {
        4
    }
}

/// The number of bytes that the first `k` characters of `s` take.
pub fn byte_offset(s: &[char], k: usize) -> (r: usize)
    requires
        k <= s.len(),
        byte_len(s@) <= usize::MAX,
    ensures
        r == byte_len(s@.take(k as int)),
{
    let mut r: usize = 0;
    let mut i: usize = 0;
    while i < k
        invariant
            i <= k <= s.len(),
            byte_len(s@) <= usize::MAX,
            r == byte_len(s@.take(i as int)),
        decreases k - i,
    {
        proof {
            byte_len_of_part(s@, i as int);
            byte_len_of_part(s@, i + 1);
        }
        r = r + utf8_width(s[i]);
        i += 1;
    }
    r
}

/// The number of a numeral is at least the number of each part at its start.
pub proof fn decimal_value_grows(digits: Seq<char>, k: int)
    requires
        0 <= k <= digits.len(),
    ensures
        decimal_value(digits.take(k)) <= decimal_value(digits),
    decreases digits.len() - k,
{
    if k < digits.len() {
        decimal_value_grows(digits.drop_last(), k);
        assert(digits.drop_last().take(k) =~= digits.take(k));
    } else {
        assert(digits.take(k) =~= digits);
    }
}

/// The number that the digits between `start` and `end` stand for, if it
/// fits in 64 bits.
fn read_number(s: &[char], start: usize, end: usize) -> (r: Option<u64>)
    requires
        start <= end <= s.len(),
        forall|k: int| start <= k < end ==> is_digit(#[trigger] s@[k]),
    ensures
        match r {
            Some(n) => decimal_value(s@.subrange(start as int, end as int)) == n,
            None => decimal_value(s@.subrange(start as int, end as int)) > u64::MAX,
        },
{
    let ghost digits = s@.subrange(start as int, end as int);
    let mut n: u64 = 0;
    let mut i: usize = start;
    while i < end
        invariant
            start <= i <= end <= s.len(),
            digits == s@.subrange(start as int, end as int),
            forall|k: int| start <= k < end ==> is_digit(#[trigger] s@[k]),
            n == decimal_value(digits.take(i - start)),
        decreases end - i,
    {
        let c = s[i];
        let d: u64 = (c as u32 - '0' as u32) as u64;
        proof {
            let part = digits.take(i - start + 1);
            assert(part.drop_last() =~= digits.take(i - start));
            decimal_value_grows(digits, i - start + 1);
        }
        if n > (u64::MAX - d) / 10 {
            return None;
        }
        n = n * 10 + d;
        i += 1;
    }
    proof {
        assert(digits.take(end - start) =~= digits);
    }
    Some(n)
}

/// The token that `rule` makes of the characters between `start` and `end`.
fn make_token(rule: Rule, s: &[char], start: usize, end: usize) -> (t: Token)
    requires
        start < end <= s.len(),
        rule.match_end(s@, start as int) == Some(end as int),
    ensures
        t@ == token_of(rule, s@.subrange(start as int, end as int)),
{
    let ghost lexeme = s@.subrange(start as int, end as int);
    match rule {
        Rule::Comment => {
            let text = string_of(vstd::slice::slice_subrange(s, start + 1, end));
            proof {
                assert(lexeme.skip(1) =~= s@.subrange(start + 1, end as int));
            }
            Token::Comment(text)
        },
        Rule::As => Token::As,
        Rule::Prefix => Token::Prefix,
        Rule::Using => Token::Using,
        Rule::Kind => Token::Kind,
        Rule::Attribute => Token::Attribute,
        Rule::Relation => Token::Relation,
        Rule::In => Token::In,
        Rule::Colon => Token::Colon,
        Rule::LiteralString => {
            proof {
                crate::rules::closing_quote_bounds(s@, start + 1);
            }
            let text = string_of(vstd::slice::slice_subrange(s, start + 1, end - 1));
            proof {
                assert(lexeme.subrange(1, lexeme.len() - 1) =~= s@.subrange(start + 1, end - 1));
            }
            Token::LiteralString(text)
        },
        Rule::MultiLineLiteralString => {
            proof {
                crate::rules::closing_quote_bounds(s@, start + 3);
            }
            let text = string_of(vstd::slice::slice_subrange(s, start + 3, end - 3));
            proof {
                assert(lexeme.subrange(3, lexeme.len() - 3) =~= s@.subrange(start + 3, end - 3));
            }
            Token::MultiLineLiteralString(text)
        },
        Rule::OpenBrace => Token::OpenBrace,
        Rule::ClosedBrace => Token::ClosedBrace,
        Rule::Slash => Token::Slash,
        Rule::URI => Token::URI(string_of(vstd::slice::slice_subrange(s, start, end))),
        Rule::Text => Token::Text(string_of(vstd::slice::slice_subrange(s, start, end))),
        Rule::Number => {
            proof {
                run_end_bounds(s@, start + 1, CharClass::Digit);
            }
            match read_number(s, start, end) {
                Some(n) => Token::Number(n),
                None => Token::Error,
            }
        },
    }
}

/// A scanner over one source text. It hands out the tokens of the text one
/// by one and remembers where the last one stood.
pub struct Lexer {
    source: Vec<char>,
    token_start: usize,
    token_end: usize,
}

impl Lexer {
    /// The text that is scanned.
    pub closed spec fn text(&self) -> Seq<char> {
        self.source@
    }

    /// Where the token that was handed out last starts.
    pub closed spec fn start(&self) -> int {
        self.token_start as int
    }

    /// Where the token that was handed out last ends, and the search for
    /// the next one starts.
    pub closed spec fn end(&self) -> int {
        self.token_end as int
    }

    /// The last token lies within the text, and the text is one whose
    /// encoding the machine can address.
    pub open spec fn wf(&self) -> bool {
        &&& 0 <= self.start() <= self.end() <= self.text().len()
        &&& byte_len(self.text()) <= usize::MAX
    }

    /// A scanner at the start of `source`.
    pub fn new(source: &str) -> (lexer: Lexer)
        ensures
            lexer.wf(),
            lexer.text() == source@,
            lexer.start() == 0,
            lexer.end() == 0,
    {
        let total = source.as_bytes().len();
        let chars = chars_of(source);
        proof {
            assert(total == byte_len(source@));
        }
        Lexer { source: chars, token_start: 0, token_end: 0 }
    }

    /// The next token, or `None` at the end of the text.
    pub fn next(&mut self) -> (r: Option<Token>)
        requires
            old(self).wf(),
        ensures
            final(self).wf(),
            final(self).text() == old(self).text(),
            match next_lexeme(old(self).text(), old(self).end()) {
                Some(lx) => r matches Some(t) && t@ == lx.token && final(self).start() == lx.start
                    && final(self).end() == lx.end,
                None => r is None && final(self).start() == old(self).text().len()
                    && final(self).end() == old(self).text().len(),
            },
    {
        let start = scan_run(self.source.as_slice(), self.token_end, CharClass::Space);
        if start >= self.source.len() {
            self.token_start = start;
            self.token_end = start;
            return None;
        }
        match find_best_match(self.source.as_slice(), start) {
            Some((rule, end)) => {
                proof {
                    crate::rules::best_among_is_some_match(self.source@, start as int, rule_count());
                }
                let token = make_token(rule, self.source.as_slice(), start, end);
                self.token_start = start;
                self.token_end = end;
                Some(token)
            },
            None => {
                self.token_start = start;
                self.token_end = start + 1;
                Some(Token::Error)
            },
        }
    }

    /// The range of bytes of the source that the last token was read from.
    pub fn span(&self) -> (r: (usize, usize))
        requires
            self.wf(),
        ensures
            r.0 == byte_len(self.text().take(self.start())),
            r.1 == byte_len(self.text().take(self.end())),
            r.0 <= r.1,
    {
        let low = byte_offset(self.source.as_slice(), self.token_start);
        let high = byte_offset(self.source.as_slice(), self.token_end);
        proof {
            let whole = self.source@.take(self.token_end as int);
            byte_len_of_part(whole, self.token_start as int);
            assert(whole.take(self.token_start as int) =~= self.source@.take(
                self.token_start as int,
            ));
        }
        (low, high)
    }

    /// The text that the last token was read from.
    pub fn slice(&self) -> (r: String)
        requires
            self.wf(),
        ensures
            r@ == self.text().subrange(self.start(), self.end()),
    {
        string_of(vstd::slice::slice_subrange(self.source.as_slice(), self.token_start, self.token_end))
    }
}

/// The tokens of a text, in order, without the places where they stand.
pub open spec fn tokens_of(s: Seq<char>) -> Seq<TokenView> {
    lexemes(s).map_values(|lx: Lexeme| lx.token)
}

/// All tokens of `source`, in order.
pub fn tokenize(source: &str) -> (tokens: Vec<Token>)
    ensures
        tokens.deep_view() == tokens_of(source@),
{
    let mut lexer = Lexer::new(source);
    let mut tokens: Vec<Token> = Vec::new();
    let ghost all = lexemes(source@);
    loop
        invariant
            lexer.wf(),
            lexer.text() == source@,
            all == lexemes(source@),
            tokens.len() <= all.len(),
            all.skip(tokens.len() as int) == lexemes_from(source@, lexer.end()),
            forall|k: int| 0 <= k < tokens.len() ==> tokens@[k]@ == (#[trigger] all[k]).token,
        decreases all.len() - tokens.len(),
    {
        let ghost k = tokens.len() as int;
        let ghost from = lexer.end();
        proof {
            next_lexeme_bounds(source@, from);
        }
        match lexer.next() {
            Some(token) => {
                proof {
                    let lx = next_lexeme(source@, from)->0;
                    assert(lexemes_from(source@, from) == seq![lx] + lexemes_from(
                        source@,
                        lx.end,
                    ));
                    assert(all.skip(k)[0] == lx);
                    assert(all.skip(k + 1) =~= all.skip(k).skip(1));
                }
                tokens.push(token);
            },
            None => {
                return tokens;
            },
        }
    }
}

impl Token {
    /// A scanner over `source`.
    pub fn lexer(source: &str) -> (lexer: Lexer)
        ensures
            lexer.wf(),
            lexer.text() == source@,
            lexer.start() == 0,
            lexer.end() == 0,
    {
        Lexer::new(source)
    }
}

} // verus!
