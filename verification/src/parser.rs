use vstd::prelude::*;
use vstd::string::StringExecFns;
use crate::lexer::{
    byte_len, lexemes, lexemes_from, next_lexeme, next_lexeme_bounds, Lexeme, Lexer, Token,
    TokenView,
};
use crate::parsetree::{Field, Literal, Name, Structure, StructureItem, StructureView};
use crate::syntax::{
    after_comment, attr_at, field_at, field_list_at, fields_at, item_at, item_bounds, items_at,
    kind_at, literal_at, name_at, prefix_at, rel_at, stop, token_at, uri_at, using_at, Parsed,
    SyntaxErrorView,
};
use crate::uri::URI;

verus! {

/// What is wrong with a text that does not parse. Where an error came from
/// a token that should not stand where it stands, the error holds the token;
/// `None` stands for the end of the input.
#[derive(Debug, PartialEq)]
pub enum SyntaxError {
    ExpectedURI(Option<Token>),
    UseExpectsURI,
    PrefixIsMissingTheAsKeyword,
    PrefixIsMissingTheAliasedName,
    PrefixShouldBeginWithAnAt,
    UseExpectsTextPrefix,
    KindIsMissingAName,
    AttributeIsMissingAName,
    NameIsInvalid(Option<Token>),
    NameIsMissing,
    RelationExpectedSubjectToBeName,
    RelationExpectedPredicateToBeName,
    RelationExpectedObjectToBeName,
    ExpectedTopLevelItem,
    IncompleteFieldBlock,
    FieldExpectedURI,
    FieldExpectedLiteral(Option<Token>),
    InvalidLiteral(Option<Token>),
    ExpectedAComment,
}

/// What an optional token holds.
pub open spec fn optional_token(t: Option<Token>) -> Option<TokenView> {
    match t {
        Some(token) => Some(token@),
        None => None,
    }
}

impl View for SyntaxError {
    type V = SyntaxErrorView;

    open spec fn view(&self) -> SyntaxErrorView {
        match self {
            SyntaxError::ExpectedURI(t) => SyntaxErrorView::ExpectedURI(optional_token(*t)),
            SyntaxError::UseExpectsURI => SyntaxErrorView::UseExpectsURI,
            SyntaxError::PrefixIsMissingTheAsKeyword => SyntaxErrorView::PrefixIsMissingTheAsKeyword,
            SyntaxError::PrefixIsMissingTheAliasedName => {
                SyntaxErrorView::PrefixIsMissingTheAliasedName
            },
            SyntaxError::PrefixShouldBeginWithAnAt => SyntaxErrorView::PrefixShouldBeginWithAnAt,
            SyntaxError::UseExpectsTextPrefix => SyntaxErrorView::UseExpectsTextPrefix,
            SyntaxError::KindIsMissingAName => SyntaxErrorView::KindIsMissingAName,
            SyntaxError::AttributeIsMissingAName => SyntaxErrorView::AttributeIsMissingAName,
            SyntaxError::NameIsInvalid(t) => SyntaxErrorView::NameIsInvalid(optional_token(*t)),
            SyntaxError::NameIsMissing => SyntaxErrorView::NameIsMissing,
            SyntaxError::RelationExpectedSubjectToBeName => {
                SyntaxErrorView::RelationExpectedSubjectToBeName
            },
            SyntaxError::RelationExpectedPredicateToBeName => {
                SyntaxErrorView::RelationExpectedPredicateToBeName
            },
            SyntaxError::RelationExpectedObjectToBeName => {
                SyntaxErrorView::RelationExpectedObjectToBeName
            },
            SyntaxError::ExpectedTopLevelItem => SyntaxErrorView::ExpectedTopLevelItem,
            SyntaxError::IncompleteFieldBlock => SyntaxErrorView::IncompleteFieldBlock,
            SyntaxError::FieldExpectedURI => SyntaxErrorView::FieldExpectedURI,
            SyntaxError::FieldExpectedLiteral(t) => SyntaxErrorView::FieldExpectedLiteral(
                optional_token(*t),
            ),
            SyntaxError::InvalidLiteral(t) => SyntaxErrorView::InvalidLiteral(optional_token(*t)),
            SyntaxError::ExpectedAComment => SyntaxErrorView::ExpectedAComment,
        }
    }
}

impl SyntaxError {
    /// What the error says to the writer of the file.
    pub fn to_string(&self) -> (r: String)
        ensures
            r@ == self@.message(),
    {
        let text = match self {
            SyntaxError::ExpectedURI(_) => "Expected a URI.",
            SyntaxError::UseExpectsURI => "The `use` syntax expects a URI.",
            SyntaxError::PrefixIsMissingTheAsKeyword => "The `prefix` syntax should follow the format:\n\tprefix <uri> as @<name>.\n\nDid you forget the 'as'?",
            SyntaxError::PrefixIsMissingTheAliasedName => "The `prefix` syntax should follow the format:\n\tprefix <uri> as @<name>.\n\nDid you forget to specify a name?",
            SyntaxError::PrefixShouldBeginWithAnAt => "The `prefix` syntax should follow the format:\n\tprefix <uri> as @<name>.\n\nDid you forget the @ before the prefix name?",
            SyntaxError::UseExpectsTextPrefix => "",
            SyntaxError::KindIsMissingAName => "The `kind <name>` syntax is missing a name.",
            SyntaxError::AttributeIsMissingAName => "The `attr <name>` syntax is missing a name.",
            SyntaxError::NameIsInvalid(_) => "We expected to find a Name (an Alias or a URI) but found something else instead.",
            SyntaxError::NameIsMissing => "We expected to find a Name, did you forget it?",
            SyntaxError::RelationExpectedSubjectToBeName => "The `rel` syntax should follow the format:\n\trel <subject> <predicate> <object>.\nAll 3 must be URIs or aliased names.",
            SyntaxError::RelationExpectedPredicateToBeName => "The `rel` syntax should follow the format:\n\trel <subject> <predicate> <object>.\nAll 3 must be URIs or aliased names.",
            SyntaxError::RelationExpectedObjectToBeName => "The `rel` syntax should follow the format:\n\trel <subject> <predicate> <object>.\nAll 3 must be URIs or aliased names.",
            SyntaxError::ExpectedTopLevelItem => "We expected to find an Alias, a Kind, an Attribute, or a Relation.",
            SyntaxError::IncompleteFieldBlock => "Did you forget to close this block with a `}` ? ",
            SyntaxError::FieldExpectedURI => "Every field must have a URI on the left side.",
            SyntaxError::FieldExpectedLiteral(_) => "Every field must have a URI, a String, or a Number on the right side.",
            SyntaxError::InvalidLiteral(_) => "This literal is wrong I guess",
            SyntaxError::ExpectedAComment => "Expeceted a comment",
        };
        String::from_str(text)
    }
}

/// A scanner with one token of lookahead: `peek` shows the next token and
/// leaves it in place, `next` hands it out.
pub struct PeekableLexer {
    lexer: Lexer,
    peeked: Option<Option<Token>>,
}

impl PeekableLexer {
    /// The text that is scanned.
    pub closed spec fn text(&self) -> Seq<char> {
        self.lexer.text()
    }

    /// The tokens that have not been handed out yet.
    pub closed spec fn remaining(&self) -> Seq<Lexeme> {
        let rest = lexemes_from(self.lexer.text(), self.lexer.end());
        match self.peeked {
            Some(Some(t)) => seq![
                Lexeme { token: t@, start: self.lexer.start(), end: self.lexer.end() },
            ] + rest,
            _ => rest,
        }
    }

    /// The number of tokens that have been handed out.
    pub closed spec fn consumed(&self) -> int {
        lexemes(self.text()).len() - self.remaining().len()
    }

    /// The range of characters of the token that was scanned last.
    pub closed spec fn cursor(&self) -> (int, int) {
        (self.lexer.start(), self.lexer.end())
    }

    /// The tokens that are left are the tokens of the text without those
    /// that have been handed out.
    pub closed spec fn wf(&self) -> bool {
        &&& self.lexer.wf()
        &&& 0 <= self.consumed()
        &&& lexemes(self.text()).skip(self.consumed()) == self.remaining()
        &&& (self.peeked matches Some(None) ==> self.lexer.start() == self.text().len()
            && self.lexer.end() == self.text().len())
    }

    /// Whether the token that was scanned last is the one at place `at`, or,
    /// for the place after the last token, the end of the text was reached.
    pub open spec fn stands_at(&self, at: int) -> bool {
        self.cursor() == token_range(self.text(), at)
    }

    /// A scanner with lookahead at the start of `source`.
    pub fn new(source: &str) -> (lex: PeekableLexer)
        ensures
            lex.wf(),
            lex.text() == source@,
            lex.consumed() == 0,
    {
        let lex = PeekableLexer { lexer: Token::lexer(source), peeked: None };
        proof {
            assert(lexemes(source@).skip(0) =~= lexemes(source@));
        }
        lex
    }

    /// The next token, which stays in place.
    pub fn peek(&mut self) -> (r: &Option<Token>)
        requires
            old(self).wf(),
        ensures
            final(self).wf(),
            final(self).text() == old(self).text(),
            final(self).consumed() == old(self).consumed(),
            optional_token(*r) == token_at(lexemes(old(self).text()), old(self).consumed()),
    {
        if self.peeked.is_none() {
            proof {
                next_lexeme_bounds(self.lexer.text(), self.lexer.end());
            }
            let token = self.lexer.next();
            proof {
                if token is None {
                    assert(next_lexeme(self.lexer.text(), self.lexer.end()) is None) by {
                        crate::chars::run_end_bounds(
                            self.lexer.text(),
                            self.lexer.end(),
                            crate::chars::CharClass::Space,
                        );
                    }
                }
            }
            self.peeked = Some(token);
        }
        proof {
            if self.peeked matches Some(Some(_)) {
                assert(self.remaining()[0].token == self.peeked->0->0@);
            }
        }
        self.peeked.as_ref().unwrap()
    }

    /// The next token, which is handed out.
    pub fn next(&mut self) -> (r: Option<Token>)
        requires
            old(self).wf(),
        ensures
            final(self).wf(),
            final(self).text() == old(self).text(),
            optional_token(r) == token_at(lexemes(old(self).text()), old(self).consumed()),
            final(self).consumed() == stop(lexemes(old(self).text()), old(self).consumed() + 1),
            final(self).stands_at(old(self).consumed()),
    {
        let ghost all = lexemes(self.text());
        let ghost k = self.consumed();
        match self.peeked.take() {
            Some(token) => {
                proof {
                    if token is Some {
                        assert(all.skip(k)[0] == all[k]);
                        assert(all.skip(k + 1) =~= all.skip(k).skip(1));
                        assert(old(self).remaining().skip(1) =~= self.remaining());
                    }
                }
                token
            },
            None => {
                proof {
                    next_lexeme_bounds(self.lexer.text(), self.lexer.end());
                }
                let token = self.lexer.next();
                proof {
                    if token is Some {
                        assert(all.skip(k)[0] == all[k]);
                        assert(all.skip(k + 1) =~= all.skip(k).skip(1));
                        assert(old(self).remaining().skip(1) =~= self.remaining());
                    } else {
                        crate::chars::run_end_bounds(
                            self.lexer.text(),
                            self.lexer.end(),
                            crate::chars::CharClass::Space,
                        );
                    }
                }
                token
            },
        }
    }

    /// The range of bytes of the source that the token scanned last was read
    /// from: where it starts, and how many bytes it takes.
    pub fn span(&self) -> (r: Span)
        requires
            self.wf(),
        ensures
            r.offset == byte_len(self.text().take(self.cursor().0)),
            r.offset + r.length == byte_len(self.text().take(self.cursor().1)),
    {
        let (low, high) = self.lexer.span();
        Span { offset: low, length: high - low }
    }
}

/// The range of characters of the token at place `at`; for the place after
/// the last token, the empty range at the end of the text.
pub open spec fn token_range(s: Seq<char>, at: int) -> (int, int) {
    let all = lexemes(s);
    if 0 <= at < all.len() {
        (all[at].start, all[at].end)
    } else {
        (s.len() as int, s.len() as int)
    }
}

/// A range of bytes in a source text.
#[derive(Clone, Copy, Debug, PartialEq, Eq, Structural)]
pub struct Span {
    pub offset: usize,
    pub length: usize,
}

/// What a `ParseError` holds.
pub struct ParseErrorView {
    pub filename: Seq<char>,
    pub source: Seq<char>,
    pub offset: nat,
    pub length: nat,
    pub error: SyntaxErrorView,
}

/// A syntax error together with the file it was found in, the text of the
/// file, and the range of bytes of the token at which it was found.
#[derive(Debug, PartialEq)]
pub struct ParseError {
    pub filename: String,
    pub source: String,
    pub span: Span,
    pub error: SyntaxError,
}

impl View for ParseError {
    type V = ParseErrorView;

    open spec fn view(&self) -> ParseErrorView {
        ParseErrorView {
            filename: self.filename@,
            source: self.source@,
            offset: self.span.offset as nat,
            length: self.span.length as nat,
            error: self.error@,
        }
    }
}

/// What parsing the text `source` of the file `filename` gives: the parse
/// tree, or the first error with the range of bytes of the token at which
/// it was found. An error at the end of the input has the empty range at
/// the end of the text.
pub open spec fn parse_text(filename: Seq<char>, source: Seq<char>) -> Result<
    StructureView,
    ParseErrorView,
> {
    match items_at(lexemes(source), 0) {
        Parsed::Done { value, next } => Ok(StructureView { filename, items: value }),
        Parsed::Failed { error, at } => {
            let range = token_range(source, at);
            Err(
                ParseErrorView {
                    filename,
                    source,
                    offset: byte_len(source.take(range.0)),
                    length: (byte_len(source.take(range.1)) - byte_len(source.take(range.0))) as nat,
                    error,
                },
            )
        },
    }
}

/// A parser for the text of one file.
#[derive(Debug, PartialEq, Eq)]
pub struct Parser {
    file: String,
    source: String,
}

impl Clone for Parser {
    fn clone(&self) -> (r: Self)
        ensures
            r.file() == self.file(),
            r.source() == self.source(),
    {
        Parser { file: self.file.clone(), source: self.source.clone() }
    }
}

impl Parser {
    /// The name of the file.
    pub closed spec fn file(&self) -> Seq<char> {
        self.file@
    }

    /// The text of the file.
    pub closed spec fn source(&self) -> Seq<char> {
        self.source@
    }

    /// A parser for the text `source`, which is said to come from the file
    /// `filename`.
    pub fn for_string(filename: &str, source: &str) -> (r: Result<Parser, ParseError>)
        ensures
            r matches Ok(parser) && parser.file() == filename@ && parser.source() == source@,
    {
        Ok(Parser { file: String::from_str(filename), source: String::from_str(source) })
    }

    /// Parses the whole text.
    pub fn parse(&mut self) -> (r: Result<Structure, ParseError>)
        ensures
            final(self).file() == old(self).file(),
            final(self).source() == old(self).source(),
            match parse_text(old(self).file(), old(self).source()) {
                Ok(tree) => r matches Ok(found) && found@ == tree,
                Err(error) => r matches Err(found) && found@ == error,
            },
    {
        let mut lexer = PeekableLexer::new(self.source.as_str());
        match Parser::parse_structure(&mut lexer) {
            Ok(items) => Ok(Structure::new(items, self.file.clone())),
            Err(error) => {
                let span = lexer.span();
                Err(
                    ParseError {
                        filename: self.file.clone(),
                        source: self.source.clone(),
                        span,
                        error,
                    },
                )
            },
        }
    }

    fn parse_structure(lex: &mut PeekableLexer) -> (r: Result<Vec<StructureItem>, SyntaxError>)
        requires
            old(lex).wf(),
            old(lex).consumed() == 0,
        ensures
            final(lex).wf(),
            final(lex).text() == old(lex).text(),
            match items_at(lexemes(old(lex).text()), 0) {
                Parsed::Done { value, next } => r matches Ok(items) && items.deep_view() == value,
                Parsed::Failed { error, at } => r matches Err(e) && e@ == error
                    && final(lex).stands_at(at),
            },
    {
        let ghost ts = lexemes(lex.text());
        let mut items: Vec<StructureItem> = Vec::new();
        loop
            invariant
                lex.wf(),
                lex.text() == old(lex).text(),
                ts == lexemes(lex.text()),
                0 <= lex.consumed() <= ts.len(),
                match items_at(ts, lex.consumed()) {
                    Parsed::Done { value, next } => items_at(ts, 0) == (Parsed::Done {
                        value: items.deep_view() + value,
                        next,
                    }),
                    Parsed::Failed { error, at } => items_at(ts, 0) == (Parsed::<
                        Seq<crate::parsetree::ItemView>,
                    >::Failed { error, at }),
                },
            decreases ts.len() - lex.consumed(),
        {
            let ghost k = lex.consumed();
            let ghost before = items.deep_view();
            match lex.next() {
                Some(token) => {
                    proof {
                        item_bounds(ts, k);
                    }
                    match Parser::parse_structure_item(lex, token) {
                        Ok(item) => {
                            items.push(item);
                            proof {
                                let next = lex.consumed();
                                assert(items.deep_view() =~= before.push(item@));
                                match items_at(ts, next) {
                                    Parsed::Done { value, next: end } => {
                                        assert(before + (seq![item@] + value) =~= before.push(
                                            item@,
                                        ) + value);
                                    },
                                    _ => {},
                                }
                            }
                        },
                        Err(e) => {
                            return Err(e);
                        },
                    }
                },
                None => {
                    return Ok(items);
                },
            }
        }
    }

    fn parse_structure_item(lex: &mut PeekableLexer, token: Token) -> (r: Result<
        StructureItem,
        SyntaxError,
    >)
        requires
            old(lex).wf(),
            0 < old(lex).consumed(),
            token_at(lexemes(old(lex).text()), old(lex).consumed() - 1) == Some(token@),
            old(lex).stands_at(old(lex).consumed() - 1),
        ensures
            final(lex).wf(),
            final(lex).text() == old(lex).text(),
            match item_at(lexemes(old(lex).text()), old(lex).consumed() - 1) {
                Parsed::Done { value, next } => r matches Ok(item) && item@ == value
                    && final(lex).consumed() == next,
                Parsed::Failed { error, at } => r matches Err(e) && e@ == error
                    && final(lex).stands_at(at),
            },
    {
        match token {
            Token::Using => Parser::parse_using(lex),
            Token::Prefix => Parser::parse_prefix(lex),
            Token::Kind => Parser::parse_kind(lex),
            Token::Attribute => Parser::parse_attr(lex),
            Token::Relation => Parser::parse_rel(lex),
            Token::Comment(text) => Parser::parse_comment(text),
            _ => Err(SyntaxError::ExpectedTopLevelItem),
        }
    }

    fn parse_uri(lex: &mut PeekableLexer) -> (r: Result<URI, SyntaxError>)
        requires
            old(lex).wf(),
        ensures
            final(lex).wf(),
            final(lex).text() == old(lex).text(),
            match uri_at(lexemes(old(lex).text()), old(lex).consumed()) {
                Parsed::Done { value, next } => r matches Ok(uri) && uri@ == value
                    && final(lex).consumed() == next,
                Parsed::Failed { error, at } => r matches Err(e) && e@ == error
                    && final(lex).stands_at(at),
            },
    {
        match lex.next() {
            Some(Token::URI(uri)) => Ok(URI::from_string(uri)),
            token => Err(SyntaxError::ExpectedURI(token)),
        }
    }

    fn parse_name(lex: &mut PeekableLexer) -> (r: Result<Name, SyntaxError>)
        requires
            old(lex).wf(),
        ensures
            final(lex).wf(),
            final(lex).text() == old(lex).text(),
            match name_at(lexemes(old(lex).text()), old(lex).consumed()) {
                Parsed::Done { value, next } => r matches Ok(name) && name@ == value
                    && final(lex).consumed() == next,
                Parsed::Failed { error, at } => r matches Err(e) && e@ == error
                    && final(lex).stands_at(at)
                    && final(lex).consumed() == stop(lexemes(old(lex).text()), at + 1),
            },
    {
        match lex.next() {
            Some(Token::URI(uri)) => Ok(Name::URI(URI::from_string(uri))),
            Some(Token::Text(text)) => Ok(Name::Alias(text)),
            None => Err(SyntaxError::NameIsMissing),
            t => Err(SyntaxError::NameIsInvalid(t)),
        }
    }

    fn parse_prefix(lex: &mut PeekableLexer) -> (r: Result<StructureItem, SyntaxError>)
        requires
            old(lex).wf(),
        ensures
            final(lex).wf(),
            final(lex).text() == old(lex).text(),
            match prefix_at(lexemes(old(lex).text()), old(lex).consumed()) {
                Parsed::Done { value, next } => r matches Ok(item) && item@ == value
                    && final(lex).consumed() == next,
                Parsed::Failed { error, at } => r matches Err(e) && e@ == error
                    && final(lex).stands_at(at),
            },
    {
        let uri = match Parser::parse_uri(lex) {
            Ok(uri) => uri,
            _ => {
                return Err(SyntaxError::UseExpectsURI);
            },
        };

        match lex.next() {
            Some(Token::As) => {},
            _ => {
                return Err(SyntaxError::PrefixIsMissingTheAsKeyword);
            },
        };

        let prefix = match Parser::parse_uri(lex) {
            Ok(uri) => uri,
            _ => {
                return Err(SyntaxError::PrefixIsMissingTheAliasedName);
            },
        };

        Ok(StructureItem::Alias { uri, prefix })
    }

    fn parse_using(lex: &mut PeekableLexer) -> (r: Result<StructureItem, SyntaxError>)
        requires
            old(lex).wf(),
        ensures
            final(lex).wf(),
            final(lex).text() == old(lex).text(),
            match using_at(lexemes(old(lex).text()), old(lex).consumed()) {
                Parsed::Done { value, next } => r matches Ok(item) && item@ == value
                    && final(lex).consumed() == next,
                Parsed::Failed { error, at } => r matches Err(e) && e@ == error
                    && final(lex).stands_at(at),
            },
    {
        let uri = match Parser::parse_uri(lex) {
            Ok(uri) => uri,
            _ => {
                return Err(SyntaxError::UseExpectsURI);
            },
        };

        Ok(StructureItem::Namespace { uri })
    }

    fn parse_kind(lex: &mut PeekableLexer) -> (r: Result<StructureItem, SyntaxError>)
        requires
            old(lex).wf(),
        ensures
            final(lex).wf(),
            final(lex).text() == old(lex).text(),
            match kind_at(lexemes(old(lex).text()), old(lex).consumed()) {
                Parsed::Done { value, next } => r matches Ok(item) && item@ == value
                    && final(lex).consumed() == next,
                Parsed::Failed { error, at } => r matches Err(e) && e@ == error
                    && final(lex).stands_at(at),
            },
    {
        let name = match Parser::parse_name(lex) {
            Ok(name) => name,
            _ => {
                return Err(SyntaxError::KindIsMissingAName);
            },
        };

        let fields = Parser::parse_fields(lex)?;

        Ok(StructureItem::Kind { name, fields })
    }

    fn parse_attr(lex: &mut PeekableLexer) -> (r: Result<StructureItem, SyntaxError>)
        requires
            old(lex).wf(),
        ensures
            final(lex).wf(),
            final(lex).text() == old(lex).text(),
            match attr_at(lexemes(old(lex).text()), old(lex).consumed()) {
                Parsed::Done { value, next } => r matches Ok(item) && item@ == value
                    && final(lex).consumed() == next,
                Parsed::Failed { error, at } => r matches Err(e) && e@ == error
                    && final(lex).stands_at(at),
            },
    {
        let name = match Parser::parse_name(lex) {
            Ok(name) => name,
            _ => {
                return Err(SyntaxError::AttributeIsMissingAName);
            },
        };

        let fields = Parser::parse_fields(lex)?;

        Ok(StructureItem::Attribute { name, fields })
    }

    fn parse_rel(lex: &mut PeekableLexer) -> (r: Result<StructureItem, SyntaxError>)
        requires
            old(lex).wf(),
        ensures
            final(lex).wf(),
            final(lex).text() == old(lex).text(),
            match rel_at(lexemes(old(lex).text()), old(lex).consumed()) {
                Parsed::Done { value, next } => r matches Ok(item) && item@ == value
                    && final(lex).consumed() == next,
                Parsed::Failed { error, at } => r matches Err(e) && e@ == error
                    && final(lex).stands_at(at),
            },
    {
        let subject = match Parser::parse_name(lex) {
            Ok(name) => name,
            _ => {
                return Err(SyntaxError::RelationExpectedSubjectToBeName);
            },
        };

        let predicate = match Parser::parse_name(lex) {
            Ok(name) => name,
            _ => {
                return Err(SyntaxError::RelationExpectedPredicateToBeName);
            },
        };

        let object = match Parser::parse_name(lex) {
            Ok(name) => name,
            _ => {
                return Err(SyntaxError::RelationExpectedObjectToBeName);
            },
        };

        let fields = Parser::parse_fields(lex)?;

        Ok(StructureItem::Relation { subject, predicate, object, fields })
    }

    fn parse_comment(text: String) -> (r: Result<StructureItem, SyntaxError>)
        ensures
            r matches Ok(item) && item@ == crate::parsetree::ItemView::Comment(
                seq!['#'] + text@,
            ),
    {
        proof {
            reveal_strlit("#");
            assert("#"@ =~= seq!['#']);
        }
        Ok(StructureItem::Comment(String::from_str("#").concat(text.as_str())))
    }

    /// Passes over one comment, if one stands next.
    fn parse_field_comment(lex: &mut PeekableLexer) -> (r: Result<StructureItem, SyntaxError>)
        requires
            old(lex).wf(),
        ensures
            final(lex).wf(),
            final(lex).text() == old(lex).text(),
            final(lex).consumed() == after_comment(
                lexemes(old(lex).text()),
                old(lex).consumed(),
            ),
            match token_at(lexemes(old(lex).text()), old(lex).consumed()) {
                Some(TokenView::Comment(text)) => r matches Ok(item) && item@
                    == crate::parsetree::ItemView::Comment(text),
                _ => r matches Err(e) && e@ == SyntaxErrorView::ExpectedAComment,
            },
    {
        let next = lex.peek();
        if let Some(Token::Comment(comment)) = next {
            let comment = comment.clone();
            lex.next();
            Ok(StructureItem::Comment(comment))
        } else {
            Err(SyntaxError::ExpectedAComment)
        }
    }

    fn parse_fields(lex: &mut PeekableLexer) -> (r: Result<Vec<Field>, SyntaxError>)
        requires
            old(lex).wf(),
        ensures
            final(lex).wf(),
            final(lex).text() == old(lex).text(),
            match fields_at(lexemes(old(lex).text()), old(lex).consumed()) {
                Parsed::Done { value, next } => r matches Ok(fields) && fields.deep_view() == value
                    && final(lex).consumed() == next,
                Parsed::Failed { error, at } => r matches Err(e) && e@ == error
                    && final(lex).stands_at(at),
            },
    {
        let ghost ts = lexemes(lex.text());
        let ghost start = lex.consumed();
        let next = lex.peek();
        if let Some(Token::OpenBrace) = next {
            lex.next();
            let mut fields: Vec<Field> = Vec::new();
            loop
                invariant_except_break
                    start + 1 <= lex.consumed() <= ts.len(),
                    match field_list_at(ts, lex.consumed()) {
                        Parsed::Done { value, next } => field_list_at(ts, start + 1) == (
                        Parsed::Done { value: fields.deep_view() + value, next }),
                        Parsed::Failed { error, at } => field_list_at(ts, start + 1) == (Parsed::<
                            Seq<crate::parsetree::FieldView>,
                        >::Failed { error, at }),
                    },
                invariant
                    lex.wf(),
                    lex.text() == old(lex).text(),
                    ts == lexemes(lex.text()),
                    0 <= start == old(lex).consumed(),
                    token_at(ts, start) == Some(TokenView::OpenBrace),
                ensures
                    field_list_at(ts, start + 1) == (Parsed::Done {
                        value: fields.deep_view(),
                        next: lex.consumed(),
                    }),
                decreases ts.len() - lex.consumed(),
            {
                let ghost before = fields.deep_view();
                let _ = Parser::parse_field_comment(lex);

                match Parser::parse_field(lex) {
                    Ok(field) => {
                        fields.push(field);
                        proof {
                            assert(fields.deep_view() =~= before.push(field@));
                            match field_list_at(ts, lex.consumed()) {
                                Parsed::Done { value, next: end } => {
                                    assert(before + (seq![field@] + value) =~= before.push(
                                        field@,
                                    ) + value);
                                },
                                _ => {},
                            }
                        }
                    },
                    Err(SyntaxError::NameIsMissing) | Err(SyntaxError::InvalidLiteral(None)) => {
                        return Err(SyntaxError::IncompleteFieldBlock);
                    },
                    Err(SyntaxError::InvalidLiteral(Some(Token::ClosedBrace))) | Err(
                        SyntaxError::NameIsInvalid(Some(Token::ClosedBrace)),
                    ) => {
                        break ;
                    },
                    Err(e) => {
                        return Err(e);
                    },
                }
            }
            Ok(fields)
        } else {
            let fields: Vec<Field> = Vec::new();
            Ok(fields)
        }
    }

    fn parse_field(lex: &mut PeekableLexer) -> (r: Result<Field, SyntaxError>)
        requires
            old(lex).wf(),
        ensures
            final(lex).wf(),
            final(lex).text() == old(lex).text(),
            match field_at(lexemes(old(lex).text()), old(lex).consumed()) {
                Parsed::Done { value, next } => r matches Ok(field) && field@ == value
                    && final(lex).consumed() == next,
                Parsed::Failed { error, at } => r matches Err(e) && e@ == error
                    && final(lex).stands_at(at) && final(lex).consumed() == stop(
                    lexemes(old(lex).text()),
                    at + 1,
                ),
            },
    {
        let name = Parser::parse_name(lex)?;
        let value = Parser::parse_literal(lex)?;
        Ok(Field { name, value })
    }

    fn parse_literal(lex: &mut PeekableLexer) -> (r: Result<Literal, SyntaxError>)
        requires
            old(lex).wf(),
        ensures
            final(lex).wf(),
            final(lex).text() == old(lex).text(),
            match literal_at(lexemes(old(lex).text()), old(lex).consumed()) {
                Parsed::Done { value, next } => r matches Ok(literal) && literal@ == value
                    && final(lex).consumed() == next,
                Parsed::Failed { error, at } => r matches Err(e) && e@ == error
                    && final(lex).stands_at(at) && final(lex).consumed() == stop(
                    lexemes(old(lex).text()),
                    at + 1,
                ),
            },
    {
        match lex.next() {
            Some(Token::LiteralString(s)) => Ok(Literal::String(s)),
            Some(Token::MultiLineLiteralString(s)) => Ok(Literal::String(s)),
            Some(Token::Number(n)) => Ok(Literal::Number(n)),
            Some(Token::URI(uri)) => Ok(Literal::Name(Name::URI(URI::from_string(uri)))),
            Some(Token::Text(alias)) => Ok(Literal::Name(Name::Alias(alias))),
            token => Err(SyntaxError::InvalidLiteral(token)),
        }
    }
}

/// Parses the text `source` of the file `filename`.
pub fn parse(filename: &str, source: &str) -> (r: Result<Structure, ParseError>)
    ensures
        match parse_text(filename@, source@) {
            Ok(tree) => r matches Ok(found) && found@ == tree,
            Err(error) => r matches Err(found) && found@ == error,
        },
{
    match Parser::for_string(filename, source) {
        Ok(mut parser) => parser.parse(),
        Err(e) => Err(e),
    }
}

} // verus!
