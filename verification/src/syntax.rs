use vstd::prelude::*;
use crate::lexer::{Lexeme, TokenView};
use crate::parsetree::{FieldView, ItemView, LiteralView, NameView};

verus! {

/// What a `SyntaxError` holds.
pub enum SyntaxErrorView {
    ExpectedURI(Option<TokenView>),
    UseExpectsURI,
    PrefixIsMissingTheAsKeyword,
    PrefixIsMissingTheAliasedName,
    PrefixShouldBeginWithAnAt,
    UseExpectsTextPrefix,
    KindIsMissingAName,
    AttributeIsMissingAName,
    NameIsInvalid(Option<TokenView>),
    NameIsMissing,
    RelationExpectedSubjectToBeName,
    RelationExpectedPredicateToBeName,
    RelationExpectedObjectToBeName,
    ExpectedTopLevelItem,
    IncompleteFieldBlock,
    FieldExpectedURI,
    FieldExpectedLiteral(Option<TokenView>),
    InvalidLiteral(Option<TokenView>),
    ExpectedAComment,
}

impl SyntaxErrorView {
    /// What the error says to the writer of the file.
    pub open spec fn message(self) -> Seq<char> {
        match self {
            SyntaxErrorView::ExpectedURI(_) => "Expected a URI."@,
            SyntaxErrorView::UseExpectsURI => "The `use` syntax expects a URI."@,
            SyntaxErrorView::PrefixIsMissingTheAsKeyword => "The `prefix` syntax should follow the format:\n\tprefix <uri> as @<name>.\n\nDid you forget the 'as'?"@,
            SyntaxErrorView::PrefixIsMissingTheAliasedName => "The `prefix` syntax should follow the format:\n\tprefix <uri> as @<name>.\n\nDid you forget to specify a name?"@,
            SyntaxErrorView::PrefixShouldBeginWithAnAt => "The `prefix` syntax should follow the format:\n\tprefix <uri> as @<name>.\n\nDid you forget the @ before the prefix name?"@,
            SyntaxErrorView::UseExpectsTextPrefix => ""@,
            SyntaxErrorView::KindIsMissingAName => "The `kind <name>` syntax is missing a name."@,
            SyntaxErrorView::AttributeIsMissingAName => "The `attr <name>` syntax is missing a name."@,
            SyntaxErrorView::NameIsInvalid(_) => "We expected to find a Name (an Alias or a URI) but found something else instead."@,
            SyntaxErrorView::NameIsMissing => "We expected to find a Name, did you forget it?"@,
            SyntaxErrorView::RelationExpectedSubjectToBeName => "The `rel` syntax should follow the format:\n\trel <subject> <predicate> <object>.\nAll 3 must be URIs or aliased names."@,
            SyntaxErrorView::RelationExpectedPredicateToBeName => "The `rel` syntax should follow the format:\n\trel <subject> <predicate> <object>.\nAll 3 must be URIs or aliased names."@,
            SyntaxErrorView::RelationExpectedObjectToBeName => "The `rel` syntax should follow the format:\n\trel <subject> <predicate> <object>.\nAll 3 must be URIs or aliased names."@,
            SyntaxErrorView::ExpectedTopLevelItem => "We expected to find an Alias, a Kind, an Attribute, or a Relation."@,
            SyntaxErrorView::IncompleteFieldBlock => "Did you forget to close this block with a `}` ? "@,
            SyntaxErrorView::FieldExpectedURI => "Every field must have a URI on the left side."@,
            SyntaxErrorView::FieldExpectedLiteral(_) => "Every field must have a URI, a String, or a Number on the right side."@,
            SyntaxErrorView::InvalidLiteral(_) => "This literal is wrong I guess"@,
            SyntaxErrorView::ExpectedAComment => "Expeceted a comment"@,
        }
    }
}

/// What parsing one construct gives: the construct and the place of the
/// first token after it, or the error and the place of the token at which
/// it was found. The place just after the last token stands for the end of
/// the input.
pub enum Parsed<T> {
    Done { value: T, next: int },
    Failed { error: SyntaxErrorView, at: int },
}

/// The token at place `k`; `None` after the last one.
pub open spec fn token_at(ts: Seq<Lexeme>, k: int) -> Option<TokenView> {
    if 0 <= k < ts.len() {
        Some(ts[k].token)
    } else {
        None
    }
}

/// The place `k`, or the end of the input where `k` lies beyond it.
pub open spec fn stop(ts: Seq<Lexeme>, k: int) -> int {
    if k < ts.len() {
        k
    } else {
        ts.len() as int
    }
}

/// A URI is one URI token.
pub open spec fn uri_at(ts: Seq<Lexeme>, k: int) -> Parsed<Seq<char>> {
    match token_at(ts, k) {
        Some(TokenView::URI(uri)) => Parsed::Done { value: uri, next: k + 1 },
        t => Parsed::Failed { error: SyntaxErrorView::ExpectedURI(t), at: stop(ts, k) },
    }
}

/// A name is a URI token or a bare identifier. The end of the input gives
/// "name missing", any other token "name invalid".
pub open spec fn name_at(ts: Seq<Lexeme>, k: int) -> Parsed<NameView> {
    match token_at(ts, k) {
        Some(TokenView::URI(uri)) => Parsed::Done { value: NameView::URI(uri), next: k + 1 },
        Some(TokenView::Text(text)) => Parsed::Done { value: NameView::Alias(text), next: k + 1 },
        None => Parsed::Failed { error: SyntaxErrorView::NameIsMissing, at: stop(ts, k) },
        t => Parsed::Failed { error: SyntaxErrorView::NameIsInvalid(t), at: stop(ts, k) },
    }
}

/// A literal is a string of either form, a number or a name.
pub open spec fn literal_at(ts: Seq<Lexeme>, k: int) -> Parsed<LiteralView> {
    match token_at(ts, k) {
        Some(TokenView::LiteralString(s)) => Parsed::Done {
            value: LiteralView::String(s),
            next: k + 1,
        },
        Some(TokenView::MultiLineLiteralString(s)) => Parsed::Done {
            value: LiteralView::String(s),
            next: k + 1,
        },
        Some(TokenView::Number(n)) => Parsed::Done { value: LiteralView::Number(n), next: k + 1 },
        Some(TokenView::URI(uri)) => Parsed::Done {
            value: LiteralView::Name(NameView::URI(uri)),
            next: k + 1,
        },
        Some(TokenView::Text(text)) => Parsed::Done {
            value: LiteralView::Name(NameView::Alias(text)),
            next: k + 1,
        },
        t => Parsed::Failed { error: SyntaxErrorView::InvalidLiteral(t), at: stop(ts, k) },
    }
}

/// A field is a name and then a literal.
pub open spec fn field_at(ts: Seq<Lexeme>, k: int) -> Parsed<FieldView> {
    match name_at(ts, k) {
        Parsed::Done { value: name, next } => match literal_at(ts, next) {
            Parsed::Done { value, next } => Parsed::Done {
                value: FieldView { name, value },
                next,
            },
            Parsed::Failed { error, at } => Parsed::Failed { error, at },
        },
        Parsed::Failed { error, at } => Parsed::Failed { error, at },
    }
}

/// The place of the first token of a field that may follow one comment.
pub open spec fn after_comment(ts: Seq<Lexeme>, k: int) -> int {
    if token_at(ts, k) matches Some(TokenView::Comment(_)) {
        k + 1
    } else {
        k
    }
}

/// The fields of a block whose opening brace has been read, up to and with
/// the closing brace. Each field may follow one comment. The block ends
/// where a closing brace stands in the place of a name or of a literal; a
/// name that stands alone before the brace is dropped. Where the input
/// ends in the block, the block is incomplete.
pub open spec fn field_list_at(ts: Seq<Lexeme>, k: int) -> Parsed<Seq<FieldView>>
    decreases ts.len() - k,
    when 0 <= k
    via field_list_decreases
{
    let j = after_comment(ts, k);
    match field_at(ts, j) {
        Parsed::Done { value, next } => match field_list_at(ts, next) {
            Parsed::Done { value: rest, next } => Parsed::Done { value: seq![value] + rest, next },
            Parsed::Failed { error, at } => Parsed::Failed { error, at },
        },
        Parsed::Failed { error: SyntaxErrorView::NameIsMissing, at } => Parsed::Failed {
            error: SyntaxErrorView::IncompleteFieldBlock,
            at,
        },
        Parsed::Failed { error: SyntaxErrorView::InvalidLiteral(None), at } => Parsed::Failed {
            error: SyntaxErrorView::IncompleteFieldBlock,
            at,
        },
        Parsed::Failed {
            error: SyntaxErrorView::InvalidLiteral(Some(TokenView::ClosedBrace)),
            at,
        } => Parsed::Done { value: Seq::empty(), next: at + 1 },
        Parsed::Failed {
            error: SyntaxErrorView::NameIsInvalid(Some(TokenView::ClosedBrace)),
            at,
        } => Parsed::Done { value: Seq::empty(), next: at + 1 },
        Parsed::Failed { error, at } => Parsed::Failed { error, at },
    }
}

#[via_fn]
proof fn field_list_decreases(ts: Seq<Lexeme>, k: int) {
}

/// The optional block of fields after a declaration: no fields where no
/// opening brace stands.
pub open spec fn fields_at(ts: Seq<Lexeme>, k: int) -> Parsed<Seq<FieldView>> {
    if token_at(ts, k) == Some(TokenView::OpenBrace) {
        field_list_at(ts, k + 1)
    } else {
        Parsed::Done { value: Seq::empty(), next: k }
    }
}

/// `using <uri>`, after the keyword.
pub open spec fn using_at(ts: Seq<Lexeme>, k: int) -> Parsed<ItemView> {
    match uri_at(ts, k) {
        Parsed::Done { value: uri, next } => Parsed::Done {
            value: ItemView::Namespace { uri },
            next,
        },
        Parsed::Failed { error, at } => Parsed::Failed {
            error: SyntaxErrorView::UseExpectsURI,
            at,
        },
    }
}

/// `prefix <uri> as <@alias>`, after the keyword.
pub open spec fn prefix_at(ts: Seq<Lexeme>, k: int) -> Parsed<ItemView> {
    match uri_at(ts, k) {
        Parsed::Done { value: uri, next } => {
            if token_at(ts, next) == Some(TokenView::As) {
                match uri_at(ts, next + 1) {
                    Parsed::Done { value: prefix, next } => Parsed::Done {
                        value: ItemView::Alias { uri, prefix },
                        next,
                    },
                    Parsed::Failed { error, at } => Parsed::Failed {
                        error: SyntaxErrorView::PrefixIsMissingTheAliasedName,
                        at,
                    },
                }
            } else {
                Parsed::Failed {
                    error: SyntaxErrorView::PrefixIsMissingTheAsKeyword,
                    at: stop(ts, next),
                }
            }
        },
        Parsed::Failed { error, at } => Parsed::Failed {
            error: SyntaxErrorView::UseExpectsURI,
            at,
        },
    }
}

/// `kind <name> [block]`, after the keyword.
pub open spec fn kind_at(ts: Seq<Lexeme>, k: int) -> Parsed<ItemView> {
    match name_at(ts, k) {
        Parsed::Done { value: name, next } => match fields_at(ts, next) {
            Parsed::Done { value: fields, next } => Parsed::Done {
                value: ItemView::Kind { name, fields },
                next,
            },
            Parsed::Failed { error, at } => Parsed::Failed { error, at },
        },
        Parsed::Failed { error, at } => Parsed::Failed {
            error: SyntaxErrorView::KindIsMissingAName,
            at,
        },
    }
}

/// `attr <name> [block]`, after the keyword.
pub open spec fn attr_at(ts: Seq<Lexeme>, k: int) -> Parsed<ItemView> {
    match name_at(ts, k) {
        Parsed::Done { value: name, next } => match fields_at(ts, next) {
            Parsed::Done { value: fields, next } => Parsed::Done {
                value: ItemView::Attribute { name, fields },
                next,
            },
            Parsed::Failed { error, at } => Parsed::Failed { error, at },
        },
        Parsed::Failed { error, at } => Parsed::Failed {
            error: SyntaxErrorView::AttributeIsMissingAName,
            at,
        },
    }
}

/// `rel <subject> <predicate> <object> [block]`, after the keyword. Each of
/// the three names has an error of its own.
pub open spec fn rel_at(ts: Seq<Lexeme>, k: int) -> Parsed<ItemView> {
    match name_at(ts, k) {
        Parsed::Done { value: subject, next } => match name_at(ts, next) {
            Parsed::Done { value: predicate, next } => match name_at(ts, next) {
                Parsed::Done { value: object, next } => match fields_at(ts, next) {
                    Parsed::Done { value: fields, next } => Parsed::Done {
                        value: ItemView::Relation { subject, predicate, object, fields },
                        next,
                    },
                    Parsed::Failed { error, at } => Parsed::Failed { error, at },
                },
                Parsed::Failed { error, at } => Parsed::Failed {
                    error: SyntaxErrorView::RelationExpectedObjectToBeName,
                    at,
                },
            },
            Parsed::Failed { error, at } => Parsed::Failed {
                error: SyntaxErrorView::RelationExpectedPredicateToBeName,
                at,
            },
        },
        Parsed::Failed { error, at } => Parsed::Failed {
            error: SyntaxErrorView::RelationExpectedSubjectToBeName,
            at,
        },
    }
}

/// The top-level item whose first token stands at `k`. A comment becomes an
/// item that holds the comment as it was written, with its `#`.
pub open spec fn item_at(ts: Seq<Lexeme>, k: int) -> Parsed<ItemView> {
    match token_at(ts, k) {
        Some(TokenView::Using) => using_at(ts, k + 1),
        Some(TokenView::Prefix) => prefix_at(ts, k + 1),
        Some(TokenView::Kind) => kind_at(ts, k + 1),
        Some(TokenView::Attribute) => attr_at(ts, k + 1),
        Some(TokenView::Relation) => rel_at(ts, k + 1),
        Some(TokenView::Comment(text)) => Parsed::Done {
            value: ItemView::Comment(seq!['#'] + text),
            next: k + 1,
        },
        _ => Parsed::Failed { error: SyntaxErrorView::ExpectedTopLevelItem, at: stop(ts, k) },
    }
}

/// The items from place `k` to the end of the input, or the first error.
pub open spec fn items_at(ts: Seq<Lexeme>, k: int) -> Parsed<Seq<ItemView>>
    decreases ts.len() - k,
    when 0 <= k
    via items_decreases
{
    if k >= ts.len() {
        Parsed::Done { value: Seq::empty(), next: k }
    } else {
        match item_at(ts, k) {
            Parsed::Done { value, next } => match items_at(ts, next) {
                Parsed::Done { value: rest, next } => Parsed::Done {
                    value: seq![value] + rest,
                    next,
                },
                Parsed::Failed { error, at } => Parsed::Failed { error, at },
            },
            Parsed::Failed { error, at } => Parsed::Failed { error, at },
        }
    }
}

#[via_fn]
proof fn items_decreases(ts: Seq<Lexeme>, k: int) {
    if k < ts.len() {
        item_bounds(ts, k);
    }
}

/// A block that was read ends after the place where it started and within
/// the input; a block that failed, failed within the input.
pub proof fn field_list_bounds(ts: Seq<Lexeme>, k: int)
    requires
        0 <= k <= ts.len(),
    ensures
        match field_list_at(ts, k) {
            Parsed::Done { value, next } => k < next <= ts.len(),
            Parsed::Failed { error, at } => k <= at <= ts.len(),
        },
    decreases ts.len() - k,
{
    let j = after_comment(ts, k);
    match name_at(ts, j) {
        Parsed::Done { value: name, next } => {
            match literal_at(ts, next) {
                Parsed::Done { value, next: after } => {
                    field_list_bounds(ts, after);
                },
                Parsed::Failed { error, at } => {},
            }
        },
        Parsed::Failed { error, at } => {},
    }
}

/// An item that was read ends after the place where it started and within
/// the input.
pub proof fn item_bounds(ts: Seq<Lexeme>, k: int)
    requires
        0 <= k < ts.len(),
    ensures
        match item_at(ts, k) {
            Parsed::Done { value, next } => k < next <= ts.len(),
            Parsed::Failed { error, at } => k <= at <= ts.len(),
        },
{
    if k + 3 <= ts.len() {
        field_list_bounds(ts, k + 3);
    }
    if k + 5 <= ts.len() {
        field_list_bounds(ts, k + 5);
    }
}

} // verus!
