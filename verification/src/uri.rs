use vstd::prelude::*;
use vstd::string::StringExecFns;
use crate::text::{chars_of, is_prefix, string_of};

verus! {

/// The text of the reserved URI that stands for "not resolved yet".
pub open spec fn unresolved_text() -> Seq<char> {
    "lore:uri:unresolved"@
}

/// `base` with `segment` appended as one more path segment.
pub open spec fn join_text(base: Seq<char>, segment: Seq<char>) -> Seq<char> {
    base + seq!['/'] + segment
}

/// Whether `text` starts with the marker of a prefixed name, `@`.
pub open spec fn is_prefixed_text(text: Seq<char>) -> bool {
    text.len() > 0 && text[0] == '@'
}

/// `text` with a leading `prefix` replaced by `expanded`; `text` itself where
/// it does not start with `prefix`.
pub open spec fn expand_prefix_text(text: Seq<char>, prefix: Seq<char>, expanded: Seq<char>) -> Seq<
    char,
> {
    if prefix.is_prefix_of(text) {
        expanded + text.skip(prefix.len() as int)
    } else {
        text
    }
}

/// An absolute identifier, held as text.
#[derive(Debug, Hash, PartialEq, Eq, PartialOrd, Ord)]
pub struct URI(String);

impl View for URI {
    type V = Seq<char>;

    closed spec fn view(&self) -> Seq<char> {
        self.0@
    }
}

impl Clone for URI {
    fn clone(&self) -> (r: Self)
        ensures
            r@ == self@,
    {
        URI(self.0.clone())
    }
}

impl Default for URI {
    fn default() -> (r: Self)
        ensures
            r@ == Seq::<char>::empty(),
    {
        URI(String::new())
    }
}

impl URI {
    /// The reserved URI of a name that is not resolved yet.
    pub fn unresolved() -> (r: URI)
        ensures
            r@ == unresolved_text(),
    {
        URI(String::from_str("lore:uri:unresolved"))
    }

    pub fn from_string(uri: String) -> (r: URI)
        ensures
            r@ == uri@,
    {
        URI(uri)
    }

    /// The text of this URI.
    pub fn to_string(&self) -> (r: String)
        ensures
            r@ == self@,
    {
        self.0.clone()
    }

    /// Appends `uri` as one more path segment.
    pub fn join(&self, uri: &str) -> (r: URI)
        ensures
            r@ == join_text(self@, uri@),
    {
        proof {
            reveal_strlit("/");
        }
        URI(self.0.clone().concat("/").concat(uri))
    }

    /// Whether this URI still awaits the substitution of a prefix.
    pub fn is_prefixed(&self) -> (r: bool)
        ensures
            r == is_prefixed_text(self@),
    {
        let chars = chars_of(self.0.as_str());
        chars.len() > 0 && chars[0] == '@'
    }

    /// Whether the text of this URI starts with `prefix`.
    pub fn has_prefix(&self, prefix: &str) -> (r: bool)
        ensures
            r == prefix@.is_prefix_of(self@),
    {
        let chars = chars_of(self.0.as_str());
        let wanted = chars_of(prefix);
        is_prefix(wanted.as_slice(), chars.as_slice())
    }

    /// Replaces a leading `prefix` by the text of `expanded`.
    pub fn expand_prefix(&self, prefix: &str, expanded: &URI) -> (r: URI)
        ensures
            r@ == expand_prefix_text(self@, prefix@, expanded@),
    {
        let chars = chars_of(self.0.as_str());
        let wanted = chars_of(prefix);
        if is_prefix(wanted.as_slice(), chars.as_slice()) {
            let rest = string_of(vstd::slice::slice_subrange(chars.as_slice(), wanted.len(), chars.len()));
            proof {
                assert(chars@.subrange(wanted@.len() as int, chars@.len() as int) =~= self@.skip(
                    prefix@.len() as int,
                ));
            }
            URI(expanded.0.clone().concat(rest.as_str()))
        } else {
            URI(self.0.clone())
        }
    }

    /// Whether the two URIs hold the same text.
    pub fn same_as(&self, other: &URI) -> (r: bool)
        ensures
            r == (self@ == other@),
    {
        self.0 == other.0
    }
}

} // verus!
