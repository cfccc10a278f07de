use vstd::prelude::*;
use crate::text::{chars_of, is_prefix};
use crate::uri::{expand_prefix_text, URI};

verus! {

/// The length of the longest alias of `prefixes`, among those of at most
/// `n` characters, that stands at the start of `raw`; `None` where no such
/// alias stands there.
pub open spec fn longest_alias(prefixes: Map<Seq<char>, Seq<char>>, raw: Seq<char>, n: nat) -> Option<
    nat,
>
    decreases n,
{
    if n <= raw.len() && prefixes.contains_key(raw.take(n as int)) {
        Some(n)
    } else if n == 0 {
        None
    } else {
        longest_alias(prefixes, raw, (n - 1) as nat)
    }
}

/// `raw` with the longest alias at its start replaced by what the alias
/// stands for; `None` where no alias stands at its start.
pub open spec fn expand_longest_alias(prefixes: Map<Seq<char>, Seq<char>>, raw: Seq<char>) -> Option<
    Seq<char>,
> {
    match longest_alias(prefixes, raw, raw.len()) {
        Some(n) => {
            let alias = raw.take(n as int);
            Some(expand_prefix_text(raw, alias, prefixes[alias]))
        },
        None => None,
    }
}

/// The longest alias is an alias of the map that stands at the start of the
/// text, and no longer one does.
pub proof fn longest_alias_is_longest(prefixes: Map<Seq<char>, Seq<char>>, raw: Seq<char>, top: nat)
    requires
        top <= raw.len(),
    ensures
        match longest_alias(prefixes, raw, top) {
            Some(n) => n <= top && prefixes.contains_key(raw.take(n as int)) && forall|m: nat|
                n < m <= top ==> !prefixes.contains_key(#[trigger] raw.take(m as int)),
            None => forall|m: nat| m <= top ==> !prefixes.contains_key(#[trigger] raw.take(m as int)),
        },
    decreases top,
{
    if prefixes.contains_key(raw.take(top as int)) {
    } else if top > 0 {
        longest_alias_is_longest(prefixes, raw, (top - 1) as nat);
    }
}

/// An alias of the map that stands at the start of the text, with no longer
/// one that does, is the longest alias.
pub proof fn longest_alias_found(
    prefixes: Map<Seq<char>, Seq<char>>,
    raw: Seq<char>,
    alias: Seq<char>,
)
    requires
        prefixes.contains_key(alias),
        alias.is_prefix_of(raw),
        forall|other: Seq<char>| #[trigger]
            prefixes.contains_key(other) && other.is_prefix_of(raw) ==> other.len() <= alias.len(),
    ensures
        longest_alias(prefixes, raw, raw.len()) == Some(alias.len()),
        raw.take(alias.len() as int) == alias,
{
    longest_alias_is_longest(prefixes, raw, raw.len());
    match longest_alias(prefixes, raw, raw.len()) {
        Some(n) => {
            let found = raw.take(n as int);
            assert(found.is_prefix_of(raw));
        },
        None => {},
    }
}

/// No alias of the map stands at the start of the text.
pub proof fn longest_alias_missing(prefixes: Map<Seq<char>, Seq<char>>, raw: Seq<char>)
    requires
        forall|other: Seq<char>| #[trigger] prefixes.contains_key(other) ==> !other.is_prefix_of(raw),
    ensures
        longest_alias(prefixes, raw, raw.len()) is None,
{
    longest_alias_is_longest(prefixes, raw, raw.len());
}

/// One `prefix` directive: the alias and the URI that it stands for.
#[derive(Debug, PartialEq, Eq)]
pub struct PrefixEntry {
    pub alias: String,
    pub uri: URI,
}

/// The map that a list of entries stands for: a later entry replaces an
/// earlier one with the same alias.
pub open spec fn entries_map(entries: Seq<PrefixEntry>) -> Map<Seq<char>, Seq<char>>
    decreases entries.len(),
{
    if entries.len() == 0 {
        Map::empty()
    } else {
        entries_map(entries.drop_last()).insert(entries.last().alias@, entries.last().uri@)
    }
}

/// The aliases of a file, each with the URI that it stands for.
#[derive(Debug, PartialEq, Eq)]
pub struct PrefixMap {
    entries: Vec<PrefixEntry>,
}

impl View for PrefixMap {
    type V = Map<Seq<char>, Seq<char>>;

    closed spec fn view(&self) -> Map<Seq<char>, Seq<char>> {
        entries_map(self.entries@)
    }
}

impl PrefixMap {
    /// The map without aliases.
    pub fn new() -> (r: PrefixMap)
        ensures
            r@ == Map::<Seq<char>, Seq<char>>::empty(),
    {
        PrefixMap { entries: Vec::new() }
    }

    /// Lets `alias` stand for `uri`, whatever it stood for before.
    pub fn insert(&mut self, alias: String, uri: URI)
        ensures
            final(self)@ == old(self)@.insert(alias@, uri@),
    {
        self.entries.push(PrefixEntry { alias, uri });
        proof {
            assert(self.entries@.drop_last() =~= old(self).entries@);
        }
    }

}

impl Clone for PrefixMap {
    fn clone(&self) -> (r: Self)
        ensures
            r@ == self@,
    {
        let mut entries: Vec<PrefixEntry> = Vec::new();
        let mut i: usize = 0;
        while i < self.entries.len()
            invariant
                i <= self.entries.len(),
                entries.len() == i,
                entries_map(entries@) == entries_map(self.entries@.take(i as int)),
            decreases self.entries.len() - i,
        {
            let entry = &self.entries[i];
            let ghost before = entries@;
            entries.push(PrefixEntry { alias: entry.alias.clone(), uri: entry.uri.clone() });
            proof {
                assert(entries@.drop_last() =~= before);
                assert(self.entries@.take(i + 1).drop_last() =~= self.entries@.take(i as int));
            }
            i += 1;
        }
        proof {
            assert(self.entries@.take(i as int) =~= self.entries@);
        }
        PrefixMap { entries }
    }
}

impl PrefixMap {
    /// Replaces the longest alias at the start of `uri` by what it stands
    /// for.
    pub fn expand(&self, uri: &URI) -> (r: Option<URI>)
        ensures
            match expand_longest_alias(self@, uri@) {
                Some(text) => r matches Some(found) && found@ == text,
                None => r is None,
            },
    {
        let raw = chars_of(uri.to_string().as_str());
        let mut best: Option<usize> = None;
        let mut best_len: usize = 0;
        let mut i: usize = 0;
        while i < self.entries.len()
            invariant
                i <= self.entries.len(),
                raw@ == uri@,
                match best {
                    Some(j) => {
                        let alias = self.entries@[j as int].alias@;
                        &&& j < i
                        &&& best_len == alias.len()
                        &&& alias.is_prefix_of(raw@)
                        &&& entries_map(self.entries@.take(i as int)).contains_key(alias)
                        &&& entries_map(self.entries@.take(i as int))[alias]
                            == self.entries@[j as int].uri@
                        &&& forall|other: Seq<char>| #[trigger]
                            entries_map(self.entries@.take(i as int)).contains_key(other)
                                && other.is_prefix_of(raw@) ==> other.len() <= alias.len()
                    },
                    None => forall|other: Seq<char>| #[trigger]
                        entries_map(self.entries@.take(i as int)).contains_key(other)
                            ==> !other.is_prefix_of(raw@),
                },
            decreases self.entries.len() - i,
        {
            let alias = chars_of(self.entries[i].alias.as_str());
            let ghost before = entries_map(self.entries@.take(i as int));
            let ghost after = entries_map(self.entries@.take(i + 1));
            let ghost old_best = best;
            proof {
                assert(self.entries@.take(i + 1).drop_last() =~= self.entries@.take(i as int));
                assert(after == before.insert(alias@, self.entries@[i as int].uri@));
            }
            let hit = is_prefix(alias.as_slice(), raw.as_slice());
            let longer = match best {
                Some(_) => alias.len() >= best_len,
                None => true,
            };
            if hit && longer {
                best = Some(i);
                best_len = alias.len();
            }
            proof {
                if hit && longer {
                    assert forall|other: Seq<char>| #[trigger]
                        after.contains_key(other) && other.is_prefix_of(raw@) implies other.len()
                        <= alias@.len() by {}
                } else if old_best is Some {
                    let kept = self.entries@[old_best->0 as int].alias@;
                    assert forall|other: Seq<char>| #[trigger]
                        after.contains_key(other) && other.is_prefix_of(raw@) implies other.len()
                        <= kept.len() by {}
                } else {
                    assert forall|other: Seq<char>| #[trigger]
                        after.contains_key(other) implies !other.is_prefix_of(raw@) by {}
                }
            }
            i += 1;
        }
        proof {
            assert(self.entries@.take(i as int) =~= self.entries@);
        }
        match best {
            Some(j) => {
                proof {
                    longest_alias_found(self@, uri@, self.entries@[j as int].alias@);
                }
                let entry = &self.entries[j];
                Some(uri.expand_prefix(entry.alias.as_str(), &entry.uri))
            },
            None => {
                proof {
                    longest_alias_missing(self@, uri@);
                }
                None
            },
        }
    }
}

} // verus!
