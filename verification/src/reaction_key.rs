//! The identity of a reaction, as boards are keyed by it.

use vstd::prelude::*;
use vstd::string::*;

verus! {

/// Whether the emoji catalog of the `emojis` crate lists `symbol`.
pub uninterp spec fn catalog_lists(symbol: Seq<char>) -> bool;

/// `emojis::Emoji`, an entry of the catalog. It is only ever tested for
/// being there: nothing is read from it.
#[verifier::external_type_specification]
#[verifier::external_body]
pub struct ExEmoji(emojis::Emoji);

/// `emojis::get` looks `s` up in the crate's static table of Unicode emoji.
/// The table is fixed when the crate is built, so whether an entry comes
/// back depends on the characters of `s` alone. Nothing is claimed of the
/// entry itself.
pub assume_specification[ emojis::get ](s: &str) -> (entry: Option<&'static emojis::Emoji>)
    ensures
        entry.is_some() == catalog_lists(s@),
;

/// Why a raw reaction cannot key a board.
#[derive(Clone, Copy, Debug, PartialEq, Eq, Structural)]
pub enum UnsupportedReaction {
    /// The input refers to a custom (non-unicode) symbol.
    Custom,
    /// The input is not an emoji of the catalog.
    NotInCatalog,
}

/// The character that marks a reference to a custom symbol.
pub const CUSTOM_MARKER: char = '<';

/// Whether `raw` refers to a custom symbol.
pub open spec fn is_custom(raw: Seq<char>) -> bool {
    raw.contains(CUSTOM_MARKER)
}

/// What becomes of `raw` once the catalog has answered `listed`: custom
/// references are turned away first, then symbols the catalog lacks.
pub open spec fn classified(raw: Seq<char>, listed: bool) -> Result<Seq<char>, UnsupportedReaction> {
    if is_custom(raw) {
        Err(UnsupportedReaction::Custom)
    } else if !listed {
        Err(UnsupportedReaction::NotInCatalog)
    } else {
        Ok(raw)
    }
}

/// Whether `raw` can key a board.
pub open spec fn supported(raw: Seq<char>) -> bool {
    classified(raw, catalog_lists(raw)) is Ok
}

/// Tells whether `c` occurs in `s`.
pub fn has_char(s: &str, c: char) -> (found: bool)
    ensures
        found == s@.contains(c),
{
    for ch in it: s.chars()
        invariant
            it.seq() == s@,
            forall|j: int| 0 <= j < it.index() ==> s@[j] != c,
    {
        if ch == c {
            return true;
        }
    }
    false
}

/// A unicode reaction symbol, compared by its code points. No key refers
/// to a custom symbol.
#[derive(Debug, PartialEq, Eq, Hash)]
pub struct ReactionKey {
    symbol: String,
}

impl View for ReactionKey {
    type V = Seq<char>;

    closed spec fn view(&self) -> Seq<char> {
        self.symbol@
    }
}

impl Clone for ReactionKey {
    fn clone(&self) -> (copy: Self)
        ensures
            copy@ == self@,
    {
        proof {
            use_type_invariant(self);
        }
        ReactionKey { symbol: self.symbol.clone() }
    }
}

/// The code points of a key, or the reason there is none.
pub open spec fn key_view(r: Result<ReactionKey, UnsupportedReaction>) -> Result<
    Seq<char>,
    UnsupportedReaction,
> {
    match r {
        Ok(key) => Ok(key@),
        Err(e) => Err(e),
    }
}

impl ReactionKey {
    #[verifier::type_invariant]
    spec fn never_custom(self) -> bool {
        !is_custom(self.symbol@)
    }

    /// Normalizes a raw reaction. Fails with `Custom` exactly when `raw`
    /// holds the custom marker, and with `NotInCatalog` exactly when it does
    /// not and the catalog has no such emoji.
    pub fn from_raw(raw: &str) -> (r: Result<ReactionKey, UnsupportedReaction>)
        ensures
            key_view(r) == classified(raw@, catalog_lists(raw@)),
    {
        let listed = emojis::get(raw).is_some();
        ReactionKey::classify(raw, listed)
    }

    /// Decides on `raw` given the catalog's answer `listed`.
    pub fn classify(raw: &str, listed: bool) -> (r: Result<ReactionKey, UnsupportedReaction>)
        ensures
            key_view(r) == classified(raw@, listed),
    {
        if has_char(raw, CUSTOM_MARKER) {
            Err(UnsupportedReaction::Custom)
        } else if !listed {
            Err(UnsupportedReaction::NotInCatalog)
        } else {
            Ok(ReactionKey { symbol: String::from_str(raw) })
        }
    }

    /// Structural equality: the same code points in the same order.
    pub fn equals(&self, other: &ReactionKey) -> (same: bool)
        ensures
            same == (self@ == other@),
    {
        self.symbol == other.symbol
    }

    /// Whether the platform's `symbol` names this reaction. A custom
    /// symbol never does.
    pub fn names(&self, symbol: &String) -> (same: bool)
        ensures
            same == (self@ == symbol@),
            is_custom(symbol@) ==> !same,
    {
        proof {
            use_type_invariant(self);
        }
        self.symbol == *symbol
    }

    /// The symbol itself, which holds no custom marker.
    pub fn as_str(&self) -> (s: &str)
        ensures
            s@ == self@,
            !is_custom(s@),
    {
        proof {
            use_type_invariant(self);
        }
        self.symbol.as_str()
    }
}

} // verus!
