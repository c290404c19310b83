//! The prefix of a resource identifier and its canonical text form.

use vstd::prelude::*;

use crate::text::str_eq;

verus! {

/// What `str::to_lowercase` returns for a given character sequence: Unicode
/// lower-casing, too large to write out, and a function of the characters
/// alone.
pub uninterp spec fn lower_of(s: Seq<char>) -> Seq<char>;

/// Relies on `str::to_lowercase`: the result depends on the characters
/// alone, and a string already in lowercase — such as `acct` or `group` —
/// comes back unchanged.
#[verifier::external_body]
fn lowercase(s: &str) -> (r: String)
    ensures
        r@ == lower_of(s@),
        s@ == "acct"@ ==> r@ == "acct"@,
        s@ == "group"@ ==> r@ == "group"@,
{
    s.to_lowercase()
}

/// A prefix for a resource, either `acct:`, `group:` or some custom type.
#[derive(Debug, PartialEq, Eq, Clone)]
pub enum Prefix {
    /// `acct:` resource.
    Acct,
    /// `group:` resource.
    Group,
    /// Another type of resource; the text is kept lower-cased when parsed.
    Custom(String),
}

/// The mathematical shape of a [`Prefix`]: custom text as a character sequence.
pub enum PrefixView {
    Acct,
    Group,
    Custom(Seq<char>),
}

impl View for Prefix {
    type V = PrefixView;

    open spec fn view(&self) -> PrefixView {
        match self {
            Prefix::Acct => PrefixView::Acct,
            Prefix::Group => PrefixView::Group,
            Prefix::Custom(s) => PrefixView::Custom(s@),
        }
    }
}

impl PrefixView {
    /// The canonical text of a prefix: `acct`, `group`, or the custom text.
    pub open spec fn text(self) -> Seq<char> {
        match self {
            PrefixView::Acct => "acct"@,
            PrefixView::Group => "group"@,
            PrefixView::Custom(s) => s,
        }
    }

    /// The same prefix with its custom text lower-cased.
    pub open spec fn lowered(self) -> PrefixView {
        match self {
            PrefixView::Custom(s) => PrefixView::Custom(lower_of(s)),
            p => p,
        }
    }
}

/// What a raw prefix token parses to: matched case-insensitively against
/// `acct` and `group`, any other token becoming [`PrefixView::Custom`] with
/// the lower-cased token.
pub open spec fn prefix_from_spec(token: Seq<char>) -> PrefixView {
    let low = lower_of(token);
    if low == "acct"@ {
        PrefixView::Acct
    } else if low == "group"@ {
        PrefixView::Group
    } else {
        PrefixView::Custom(low)
    }
}

impl Prefix {
    /// Parses a raw prefix token, case-insensitively. The canonical texts
    /// `acct` and `group` always parse to their builtin variants.
    pub fn from(s: &str) -> (r: Prefix)
        ensures
            r@ == prefix_from_spec(s@),
            s@ == "acct"@ ==> r@ == PrefixView::Acct,
            s@ == "group"@ ==> r@ == PrefixView::Group,
    {
        proof {
            reveal_strlit("acct");
            reveal_strlit("group");
            assert("acct"@.len() == 4 && "group"@.len() == 5);
        }
        let low = lowercase(s);
        if str_eq(low.as_str(), "acct") {
            Prefix::Acct
        } else if str_eq(low.as_str(), "group") {
            Prefix::Group
        } else {
            Prefix::Custom(low)
        }
    }

    /// The canonical text form of this prefix.
    pub fn text(&self) -> (r: String)
        ensures
            r@ == self@.text(),
    {
        match self {
            Prefix::Acct => "acct".to_owned(),
            Prefix::Group => "group".to_owned(),
            Prefix::Custom(s) => s.clone(),
        }
    }
}

/// Canonicalization round trip: parsing the canonical text of a prefix
/// yields the prefix itself, its custom text lower-cased.
///
/// The first two premises are what `str::to_lowercase` returns on the two
/// canonical texts; [`Prefix::from`]'s contract derives them at any call on
/// those strings, and they stand here as premises because only a run of the
/// folding itself can witness them. The third leaves out the one family of
/// inputs on which the property cannot hold: a custom prefix whose text
/// lower-cases to `acct` or `group` parses to the builtin variant instead of
/// staying custom.
pub proof fn lemma_prefix_text_round_trip(p: PrefixView)
    requires
        lower_of("acct"@) == "acct"@,
        lower_of("group"@) == "group"@,
        p matches PrefixView::Custom(s) ==> lower_of(s) != "acct"@ && lower_of(s) != "group"@,
    ensures
        prefix_from_spec(p.text()) == p.lowered(),
{
    reveal_strlit("acct");
    reveal_strlit("group");
    assert("acct"@.len() == 4 && "group"@.len() == 5);
}

} // verus!
