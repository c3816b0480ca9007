//! The canonical order of the extensions: the order of their declaration.

use crate::extension::ValidFileExtensions;
use core::cmp::Ordering;
use vstd::prelude::*;
use vstd::relations::{sorted_by, total_ordering};
use vstd::seq_lib::lemma_sorted_unique;
use vstd::std_specs::cmp::PartialOrdSpec;

verus! {

impl ValidFileExtensions {
    /// The position of the extension in the canonical order, counted from
    /// zero.
    pub open spec fn ordinal(self) -> int {
        match self {
            Self::Msix => 0,
            Self::Msi => 1,
            Self::Appx => 2,
            Self::Exe => 3,
            Self::Zip => 4,
            Self::MsixBundle => 5,
            Self::AppxBundle => 6,
            Self::Otf => 7,
            Self::Ttf => 8,
            Self::Fnt => 9,
            Self::Ttc => 10,
            Self::Otc => 11,
        }
    }

    /// All extensions, in canonical order.
    pub open spec fn variants() -> Seq<Self> {
        seq![
            Self::Msix,
            Self::Msi,
            Self::Appx,
            Self::Exe,
            Self::Zip,
            Self::MsixBundle,
            Self::AppxBundle,
            Self::Otf,
            Self::Ttf,
            Self::Fnt,
            Self::Ttc,
            Self::Otc,
        ]
    }

    /// Whether `self` comes before `other` in the canonical order, or is
    /// `other`.
    pub open spec fn precedes_or_is(self, other: Self) -> bool {
        self.ordinal() <= other.ordinal()
    }

    /// The canonical order as a relation on extensions.
    pub open spec fn canonical_order() -> spec_fn(Self, Self) -> bool {
        |a: Self, b: Self| a.precedes_or_is(b)
    }

    /// Computes the position of the extension in the canonical order.
    fn rank(&self) -> (r: u8)
        ensures
            r == self.ordinal(),
    {
        match self {
            Self::Msix => 0,
            Self::Msi => 1,
            Self::Appx => 2,
            Self::Exe => 3,
            Self::Zip => 4,
            Self::MsixBundle => 5,
            Self::AppxBundle => 6,
            Self::Otf => 7,
            Self::Ttf => 8,
            Self::Fnt => 9,
            Self::Ttc => 10,
            Self::Otc => 11,
        }
    }
}

impl PartialOrd for ValidFileExtensions {
    /// Compares two extensions by their positions in the canonical order.
    fn partial_cmp(&self, other: &Self) -> (order: Option<Ordering>) {
        let a: u8 = self.rank();
        let b: u8 = other.rank();
        if a < b {
            Some(Ordering::Less)
        } else if a == b {
            Some(Ordering::Equal)
        } else {
            Some(Ordering::Greater)
        }
    }
}

impl vstd::std_specs::cmp::PartialOrdSpecImpl for ValidFileExtensions {
    open spec fn obeys_partial_cmp_spec() -> bool {
        true
    }

    open spec fn partial_cmp_spec(&self, other: &Self) -> Option<Ordering> {
        if self.ordinal() < other.ordinal() {
            Some(Ordering::Less)
        } else if self.ordinal() == other.ordinal() {
            Some(Ordering::Equal)
        } else {
            Some(Ordering::Greater)
        }
    }
}

/// Comparing two extensions compares their positions in the canonical
/// order, and only an extension itself sits at its position.
pub proof fn lemma_compare_by_position(a: ValidFileExtensions, b: ValidFileExtensions)
    ensures
        a.partial_cmp_spec(&b) == Some(Ordering::Less) <==> a.ordinal() < b.ordinal(),
        a.partial_cmp_spec(&b) == Some(Ordering::Equal) <==> a == b,
        a.partial_cmp_spec(&b) == Some(Ordering::Greater) <==> a.ordinal() > b.ordinal(),
        a.precedes_or_is(b) <==> a.partial_cmp_spec(&b) != Some(Ordering::Greater),
{
}

/// The list of all extensions holds each extension once, at its position.
pub proof fn lemma_variants_complete()
    ensures
        ValidFileExtensions::variants().len() == 12,
        forall|v: ValidFileExtensions|
            0 <= #[trigger] v.ordinal() < 12 && ValidFileExtensions::variants()[v.ordinal()] == v,
        forall|i: int|
            0 <= i < 12 ==> (#[trigger] ValidFileExtensions::variants()[i]).ordinal() == i,
        ValidFileExtensions::variants().no_duplicates(),
{
    let all = ValidFileExtensions::variants();
    assert forall|i: int| 0 <= i < 12 implies (#[trigger] all[i]).ordinal() == i by {}
}

/// The canonical order is a total order on the extensions.
pub proof fn lemma_canonical_order_is_total()
    ensures
        total_ordering(ValidFileExtensions::canonical_order()),
{
    let le = ValidFileExtensions::canonical_order();
    assert forall|x: ValidFileExtensions, y: ValidFileExtensions|
        #[trigger] le(x, y) && #[trigger] le(y, x) implies x == y by {
        lemma_compare_by_position(x, y);
    }
}

/// Sorting any arrangement of all twelve extensions by the canonical order
/// yields them in the order of their declaration.
pub proof fn lemma_sorting_gives_declaration_order(arrangement: Seq<ValidFileExtensions>)
    requires
        arrangement.to_multiset() == ValidFileExtensions::variants().to_multiset(),
    ensures
        arrangement.sort_by(ValidFileExtensions::canonical_order())
            == ValidFileExtensions::variants(),
{
    let le = ValidFileExtensions::canonical_order();
    let all = ValidFileExtensions::variants();
    lemma_canonical_order_is_total();
    lemma_variants_complete();
    arrangement.lemma_sort_by_ensures(le);
    assert(sorted_by(all, le)) by {
        assert forall|i: int, j: int| 0 <= i < j < all.len() implies #[trigger] le(
            all[i],
            all[j],
        ) by {}
    }
    lemma_sorted_unique(arrangement.sort_by(le), all, le);
}

} // verus!
