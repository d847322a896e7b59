//! The order of a collection's mods, as `<` and `>` see it.
use vstd::prelude::*;

use std::cmp::Ordering;

use crate::mod_manager::{mod_order, ModMetadata, VersionOrder};

verus! {

/// The `Ordering` that stands for a `VersionOrder`.
pub open spec fn ordering_of(o: VersionOrder) -> Ordering {
    match o {
        VersionOrder::Less => Ordering::Less,
        VersionOrder::Equal => Ordering::Equal,
        VersionOrder::Greater => Ordering::Greater,
    }
}

impl PartialOrd for ModMetadata {
    /// Mods are ordered by `mod_order`; every two mods compare.
    fn partial_cmp(&self, other: &Self) -> (r: Option<Ordering>) {
        Some(
            match self.compare(other) {
                VersionOrder::Less => Ordering::Less,
                VersionOrder::Equal => Ordering::Equal,
                VersionOrder::Greater => Ordering::Greater,
            },
        )
    }
}

impl vstd::std_specs::cmp::PartialOrdSpecImpl for ModMetadata {
    open spec fn obeys_partial_cmp_spec() -> bool {
        true
    }

    open spec fn partial_cmp_spec(&self, other: &Self) -> Option<Ordering> {
        Some(ordering_of(mod_order(*self, *other)))
    }
}

} // verus!
