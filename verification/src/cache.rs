//! Keys under which loaded ROM lists are cached: one entry per console or collection.

use vstd::prelude::*;
use vstd::std_specs::cmp::PartialEqSpecImpl;
use crate::text::str_eq;

verus! {

/// Cache key for ROMs: one entry per console or collection.
#[derive(Clone, Debug, Eq, Hash)]
pub enum RomCacheKey {
    Platform(u64),
    Collection(u64),
    SmartCollection(u64),
    VirtualCollection(String),
}

/// Mathematical form of a cache key (the virtual collection id as characters).
pub enum RomCacheKeyView {
    Platform(u64),
    Collection(u64),
    SmartCollection(u64),
    VirtualCollection(Seq<char>),
}

impl View for RomCacheKey {
    type V = RomCacheKeyView;

    open spec fn view(&self) -> RomCacheKeyView {
        match self {
            RomCacheKey::Platform(id) => RomCacheKeyView::Platform(*id),
            RomCacheKey::Collection(id) => RomCacheKeyView::Collection(*id),
            RomCacheKey::SmartCollection(id) => RomCacheKeyView::SmartCollection(*id),
            RomCacheKey::VirtualCollection(s) => RomCacheKeyView::VirtualCollection(s@),
        }
    }
}

/// Optional key as its view.
pub open spec fn opt_key_view(k: Option<RomCacheKey>) -> Option<RomCacheKeyView> {
    match k {
        Some(k) => Some(k@),
        None => None,
    }
}

impl PartialEq for RomCacheKey {
    fn eq(&self, other: &RomCacheKey) -> (r: bool) {
        match (self, other) {
            (RomCacheKey::Platform(a), RomCacheKey::Platform(b)) => *a == *b,
            (RomCacheKey::Collection(a), RomCacheKey::Collection(b)) => *a == *b,
            (RomCacheKey::SmartCollection(a), RomCacheKey::SmartCollection(b)) => *a == *b,
            (RomCacheKey::VirtualCollection(a), RomCacheKey::VirtualCollection(b)) => str_eq(
                a.as_str(),
                b.as_str(),
            ),
            _ => false,
        }
    }
}

impl PartialEqSpecImpl for RomCacheKey {
    open spec fn obeys_eq_spec() -> bool {
        true
    }

    open spec fn eq_spec(&self, other: &RomCacheKey) -> bool {
        self@ == other@
    }
}

impl RomCacheKey {
    /// An independent copy of the key.
    pub fn duplicate(&self) -> (r: RomCacheKey)
        ensures
            r@ == self@,
    {
        match self {
            RomCacheKey::Platform(id) => RomCacheKey::Platform(*id),
            RomCacheKey::Collection(id) => RomCacheKey::Collection(*id),
            RomCacheKey::SmartCollection(id) => RomCacheKey::SmartCollection(*id),
            RomCacheKey::VirtualCollection(s) => RomCacheKey::VirtualCollection(
                crate::text::string_of(s.as_str()),
            ),
        }
    }

    /// Key equality, as a plain method.
    pub fn same(&self, other: &RomCacheKey) -> (r: bool)
        ensures
            r == (self@ == other@),
    {
        match (self, other) {
            (RomCacheKey::Platform(a), RomCacheKey::Platform(b)) => *a == *b,
            (RomCacheKey::Collection(a), RomCacheKey::Collection(b)) => *a == *b,
            (RomCacheKey::SmartCollection(a), RomCacheKey::SmartCollection(b)) => *a == *b,
            (RomCacheKey::VirtualCollection(a), RomCacheKey::VirtualCollection(b)) => str_eq(
                a.as_str(),
                b.as_str(),
            ),
            _ => false,
        }
    }
}

/// Equality of optional keys by their views.
pub fn same_opt_key(a: &Option<RomCacheKey>, b: &Option<RomCacheKey>) -> (r: bool)
    ensures
        r == (opt_key_view(*a) == opt_key_view(*b)),
{
    match (a, b) {
        (Some(x), Some(y)) => x.same(y),
        (None, None) => true,
        _ => false,
    }
}

} // verus!
