//! Interaction layers: a 32-bit layer mask and the mutual-consent rule
//! that decides whether two bodies attract each other.

use vstd::prelude::*;

verus! {

/// A fixed-width bit field: each of the 32 bits names one interaction
/// layer. Pure value type; the bitwise operations return new masks.
#[derive(Clone, Copy, PartialEq, Eq, Structural, Debug)]
pub struct LayerMask {
    pub bits: u32,
}

/// True when the two masks share at least one layer.
pub open spec fn mask_intersects(a: LayerMask, b: LayerMask) -> bool {
    a.bits & b.bits != 0u32
}

impl LayerMask {
    /// Wraps an arbitrary bit pattern; every pattern is legal.
    pub fn new(bits: u32) -> (r: LayerMask)
        ensures
            r.bits == bits,
    {
        LayerMask { bits }
    }

    /// The mask with every layer set.
    pub fn all() -> (r: LayerMask)
        ensures
            r.bits == 0xFFFF_FFFFu32,
    {
        LayerMask { bits: 0xFFFF_FFFF }
    }

    /// The mask with no layer set.
    pub fn empty() -> (r: LayerMask)
        ensures
            r.bits == 0u32,
    {
        LayerMask { bits: 0 }
    }

    /// The well-known default layer: bit zero alone.
    pub fn default_layer() -> (r: LayerMask)
        ensures
            r.bits == 1u32,
    {
        LayerMask { bits: 1 }
    }

    /// True when `self` and `other` share at least one layer.
    pub fn intersects(self, other: LayerMask) -> (r: bool)
        ensures
            r == mask_intersects(self, other),
    {
        self.bits & other.bits != 0
    }

    /// Bitwise OR: membership in either mask.
    pub fn union(self, other: LayerMask) -> (r: LayerMask)
        ensures
            r.bits == (self.bits | other.bits),
    {
        LayerMask { bits: self.bits | other.bits }
    }

    /// Bitwise AND: the layers the two masks share.
    pub fn intersection(self, other: LayerMask) -> (r: LayerMask)
        ensures
            r.bits == (self.bits & other.bits),
    {
        LayerMask { bits: self.bits & other.bits }
    }

    /// Bitwise NOT: every layer the mask does not hold.
    pub fn complement(self) -> (r: LayerMask)
        ensures
            r.bits == !self.bits,
    {
        LayerMask { bits: !self.bits }
    }
}

/// One named interaction layer. The host assigns bits at startup: the
/// default layer takes bit zero, the level layer bit one.
#[derive(Clone, Copy, PartialEq, Eq, Structural, Debug)]
pub enum GravityLayer {
    Main,
    Level,
}

impl GravityLayer {
    /// The single-bit mask of this layer.
    pub fn mask(self) -> (r: LayerMask)
        ensures
            self is Main ==> r.bits == 1u32,
            self is Level ==> r.bits == 2u32,
    {
        match self {
            GravityLayer::Main => LayerMask { bits: 1 },
            GravityLayer::Level => LayerMask { bits: 2 },
        }
    }
}

/// A body's layer-mask pair: `memberships` says which layers the body
/// belongs to, `filters` which layers may act on it.
#[derive(Clone, Copy, PartialEq, Eq, Structural, Debug)]
pub struct GravityLayers {
    pub memberships: LayerMask,
    pub filters: LayerMask,
}

/// The mutual-consent interaction rule: two bodies attract each other
/// iff each one's memberships pass the other's filter.
pub open spec fn interacts(a: GravityLayers, b: GravityLayers) -> bool {
    mask_intersects(a.memberships, b.filters) && mask_intersects(b.memberships, a.filters)
}

impl GravityLayers {
    pub fn new(memberships: LayerMask, filters: LayerMask) -> (r: GravityLayers)
        ensures
            r.memberships == memberships,
            r.filters == filters,
    {
        GravityLayers { memberships, filters }
    }

    /// Builds the pair straight from two bit patterns.
    pub fn from_bits(memberships: u32, filters: u32) -> (r: GravityLayers)
        ensures
            r.memberships.bits == memberships,
            r.filters.bits == filters,
    {
        GravityLayers { memberships: LayerMask { bits: memberships }, filters: LayerMask { bits: filters } }
    }

    /// Member of every layer, filtering nothing out.
    pub fn all() -> (r: GravityLayers)
        ensures
            r.memberships.bits == 0xFFFF_FFFFu32,
            r.filters.bits == 0xFFFF_FFFFu32,
    {
        GravityLayers { memberships: LayerMask { bits: 0xFFFF_FFFF }, filters: LayerMask { bits: 0xFFFF_FFFF } }
    }

    /// Member of no layer, letting nothing act on it.
    pub fn none_at_all() -> (r: GravityLayers)
        ensures
            r.memberships.bits == 0u32,
            r.filters.bits == 0u32,
    {
        GravityLayers { memberships: LayerMask { bits: 0 }, filters: LayerMask { bits: 0 } }
    }

    /// Member of every layer, letting nothing act on it.
    pub fn all_memberships() -> (r: GravityLayers)
        ensures
            r.memberships.bits == 0xFFFF_FFFFu32,
            r.filters.bits == 0u32,
    {
        GravityLayers { memberships: LayerMask { bits: 0xFFFF_FFFF }, filters: LayerMask { bits: 0 } }
    }

    /// Member of no layer, open to every layer.
    pub fn all_filters() -> (r: GravityLayers)
        ensures
            r.memberships.bits == 0u32,
            r.filters.bits == 0xFFFF_FFFFu32,
    {
        GravityLayers { memberships: LayerMask { bits: 0 }, filters: LayerMask { bits: 0xFFFF_FFFF } }
    }

    /// True when `self` and `other` mutually consent to interact.
    pub fn interacts_with(self, other: GravityLayers) -> (r: bool)
        ensures
            r == interacts(self, other),
    {
        self.memberships.intersects(other.filters) && other.memberships.intersects(self.filters)
    }
}

impl Default for GravityLayers {
    /// Member of the default layer alone, open to every layer.
    fn default() -> (r: GravityLayers)
        ensures
            r.memberships.bits == 1u32,
            r.filters.bits == 0xFFFF_FFFFu32,
    {
        GravityLayers { memberships: LayerMask { bits: 1 }, filters: LayerMask { bits: 0xFFFF_FFFF } }
    }
}

/// The mutual-consent rule reads the same from either side: swapping the
/// two bodies never changes whether they interact.
pub proof fn lemma_interacts_symmetric(a: GravityLayers, b: GravityLayers)
    ensures
        interacts(a, b) == interacts(b, a),
{
}

} // verus!
