//! A bus assembled from several components, each a [`Bus`] of its own, with
//! declared mirror ranges: pairs of address windows meant to show the same
//! bytes.

use vstd::prelude::*;

use crate::mos6502::Bus;

verus! {

/// Rejection of a composite bus description.
#[derive(Clone, Copy, Debug, PartialEq, Eq, Structural)]
pub enum CompositeBusError {
    /// The two windows of a mirror range span different numbers of
    /// addresses.
    MirrorRangeMagnitude(u16, u16),
    /// Two mirror ranges overlap.
    MirrorRangeOverlap(u16, u16, u16, u16),
}

/// A pair of address windows, each an inclusive pair of bounds, meant to
/// mirror each other.
pub type MirrorRange = ((u16, u16), (u16, u16));

/// Several component buses behind one front, with the declared mirror
/// ranges kept alongside them.
pub struct CompositeBus<T: Bus> {
    components: Vec<T>,
    mirror_address_ranges: Vec<MirrorRange>,
}

/// Lexicographic order on a pair of addresses, as the bound pairs of a
/// mirror range are compared.
pub open spec fn pair_le(a: (u16, u16), b: (u16, u16)) -> bool {
    a.0 < b.0 || (a.0 == b.0 && a.1 <= b.1)
}

/// Whether two mirror ranges overlap: each one's start does not lie past
/// the other's end, in the lexicographic order of bound pairs.
pub open spec fn ranges_overlap_pair(x: MirrorRange, y: MirrorRange) -> bool {
    pair_le(x.0, y.1) && pair_le(y.0, x.1)
}

/// Lexicographic comparison of two bound pairs.
fn pair_le_exec(a: (u16, u16), b: (u16, u16)) -> (r: bool)
    ensures
        r == pair_le(a, b),
{
    a.0 < b.0 || (a.0 == b.0 && a.1 <= b.1)
}

/// Whether any two of the given mirror ranges overlap.
pub fn ranges_overlap(ranges: &Vec<MirrorRange>) -> (r: bool)
    ensures
        r == exists|i: int, j: int|
            0 <= i < j < ranges@.len() && ranges_overlap_pair(
                #[trigger] ranges@[i],
                #[trigger] ranges@[j],
            ),
{
    let mut i: usize = 0;
    while i < ranges.len()
        invariant
            i <= ranges@.len(),
            forall|x: int, y: int|
                0 <= x < i && x < y < ranges@.len() ==> !ranges_overlap_pair(
                    #[trigger] ranges@[x],
                    #[trigger] ranges@[y],
                ),
        decreases ranges@.len() - i,
    {
        let mut j: usize = i + 1;
        while j < ranges.len()
            invariant
                i < j,
                j <= ranges@.len(),
                i < ranges@.len(),
                forall|y: int| i < y < j ==> !ranges_overlap_pair(ranges@[i as int], #[trigger] ranges@[y]),
            decreases ranges@.len() - j,
        {
            if pair_le_exec(ranges[i].0, ranges[j].1) && pair_le_exec(ranges[j].0, ranges[i].1) {
                assert(ranges_overlap_pair(ranges@[i as int], ranges@[j as int]));
                return true;
            }
            j += 1;
        }
        i += 1;
    }
    false
}

impl<T: Bus> CompositeBus<T> {
    /// The component buses, in their given order.
    pub closed spec fn spec_components(&self) -> Seq<T> {
        self.components@
    }

    /// The declared mirror ranges, in their given order.
    pub closed spec fn spec_mirror_ranges(&self) -> Seq<MirrorRange> {
        self.mirror_address_ranges@
    }

    /// Assembles a composite bus from its components and mirror ranges,
    /// keeping both as given.
    pub fn new(components: Vec<T>, mirror_address_ranges: Vec<MirrorRange>) -> (r: Result<
        CompositeBus<T>,
        CompositeBusError,
    >)
        ensures
            r matches Ok(bus) ==> {
                &&& bus.spec_components() == components@
                &&& bus.spec_mirror_ranges() == mirror_address_ranges@
            },
            r is Ok,
    {
        Ok(CompositeBus { components, mirror_address_ranges })
    }
}

} // verus!
