//! Floorplanning regions.
//!
//! A region is a named placement constraint: per resource kind, a flag
//! saying whether that kind is constrained at all, and the explicit
//! membership sets a constrained kind is restricted to.

use crate::arch_defs::{BelId, WireId};
use crate::base_types::Loc;
use crate::id_string::IdString;
use vstd::prelude::*;

verus! {

/// A named placement constraint with explicit membership sets.
#[derive(Debug, Clone, PartialEq)]
pub struct Region {
    pub name: IdString,
    /// Whether cells in this region are restricted to `bels`.
    pub constr_bels: bool,
    /// Whether routing in this region is restricted to `wires`.
    pub constr_wires: bool,
    /// Whether routing in this region is restricted to `piplocs`.
    pub constr_pips: bool,
    /// The bels this region admits when `constr_bels` is set.
    pub bels: Vec<BelId>,
    /// The wires this region admits when `constr_wires` is set.
    pub wires: Vec<WireId>,
    /// The pip locations this region admits when `constr_pips` is set.
    pub piplocs: Vec<Loc>,
}

impl Region {
    /// An unnamed region that constrains nothing.
    pub fn new() -> (r: Self)
        ensures
            r.name@ == 0,
            !r.constr_bels,
            !r.constr_wires,
            !r.constr_pips,
            r.bels@ == Seq::<BelId>::empty(),
            r.wires@ == Seq::<WireId>::empty(),
            r.piplocs@ == Seq::<Loc>::empty(),
    {
        let bels: Vec<BelId> = Vec::new();
        let wires: Vec<WireId> = Vec::new();
        let piplocs: Vec<Loc> = Vec::new();
        proof {
            assert(bels@ =~= Seq::<BelId>::empty());
            assert(wires@ =~= Seq::<WireId>::empty());
            assert(piplocs@ =~= Seq::<Loc>::empty());
        }
        Self {
            name: IdString::new(),
            constr_bels: false,
            constr_wires: false,
            constr_pips: false,
            bels,
            wires,
            piplocs,
        }
    }

    /// Whether `bel` is a member of this region's bel set.
    pub fn contains_bel(&self, bel: BelId) -> (r: bool)
        ensures
            r == self.bels@.contains(bel),
    {
        let mut i: usize = 0;
        while i < self.bels.len()
            invariant
                i <= self.bels@.len(),
                forall|j: int| 0 <= j < i ==> self.bels@[j] != bel,
            decreases self.bels@.len() - i,
        {
            if self.bels[i] == bel {
                proof {
                    assert(self.bels@.contains(bel)) by {
                        assert(self.bels@[i as int] == bel);
                    }
                }
                return true;
            }
            i += 1;
        }
        proof {
            assert(!self.bels@.contains(bel));
        }
        false
    }

    /// Adds `bel` to this region's bel set; adding a member again
    /// changes nothing.
    pub fn add_bel(&mut self, bel: BelId)
        ensures
            old(self).bels@.contains(bel) ==> *final(self) == *old(self),
            !old(self).bels@.contains(bel) ==> final(self).bels@ == old(self).bels@.push(bel)
                && unchanged_but_bels(*old(self), *final(self)),
            final(self).bels@.contains(bel),
    {
        if !self.contains_bel(bel) {
            self.bels.push(bel);
            proof {
                assert(final(self).bels@[final(self).bels@.len() - 1] == bel);
                assert(final(self).bels@.contains(bel));
            }
        }
    }
}

/// Whether two regions agree on everything but the bel set.
pub open spec fn unchanged_but_bels(a: Region, b: Region) -> bool {
    &&& a.name == b.name
    &&& a.constr_bels == b.constr_bels
    &&& a.constr_wires == b.constr_wires
    &&& a.constr_pips == b.constr_pips
    &&& a.wires == b.wires
    &&& a.piplocs == b.piplocs
}

impl Default for Region {
    /// The default region constrains nothing.
    fn default() -> (r: Self)
        ensures
            r.name@ == 0,
            !r.constr_bels,
            !r.constr_wires,
            !r.constr_pips,
            r.bels@ == Seq::<BelId>::empty(),
            r.wires@ == Seq::<WireId>::empty(),
            r.piplocs@ == Seq::<Loc>::empty(),
    {
        Region::new()
    }
}

} // verus!
