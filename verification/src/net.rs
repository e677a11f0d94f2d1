//! Nets: the edges of the netlist graph.
//!
//! A net has at most one driver (an output port of some cell) and an
//! append-ordered list of users (input or inout ports).  A user entry's
//! position in that list is its stable sink identifier: disconnecting a
//! sink leaves a tombstone (`None`) in place, so the identifiers of the
//! remaining sinks never move.  The net also records, per routing wire,
//! the pip that currently sources the wire in this net's routing tree;
//! keying that map by the wire enforces that no wire has two recorded
//! uphill pips.

use crate::arch_defs::{ArchNetInfo, PipId};
use crate::arena::ArenaIndex;
use crate::base_types::PlaceStrength;
use crate::delay::DelayTrait;
use crate::id_map::IdMap;
use crate::id_string::IdString;
use crate::port::PortRef;
use crate::property::Property;
use crate::region::Region;
use crate::timing::ClockConstraint;
use vstd::prelude::*;

verus! {

/// The stable identifier of one sink entry of a net: its position in
/// the net's user list.
#[derive(Debug, Copy, Clone, PartialEq, Eq, Structural, Hash)]
pub struct UserId(pub usize);

impl UserId {
    /// The identifier of the sink at position `index`.
    pub fn with_index(index: usize) -> (r: Self)
        ensures
            r.0 == index,
    {
        UserId(index)
    }

    /// The position this identifier names.
    pub fn index(&self) -> (r: usize)
        ensures
            r == self.0,
    {
        self.0
    }
}

/// The pip currently sourcing one wire of a net's routing tree, and
/// how firmly that binding is held.
#[derive(Debug, Copy, Clone, PartialEq, Eq, Structural, Hash)]
pub struct PipMap {
    pub pip: PipId,
    pub strength: PlaceStrength,
}

impl PipMap {
    /// An unbound pip entry.
    pub fn new() -> (r: Self)
        ensures
            r.pip@ is None,
            r.strength == PlaceStrength::Unbound,
    {
        Self { pip: PipId::new(), strength: PlaceStrength::new() }
    }
}

impl Default for PipMap {
    /// The default pip entry is unbound.
    fn default() -> (r: Self)
        ensures
            r.pip@ is None,
            r.strength == PlaceStrength::Unbound,
    {
        PipMap::new()
    }
}

/// One net of the design: a driver, its users, and its routing state.
#[derive(Debug, PartialEq)]
pub struct NetInfo<D: DelayTrait> {
    pub arch_net_info: ArchNetInfo,
    pub name: IdString,
    pub hierarchy_path: IdString,
    pub udata: i32,
    /// The cell/port pair driving this net; `driver.cell` is `None`
    /// while the net is undriven.
    pub driver: PortRef<D>,
    /// The sink entries, addressed by their stable position; a
    /// disconnected sink leaves a `None` tombstone.
    pub users: Vec<Option<PortRef<D>>>,
    /// Net attributes, keyed by attribute name.
    pub attrs: IdMap<Property>,
    /// Per-wire uphill pip of this net's routing tree, keyed by the
    /// wire's slot.
    pub wires: IdMap<PipMap>,
    /// Other identifiers that also name this net.
    pub aliases: Vec<IdString>,
    /// The clock constraint of this net, if one was set.
    pub clk_constr: Option<ClockConstraint<D>>,
    /// The region this net is constrained to, if any.
    pub region: Option<ArenaIndex<Region>>,
}

/// The number of live (non-tombstone) sink entries among the first `n`
/// entries of a user list.
pub open spec fn live_user_count<D: DelayTrait>(users: Seq<Option<PortRef<D>>>, n: int) -> int
    decreases n,
{
    if n <= 0 {
        0
    } else {
        live_user_count(users, n - 1) + if n - 1 < users.len() && users[n - 1] is Some {
            1int
        } else {
            0int
        }
    }
}

impl<D: DelayTrait> NetInfo<D> {
    /// An unnamed net: no driver, no users, no routing, no aliases.
    pub fn new() -> (r: Self)
        ensures
            r.name@ == 0,
            r.hierarchy_path@ == 0,
            r.udata == 0,
            r.driver.cell is None,
            r.driver.port@ == 0,
            r.driver.budget@ == 0,
            r.users@ == Seq::<Option<PortRef<D>>>::empty(),
            r.attrs@ == Map::<u64, Property>::empty(),
            r.wires@ == Map::<u64, PipMap>::empty(),
            r.aliases@ == Seq::<IdString>::empty(),
            r.clk_constr is None,
            r.region is None,
            r.arch_net_info == (ArchNetInfo { is_global: false, is_reset: false, is_enable: false }),
    {
        let users: Vec<Option<PortRef<D>>> = Vec::new();
        let aliases: Vec<IdString> = Vec::new();
        proof {
            assert(users@ =~= Seq::<Option<PortRef<D>>>::empty());
            assert(aliases@ =~= Seq::<IdString>::empty());
        }
        Self {
            arch_net_info: ArchNetInfo::new(),
            name: IdString::new(),
            hierarchy_path: IdString::new(),
            udata: 0,
            driver: PortRef::new(),
            users,
            attrs: IdMap::new(),
            wires: IdMap::new(),
            aliases,
            clk_constr: None,
            region: None,
        }
    }

    /// A fresh net already carrying a zero clock constraint and a
    /// fresh, unconstrained region inserted into `region_arena`.
    pub fn with_arena(region_arena: &mut crate::arena::Arena<Region>) -> (r: Self)
        requires
            old(region_arena).inv(),
        ensures
            final(region_arena).inv(),
            r.region is Some,
            !old(region_arena)@.contains_key(r.region->0),
            final(region_arena)@ == old(region_arena)@.insert(
                r.region->0,
                final(region_arena)@[r.region->0],
            ),
            final(region_arena)@.contains_key(r.region->0),
            ({
                let reg = final(region_arena)@[r.region->0];
                !reg.constr_bels && !reg.constr_wires && !reg.constr_pips
            }),
            r.clk_constr is Some,
            r.name@ == 0,
            r.driver.cell is None,
            r.users@ == Seq::<Option<PortRef<D>>>::empty(),
    {
        let region_idx = region_arena.insert(Region::new());
        let mut net = NetInfo::new();
        net.clk_constr = Some(ClockConstraint::new());
        net.region = Some(region_idx);
        net
    }

    /// An otherwise fresh net with the given name.
    pub fn with_name(name: IdString) -> (r: Self)
        ensures
            r.name == name,
            r.driver.cell is None,
            r.users@ == Seq::<Option<PortRef<D>>>::empty(),
            r.attrs@ == Map::<u64, Property>::empty(),
            r.wires@ == Map::<u64, PipMap>::empty(),
            r.aliases@ == Seq::<IdString>::empty(),
            r.clk_constr is None,
            r.region is None,
    {
        let mut net = NetInfo::new();
        net.name = name;
        net
    }

    /// The number of live sinks of this net.
    pub fn live_users(&self) -> (r: usize)
        ensures
            r == live_user_count(self.users@, self.users@.len() as int),
    {
        let mut count: usize = 0;
        let mut i: usize = 0;
        while i < self.users.len()
            invariant
                i <= self.users@.len(),
                count == live_user_count(self.users@, i as int),
                count <= i,
            decreases self.users@.len() - i,
        {
            if self.users[i].is_some() {
                count += 1;
            }
            i += 1;
        }
        count
    }
}

impl<D: DelayTrait> Default for NetInfo<D> {
    /// The default net is the unnamed, undriven net.
    fn default() -> (r: Self)
        ensures
            r.name@ == 0,
            r.driver.cell is None,
            r.users@ == Seq::<Option<PortRef<D>>>::empty(),
    {
        NetInfo::new()
    }
}

} // verus!
