//! Cells and their port operations.
//!
//! All mutation of the cell/net graph goes through the operations here,
//! so the driver and sink bookkeeping on a net can never drift from
//! what the ports of its cells claim.  Every operation's contract is a
//! transition predicate over the cell, the net arena's abstract map,
//! and the result; the single-driver and connect/disconnect laws at the
//! bottom of this file are proved from those predicates alone.

use crate::arch_defs::{ArchCellInfo, BelId, ClusterId, WireId};
use crate::arena::{Arena, ArenaIndex};
use crate::base_types::{Loc, PlaceStrength};
use crate::delay::{Delay, DelayQuad, DelayTrait};
use crate::id_map::IdMap;
use crate::id_string::IdString;
use crate::net::{live_user_count, NetInfo, UserId};
use crate::port::{HierarchicalPort, PortInfo, PortRef, PortType};
use crate::property::Property;
use crate::region::Region;
use crate::timing::{TimingClockingInfo, TimingPortClass};
use vstd::prelude::*;

verus! {

/// The behaviour of a pseudo-cell: a non-physical placeholder (such as
/// a partial-reconfiguration plug) that answers the location and
/// timing queries a real bel binding would.  Architecture backends may
/// implement it for their own plug kinds.
pub trait PseudoCell<D: DelayTrait> {
    /// The location this pseudo-cell pretends to occupy.
    fn get_location(&self) -> Loc {
        Loc::origin()
    }

    /// The wire a given port of this pseudo-cell drives or reads.
    fn get_port_wire(&self, _port: IdString) -> Option<WireId> {
        None
    }

    /// Fills in the delay from one port to another; false when the
    /// pair has no combinational arc.
    fn get_delay(&self, _from_port: IdString, _to_port: IdString, _delay: &DelayQuad<D>) -> bool {
        false
    }

    /// The timing class of a port of this pseudo-cell.
    fn get_port_timing_class(&self, _port: IdString, _clock_info_count: &u64) -> TimingPortClass {
        TimingPortClass::new()
    }

    /// The clocking discipline of a port of this pseudo-cell.
    fn get_port_clocking_info(&self, _port: IdString, _index: u64) -> TimingClockingInfo<D> {
        TimingClockingInfo::new()
    }
}

/// A partial-reconfiguration region plug: a pseudo-cell that maps its
/// ports onto fixed wires at a fixed location.
#[derive(Debug, Clone, PartialEq)]
pub struct RegionPlug {
    /// The wire each plug port is tied to, keyed by port name.
    pub port_wires: IdMap<WireId>,
    /// The location the plug pretends to occupy.
    pub loc: Loc,
}

impl RegionPlug {
    /// A plug at the given location with no ports yet.
    pub fn new(loc: Loc) -> (r: Self)
        ensures
            r.port_wires@ == Map::<u64, WireId>::empty(),
            r.loc == loc,
    {
        Self { port_wires: IdMap::new(), loc }
    }
}

impl<D: DelayTrait> PseudoCell<D> for RegionPlug {
    /// The plug's fixed location.
    fn get_location(&self) -> Loc {
        self.loc
    }

    /// The wire recorded for this port, if any.
    fn get_port_wire(&self, port: IdString) -> Option<WireId> {
        match self.port_wires.get(port.index()) {
            Some(w) => Some(*w),
            None => None,
        }
    }

    /// Plugs carry no timing arcs yet.
    fn get_delay(&self, _from_port: IdString, _to_port: IdString, _delay: &DelayQuad<D>) -> bool {
        false
    }

    /// Plug ports are ignored by timing analysis.
    fn get_port_timing_class(&self, _port: IdString, _clock_info_count: &u64) -> TimingPortClass {
        TimingPortClass::Ignore
    }

    /// Plug ports carry no clocking discipline.
    fn get_port_clocking_info(&self, _port: IdString, _index: u64) -> TimingClockingInfo<D> {
        TimingClockingInfo::new()
    }
}

/// Marker for cell payload types: pseudo-cell behaviour plus
/// cloneability.
pub trait CellTrait<D: DelayTrait>: PseudoCell<D> + Clone {}

/// The ways a port operation can fail.
#[derive(Debug, Copy, Clone, Eq, PartialEq, Structural)]
pub enum CellError {
    /// The port's direction does not admit the requested connection.
    InvalidConnectPortType,
    /// The port already references a net.
    PortAlreadyConnected,
    /// The net already has a driver.
    DriverCellInUse,
    /// The net handle names no live net.
    NetIndexNotFound,
    /// The named port does not exist on this cell.
    PortNotFound,
    /// Moving an inout port between cells is structurally invalid.
    PortInOutMoveInvalid,
    /// The port carries no sink identifier.
    UserIndexIsNone,
    /// The port's sink identifier names no live sink entry.
    UserNotFound,
    /// The port references no net.
    NetIndexIsNone,
}

/// One cell of the design: its identity, its ports, its attributes and
/// parameters, and its placement state.
#[derive(Debug, PartialEq)]
pub struct CellInfo<D: DelayTrait> {
    /// Architecture-specific payload.
    pub arch_cell_info: ArchCellInfo<D>,
    /// The region this cell is constrained to, if any.
    pub region: Option<ArenaIndex<Region>>,
    /// The pseudo-cell backing this cell, if it is not a real one.
    pub pseudo_cell: Option<ArenaIndex<RegionPlug>>,
    /// This cell's own handle in the cell arena, so port operations
    /// can register back-references without a parent pointer.
    pub self_index: Option<ArenaIndex<CellInfo<D>>>,
    pub name: IdString,
    pub cell_type: IdString,
    pub hierarchy_path: IdString,
    pub udata: i32,
    /// The cell's ports, keyed by port name.
    pub ports: IdMap<PortInfo<D>>,
    /// Attributes, keyed by attribute name.
    pub attributes: IdMap<Property>,
    /// Parameters, keyed by parameter name.
    pub parameters: IdMap<Property>,
    /// The bel this cell is bound to; unbound while unplaced.
    pub bel: BelId,
    /// How firmly the bel binding is held.
    pub bel_strength: PlaceStrength,
    /// The cluster this cell belongs to; the empty identifier when it
    /// is not clustered.
    pub cluster: ClusterId,
}

/// Whether two cells agree on everything but their port map.
pub open spec fn cell_unchanged_but_ports<D: DelayTrait>(a: CellInfo<D>, b: CellInfo<D>) -> bool {
    &&& a.arch_cell_info == b.arch_cell_info
    &&& a.region == b.region
    &&& a.pseudo_cell == b.pseudo_cell
    &&& a.self_index == b.self_index
    &&& a.name == b.name
    &&& a.cell_type == b.cell_type
    &&& a.hierarchy_path == b.hierarchy_path
    &&& a.udata == b.udata
    &&& a.attributes@ == b.attributes@
    &&& a.parameters@ == b.parameters@
    &&& a.bel == b.bel
    &&& a.bel_strength == b.bel_strength
    &&& a.cluster == b.cluster
}

/// Whether two nets agree on everything but their driver slot.
pub open spec fn net_unchanged_but_driver<D: DelayTrait>(a: NetInfo<D>, b: NetInfo<D>) -> bool {
    &&& a.arch_net_info == b.arch_net_info
    &&& a.name == b.name
    &&& a.hierarchy_path == b.hierarchy_path
    &&& a.udata == b.udata
    &&& a.users@ == b.users@
    &&& a.attrs@ == b.attrs@
    &&& a.wires@ == b.wires@
    &&& a.aliases@ == b.aliases@
    &&& a.clk_constr == b.clk_constr
    &&& a.region == b.region
}

/// Whether two nets agree on everything but their user list.
pub open spec fn net_unchanged_but_users<D: DelayTrait>(a: NetInfo<D>, b: NetInfo<D>) -> bool {
    &&& a.arch_net_info == b.arch_net_info
    &&& a.name == b.name
    &&& a.hierarchy_path == b.hierarchy_path
    &&& a.udata == b.udata
    &&& a.driver == b.driver
    &&& a.attrs@ == b.attrs@
    &&& a.wires@ == b.wires@
    &&& a.aliases@ == b.aliases@
    &&& a.clk_constr == b.clk_constr
    &&& a.region == b.region
}

/// The driver of a net, abstractly: the cell and port name claiming
/// the driver role, or `None` while the net is undriven.
pub open spec fn driver_of<D: DelayTrait>(n: NetInfo<D>) -> Option<(
    ArenaIndex<CellInfo<D>>,
    u64,
)> {
    match n.driver.cell {
        Some(c) => Some((c, n.driver.port@)),
        None => None,
    }
}

/// The transition `connect_port` promises: binding the named port of
/// `cell0` to `net` turns the state `(cell0, nets0)` into
/// `(cell1, nets1)` with result `r`.
pub open spec fn connect_port_post<D: DelayTrait>(
    cell0: CellInfo<D>,
    nets0: Map<ArenaIndex<NetInfo<D>>, NetInfo<D>>,
    cell1: CellInfo<D>,
    nets1: Map<ArenaIndex<NetInfo<D>>, NetInfo<D>>,
    port_name: IdString,
    net: ArenaIndex<NetInfo<D>>,
    r: Result<(), CellError>,
) -> bool {
    let k = port_name@;
    if !cell0.ports@.contains_key(k) {
        r == Err::<(), CellError>(CellError::PortNotFound) && cell1 == cell0 && nets1 == nets0
    } else if cell0.ports@[k].net is Some {
        r == Err::<(), CellError>(CellError::PortAlreadyConnected) && cell1 == cell0 && nets1
            == nets0
    } else if !nets0.contains_key(net) {
        r == Err::<(), CellError>(CellError::NetIndexNotFound) && cell1 == cell0 && nets1 == nets0
    } else {
        let p = cell0.ports@[k];
        let n0 = nets0[net];
        match p.port_type {
            PortType::Out => {
                if n0.driver.cell is Some {
                    r == Err::<(), CellError>(CellError::DriverCellInUse) && cell1 == cell0
                        && nets1 == nets0
                } else {
                    &&& r == Ok::<(), CellError>(())
                    &&& cell_unchanged_but_ports(cell0, cell1)
                    &&& cell1.ports@ == cell0.ports@.insert(
                        k,
                        PortInfo { net: Some(net), ..p },
                    )
                    &&& nets1.contains_key(net)
                    &&& nets1 == nets0.insert(net, nets1[net])
                    &&& net_unchanged_but_driver(n0, nets1[net])
                    &&& nets1[net].driver.cell == cell0.self_index
                    &&& nets1[net].driver.port == port_name
                    &&& nets1[net].driver.budget@ == 0
                }
            },
            PortType::In | PortType::InOut => {
                &&& r == Ok::<(), CellError>(())
                &&& cell_unchanged_but_ports(cell0, cell1)
                &&& cell1.ports@ == cell0.ports@.insert(
                    k,
                    PortInfo {
                        net: Some(net),
                        user_index: Some(UserId((n0.users@.len()) as usize)),
                        ..p
                    },
                )
                &&& nets1.contains_key(net)
                &&& nets1 == nets0.insert(net, nets1[net])
                &&& net_unchanged_but_users(n0, nets1[net])
                &&& nets1[net].users@.len() == n0.users@.len() + 1
                &&& nets1[net].users@.subrange(0, n0.users@.len() as int) == n0.users@
                &&& nets1[net].users@.last() is Some
                &&& nets1[net].users@.last()->0.cell == cell0.self_index
                &&& nets1[net].users@.last()->0.port == port_name
                &&& nets1[net].users@.last()->0.budget@ == 0
            },
        }
    }
}

/// The transition `disconnect_port` promises: unbinding the named port
/// of `cell0` turns the state `(cell0, nets0)` into `(cell1, nets1)`
/// with result `r`.
pub open spec fn disconnect_port_post<D: DelayTrait>(
    cell0: CellInfo<D>,
    nets0: Map<ArenaIndex<NetInfo<D>>, NetInfo<D>>,
    cell1: CellInfo<D>,
    nets1: Map<ArenaIndex<NetInfo<D>>, NetInfo<D>>,
    port_name: IdString,
    r: Result<(), CellError>,
) -> bool {
    let k = port_name@;
    if !cell0.ports@.contains_key(k) {
        r == Err::<(), CellError>(CellError::PortNotFound) && cell1 == cell0 && nets1 == nets0
    } else {
        let p = cell0.ports@[k];
        match p.net {
            None => r == Ok::<(), CellError>(()) && cell1 == cell0 && nets1 == nets0,
            Some(net) => {
                if !nets0.contains_key(net) {
                    r == Err::<(), CellError>(CellError::NetIndexNotFound) && cell1 == cell0
                        && nets1 == nets0
                } else {
                    let n0 = nets0[net];
                    let cleared = PortInfo {
                        name: p.name,
                        net: None,
                        port_type: p.port_type,
                        user_index: None,
                    };
                    match p.port_type {
                        PortType::Out => {
                            &&& r == Ok::<(), CellError>(())
                            &&& cell_unchanged_but_ports(cell0, cell1)
                            &&& cell1.ports@ == cell0.ports@.insert(k, cleared)
                            &&& nets1.contains_key(net)
                            &&& nets1 == nets0.insert(net, nets1[net])
                            &&& net_unchanged_but_driver(n0, nets1[net])
                            &&& if n0.driver.cell == cell0.self_index && n0.driver.port@ == k {
                                nets1[net].driver.cell is None && nets1[net].driver.port
                                    == n0.driver.port && nets1[net].driver.budget
                                    == n0.driver.budget
                            } else {
                                nets1[net].driver == n0.driver
                            }
                        },
                        PortType::In | PortType::InOut => {
                            match p.user_index {
                                None => {
                                    &&& r == Ok::<(), CellError>(())
                                    &&& cell_unchanged_but_ports(cell0, cell1)
                                    &&& cell1.ports@ == cell0.ports@.insert(k, cleared)
                                    &&& nets1 == nets0
                                },
                                Some(u) => {
                                    if u.0 >= n0.users@.len() {
                                        r == Err::<(), CellError>(CellError::UserNotFound)
                                            && cell1 == cell0 && nets1 == nets0
                                    } else {
                                        &&& r == Ok::<(), CellError>(())
                                        &&& cell_unchanged_but_ports(cell0, cell1)
                                        &&& cell1.ports@ == cell0.ports@.insert(k, cleared)
                                        &&& nets1.contains_key(net)
                                        &&& nets1 == nets0.insert(net, nets1[net])
                                        &&& net_unchanged_but_users(n0, nets1[net])
                                        &&& nets1[net].users@ == n0.users@.update(
                                            u.0 as int,
                                            None::<PortRef<D>>,
                                        )
                                    }
                                },
                            }
                        },
                    }
                }
            },
        }
    }
}

impl<D: DelayTrait> CellInfo<D> {
    /// A fresh, unnamed, unplaced cell with no ports.
    pub fn new() -> (r: Self)
        ensures
            r.region is None,
            r.pseudo_cell is None,
            r.self_index is None,
            r.name@ == 0,
            r.cell_type@ == 0,
            r.hierarchy_path@ == 0,
            r.udata == 0,
            r.ports@ == Map::<u64, PortInfo<D>>::empty(),
            r.attributes@ == Map::<u64, Property>::empty(),
            r.parameters@ == Map::<u64, Property>::empty(),
            r.bel@ is None,
            r.bel_strength == PlaceStrength::Unbound,
            r.cluster@ == 0,
    {
        Self {
            arch_cell_info: ArchCellInfo::new(),
            region: None,
            pseudo_cell: None,
            self_index: None,
            name: IdString::new(),
            cell_type: IdString::new(),
            hierarchy_path: IdString::new(),
            udata: 0,
            ports: IdMap::new(),
            attributes: IdMap::new(),
            parameters: IdMap::new(),
            bel: BelId::new(),
            bel_strength: PlaceStrength::new(),
            cluster: IdString::new(),
        }
    }

    /// Inserts a fresh cell into the cell arena, with a fresh
    /// unconstrained region, and records the cell's own handle in it.
    pub fn with_arena(
        self_arena: &mut Arena<CellInfo<D>>,
        region_arena: &mut Arena<Region>,
    ) -> (idx: ArenaIndex<CellInfo<D>>)
        requires
            old(self_arena).inv(),
            old(region_arena).inv(),
        ensures
            final(self_arena).inv(),
            final(region_arena).inv(),
            !old(self_arena)@.contains_key(idx),
            final(self_arena)@.contains_key(idx),
            final(self_arena)@ == old(self_arena)@.insert(idx, final(self_arena)@[idx]),
            final(self_arena)@[idx].self_index == Some(idx),
            final(self_arena)@[idx].region is Some,
            final(self_arena)@[idx].ports@ == Map::<u64, PortInfo<D>>::empty(),
            !old(region_arena)@.contains_key(final(self_arena)@[idx].region->0),
            final(region_arena)@ == old(region_arena)@.insert(
                final(self_arena)@[idx].region->0,
                final(region_arena)@[final(self_arena)@[idx].region->0],
            ),
            final(region_arena)@.contains_key(final(self_arena)@[idx].region->0),
    {
        let region_idx = region_arena.insert(Region::new());
        let mut cell = CellInfo::new();
        cell.region = Some(region_idx);
        let idx = self_arena.insert(cell);
        let mut stored = match self_arena.take(idx) {
            Some(c) => c,
            None => {
                proof {
                    assert(false);
                }
                CellInfo::new()
            },
        };
        stored.self_index = Some(idx);
        self_arena.put(idx, stored);
        proof {
            assert(final(self_arena)@ =~= old(self_arena)@.insert(idx, final(self_arena)@[idx]));
        }
        idx
    }

    /// Creates the named port as an input, keeping any existing net
    /// binding and retyping the port if it already exists.
    pub fn add_input(&mut self, name: IdString)
        ensures
            cell_unchanged_but_ports(*old(self), *final(self)),
            final(self).ports@ == old(self).ports@.insert(
                name@,
                PortInfo {
                    name,
                    port_type: PortType::In,
                    net: if old(self).ports@.contains_key(name@) {
                        old(self).ports@[name@].net
                    } else {
                        None
                    },
                    user_index: if old(self).ports@.contains_key(name@) {
                        old(self).ports@[name@].user_index
                    } else {
                        None
                    },
                },
            ),
    {
        self.add_port(name, PortType::In)
    }

    /// Creates the named port as an output, keeping any existing net
    /// binding and retyping the port if it already exists.
    pub fn add_output(&mut self, name: IdString)
        ensures
            cell_unchanged_but_ports(*old(self), *final(self)),
            final(self).ports@ == old(self).ports@.insert(
                name@,
                PortInfo {
                    name,
                    port_type: PortType::Out,
                    net: if old(self).ports@.contains_key(name@) {
                        old(self).ports@[name@].net
                    } else {
                        None
                    },
                    user_index: if old(self).ports@.contains_key(name@) {
                        old(self).ports@[name@].user_index
                    } else {
                        None
                    },
                },
            ),
    {
        self.add_port(name, PortType::Out)
    }

    /// Creates the named port as an inout, keeping any existing net
    /// binding and retyping the port if it already exists.
    pub fn add_in_out(&mut self, name: IdString)
        ensures
            cell_unchanged_but_ports(*old(self), *final(self)),
            final(self).ports@ == old(self).ports@.insert(
                name@,
                PortInfo {
                    name,
                    port_type: PortType::InOut,
                    net: if old(self).ports@.contains_key(name@) {
                        old(self).ports@[name@].net
                    } else {
                        None
                    },
                    user_index: if old(self).ports@.contains_key(name@) {
                        old(self).ports@[name@].user_index
                    } else {
                        None
                    },
                },
            ),
    {
        self.add_port(name, PortType::InOut)
    }

    /// Creates or retypes the named port, keeping any existing net
    /// binding.
    fn add_port(&mut self, name: IdString, port_type: PortType)
        ensures
            cell_unchanged_but_ports(*old(self), *final(self)),
            final(self).ports@ == old(self).ports@.insert(
                name@,
                PortInfo {
                    name,
                    port_type,
                    net: if old(self).ports@.contains_key(name@) {
                        old(self).ports@[name@].net
                    } else {
                        None
                    },
                    user_index: if old(self).ports@.contains_key(name@) {
                        old(self).ports@[name@].user_index
                    } else {
                        None
                    },
                },
            ),
    {
        let (net, user_index) = match self.ports.get(name.index()) {
            Some(p) => (p.net, p.user_index),
            None => (None, None),
        };
        self.ports.insert(name.index(), PortInfo { name, port_type, net, user_index });
    }

    /// Sets the named parameter.
    pub fn set_param(&mut self, name: IdString, value: Property)
        ensures
            final(self).parameters@ == old(self).parameters@.insert(name@, value),
            final(self).ports@ == old(self).ports@,
            final(self).attributes@ == old(self).attributes@,
    {
        self.parameters.insert(name.index(), value);
    }

    /// Removes the named parameter.
    pub fn unset_param(&mut self, name: IdString)
        ensures
            final(self).parameters@ == old(self).parameters@.remove(name@),
            final(self).ports@ == old(self).ports@,
            final(self).attributes@ == old(self).attributes@,
    {
        self.parameters.remove(name.index());
    }

    /// Sets the named attribute.
    pub fn set_attribute(&mut self, name: IdString, value: Property)
        ensures
            final(self).attributes@ == old(self).attributes@.insert(name@, value),
            final(self).ports@ == old(self).ports@,
            final(self).parameters@ == old(self).parameters@,
    {
        self.attributes.insert(name.index(), value);
    }

    /// Removes the named attribute.
    pub fn unset_attribute(&mut self, name: IdString)
        ensures
            final(self).attributes@ == old(self).attributes@.remove(name@),
            final(self).ports@ == old(self).ports@,
            final(self).parameters@ == old(self).parameters@,
    {
        self.attributes.remove(name.index());
    }

    /// Checks whether a candidate bel complies with this cell's region
    /// constraint: a cell with no region accepts every bel, a region
    /// that does not constrain bels accepts every bel, and otherwise
    /// only the region's listed bels are legal.
    pub fn test_region(&self, bel: BelId, region_arena: &Arena<Region>) -> (r: bool)
        requires
            self.region is Some ==> region_arena@.contains_key(self.region->0),
        ensures
            r == match self.region {
                None => true,
                Some(reg_idx) => {
                    let reg = region_arena@[reg_idx];
                    !reg.constr_bels || reg.bels@.contains(bel)
                },
            },
    {
        match self.region {
            Some(reg_idx) => {
                let reg = match region_arena.get(reg_idx) {
                    Some(reg) => reg,
                    None => {
                        proof {
                            assert(false);
                        }
                        return true;
                    },
                };
                !reg.constr_bels || reg.contains_bel(bel)
            },
            None => true,
        }
    }

    /// The location of a pseudo-cell, read from its plug; a physical
    /// cell's location is the architecture backend's to answer, so
    /// this returns `None` for one.
    pub fn get_location(&self, _bel: BelId, pcell_arena: &Arena<RegionPlug>) -> (r: Option<Loc>)
        ensures
            r == match self.pseudo_cell {
                Some(p) => if pcell_arena@.contains_key(p) {
                    Some(pcell_arena@[p].loc)
                } else {
                    None
                },
                None => None::<Loc>,
            },
    {
        match self.pseudo_cell {
            Some(p) => match pcell_arena.get(p) {
                Some(plug) => Some(plug.loc),
                None => None,
            },
            None => None,
        }
    }

    /// Whether this cell is backed by a pseudo-cell rather than a real
    /// bel.
    pub fn is_pseudo(&self, _bel: BelId) -> (r: bool)
        ensures
            r == (self.pseudo_cell is Some),
    {
        self.pseudo_cell.is_some()
    }

    /// The net the named port is bound to, if the port exists and is
    /// bound.
    pub fn get_port(&self, name: IdString) -> (r: Option<ArenaIndex<NetInfo<D>>>)
        ensures
            r == if self.ports@.contains_key(name@) {
                self.ports@[name@].net
            } else {
                None::<ArenaIndex<NetInfo<D>>>
            },
    {
        match self.ports.get(name.index()) {
            Some(p) => p.net,
            None => None,
        }
    }

    /// Binds the named port to `net`.  An output port claims the
    /// driver slot, which must be free; an input or inout port appends
    /// a sink entry and records its stable identifier on the port.
    /// Fails if the port does not exist, already references a net, or
    /// the net handle is stale.
    pub fn connect_port(
        &mut self,
        port_name: IdString,
        net: ArenaIndex<NetInfo<D>>,
        net_arena: &mut Arena<NetInfo<D>>,
    ) -> (r: Result<(), CellError>)
        requires
            old(net_arena).inv(),
        ensures
            final(net_arena).inv(),
            connect_port_post(
                *old(self),
                old(net_arena)@,
                *final(self),
                final(net_arena)@,
                port_name,
                net,
                r,
            ),
    {
        let p = match self.ports.get(port_name.index()) {
            Some(p) => *p,
            None => {
                return Err(CellError::PortNotFound);
            },
        };
        if p.net.is_some() {
            return Err(CellError::PortAlreadyConnected);
        }
        let mut n = match net_arena.take(net) {
            Some(n) => n,
            None => {
                proof {
                    assert(final(net_arena)@ =~= old(net_arena)@);
                }
                return Err(CellError::NetIndexNotFound);
            },
        };
        match p.port_type {
            PortType::Out => {
                if n.driver.cell.is_some() {
                    net_arena.put(net, n);
                    proof {
                        assert(final(net_arena)@ =~= old(net_arena)@);
                    }
                    return Err(CellError::DriverCellInUse);
                }
                n.driver = PortRef { cell: self.self_index, port: port_name, budget: Delay::new() };
                net_arena.put(net, n);
                let updated = PortInfo { net: Some(net), ..p };
                self.ports.insert(port_name.index(), updated);
                proof {
                    assert(final(net_arena)@ =~= old(net_arena)@.insert(
                        net,
                        final(net_arena)@[net],
                    ));
                }
                Ok(())
            },
            PortType::In | PortType::InOut => {
                let uid = UserId(n.users.len());
                let ghost users0 = n.users@;
                n.users.push(
                    Some(PortRef { cell: self.self_index, port: port_name, budget: Delay::new() }),
                );
                net_arena.put(net, n);
                let updated = PortInfo { net: Some(net), user_index: Some(uid), ..p };
                self.ports.insert(port_name.index(), updated);
                proof {
                    assert(final(net_arena)@ =~= old(net_arena)@.insert(
                        net,
                        final(net_arena)@[net],
                    ));
                    assert(final(net_arena)@[net].users@.subrange(0, users0.len() as int)
                        =~= users0);
                }
                Ok(())
            },
        }
    }

    /// Unbinds the named port from its net: an output port leaves the
    /// driver slot if it holds it, an input or inout port tombstones
    /// its sink entry so the other sinks keep their identifiers.
    /// Disconnecting an already unbound port changes nothing and
    /// succeeds.
    pub fn disconnect_port(
        &mut self,
        port_name: IdString,
        net_arena: &mut Arena<NetInfo<D>>,
    ) -> (r: Result<(), CellError>)
        requires
            old(net_arena).inv(),
        ensures
            final(net_arena).inv(),
            disconnect_port_post(
                *old(self),
                old(net_arena)@,
                *final(self),
                final(net_arena)@,
                port_name,
                r,
            ),
    {
        let p = match self.ports.get(port_name.index()) {
            Some(p) => *p,
            None => {
                return Err(CellError::PortNotFound);
            },
        };
        let net = match p.net {
            Some(net) => net,
            None => {
                return Ok(());
            },
        };
        let cleared = PortInfo { name: p.name, net: None, port_type: p.port_type, user_index: None };
        let mut n = match net_arena.take(net) {
            Some(n) => n,
            None => {
                proof {
                    assert(final(net_arena)@ =~= old(net_arena)@);
                }
                return Err(CellError::NetIndexNotFound);
            },
        };
        match p.port_type {
            PortType::Out => {
                let drives = match &n.driver.cell {
                    Some(c) => match &self.self_index {
                        Some(s) => *c == *s,
                        None => false,
                    },
                    None => false,
                } && n.driver.port.inside(&port_name);
                if drives {
                    n.driver.cell = None;
                }
                net_arena.put(net, n);
                self.ports.insert(port_name.index(), cleared);
                proof {
                    assert(final(net_arena)@ =~= old(net_arena)@.insert(
                        net,
                        final(net_arena)@[net],
                    ));
                }
                Ok(())
            },
            PortType::In | PortType::InOut => {
                match p.user_index {
                    None => {
                        net_arena.put(net, n);
                        self.ports.insert(port_name.index(), cleared);
                        proof {
                            assert(final(net_arena)@ =~= old(net_arena)@);
                        }
                        Ok(())
                    },
                    Some(u) => {
                        if u.0 >= n.users.len() {
                            net_arena.put(net, n);
                            proof {
                                assert(final(net_arena)@ =~= old(net_arena)@);
                            }
                            return Err(CellError::UserNotFound);
                        }
                        let ghost users0 = n.users@;
                        n.users.remove(u.0);
                        n.users.insert(u.0, None);
                        proof {
                            assert(n.users@ =~= users0.update(u.0 as int, None::<PortRef<D>>));
                        }
                        net_arena.put(net, n);
                        self.ports.insert(port_name.index(), cleared);
                        proof {
                            assert(final(net_arena)@ =~= old(net_arena)@.insert(
                                net,
                                final(net_arena)@[net],
                            ));
                        }
                        Ok(())
                    },
                }
            },
        }
    }

    /// Connects the named port of `other` to the net this cell's named
    /// port is already bound to.  This helper never synthesizes a net:
    /// if this cell's port is unbound the call fails and the caller
    /// must create and bind a net first.
    pub fn connect_ports(
        &mut self,
        port: IdString,
        other: &mut CellInfo<D>,
        other_port: IdString,
        net_arena: &mut Arena<NetInfo<D>>,
    ) -> (r: Result<(), CellError>)
        requires
            old(net_arena).inv(),
        ensures
            final(net_arena).inv(),
            *final(self) == *old(self),
            ({
                let k = port@;
                if !old(self).ports@.contains_key(k) {
                    &&& r == Err::<(), CellError>(CellError::PortNotFound)
                    &&& *final(other) == *old(other)
                    &&& final(net_arena)@ == old(net_arena)@
                } else {
                    match old(self).ports@[k].net {
                        None => {
                            &&& r == Err::<(), CellError>(CellError::NetIndexIsNone)
                            &&& *final(other) == *old(other)
                            &&& final(net_arena)@ == old(net_arena)@
                        },
                        Some(net) => connect_port_post(
                            *old(other),
                            old(net_arena)@,
                            *final(other),
                            final(net_arena)@,
                            other_port,
                            net,
                            r,
                        ),
                    }
                }
            }),
    {
        let p = match self.ports.get(port.index()) {
            Some(p) => *p,
            None => {
                return Err(CellError::PortNotFound);
            },
        };
        match p.net {
            Some(net) => other.connect_port(other_port, net, net_arena),
            None => Err(CellError::NetIndexIsNone),
        }
    }

    /// Relocates the named port onto `other` under the name
    /// `other_port`, carrying its net binding along and fixing up the
    /// net's driver or sink back-reference to point at the new cell
    /// and name.  Inout ports bound to a net cannot be moved.
    pub fn move_port_to(
        &mut self,
        port: IdString,
        other: &mut CellInfo<D>,
        other_port: IdString,
        net_arena: &mut Arena<NetInfo<D>>,
    ) -> (r: Result<(), CellError>)
        requires
            old(net_arena).inv(),
        ensures
            final(net_arena).inv(),
            move_port_to_post(
                *old(self),
                *old(other),
                old(net_arena)@,
                *final(self),
                *final(other),
                final(net_arena)@,
                port,
                other_port,
                r,
            ),
    {
        let p = match self.ports.get(port.index()) {
            Some(p) => *p,
            None => {
                return Err(CellError::PortNotFound);
            },
        };
        match other.ports.get(other_port.index()) {
            Some(rep) => {
                let same = match (rep.port_type, p.port_type) {
                    (PortType::In, PortType::In) => true,
                    (PortType::Out, PortType::Out) => true,
                    (PortType::InOut, PortType::InOut) => true,
                    _ => false,
                };
                if !same {
                    return Err(CellError::InvalidConnectPortType);
                }
            },
            None => {},
        };
        let cleared = PortInfo { name: p.name, net: None, port_type: p.port_type, user_index: None };
        let moved = PortInfo {
            name: other_port,
            net: p.net,
            port_type: p.port_type,
            user_index: p.user_index,
        };
        let net = match p.net {
            None => {
                self.ports.insert(port.index(), cleared);
                other.ports.insert(other_port.index(), moved);
                return Ok(());
            },
            Some(net) => net,
        };
        match p.port_type {
            PortType::InOut => {
                return Err(CellError::PortInOutMoveInvalid);
            },
            _ => {},
        };
        let mut n = match net_arena.take(net) {
            Some(n) => n,
            None => {
                proof {
                    assert(final(net_arena)@ =~= old(net_arena)@);
                }
                return Err(CellError::NetIndexNotFound);
            },
        };
        match p.port_type {
            PortType::Out => {
                n.driver = PortRef {
                    cell: other.self_index,
                    port: other_port,
                    budget: n.driver.budget,
                };
                net_arena.put(net, n);
                self.ports.insert(port.index(), cleared);
                other.ports.insert(other_port.index(), moved);
                proof {
                    assert(final(net_arena)@ =~= old(net_arena)@.insert(
                        net,
                        final(net_arena)@[net],
                    ));
                }
                Ok(())
            },
            PortType::In | PortType::InOut => {
                let u = match p.user_index {
                    Some(u) => u,
                    None => {
                        net_arena.put(net, n);
                        proof {
                            assert(final(net_arena)@ =~= old(net_arena)@);
                        }
                        return Err(CellError::UserIndexIsNone);
                    },
                };
                if u.0 >= n.users.len() {
                    net_arena.put(net, n);
                    proof {
                        assert(final(net_arena)@ =~= old(net_arena)@);
                    }
                    return Err(CellError::UserNotFound);
                }
                let entry = match n.users[u.0] {
                    Some(e) => e,
                    None => {
                        net_arena.put(net, n);
                        proof {
                            assert(final(net_arena)@ =~= old(net_arena)@);
                        }
                        return Err(CellError::UserNotFound);
                    },
                };
                let ghost users0 = n.users@;
                n.users.remove(u.0);
                n.users.insert(
                    u.0,
                    Some(PortRef { cell: other.self_index, port: other_port, budget: entry.budget }),
                );
                proof {
                    assert(n.users@ =~= users0.update(
                        u.0 as int,
                        Some(
                            PortRef {
                                cell: other.self_index,
                                port: other_port,
                                budget: entry.budget,
                            },
                        ),
                    ));
                }
                net_arena.put(net, n);
                self.ports.insert(port.index(), cleared);
                other.ports.insert(other_port.index(), moved);
                proof {
                    assert(final(net_arena)@ =~= old(net_arena)@.insert(
                        net,
                        final(net_arena)@[net],
                    ));
                }
                Ok(())
            },
        }
    }

    /// Renames a port of this cell, updating the driver or sink
    /// back-reference on its net so it keeps pointing at this cell
    /// under the new name.  Fails if the new name is already a port of
    /// this cell.
    pub fn rename_port(
        &mut self,
        old_name: IdString,
        new_name: IdString,
        net_arena: &mut Arena<NetInfo<D>>,
    ) -> (r: Result<(), CellError>)
        requires
            old(net_arena).inv(),
        ensures
            final(net_arena).inv(),
            rename_port_post(
                *old(self),
                old(net_arena)@,
                *final(self),
                final(net_arena)@,
                old_name,
                new_name,
                r,
            ),
    {
        let p = match self.ports.get(old_name.index()) {
            Some(p) => *p,
            None => {
                return Err(CellError::PortNotFound);
            },
        };
        if old_name.index() != new_name.index() && self.ports.contains_key(new_name.index()) {
            return Err(CellError::PortAlreadyConnected);
        }
        let renamed = PortInfo {
            name: new_name,
            net: p.net,
            port_type: p.port_type,
            user_index: p.user_index,
        };
        let net = match p.net {
            None => {
                self.ports.remove(old_name.index());
                self.ports.insert(new_name.index(), renamed);
                return Ok(());
            },
            Some(net) => net,
        };
        let mut n = match net_arena.take(net) {
            Some(n) => n,
            None => {
                proof {
                    assert(final(net_arena)@ =~= old(net_arena)@);
                }
                return Err(CellError::NetIndexNotFound);
            },
        };
        match p.user_index {
            Some(u) => {
                if u.0 >= n.users.len() {
                    net_arena.put(net, n);
                    proof {
                        assert(final(net_arena)@ =~= old(net_arena)@);
                    }
                    return Err(CellError::UserNotFound);
                }
                let entry = match n.users[u.0] {
                    Some(e) => e,
                    None => {
                        net_arena.put(net, n);
                        proof {
                            assert(final(net_arena)@ =~= old(net_arena)@);
                        }
                        return Err(CellError::UserNotFound);
                    },
                };
                let ghost users0 = n.users@;
                n.users.remove(u.0);
                n.users.insert(
                    u.0,
                    Some(PortRef { cell: entry.cell, port: new_name, budget: entry.budget }),
                );
                proof {
                    assert(n.users@ =~= users0.update(
                        u.0 as int,
                        Some(PortRef { cell: entry.cell, port: new_name, budget: entry.budget }),
                    ));
                }
            },
            None => {},
        };
        let drives = match (&n.driver.cell, &self.self_index) {
            (Some(c), Some(s)) => *c == *s,
            _ => false,
        } && n.driver.port.inside(&old_name);
        if drives {
            n.driver = PortRef { cell: n.driver.cell, port: new_name, budget: n.driver.budget };
        }
        net_arena.put(net, n);
        self.ports.remove(old_name.index());
        self.ports.insert(new_name.index(), renamed);
        proof {
            assert(final(net_arena)@ =~= old(net_arena)@.insert(net, final(net_arena)@[net]));
        }
        Ok(())
    }

    /// Duplicates the named port's binding onto an existing port of
    /// `other`: the target port takes this port's direction and is
    /// connected to the same net, as a second sink for inputs; for an
    /// output the net's driver slot must still be free.
    pub fn copy_port_to(
        &mut self,
        port: IdString,
        other: &mut CellInfo<D>,
        other_port: IdString,
        net_arena: &mut Arena<NetInfo<D>>,
    ) -> (r: Result<(), CellError>)
        requires
            old(net_arena).inv(),
        ensures
            final(net_arena).inv(),
            *final(self) == *old(self),
            copy_port_to_post(
                *old(self),
                *old(other),
                old(net_arena)@,
                *final(other),
                final(net_arena)@,
                port,
                other_port,
                r,
            ),
    {
        let p = match self.ports.get(port.index()) {
            Some(p) => *p,
            None => {
                return Err(CellError::PortNotFound);
            },
        };
        let rep = match other.ports.get(other_port.index()) {
            Some(rep) => *rep,
            None => {
                return Err(CellError::PortNotFound);
            },
        };
        let net = match p.net {
            Some(net) => net,
            None => {
                return Err(CellError::NetIndexIsNone);
            },
        };
        if rep.net.is_some() {
            return Err(CellError::PortAlreadyConnected);
        }
        let mut n = match net_arena.take(net) {
            Some(n) => n,
            None => {
                proof {
                    assert(final(net_arena)@ =~= old(net_arena)@);
                }
                return Err(CellError::NetIndexNotFound);
            },
        };
        match p.port_type {
            PortType::Out => {
                if n.driver.cell.is_some() {
                    net_arena.put(net, n);
                    proof {
                        assert(final(net_arena)@ =~= old(net_arena)@);
                    }
                    return Err(CellError::DriverCellInUse);
                }
                n.driver = PortRef {
                    cell: other.self_index,
                    port: other_port,
                    budget: Delay::new(),
                };
                net_arena.put(net, n);
                other.ports.insert(
                    other_port.index(),
                    PortInfo {
                        name: other_port,
                        net: Some(net),
                        port_type: p.port_type,
                        user_index: rep.user_index,
                    },
                );
                proof {
                    assert(final(net_arena)@ =~= old(net_arena)@.insert(
                        net,
                        final(net_arena)@[net],
                    ));
                }
                Ok(())
            },
            PortType::In | PortType::InOut => {
                let uid = UserId(n.users.len());
                let ghost users0 = n.users@;
                n.users.push(
                    Some(PortRef { cell: other.self_index, port: other_port, budget: Delay::new() }),
                );
                net_arena.put(net, n);
                other.ports.insert(
                    other_port.index(),
                    PortInfo {
                        name: other_port,
                        net: Some(net),
                        port_type: p.port_type,
                        user_index: Some(uid),
                    },
                );
                proof {
                    assert(final(net_arena)@ =~= old(net_arena)@.insert(
                        net,
                        final(net_arena)@[net],
                    ));
                    assert(final(net_arena)@[net].users@.subrange(0, users0.len() as int)
                        =~= users0);
                }
                Ok(())
            },
        }
    }

    /// Relocates a whole port bus: element `i` of `old_ports` is moved
    /// onto `other` under element `i` of `new_ports`, in order, with
    /// the first failure stopping the walk and reporting its error.
    pub fn move_port_bus_to(
        &mut self,
        old_ports: &Vec<IdString>,
        other: &mut CellInfo<D>,
        new_ports: &Vec<IdString>,
        net_arena: &mut Arena<NetInfo<D>>,
    ) -> (r: Result<(), CellError>)
        requires
            old(net_arena).inv(),
            old_ports@.len() == new_ports@.len(),
        ensures
            final(net_arena).inv(),
            move_port_bus_post(
                *old(self),
                *old(other),
                old(net_arena)@,
                *final(self),
                *final(other),
                final(net_arena)@,
                old_ports@,
                new_ports@,
                r,
            ),
    {
        let ghost cell0 = *old(self);
        let ghost other0 = *old(other);
        let ghost nets0 = old(net_arena)@;
        let mut i: usize = 0;
        while i < old_ports.len()
            invariant
                i <= old_ports@.len(),
                old_ports@.len() == new_ports@.len(),
                net_arena.inv(),
                cell0 == *old(self),
                other0 == *old(other),
                nets0 == old(net_arena)@,
                move_port_bus_post(
                    cell0,
                    other0,
                    nets0,
                    *self,
                    *other,
                    net_arena@,
                    old_ports@.subrange(0, i as int),
                    new_ports@.subrange(0, i as int),
                    Ok::<(), CellError>(()),
                ),
            decreases old_ports@.len() - i,
        {
            let ghost pre_self = *self;
            let ghost pre_other = *other;
            let ghost pre_nets = net_arena@;
            let step = self.move_port_to(old_ports[i], other, new_ports[i], net_arena);
            match step {
                Ok(()) => {
                    proof {
                        lemma_move_bus_snoc_ok(
                            cell0,
                            other0,
                            nets0,
                            pre_self,
                            pre_other,
                            pre_nets,
                            *self,
                            *other,
                            net_arena@,
                            old_ports@.subrange(0, i as int),
                            new_ports@.subrange(0, i as int),
                            old_ports@[i as int],
                            new_ports@[i as int],
                        );
                        assert(old_ports@.subrange(0, i + 1) =~= old_ports@.subrange(
                            0,
                            i as int,
                        ).push(old_ports@[i as int]));
                        assert(new_ports@.subrange(0, i + 1) =~= new_ports@.subrange(
                            0,
                            i as int,
                        ).push(new_ports@[i as int]));
                    }
                },
                Err(e) => {
                    proof {
                        assert(*self == pre_self);
                        assert(*other == pre_other);
                        assert(net_arena@ == pre_nets);
                        lemma_move_bus_snoc_err(
                            cell0,
                            other0,
                            nets0,
                            *self,
                            *other,
                            net_arena@,
                            old_ports@,
                            new_ports@,
                            i as int,
                            e,
                        );
                    }
                    return Err(e);
                },
            }
            i += 1;
        }
        proof {
            assert(old_ports@.subrange(0, old_ports@.len() as int) =~= old_ports@);
            assert(new_ports@.subrange(0, new_ports@.len() as int) =~= new_ports@);
        }
        Ok(())
    }

    /// Duplicates a whole port bus: element `i` of `old_ports` is
    /// copied onto `other` under element `i` of `new_ports`, in order,
    /// with the first failure stopping the walk and reporting its
    /// error.  The source cell is never changed.
    pub fn copy_port_bus_to(
        &mut self,
        old_ports: &Vec<IdString>,
        other: &mut CellInfo<D>,
        new_ports: &Vec<IdString>,
        net_arena: &mut Arena<NetInfo<D>>,
    ) -> (r: Result<(), CellError>)
        requires
            old(net_arena).inv(),
            old_ports@.len() == new_ports@.len(),
        ensures
            final(net_arena).inv(),
            *final(self) == *old(self),
            copy_port_bus_post(
                *old(self),
                *old(other),
                old(net_arena)@,
                *final(other),
                final(net_arena)@,
                old_ports@,
                new_ports@,
                r,
            ),
    {
        let ghost cell0 = *old(self);
        let ghost other0 = *old(other);
        let ghost nets0 = old(net_arena)@;
        let mut i: usize = 0;
        while i < old_ports.len()
            invariant
                i <= old_ports@.len(),
                old_ports@.len() == new_ports@.len(),
                net_arena.inv(),
                cell0 == *old(self),
                other0 == *old(other),
                nets0 == old(net_arena)@,
                *self == cell0,
                copy_port_bus_post(
                    cell0,
                    other0,
                    nets0,
                    *other,
                    net_arena@,
                    old_ports@.subrange(0, i as int),
                    new_ports@.subrange(0, i as int),
                    Ok::<(), CellError>(()),
                ),
            decreases old_ports@.len() - i,
        {
            let ghost pre_other = *other;
            let ghost pre_nets = net_arena@;
            let step = self.copy_port_to(old_ports[i], other, new_ports[i], net_arena);
            match step {
                Ok(()) => {
                    proof {
                        lemma_copy_bus_snoc_ok(
                            cell0,
                            other0,
                            nets0,
                            pre_other,
                            pre_nets,
                            *other,
                            net_arena@,
                            old_ports@.subrange(0, i as int),
                            new_ports@.subrange(0, i as int),
                            old_ports@[i as int],
                            new_ports@[i as int],
                        );
                        assert(old_ports@.subrange(0, i + 1) =~= old_ports@.subrange(
                            0,
                            i as int,
                        ).push(old_ports@[i as int]));
                        assert(new_ports@.subrange(0, i + 1) =~= new_ports@.subrange(
                            0,
                            i as int,
                        ).push(new_ports@[i as int]));
                    }
                },
                Err(e) => {
                    proof {
                        assert(*other == pre_other);
                        assert(net_arena@ == pre_nets);
                        lemma_copy_bus_snoc_err(
                            cell0,
                            other0,
                            nets0,
                            *other,
                            net_arena@,
                            old_ports@,
                            new_ports@,
                            i as int,
                            e,
                        );
                    }
                    return Err(e);
                },
            }
            i += 1;
        }
        proof {
            assert(old_ports@.subrange(0, old_ports@.len() as int) =~= old_ports@);
            assert(new_ports@.subrange(0, new_ports@.len() as int) =~= new_ports@);
        }
        Ok(())
    }
}

/// The transition `move_port_to` promises: relocating the named port
/// of `cell0` onto `other0` under the name `other_port` turns the
/// state into `(cell1, other1, nets1)` with result `r`.
pub open spec fn move_port_to_post<D: DelayTrait>(
    cell0: CellInfo<D>,
    other0: CellInfo<D>,
    nets0: Map<ArenaIndex<NetInfo<D>>, NetInfo<D>>,
    cell1: CellInfo<D>,
    other1: CellInfo<D>,
    nets1: Map<ArenaIndex<NetInfo<D>>, NetInfo<D>>,
    port: IdString,
    other_port: IdString,
    r: Result<(), CellError>,
) -> bool {
    let k = port@;
    let k2 = other_port@;
    let unchanged = cell1 == cell0 && other1 == other0 && nets1 == nets0;
    if !cell0.ports@.contains_key(k) {
        r == Err::<(), CellError>(CellError::PortNotFound) && unchanged
    } else {
        let p = cell0.ports@[k];
        let cleared = PortInfo {
            name: p.name,
            net: None,
            port_type: p.port_type,
            user_index: None,
        };
        let moved = PortInfo {
            name: other_port,
            net: p.net,
            port_type: p.port_type,
            user_index: p.user_index,
        };
        let ports_moved = cell1.ports@ == cell0.ports@.insert(k, cleared)
            && other1.ports@ == other0.ports@.insert(k2, moved)
            && cell_unchanged_but_ports(cell0, cell1)
            && cell_unchanged_but_ports(other0, other1);
        if other0.ports@.contains_key(k2) && other0.ports@[k2].port_type != p.port_type {
            r == Err::<(), CellError>(CellError::InvalidConnectPortType) && unchanged
        } else {
            match p.net {
                None => r == Ok::<(), CellError>(()) && ports_moved && nets1 == nets0,
                Some(net) => {
                    if p.port_type is InOut {
                        r == Err::<(), CellError>(CellError::PortInOutMoveInvalid) && unchanged
                    } else if !nets0.contains_key(net) {
                        r == Err::<(), CellError>(CellError::NetIndexNotFound) && unchanged
                    } else {
                        let n0 = nets0[net];
                        match p.port_type {
                            PortType::Out => {
                                &&& r == Ok::<(), CellError>(())
                                &&& ports_moved
                                &&& nets1.contains_key(net)
                                &&& nets1 == nets0.insert(net, nets1[net])
                                &&& net_unchanged_but_driver(n0, nets1[net])
                                &&& nets1[net].driver.cell == other0.self_index
                                &&& nets1[net].driver.port == other_port
                                &&& nets1[net].driver.budget == n0.driver.budget
                            },
                            PortType::In | PortType::InOut => {
                                match p.user_index {
                                    None => r == Err::<(), CellError>(CellError::UserIndexIsNone)
                                        && unchanged,
                                    Some(u) => {
                                        if u.0 >= n0.users@.len() || n0.users@[u.0 as int]
                                            is None {
                                            r == Err::<(), CellError>(CellError::UserNotFound)
                                                && unchanged
                                        } else {
                                            let e0 = n0.users@[u.0 as int]->0;
                                            &&& r == Ok::<(), CellError>(())
                                            &&& ports_moved
                                            &&& nets1.contains_key(net)
                                            &&& nets1 == nets0.insert(net, nets1[net])
                                            &&& net_unchanged_but_users(n0, nets1[net])
                                            &&& nets1[net].users@ == n0.users@.update(
                                                u.0 as int,
                                                Some(
                                                    PortRef {
                                                        cell: other0.self_index,
                                                        port: other_port,
                                                        budget: e0.budget,
                                                    },
                                                ),
                                            )
                                        }
                                    },
                                }
                            },
                        }
                    }
                },
            }
        }
    }
}

/// The transition `rename_port` promises: renaming a port of `cell0`
/// turns the state into `(cell1, nets1)` with result `r`, with the
/// net's driver and sink back-references following the new name.
pub open spec fn rename_port_post<D: DelayTrait>(
    cell0: CellInfo<D>,
    nets0: Map<ArenaIndex<NetInfo<D>>, NetInfo<D>>,
    cell1: CellInfo<D>,
    nets1: Map<ArenaIndex<NetInfo<D>>, NetInfo<D>>,
    old_name: IdString,
    new_name: IdString,
    r: Result<(), CellError>,
) -> bool {
    let k = old_name@;
    let k2 = new_name@;
    let unchanged = cell1 == cell0 && nets1 == nets0;
    if !cell0.ports@.contains_key(k) {
        r == Err::<(), CellError>(CellError::PortNotFound) && unchanged
    } else if k2 != k && cell0.ports@.contains_key(k2) {
        r == Err::<(), CellError>(CellError::PortAlreadyConnected) && unchanged
    } else {
        let p = cell0.ports@[k];
        let renamed = PortInfo {
            name: new_name,
            net: p.net,
            port_type: p.port_type,
            user_index: p.user_index,
        };
        let ports_renamed = cell1.ports@ == cell0.ports@.remove(k).insert(k2, renamed)
            && cell_unchanged_but_ports(cell0, cell1);
        match p.net {
            None => r == Ok::<(), CellError>(()) && ports_renamed && nets1 == nets0,
            Some(net) => {
                if !nets0.contains_key(net) {
                    r == Err::<(), CellError>(CellError::NetIndexNotFound) && unchanged
                } else {
                    let n0 = nets0[net];
                    let driver_renamed = if n0.driver.cell is Some && n0.driver.cell
                        == cell0.self_index && n0.driver.port@ == k {
                        PortRef { cell: n0.driver.cell, port: new_name, budget: n0.driver.budget }
                    } else {
                        n0.driver
                    };
                    match p.user_index {
                        None => {
                            &&& r == Ok::<(), CellError>(())
                            &&& ports_renamed
                            &&& nets1.contains_key(net)
                            &&& nets1 == nets0.insert(net, nets1[net])
                            &&& net_unchanged_but_driver(n0, nets1[net])
                            &&& nets1[net].driver == driver_renamed
                        },
                        Some(u) => {
                            if u.0 >= n0.users@.len() || n0.users@[u.0 as int] is None {
                                r == Err::<(), CellError>(CellError::UserNotFound) && unchanged
                            } else {
                                let e0 = n0.users@[u.0 as int]->0;
                                &&& r == Ok::<(), CellError>(())
                                &&& ports_renamed
                                &&& nets1.contains_key(net)
                                &&& nets1 == nets0.insert(net, nets1[net])
                                &&& nets1[net].driver == driver_renamed
                                &&& nets1[net].users@ == n0.users@.update(
                                    u.0 as int,
                                    Some(
                                        PortRef {
                                            cell: e0.cell,
                                            port: new_name,
                                            budget: e0.budget,
                                        },
                                    ),
                                )
                                &&& nets1[net].arch_net_info == n0.arch_net_info
                                &&& nets1[net].name == n0.name
                                &&& nets1[net].hierarchy_path == n0.hierarchy_path
                                &&& nets1[net].udata == n0.udata
                                &&& nets1[net].attrs@ == n0.attrs@
                                &&& nets1[net].wires@ == n0.wires@
                                &&& nets1[net].aliases@ == n0.aliases@
                                &&& nets1[net].clk_constr == n0.clk_constr
                                &&& nets1[net].region == n0.region
                            }
                        },
                    }
                }
            },
        }
    }
}

/// The transition `copy_port_to` promises: duplicating the named
/// port's binding onto `other0`'s existing port `other_port` turns the
/// state into `(other1, nets1)` with result `r`; the source cell is
/// never changed.
pub open spec fn copy_port_to_post<D: DelayTrait>(
    cell0: CellInfo<D>,
    other0: CellInfo<D>,
    nets0: Map<ArenaIndex<NetInfo<D>>, NetInfo<D>>,
    other1: CellInfo<D>,
    nets1: Map<ArenaIndex<NetInfo<D>>, NetInfo<D>>,
    port: IdString,
    other_port: IdString,
    r: Result<(), CellError>,
) -> bool {
    let k = port@;
    let k2 = other_port@;
    let unchanged = other1 == other0 && nets1 == nets0;
    if !cell0.ports@.contains_key(k) {
        r == Err::<(), CellError>(CellError::PortNotFound) && unchanged
    } else if !other0.ports@.contains_key(k2) {
        r == Err::<(), CellError>(CellError::PortNotFound) && unchanged
    } else {
        let p = cell0.ports@[k];
        let rep = other0.ports@[k2];
        if p.net is None {
            r == Err::<(), CellError>(CellError::NetIndexIsNone) && unchanged
        } else if rep.net is Some {
            r == Err::<(), CellError>(CellError::PortAlreadyConnected) && unchanged
        } else {
            let net = p.net->0;
            if !nets0.contains_key(net) {
                r == Err::<(), CellError>(CellError::NetIndexNotFound) && unchanged
            } else {
                let n0 = nets0[net];
                match p.port_type {
                    PortType::Out => {
                        if n0.driver.cell is Some {
                            r == Err::<(), CellError>(CellError::DriverCellInUse) && unchanged
                        } else {
                            &&& r == Ok::<(), CellError>(())
                            &&& cell_unchanged_but_ports(other0, other1)
                            &&& other1.ports@ == other0.ports@.insert(
                                k2,
                                PortInfo {
                                    name: other_port,
                                    net: Some(net),
                                    port_type: p.port_type,
                                    user_index: rep.user_index,
                                },
                            )
                            &&& nets1.contains_key(net)
                            &&& nets1 == nets0.insert(net, nets1[net])
                            &&& net_unchanged_but_driver(n0, nets1[net])
                            &&& nets1[net].driver.cell == other0.self_index
                            &&& nets1[net].driver.port == other_port
                            &&& nets1[net].driver.budget@ == 0
                        }
                    },
                    PortType::In | PortType::InOut => {
                        &&& r == Ok::<(), CellError>(())
                        &&& cell_unchanged_but_ports(other0, other1)
                        &&& other1.ports@ == other0.ports@.insert(
                            k2,
                            PortInfo {
                                name: other_port,
                                net: Some(net),
                                port_type: p.port_type,
                                user_index: Some(UserId((n0.users@.len()) as usize)),
                            },
                        )
                        &&& nets1.contains_key(net)
                        &&& nets1 == nets0.insert(net, nets1[net])
                        &&& net_unchanged_but_users(n0, nets1[net])
                        &&& nets1[net].users@.len() == n0.users@.len() + 1
                        &&& nets1[net].users@.subrange(0, n0.users@.len() as int) == n0.users@
                        &&& nets1[net].users@.last() is Some
                        &&& nets1[net].users@.last()->0.cell == other0.self_index
                        &&& nets1[net].users@.last()->0.port == other_port
                        &&& nets1[net].users@.last()->0.budget@ == 0
                    },
                }
            }
        }
    }
}

/// The transition a whole-bus move promises: the element ports named
/// by `olds` are moved one at a time, in order, onto `news`; the first
/// failing element stops the walk with its error, leaving the earlier
/// moves applied and everything later untouched.
pub open spec fn move_port_bus_post<D: DelayTrait>(
    cell0: CellInfo<D>,
    other0: CellInfo<D>,
    nets0: Map<ArenaIndex<NetInfo<D>>, NetInfo<D>>,
    cell1: CellInfo<D>,
    other1: CellInfo<D>,
    nets1: Map<ArenaIndex<NetInfo<D>>, NetInfo<D>>,
    olds: Seq<IdString>,
    news: Seq<IdString>,
    r: Result<(), CellError>,
) -> bool
    decreases olds.len(),
{
    if olds.len() == 0 {
        r == Ok::<(), CellError>(()) && cell1 == cell0 && other1 == other0 && nets1 == nets0
    } else {
        exists|
            mid_cell: CellInfo<D>,
            mid_other: CellInfo<D>,
            mid_nets: Map<ArenaIndex<NetInfo<D>>, NetInfo<D>>,
            r0: Result<(), CellError>,
        |
            {
                &&& #[trigger] move_port_to_post(
                    cell0,
                    other0,
                    nets0,
                    mid_cell,
                    mid_other,
                    mid_nets,
                    olds[0],
                    news[0],
                    r0,
                )
                &&& match r0 {
                    Ok(()) => move_port_bus_post(
                        mid_cell,
                        mid_other,
                        mid_nets,
                        cell1,
                        other1,
                        nets1,
                        olds.drop_first(),
                        news.drop_first(),
                        r,
                    ),
                    Err(e) => r == Err::<(), CellError>(e) && cell1 == mid_cell && other1
                        == mid_other && nets1 == mid_nets,
                }
            }
    }
}

/// Extending an all-successful bus walk by one more successful move
/// yields an all-successful walk of the longer bus.
proof fn lemma_move_bus_snoc_ok<D: DelayTrait>(
    cell0: CellInfo<D>,
    other0: CellInfo<D>,
    nets0: Map<ArenaIndex<NetInfo<D>>, NetInfo<D>>,
    cell1: CellInfo<D>,
    other1: CellInfo<D>,
    nets1: Map<ArenaIndex<NetInfo<D>>, NetInfo<D>>,
    cell2: CellInfo<D>,
    other2: CellInfo<D>,
    nets2: Map<ArenaIndex<NetInfo<D>>, NetInfo<D>>,
    olds: Seq<IdString>,
    news: Seq<IdString>,
    o: IdString,
    n: IdString,
)
    requires
        olds.len() == news.len(),
        move_port_bus_post(
            cell0,
            other0,
            nets0,
            cell1,
            other1,
            nets1,
            olds,
            news,
            Ok::<(), CellError>(()),
        ),
        move_port_to_post(cell1, other1, nets1, cell2, other2, nets2, o, n, Ok::<(), CellError>(())),
    ensures
        move_port_bus_post(
            cell0,
            other0,
            nets0,
            cell2,
            other2,
            nets2,
            olds.push(o),
            news.push(n),
            Ok::<(), CellError>(()),
        ),
    decreases olds.len(),
{
    let olds1 = olds.push(o);
    let news1 = news.push(n);
    if olds.len() == 0 {
        assert(olds1[0] == o);
        assert(news1[0] == n);
        assert(olds1.drop_first() =~= Seq::<IdString>::empty());
        assert(news1.drop_first() =~= Seq::<IdString>::empty());
        assert(move_port_to_post(
            cell0,
            other0,
            nets0,
            cell2,
            other2,
            nets2,
            olds1[0],
            news1[0],
            Ok::<(), CellError>(()),
        ));
        assert(move_port_bus_post(
            cell2,
            other2,
            nets2,
            cell2,
            other2,
            nets2,
            olds1.drop_first(),
            news1.drop_first(),
            Ok::<(), CellError>(()),
        ));
    } else {
        let (mid_cell, mid_other, mid_nets, r0) = choose|
            mid_cell: CellInfo<D>,
            mid_other: CellInfo<D>,
            mid_nets: Map<ArenaIndex<NetInfo<D>>, NetInfo<D>>,
            r0: Result<(), CellError>,
        |
            {
                &&& #[trigger] move_port_to_post(
                    cell0,
                    other0,
                    nets0,
                    mid_cell,
                    mid_other,
                    mid_nets,
                    olds[0],
                    news[0],
                    r0,
                )
                &&& match r0 {
                    Ok(()) => move_port_bus_post(
                        mid_cell,
                        mid_other,
                        mid_nets,
                        cell1,
                        other1,
                        nets1,
                        olds.drop_first(),
                        news.drop_first(),
                        Ok::<(), CellError>(()),
                    ),
                    Err(e) => Ok::<(), CellError>(()) == Err::<(), CellError>(e) && cell1
                        == mid_cell && other1 == mid_other && nets1 == mid_nets,
                }
            };
        assert(r0 is Ok);
        lemma_move_bus_snoc_ok(
            mid_cell,
            mid_other,
            mid_nets,
            cell1,
            other1,
            nets1,
            cell2,
            other2,
            nets2,
            olds.drop_first(),
            news.drop_first(),
            o,
            n,
        );
        assert(olds1.drop_first() =~= olds.drop_first().push(o));
        assert(news1.drop_first() =~= news.drop_first().push(n));
        assert(olds1[0] == olds[0]);
        assert(news1[0] == news[0]);
        assert(move_port_to_post(
            cell0,
            other0,
            nets0,
            mid_cell,
            mid_other,
            mid_nets,
            olds1[0],
            news1[0],
            r0,
        ));
        assert(move_port_bus_post(
            mid_cell,
            mid_other,
            mid_nets,
            cell2,
            other2,
            nets2,
            olds1.drop_first(),
            news1.drop_first(),
            Ok::<(), CellError>(()),
        ));
    }
}

/// An all-successful walk of a prefix followed by one failing move is
/// a failing walk of the whole bus.
proof fn lemma_move_bus_snoc_err<D: DelayTrait>(
    cell0: CellInfo<D>,
    other0: CellInfo<D>,
    nets0: Map<ArenaIndex<NetInfo<D>>, NetInfo<D>>,
    cell1: CellInfo<D>,
    other1: CellInfo<D>,
    nets1: Map<ArenaIndex<NetInfo<D>>, NetInfo<D>>,
    olds: Seq<IdString>,
    news: Seq<IdString>,
    i: int,
    e: CellError,
)
    requires
        olds.len() == news.len(),
        0 <= i < olds.len(),
        move_port_bus_post(
            cell0,
            other0,
            nets0,
            cell1,
            other1,
            nets1,
            olds.subrange(0, i),
            news.subrange(0, i),
            Ok::<(), CellError>(()),
        ),
        move_port_to_post(
            cell1,
            other1,
            nets1,
            cell1,
            other1,
            nets1,
            olds[i],
            news[i],
            Err::<(), CellError>(e),
        ),
    ensures
        move_port_bus_post(
            cell0,
            other0,
            nets0,
            cell1,
            other1,
            nets1,
            olds,
            news,
            Err::<(), CellError>(e),
        ),
    decreases i,
{
    if i == 0 {
        assert(olds.subrange(0, 0) =~= Seq::<IdString>::empty());
        assert(cell1 == cell0 && other1 == other0 && nets1 == nets0);
        assert(move_port_to_post(
            cell0,
            other0,
            nets0,
            cell1,
            other1,
            nets1,
            olds[0],
            news[0],
            Err::<(), CellError>(e),
        ));
    } else {
        let oldsp = olds.subrange(0, i);
        let newsp = news.subrange(0, i);
        let (mid_cell, mid_other, mid_nets, r0) = choose|
            mid_cell: CellInfo<D>,
            mid_other: CellInfo<D>,
            mid_nets: Map<ArenaIndex<NetInfo<D>>, NetInfo<D>>,
            r0: Result<(), CellError>,
        |
            {
                &&& #[trigger] move_port_to_post(
                    cell0,
                    other0,
                    nets0,
                    mid_cell,
                    mid_other,
                    mid_nets,
                    oldsp[0],
                    newsp[0],
                    r0,
                )
                &&& match r0 {
                    Ok(()) => move_port_bus_post(
                        mid_cell,
                        mid_other,
                        mid_nets,
                        cell1,
                        other1,
                        nets1,
                        oldsp.drop_first(),
                        newsp.drop_first(),
                        Ok::<(), CellError>(()),
                    ),
                    Err(err0) => Ok::<(), CellError>(()) == Err::<(), CellError>(err0) && cell1
                        == mid_cell && other1 == mid_other && nets1 == mid_nets,
                }
            };
        assert(r0 is Ok);
        assert(oldsp.drop_first() =~= olds.drop_first().subrange(0, i - 1));
        assert(newsp.drop_first() =~= news.drop_first().subrange(0, i - 1));
        assert(olds.drop_first()[i - 1] == olds[i]);
        assert(news.drop_first()[i - 1] == news[i]);
        lemma_move_bus_snoc_err(
            mid_cell,
            mid_other,
            mid_nets,
            cell1,
            other1,
            nets1,
            olds.drop_first(),
            news.drop_first(),
            i - 1,
            e,
        );
        assert(oldsp[0] == olds[0]);
        assert(newsp[0] == news[0]);
        assert(move_port_to_post(
            cell0,
            other0,
            nets0,
            mid_cell,
            mid_other,
            mid_nets,
            olds[0],
            news[0],
            r0,
        ));
    }
}

/// The transition a whole-bus copy promises: the element ports named
/// by `olds` are copied one at a time, in order, onto `news`; the
/// first failing element stops the walk with its error.  The source
/// cell is never changed.
pub open spec fn copy_port_bus_post<D: DelayTrait>(
    cell0: CellInfo<D>,
    other0: CellInfo<D>,
    nets0: Map<ArenaIndex<NetInfo<D>>, NetInfo<D>>,
    other1: CellInfo<D>,
    nets1: Map<ArenaIndex<NetInfo<D>>, NetInfo<D>>,
    olds: Seq<IdString>,
    news: Seq<IdString>,
    r: Result<(), CellError>,
) -> bool
    decreases olds.len(),
{
    if olds.len() == 0 {
        r == Ok::<(), CellError>(()) && other1 == other0 && nets1 == nets0
    } else {
        exists|
            mid_other: CellInfo<D>,
            mid_nets: Map<ArenaIndex<NetInfo<D>>, NetInfo<D>>,
            r0: Result<(), CellError>,
        |
            {
                &&& #[trigger] copy_port_to_post(
                    cell0,
                    other0,
                    nets0,
                    mid_other,
                    mid_nets,
                    olds[0],
                    news[0],
                    r0,
                )
                &&& match r0 {
                    Ok(()) => copy_port_bus_post(
                        cell0,
                        mid_other,
                        mid_nets,
                        other1,
                        nets1,
                        olds.drop_first(),
                        news.drop_first(),
                        r,
                    ),
                    Err(e) => r == Err::<(), CellError>(e) && other1 == mid_other && nets1
                        == mid_nets,
                }
            }
    }
}

/// Extending an all-successful bus copy by one more successful copy
/// yields an all-successful copy of the longer bus.
proof fn lemma_copy_bus_snoc_ok<D: DelayTrait>(
    cell0: CellInfo<D>,
    other0: CellInfo<D>,
    nets0: Map<ArenaIndex<NetInfo<D>>, NetInfo<D>>,
    other1: CellInfo<D>,
    nets1: Map<ArenaIndex<NetInfo<D>>, NetInfo<D>>,
    other2: CellInfo<D>,
    nets2: Map<ArenaIndex<NetInfo<D>>, NetInfo<D>>,
    olds: Seq<IdString>,
    news: Seq<IdString>,
    o: IdString,
    n: IdString,
)
    requires
        olds.len() == news.len(),
        copy_port_bus_post(cell0, other0, nets0, other1, nets1, olds, news, Ok::<(), CellError>(())),
        copy_port_to_post(cell0, other1, nets1, other2, nets2, o, n, Ok::<(), CellError>(())),
    ensures
        copy_port_bus_post(
            cell0,
            other0,
            nets0,
            other2,
            nets2,
            olds.push(o),
            news.push(n),
            Ok::<(), CellError>(()),
        ),
    decreases olds.len(),
{
    let olds1 = olds.push(o);
    let news1 = news.push(n);
    if olds.len() == 0 {
        assert(olds1[0] == o);
        assert(news1[0] == n);
        assert(olds1.drop_first() =~= Seq::<IdString>::empty());
        assert(news1.drop_first() =~= Seq::<IdString>::empty());
        assert(copy_port_to_post(
            cell0,
            other0,
            nets0,
            other2,
            nets2,
            olds1[0],
            news1[0],
            Ok::<(), CellError>(()),
        ));
        assert(copy_port_bus_post(
            cell0,
            other2,
            nets2,
            other2,
            nets2,
            olds1.drop_first(),
            news1.drop_first(),
            Ok::<(), CellError>(()),
        ));
    } else {
        let (mid_other, mid_nets, r0) = choose|
            mid_other: CellInfo<D>,
            mid_nets: Map<ArenaIndex<NetInfo<D>>, NetInfo<D>>,
            r0: Result<(), CellError>,
        |
            {
                &&& #[trigger] copy_port_to_post(
                    cell0,
                    other0,
                    nets0,
                    mid_other,
                    mid_nets,
                    olds[0],
                    news[0],
                    r0,
                )
                &&& match r0 {
                    Ok(()) => copy_port_bus_post(
                        cell0,
                        mid_other,
                        mid_nets,
                        other1,
                        nets1,
                        olds.drop_first(),
                        news.drop_first(),
                        Ok::<(), CellError>(()),
                    ),
                    Err(e) => Ok::<(), CellError>(()) == Err::<(), CellError>(e) && other1
                        == mid_other && nets1 == mid_nets,
                }
            };
        assert(r0 is Ok);
        lemma_copy_bus_snoc_ok(
            cell0,
            mid_other,
            mid_nets,
            other1,
            nets1,
            other2,
            nets2,
            olds.drop_first(),
            news.drop_first(),
            o,
            n,
        );
        assert(olds1.drop_first() =~= olds.drop_first().push(o));
        assert(news1.drop_first() =~= news.drop_first().push(n));
        assert(olds1[0] == olds[0]);
        assert(news1[0] == news[0]);
        assert(copy_port_to_post(
            cell0,
            other0,
            nets0,
            mid_other,
            mid_nets,
            olds1[0],
            news1[0],
            r0,
        ));
        assert(copy_port_bus_post(
            cell0,
            mid_other,
            mid_nets,
            other2,
            nets2,
            olds1.drop_first(),
            news1.drop_first(),
            Ok::<(), CellError>(()),
        ));
    }
}

/// An all-successful copy of a prefix followed by one failing copy is
/// a failing copy of the whole bus.
proof fn lemma_copy_bus_snoc_err<D: DelayTrait>(
    cell0: CellInfo<D>,
    other0: CellInfo<D>,
    nets0: Map<ArenaIndex<NetInfo<D>>, NetInfo<D>>,
    other1: CellInfo<D>,
    nets1: Map<ArenaIndex<NetInfo<D>>, NetInfo<D>>,
    olds: Seq<IdString>,
    news: Seq<IdString>,
    i: int,
    e: CellError,
)
    requires
        olds.len() == news.len(),
        0 <= i < olds.len(),
        copy_port_bus_post(
            cell0,
            other0,
            nets0,
            other1,
            nets1,
            olds.subrange(0, i),
            news.subrange(0, i),
            Ok::<(), CellError>(()),
        ),
        copy_port_to_post(
            cell0,
            other1,
            nets1,
            other1,
            nets1,
            olds[i],
            news[i],
            Err::<(), CellError>(e),
        ),
    ensures
        copy_port_bus_post(cell0, other0, nets0, other1, nets1, olds, news, Err::<(), CellError>(e)),
    decreases i,
{
    if i == 0 {
        assert(olds.subrange(0, 0) =~= Seq::<IdString>::empty());
        assert(other1 == other0 && nets1 == nets0);
        assert(copy_port_to_post(
            cell0,
            other0,
            nets0,
            other1,
            nets1,
            olds[0],
            news[0],
            Err::<(), CellError>(e),
        ));
    } else {
        let oldsp = olds.subrange(0, i);
        let newsp = news.subrange(0, i);
        let (mid_other, mid_nets, r0) = choose|
            mid_other: CellInfo<D>,
            mid_nets: Map<ArenaIndex<NetInfo<D>>, NetInfo<D>>,
            r0: Result<(), CellError>,
        |
            {
                &&& #[trigger] copy_port_to_post(
                    cell0,
                    other0,
                    nets0,
                    mid_other,
                    mid_nets,
                    oldsp[0],
                    newsp[0],
                    r0,
                )
                &&& match r0 {
                    Ok(()) => copy_port_bus_post(
                        cell0,
                        mid_other,
                        mid_nets,
                        other1,
                        nets1,
                        oldsp.drop_first(),
                        newsp.drop_first(),
                        Ok::<(), CellError>(()),
                    ),
                    Err(err0) => Ok::<(), CellError>(()) == Err::<(), CellError>(err0) && other1
                        == mid_other && nets1 == mid_nets,
                }
            };
        assert(r0 is Ok);
        assert(oldsp.drop_first() =~= olds.drop_first().subrange(0, i - 1));
        assert(newsp.drop_first() =~= news.drop_first().subrange(0, i - 1));
        assert(olds.drop_first()[i - 1] == olds[i]);
        assert(news.drop_first()[i - 1] == news[i]);
        lemma_copy_bus_snoc_err(
            cell0,
            mid_other,
            mid_nets,
            other1,
            nets1,
            olds.drop_first(),
            news.drop_first(),
            i - 1,
            e,
        );
        assert(oldsp[0] == olds[0]);
        assert(newsp[0] == news[0]);
        assert(copy_port_to_post(
            cell0,
            other0,
            nets0,
            mid_other,
            mid_nets,
            olds[0],
            news[0],
            r0,
        ));
    }
}

/// Given an undriven net and two cells each holding an unbound output
/// port, the first `connect_port` succeeds and registers its cell as
/// the driver, and the second then fails with `DriverCellInUse`,
/// leaving the state untouched: a net never gains a second driver.
pub proof fn lemma_single_driver<D: DelayTrait>(
    cell_a0: CellInfo<D>,
    cell_a1: CellInfo<D>,
    cell_b0: CellInfo<D>,
    cell_b1: CellInfo<D>,
    nets0: Map<ArenaIndex<NetInfo<D>>, NetInfo<D>>,
    nets1: Map<ArenaIndex<NetInfo<D>>, NetInfo<D>>,
    nets2: Map<ArenaIndex<NetInfo<D>>, NetInfo<D>>,
    port_a: IdString,
    port_b: IdString,
    net: ArenaIndex<NetInfo<D>>,
    r1: Result<(), CellError>,
    r2: Result<(), CellError>,
)
    requires
        nets0.contains_key(net),
        nets0[net].driver.cell is None,
        cell_a0.ports@.contains_key(port_a@),
        cell_a0.ports@[port_a@].net is None,
        cell_a0.ports@[port_a@].port_type == PortType::Out,
        cell_a0.self_index is Some,
        connect_port_post(cell_a0, nets0, cell_a1, nets1, port_a, net, r1),
        cell_b0.ports@.contains_key(port_b@),
        cell_b0.ports@[port_b@].net is None,
        cell_b0.ports@[port_b@].port_type == PortType::Out,
        connect_port_post(cell_b0, nets1, cell_b1, nets2, port_b, net, r2),
    ensures
        r1 == Ok::<(), CellError>(()),
        driver_of(nets1[net]) == Some((cell_a0.self_index->0, port_a@)),
        r2 == Err::<(), CellError>(CellError::DriverCellInUse),
        cell_b1 == cell_b0,
        nets2 == nets1,
{
    assert(nets1.contains_key(net));
    assert(nets1[net].driver.cell == cell_a0.self_index);
}

/// Connecting an input port and then disconnecting it returns the port
/// to "no net" and the net to its previous sink bookkeeping: the new
/// sink entry is tombstoned, every other entry and the driver are as
/// they were, and the number of live sinks is restored.
pub proof fn lemma_connect_disconnect_symmetry<D: DelayTrait>(
    cell0: CellInfo<D>,
    cell1: CellInfo<D>,
    cell2: CellInfo<D>,
    nets0: Map<ArenaIndex<NetInfo<D>>, NetInfo<D>>,
    nets1: Map<ArenaIndex<NetInfo<D>>, NetInfo<D>>,
    nets2: Map<ArenaIndex<NetInfo<D>>, NetInfo<D>>,
    port_name: IdString,
    net: ArenaIndex<NetInfo<D>>,
    r1: Result<(), CellError>,
    r2: Result<(), CellError>,
)
    requires
        nets0.contains_key(net),
        nets0[net].users@.len() < usize::MAX,
        cell0.ports@.contains_key(port_name@),
        cell0.ports@[port_name@].net is None,
        cell0.ports@[port_name@].port_type == PortType::In,
        connect_port_post(cell0, nets0, cell1, nets1, port_name, net, r1),
        disconnect_port_post(cell1, nets1, cell2, nets2, port_name, r2),
    ensures
        r1 == Ok::<(), CellError>(()),
        r2 == Ok::<(), CellError>(()),
        cell2.ports@.contains_key(port_name@),
        cell2.ports@[port_name@].net is None,
        cell2.ports@[port_name@].user_index is None,
        cell_unchanged_but_ports(cell0, cell2),
        cell2.ports@ == cell0.ports@.insert(
            port_name@,
            PortInfo {
                name: cell0.ports@[port_name@].name,
                net: None,
                port_type: PortType::In,
                user_index: None,
            },
        ),
        nets2 == nets0.insert(net, nets2[net]),
        net_unchanged_but_users(nets0[net], nets2[net]),
        nets2[net].users@ == nets0[net].users@.push(None::<PortRef<D>>),
        live_user_count(nets2[net].users@, nets2[net].users@.len() as int) == live_user_count(
            nets0[net].users@,
            nets0[net].users@.len() as int,
        ),
        driver_of(nets2[net]) == driver_of(nets0[net]),
{
    let k = port_name@;
    let n0 = nets0[net];
    let n1 = nets1[net];
    let n2 = nets2[net];
    assert(cell1.ports@[k].net == Some(net));
    assert(cell1.ports@[k].user_index == Some(UserId((n0.users@.len()) as usize)));
    assert(n1.users@.len() == n0.users@.len() + 1);
    assert(r2 == Ok::<(), CellError>(()));
    assert(n2.users@ == n1.users@.update(n0.users@.len() as int, None::<PortRef<D>>));
    assert(n2.users@ =~= n0.users@.push(None::<PortRef<D>>)) by {
        assert(n1.users@.subrange(0, n0.users@.len() as int) == n0.users@);
        assert forall|i: int| 0 <= i < n0.users@.len() implies n2.users@[i] == n0.users@[i] by {
            assert(n1.users@[i] == n1.users@.subrange(0, n0.users@.len() as int)[i]);
        }
    };
    lemma_live_user_count_push_none(n0.users@);
    assert(nets2 =~= nets0.insert(net, nets2[net]));
}

/// Connecting an output port and then disconnecting it returns the
/// port to "no net" and the driver slot to "undriven", with the net's
/// user list and every other field untouched.
pub proof fn lemma_connect_disconnect_symmetry_output<D: DelayTrait>(
    cell0: CellInfo<D>,
    cell1: CellInfo<D>,
    cell2: CellInfo<D>,
    nets0: Map<ArenaIndex<NetInfo<D>>, NetInfo<D>>,
    nets1: Map<ArenaIndex<NetInfo<D>>, NetInfo<D>>,
    nets2: Map<ArenaIndex<NetInfo<D>>, NetInfo<D>>,
    port_name: IdString,
    net: ArenaIndex<NetInfo<D>>,
    r1: Result<(), CellError>,
    r2: Result<(), CellError>,
)
    requires
        nets0.contains_key(net),
        nets0[net].driver.cell is None,
        cell0.ports@.contains_key(port_name@),
        cell0.ports@[port_name@].net is None,
        cell0.ports@[port_name@].port_type == PortType::Out,
        cell0.self_index is Some,
        connect_port_post(cell0, nets0, cell1, nets1, port_name, net, r1),
        disconnect_port_post(cell1, nets1, cell2, nets2, port_name, r2),
    ensures
        r1 == Ok::<(), CellError>(()),
        r2 == Ok::<(), CellError>(()),
        cell2.ports@.contains_key(port_name@),
        cell2.ports@[port_name@].net is None,
        cell2.ports@[port_name@].user_index is None,
        cell_unchanged_but_ports(cell0, cell2),
        nets2 == nets0.insert(net, nets2[net]),
        net_unchanged_but_driver(nets0[net], nets2[net]),
        driver_of(nets2[net]) == driver_of(nets0[net]),
        nets2[net].users@ == nets0[net].users@,
{
    assert(nets1.contains_key(net));
    assert(cell1.ports@[port_name@].net == Some(net));
    assert(nets1[net].driver.cell == cell0.self_index);
    assert(nets1[net].driver.port == port_name);
    assert(r2 == Ok::<(), CellError>(()));
    assert(nets2[net].driver.cell is None);
    assert(nets2 =~= nets0.insert(net, nets2[net]));
}

/// Appending a tombstone to a user list leaves the number of live
/// sinks unchanged.
pub proof fn lemma_live_user_count_push_none<D: DelayTrait>(users: Seq<Option<PortRef<D>>>)
    ensures
        live_user_count(users.push(None::<PortRef<D>>), users.push(None::<PortRef<D>>).len() as int)
            == live_user_count(users, users.len() as int),
{
    let pushed = users.push(None::<PortRef<D>>);
    assert(live_user_count(pushed, pushed.len() as int) == live_user_count(
        pushed,
        users.len() as int,
    ));
    lemma_live_user_count_agree(pushed, users, users.len() as int);
}

/// Two user lists that agree on their first `n` entries have the same
/// number of live sinks among them.
proof fn lemma_live_user_count_agree<D: DelayTrait>(
    a: Seq<Option<PortRef<D>>>,
    b: Seq<Option<PortRef<D>>>,
    n: int,
)
    requires
        n <= a.len(),
        n <= b.len(),
        forall|i: int| 0 <= i < n ==> a[i] == b[i],
    ensures
        live_user_count(a, n) == live_user_count(b, n),
    decreases n,
{
    if n > 0 {
        lemma_live_user_count_agree(a, b, n - 1);
    }
}

/// A non-leaf module instance in a hierarchy-preserving flow:
/// bidirectional maps between local names and global names for child
/// cells and nets, plus the instance's ports.
#[derive(Debug, Clone, PartialEq)]
pub struct HierarchicalCell {
    pub name: IdString,
    pub cell_type: IdString,
    pub parent: IdString,
    pub fullpath: IdString,
    /// Local leaf-cell name to global name.
    pub leaf_cells: IdMap<IdString>,
    /// Local net name to global name.
    pub nets: IdMap<IdString>,
    /// Global leaf-cell name back to local name.
    pub leaf_cells_by_global_name: IdMap<IdString>,
    /// Global net name back to local name.
    pub nets_by_global_name: IdMap<IdString>,
    /// The instance's ports, keyed by port name.
    pub ports: IdMap<HierarchicalPort>,
    /// Local child-instance name to global name.
    pub hierachical_cells: IdMap<IdString>,
}

impl HierarchicalCell {
    /// An unnamed instance with no children.
    pub fn new() -> (r: Self)
        ensures
            r.name@ == 0,
            r.cell_type@ == 0,
            r.parent@ == 0,
            r.fullpath@ == 0,
            r.leaf_cells@ == Map::<u64, IdString>::empty(),
            r.nets@ == Map::<u64, IdString>::empty(),
            r.leaf_cells_by_global_name@ == Map::<u64, IdString>::empty(),
            r.nets_by_global_name@ == Map::<u64, IdString>::empty(),
            r.ports@ == Map::<u64, HierarchicalPort>::empty(),
            r.hierachical_cells@ == Map::<u64, IdString>::empty(),
    {
        Self {
            name: IdString::new(),
            cell_type: IdString::new(),
            parent: IdString::new(),
            fullpath: IdString::new(),
            leaf_cells: IdMap::new(),
            nets: IdMap::new(),
            leaf_cells_by_global_name: IdMap::new(),
            nets_by_global_name: IdMap::new(),
            ports: IdMap::new(),
            hierachical_cells: IdMap::new(),
        }
    }
}

} // verus!
