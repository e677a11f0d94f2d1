//! Ports and port references.
//!
//! A `PortInfo` is a cell's own record of one of its ports.  A
//! `PortRef` is the net's side of the relation: a non-owning reference
//! to a cell and the name of the port on it, used both for a net's
//! driver slot and for its user (sink) entries.

use crate::arena::ArenaIndex;
use crate::cell::CellInfo;
use crate::delay::{Delay, DelayTrait};
use crate::id_string::IdString;
use crate::net::{NetInfo, UserId};
use vstd::prelude::*;

verus! {

/// The direction of a port.
#[derive(Debug, Copy, Clone, PartialEq, Eq, Structural, Hash)]
pub enum PortType {
    In,
    Out,
    InOut,
}

/// A non-owning reference to one port of one cell, with the timing
/// budget assigned to the arc that reaches it.
#[derive(Debug, Copy, Clone)]
pub struct PortRef<D: DelayTrait> {
    /// The cell referred to, if any.
    pub cell: Option<ArenaIndex<CellInfo<D>>>,
    /// The name of the port on that cell.
    pub port: IdString,
    /// The timing budget of this arc.
    pub budget: Delay<D>,
}

impl<D: DelayTrait> PortRef<D> {
    /// A reference to no cell, with an empty name and zero budget.
    pub fn new() -> (r: Self)
        ensures
            r.cell is None,
            r.port@ == 0,
            r.budget@ == 0,
    {
        Self { cell: None, port: IdString::new(), budget: Delay::new() }
    }
}

impl<D: DelayTrait> Default for PortRef<D> {
    /// The default reference points at no cell.
    fn default() -> (r: Self)
        ensures
            r.cell is None,
            r.port@ == 0,
            r.budget@ == 0,
    {
        PortRef::new()
    }
}

impl<D: DelayTrait> PartialEq for PortRef<D> {
    /// Two references are equal iff they agree on cell, port name and
    /// budget value.
    fn eq(&self, other: &Self) -> (r: bool) {
        let cells_eq = match (&self.cell, &other.cell) {
            (None, None) => true,
            (None, Some(_)) => false,
            (Some(_), None) => false,
            (Some(s), Some(o)) => *s == *o,
        };
        cells_eq && self.port == other.port && self.budget == other.budget
    }
}

impl<D: DelayTrait> vstd::std_specs::cmp::PartialEqSpecImpl for PortRef<D> {
    open spec fn obeys_eq_spec() -> bool {
        true
    }

    open spec fn eq_spec(&self, other: &Self) -> bool {
        self.cell == other.cell && self.port == other.port && self.budget@ == other.budget@
    }
}

impl<D: DelayTrait> Eq for PortRef<D> {}

/// A cell's record of one of its ports: its name, direction, and the
/// net it is bound to, together with the sink slot the binding occupies
/// on that net (for input and inout ports).
#[derive(Debug, Copy, Clone, PartialEq)]
pub struct PortInfo<D: DelayTrait> {
    pub name: IdString,
    /// The net this port is connected to, if any.
    pub net: Option<ArenaIndex<NetInfo<D>>>,
    pub port_type: PortType,
    /// The sink slot this port occupies on its net; meaningful only
    /// for input and inout ports.
    pub user_index: Option<UserId>,
}

impl<D: DelayTrait> PortInfo<D> {
    /// An unnamed, unconnected input port.
    pub fn new() -> (r: Self)
        ensures
            r.name@ == 0,
            r.net is None,
            r.port_type == PortType::In,
            r.user_index is None,
    {
        Self { name: IdString::new(), net: None, port_type: PortType::In, user_index: None }
    }

    /// An unnamed, unconnected input port; the arena is only the
    /// place its net handles will point into.
    pub fn with_arena(_net_arena: &mut crate::arena::Arena<NetInfo<D>>) -> (r: Self)
        ensures
            r.name@ == 0,
            r.net is None,
            r.port_type == PortType::In,
            r.user_index is None,
    {
        PortInfo::new()
    }

    /// Renames the port.
    pub fn update_name(&mut self, name: IdString)
        ensures
            *final(self) == (PortInfo { name, ..*old(self) }),
    {
        self.name = name;
    }

    /// Changes the port's direction.
    pub fn update_port(&mut self, port_type: PortType)
        ensures
            *final(self) == (PortInfo { port_type, ..*old(self) }),
    {
        self.port_type = port_type;
    }
}

impl<D: DelayTrait> Default for PortInfo<D> {
    /// The default port is an unnamed, unconnected input.
    fn default() -> (r: Self)
        ensures
            r.name@ == 0,
            r.net is None,
            r.port_type == PortType::In,
            r.user_index is None,
    {
        PortInfo::new()
    }
}

/// One element range of a port bus: a base name, an index offset, and
/// whether elements are written with brackets.
#[derive(Debug, Copy, Clone, PartialEq, Eq, Structural, Hash)]
pub struct PortBus {
    pub name: IdString,
    pub offset: i32,
    pub brackets: bool,
}

impl PortBus {
    /// A bus description with every field supplied.
    pub fn with_parts(name: IdString, offset: i32, brackets: bool) -> (r: Self)
        ensures
            r == (PortBus { name, offset, brackets }),
    {
        Self { name, offset, brackets }
    }
}

/// A port of a non-leaf cell in a hierarchy-preserving flow: the nets
/// of its elements, indexed from `offset`.
#[derive(Debug, Clone, PartialEq)]
pub struct HierarchicalPort {
    pub name: IdString,
    pub dir: PortType,
    pub nets: Vec<IdString>,
    pub offset: i32,
    pub up_to: bool,
}

impl HierarchicalPort {
    /// An unnamed input port with no elements.
    pub fn new() -> (r: Self)
        ensures
            r.name@ == 0,
            r.dir == PortType::In,
            r.nets@ == Seq::<IdString>::empty(),
            r.offset == 0,
            !r.up_to,
    {
        let nets: Vec<IdString> = Vec::new();
        proof {
            assert(nets@ =~= Seq::<IdString>::empty());
        }
        Self { name: IdString::new(), dir: PortType::In, nets, offset: 0, up_to: false }
    }
}

} // verus!
