//! The database aggregate.
//!
//! `BaseCtx` owns the identifier interner, one arena per entity kind,
//! the hierarchy and alias maps, the current timing result, and the
//! dirty flags a UI consumes.  It is the single owner of all graph
//! state; callers address entities through arena handles and interned
//! names.

use crate::arch_defs::{BelId, GroupId, PipId, WireId};
use crate::arena::{Arena, ArenaIndex};
use crate::base_types::Loc;
use crate::cell::{CellError, CellInfo, HierarchicalCell, RegionPlug};
use crate::cell::{connect_port_post, disconnect_port_post};
use crate::context::Context;
use crate::delay::DelayTrait;
use crate::id_map::IdMap;
use crate::id_string::{intern_spec, IdString};
use crate::net::NetInfo;
use crate::port::{PortInfo, PortType};
use crate::property::Property;
use crate::region::Region;
use crate::timing::{ClockConstraint, TimingResult};
use vstd::prelude::*;

verus! {

/// Errors of aggregate-level operations.
#[derive(Debug, Copy, Clone, Eq, PartialEq, Structural)]
pub enum BaseCtxError {
    /// The architecture context has not been initialized yet.
    ContextNotInitialized,
    /// The handle resolves to no interned name.
    NameNotFound,
    /// No net is known under the given alias.
    NetAliasNotFound,
    /// A net already answers to the given name.
    NetNameTaken,
    /// A region already answers to the given name.
    RegionNameTaken,
    /// No region is known under the given name.
    RegionNotFound,
    /// The cell handle names no live cell.
    CellIndexNotFound,
    /// The cell is not backed by a pseudo-cell plug.
    CellNotPseudo,
    /// A port operation on a cell failed.
    CellOperation(CellError),
}

/// A way to address a net: by one of its alias names or directly by
/// its arena handle.
#[derive(Debug, Copy, Clone)]
pub enum NetAlias<D: DelayTrait> {
    Id(IdString),
    Index(ArenaIndex<NetInfo<D>>),
}

/// The database aggregate: interner, arenas, maps, timing summary and
/// UI dirty flags.
///
/// Equality is field-wise; the map-backed storage offers no stable
/// hash, so the aggregate is not hashable.
#[derive(PartialEq)]
pub struct BaseCtx<D: DelayTrait> {
    /// The interner's table: position `i` holds the string of handle
    /// `i`.  Append-only; position 0 is the empty string.
    pub idstring_idx_to_str: Vec<String>,
    /// Project settings and configuration switches.
    pub settings: IdMap<Property>,
    /// The nets of the design.
    pub nets: Arena<NetInfo<D>>,
    /// The cells of the design.
    pub cells: Arena<CellInfo<D>>,
    /// The pseudo-cell plugs.
    pub pseudo_cells: Arena<RegionPlug>,
    /// Hierarchical (non-leaf) cells, keyed by full path.
    pub hierarchy: IdMap<HierarchicalCell>,
    /// The root of the hierarchy.
    pub top_module: IdString,
    /// Net aliases: every name a net answers to, mapped to its handle.
    pub net_aliases: IdMap<ArenaIndex<NetInfo<D>>>,
    /// Top-level ports, keyed by name.
    pub ports: IdMap<PortInfo<D>>,
    /// The I/O buffer cell of each top-level port, keyed by name.
    pub port_cells: IdMap<ArenaIndex<CellInfo<D>>>,
    /// The floorplanning regions.
    pub region: Arena<Region>,
    /// Region handles by region name.
    pub region_names: IdMap<ArenaIndex<Region>>,
    /// Context metadata.
    pub attributes: IdMap<Property>,
    /// The timing summary of the last analysis run.
    pub timing_result: TimingResult<D>,
    /// The architecture context, once initialized.
    pub as_context: Option<Context>,
    /// Whether the frontend has loaded a design.
    pub design_loaded: bool,
    /// UI dirty flag: reload everything.
    pub all_ui_reload: bool,
    /// UI dirty flag: reload the frame.
    pub frame_ui_reload: bool,
    /// Bels whose rendering is stale.
    pub bel_ui_reload: Vec<BelId>,
    /// Wires whose rendering is stale.
    pub wire_ui_reload: Vec<WireId>,
    /// Pips whose rendering is stale.
    pub pip_ui_reload: Vec<PipId>,
    /// Groups whose rendering is stale.
    pub group_ui_reload: Vec<GroupId>,
}

/// Whether two aggregates agree on everything outside the graph
/// arenas and their name maps: interner, settings, hierarchy,
/// top-level maps, metadata, timing summary, and UI flags.
pub open spec fn base_ctx_same_misc<D: DelayTrait>(a: BaseCtx<D>, b: BaseCtx<D>) -> bool {
    &&& a.interner() == b.interner()
    &&& a.settings@ == b.settings@
    &&& a.hierarchy@ == b.hierarchy@
    &&& a.top_module == b.top_module
    &&& a.ports@ == b.ports@
    &&& a.port_cells@ == b.port_cells@
    &&& a.attributes@ == b.attributes@
    &&& a.timing_result == b.timing_result
    &&& a.as_context == b.as_context
    &&& a.design_loaded == b.design_loaded
    &&& a.all_ui_reload == b.all_ui_reload
    &&& a.frame_ui_reload == b.frame_ui_reload
    &&& a.bel_ui_reload@ == b.bel_ui_reload@
    &&& a.wire_ui_reload@ == b.wire_ui_reload@
    &&& a.pip_ui_reload@ == b.pip_ui_reload@
    &&& a.group_ui_reload@ == b.group_ui_reload@
}

/// Whether two aggregates agree on everything but the interner table.
pub open spec fn base_ctx_unchanged_but_interner<D: DelayTrait>(
    a: BaseCtx<D>,
    b: BaseCtx<D>,
) -> bool {
    &&& a.settings@ == b.settings@
    &&& a.nets == b.nets
    &&& a.cells == b.cells
    &&& a.pseudo_cells == b.pseudo_cells
    &&& a.hierarchy@ == b.hierarchy@
    &&& a.top_module == b.top_module
    &&& a.net_aliases@ == b.net_aliases@
    &&& a.ports@ == b.ports@
    &&& a.port_cells@ == b.port_cells@
    &&& a.region == b.region
    &&& a.region_names@ == b.region_names@
    &&& a.attributes@ == b.attributes@
    &&& a.as_context == b.as_context
    &&& a.design_loaded == b.design_loaded
    &&& a.all_ui_reload == b.all_ui_reload
    &&& a.frame_ui_reload == b.frame_ui_reload
    &&& a.bel_ui_reload@ == b.bel_ui_reload@
    &&& a.wire_ui_reload@ == b.wire_ui_reload@
    &&& a.pip_ui_reload@ == b.pip_ui_reload@
    &&& a.group_ui_reload@ == b.group_ui_reload@
}

impl<D: DelayTrait> BaseCtx<D> {
    /// The interner's table, abstractly: the sequence of interned
    /// strings, in handle order.
    pub open spec fn interner(&self) -> Seq<Seq<char>> {
        Seq::new(self.idstring_idx_to_str@.len(), |i: int| self.idstring_idx_to_str@[i]@)
    }

    /// The arenas' bookkeeping invariants hold.
    pub open spec fn inv(&self) -> bool {
        &&& self.nets.inv()
        &&& self.cells.inv()
        &&& self.pseudo_cells.inv()
        &&& self.region.inv()
    }

    /// An empty database.  The interner already holds the empty
    /// string, so handle 0 always resolves to it.
    pub fn new() -> (r: Self)
        ensures
            r.inv(),
            r.interner() == seq![Seq::<char>::empty()],
            r.nets@ == Map::<ArenaIndex<NetInfo<D>>, NetInfo<D>>::empty(),
            r.cells@ == Map::<ArenaIndex<CellInfo<D>>, CellInfo<D>>::empty(),
            r.pseudo_cells@ == Map::<ArenaIndex<RegionPlug>, RegionPlug>::empty(),
            r.region@ == Map::<ArenaIndex<Region>, Region>::empty(),
            r.net_aliases@ == Map::<u64, ArenaIndex<NetInfo<D>>>::empty(),
            r.region_names@ == Map::<u64, ArenaIndex<Region>>::empty(),
            r.hierarchy@ == Map::<u64, HierarchicalCell>::empty(),
            r.settings@ == Map::<u64, Property>::empty(),
            r.attributes@ == Map::<u64, Property>::empty(),
            r.ports@ == Map::<u64, PortInfo<D>>::empty(),
            r.port_cells@ == Map::<u64, ArenaIndex<CellInfo<D>>>::empty(),
            r.as_context is None,
            !r.design_loaded,
            r.all_ui_reload,
            !r.frame_ui_reload,
    {
        let mut idstring_idx_to_str: Vec<String> = Vec::new();
        idstring_idx_to_str.push(String::new());
        let bel_ui_reload: Vec<BelId> = Vec::new();
        let wire_ui_reload: Vec<WireId> = Vec::new();
        let pip_ui_reload: Vec<PipId> = Vec::new();
        let group_ui_reload: Vec<GroupId> = Vec::new();
        let r = BaseCtx {
            idstring_idx_to_str,
            settings: IdMap::new(),
            nets: Arena::new(),
            cells: Arena::new(),
            pseudo_cells: Arena::new(),
            hierarchy: IdMap::new(),
            top_module: IdString::new(),
            net_aliases: IdMap::new(),
            ports: IdMap::new(),
            port_cells: IdMap::new(),
            region: Arena::new(),
            region_names: IdMap::new(),
            attributes: IdMap::new(),
            timing_result: TimingResult::new(),
            as_context: None,
            design_loaded: false,
            all_ui_reload: true,
            frame_ui_reload: false,
            bel_ui_reload,
            wire_ui_reload,
            pip_ui_reload,
            group_ui_reload,
        };
        proof {
            assert(r.interner() =~= seq![Seq::<char>::empty()]);
        }
        r
    }

    /// The architecture context, or an error before initialization.
    pub fn get_context(&self) -> (r: Result<&Context, BaseCtxError>)
        ensures
            match r {
                Ok(c) => self.as_context == Some(*c),
                Err(e) => self.as_context is None && e == BaseCtxError::ContextNotInitialized,
            },
    {
        match &self.as_context {
            Some(c) => Ok(c),
            None => Err(BaseCtxError::ContextNotInitialized),
        }
    }

    /// Interns `s` and returns its handle: the existing handle when
    /// `s` was seen before, else the next sequential one.
    pub fn id(&mut self, s: &str) -> (r: IdString)
        ensures
            ({
                let (tbl1, h) = intern_spec(old(self).interner(), s@);
                &&& r@ == h
                &&& final(self).interner() == tbl1
                &&& base_ctx_unchanged_but_interner(*old(self), *final(self))
            }),
    {
        IdString::with_ctx_str(self, s)
    }

    /// The string a handle names, or an error for a handle this
    /// database never handed out.
    pub fn name_of(&self, name: IdString) -> (r: Result<String, BaseCtxError>)
        ensures
            match r {
                Ok(t) => name@ < self.interner().len() && t@ == self.interner()[name@ as int],
                Err(e) => name@ >= self.interner().len() && e == BaseCtxError::NameNotFound,
            },
    {
        match name.to_string(self) {
            Ok(t) => Ok(t),
            Err(_) => Err(BaseCtxError::NameNotFound),
        }
    }

    /// Marks the whole UI stale.
    pub fn refresh_ui(&mut self)
        ensures
            *final(self) == (BaseCtx { all_ui_reload: true, ..*old(self) }),
    {
        self.all_ui_reload = true;
    }

    /// Marks the frame stale.
    pub fn refresh_ui_frame(&mut self)
        ensures
            *final(self) == (BaseCtx { frame_ui_reload: true, ..*old(self) }),
    {
        self.frame_ui_reload = true;
    }

    /// Records one bel whose rendering is stale.
    pub fn refresh_ui_bel(&mut self, bel: BelId)
        ensures
            final(self).bel_ui_reload@ == old(self).bel_ui_reload@.push(bel),
            *final(self) == (BaseCtx { bel_ui_reload: final(self).bel_ui_reload, ..*old(self) }),
    {
        self.bel_ui_reload.push(bel);
    }

    /// Records one wire whose rendering is stale.
    pub fn refresh_ui_wire(&mut self, wire: WireId)
        ensures
            final(self).wire_ui_reload@ == old(self).wire_ui_reload@.push(wire),
            *final(self) == (BaseCtx { wire_ui_reload: final(self).wire_ui_reload, ..*old(self) }),
    {
        self.wire_ui_reload.push(wire);
    }

    /// Records one pip whose rendering is stale.
    pub fn refresh_ui_pip(&mut self, pip: PipId)
        ensures
            final(self).pip_ui_reload@ == old(self).pip_ui_reload@.push(pip),
            *final(self) == (BaseCtx { pip_ui_reload: final(self).pip_ui_reload, ..*old(self) }),
    {
        self.pip_ui_reload.push(pip);
    }

    /// Records one group whose rendering is stale.
    pub fn refresh_ui_group(&mut self, group: GroupId)
        ensures
            final(self).group_ui_reload@ == old(self).group_ui_reload@.push(group),
            *final(self) == (BaseCtx { group_ui_reload: final(self).group_ui_reload, ..*old(self) }),
    {
        self.group_ui_reload.push(group);
    }

    /// Looks a net up, by alias name or directly by handle.
    pub fn get_net_by_alias(&self, alias: NetAlias<D>) -> (r: Option<&NetInfo<D>>)
        ensures
            match alias {
                NetAlias::Id(id) => match r {
                    Some(n) => self.net_aliases@.contains_key(id@) && self.nets@.contains_key(
                        self.net_aliases@[id@],
                    ) && *n == self.nets@[self.net_aliases@[id@]],
                    None => !self.net_aliases@.contains_key(id@) || !self.nets@.contains_key(
                        self.net_aliases@[id@],
                    ),
                },
                NetAlias::Index(idx) => match r {
                    Some(n) => self.nets@.contains_key(idx) && *n == self.nets@[idx],
                    None => !self.nets@.contains_key(idx),
                },
            },
    {
        match alias {
            NetAlias::Id(id) => {
                let idx = match self.net_aliases.get(id.index()) {
                    Some(idx) => *idx,
                    None => {
                        return None;
                    },
                };
                self.nets.get(idx)
            },
            NetAlias::Index(idx) => self.nets.get(idx),
        }
    }

    /// Creates a net under the given name and registers the name as
    /// its first alias.  Fails if a net already answers to the name.
    pub fn create_net(&mut self, name: IdString) -> (r: Result<
        ArenaIndex<NetInfo<D>>,
        BaseCtxError,
    >)
        requires
            old(self).inv(),
        ensures
            final(self).inv(),
            match r {
                Ok(idx) => {
                    &&& !old(self).net_aliases@.contains_key(name@)
                    &&& !old(self).nets@.contains_key(idx)
                    &&& final(self).nets@ == old(self).nets@.insert(idx, final(self).nets@[idx])
                    &&& final(self).nets@.contains_key(idx)
                    &&& final(self).nets@[idx].name == name
                    &&& final(self).nets@[idx].driver.cell is None
                    &&& final(self).nets@[idx].users@ == Seq::<
                        Option<crate::port::PortRef<D>>,
                    >::empty()
                    &&& final(self).nets@[idx].aliases@ == seq![name]
                    &&& final(self).net_aliases@ == old(self).net_aliases@.insert(name@, idx)
                    &&& final(self).cells == old(self).cells
                    &&& final(self).pseudo_cells == old(self).pseudo_cells
                    &&& final(self).region == old(self).region
                    &&& final(self).region_names@ == old(self).region_names@
                    &&& base_ctx_same_misc(*old(self), *final(self))
                },
                Err(e) => {
                    &&& e == BaseCtxError::NetNameTaken
                    &&& old(self).net_aliases@.contains_key(name@)
                    &&& *final(self) == *old(self)
                },
            },
    {
        if self.net_aliases.contains_key(name.index()) {
            return Err(BaseCtxError::NetNameTaken);
        }
        let mut net = NetInfo::with_name(name);
        net.aliases.push(name);
        proof {
            assert(net.aliases@ =~= seq![name]);
        }
        let idx = self.nets.insert(net);
        self.net_aliases.insert(name.index(), idx);
        Ok(idx)
    }

    /// Creates a cell with the given name and type and records its own
    /// handle in it.
    pub fn create_cell(&mut self, name: IdString, cell_type: IdString) -> (idx: ArenaIndex<
        CellInfo<D>,
    >)
        requires
            old(self).inv(),
        ensures
            final(self).inv(),
            !old(self).cells@.contains_key(idx),
            final(self).cells@ == old(self).cells@.insert(idx, final(self).cells@[idx]),
            final(self).cells@.contains_key(idx),
            final(self).cells@[idx].name == name,
            final(self).cells@[idx].cell_type == cell_type,
            final(self).cells@[idx].self_index == Some(idx),
            final(self).cells@[idx].ports@ == Map::<u64, PortInfo<D>>::empty(),
            final(self).cells@[idx].pseudo_cell is None,
            final(self).cells@[idx].region is None,
            final(self).nets == old(self).nets,
            final(self).pseudo_cells == old(self).pseudo_cells,
            final(self).region == old(self).region,
            final(self).net_aliases@ == old(self).net_aliases@,
            final(self).region_names@ == old(self).region_names@,
            base_ctx_same_misc(*old(self), *final(self)),
    {
        let mut cell = CellInfo::new();
        cell.name = name;
        cell.cell_type = cell_type;
        let idx = self.cells.insert(cell);
        let mut stored = match self.cells.take(idx) {
            Some(c) => c,
            None => {
                proof {
                    assert(false);
                }
                CellInfo::new()
            },
        };
        stored.self_index = Some(idx);
        self.cells.put(idx, stored);
        proof {
            assert(final(self).cells@ =~= old(self).cells@.insert(idx, final(self).cells@[idx]));
        }
        idx
    }

    /// Connects a port of the given cell to the net answering to the
    /// alias `net`.
    pub fn connect_port(
        &mut self,
        net: IdString,
        cell: ArenaIndex<CellInfo<D>>,
        port: IdString,
    ) -> (r: Result<(), BaseCtxError>)
        requires
            old(self).inv(),
        ensures
            final(self).inv(),
            base_ctx_same_misc(*old(self), *final(self)),
            final(self).pseudo_cells == old(self).pseudo_cells,
            final(self).region == old(self).region,
            final(self).net_aliases@ == old(self).net_aliases@,
            final(self).region_names@ == old(self).region_names@,
            match r {
                Ok(()) => {
                    &&& old(self).net_aliases@.contains_key(net@)
                    &&& old(self).cells@.contains_key(cell)
                    &&& final(self).cells@ == old(self).cells@.insert(
                        cell,
                        final(self).cells@[cell],
                    )
                    &&& connect_port_post(
                        old(self).cells@[cell],
                        old(self).nets@,
                        final(self).cells@[cell],
                        final(self).nets@,
                        port,
                        old(self).net_aliases@[net@],
                        Ok(()),
                    )
                },
                Err(e) => match e {
                    BaseCtxError::NetAliasNotFound => !old(self).net_aliases@.contains_key(net@)
                        && *final(self) == *old(self),
                    BaseCtxError::CellIndexNotFound => !old(self).cells@.contains_key(cell)
                        && *final(self) == *old(self),
                    BaseCtxError::CellOperation(ce) => {
                        &&& final(self).cells@ == old(self).cells@.insert(
                            cell,
                            final(self).cells@[cell],
                        )
                        &&& connect_port_post(
                            old(self).cells@[cell],
                            old(self).nets@,
                            final(self).cells@[cell],
                            final(self).nets@,
                            port,
                            old(self).net_aliases@[net@],
                            Err(ce),
                        )
                    },
                    _ => false,
                },
            },
    {
        let net_idx = match self.net_aliases.get(net.index()) {
            Some(idx) => *idx,
            None => {
                return Err(BaseCtxError::NetAliasNotFound);
            },
        };
        let mut cell_val = match self.cells.take(cell) {
            Some(c) => c,
            None => {
                proof {
                    assert(final(self).cells@ =~= old(self).cells@);
                }
                return Err(BaseCtxError::CellIndexNotFound);
            },
        };
        let inner = cell_val.connect_port(port, net_idx, &mut self.nets);
        self.cells.put(cell, cell_val);
        proof {
            assert(final(self).cells@ =~= old(self).cells@.insert(cell, final(self).cells@[cell]));
        }
        match inner {
            Ok(()) => Ok(()),
            Err(e) => Err(BaseCtxError::CellOperation(e)),
        }
    }

    /// Disconnects a port of the given cell from its net.
    pub fn disconnect_port(&mut self, cell: ArenaIndex<CellInfo<D>>, port: IdString) -> (r: Result<
        (),
        BaseCtxError,
    >)
        requires
            old(self).inv(),
        ensures
            final(self).inv(),
            base_ctx_same_misc(*old(self), *final(self)),
            final(self).pseudo_cells == old(self).pseudo_cells,
            final(self).region == old(self).region,
            final(self).net_aliases@ == old(self).net_aliases@,
            final(self).region_names@ == old(self).region_names@,
            match r {
                Ok(()) => {
                    &&& old(self).cells@.contains_key(cell)
                    &&& final(self).cells@ == old(self).cells@.insert(
                        cell,
                        final(self).cells@[cell],
                    )
                    &&& disconnect_port_post(
                        old(self).cells@[cell],
                        old(self).nets@,
                        final(self).cells@[cell],
                        final(self).nets@,
                        port,
                        Ok(()),
                    )
                },
                Err(e) => match e {
                    BaseCtxError::CellIndexNotFound => !old(self).cells@.contains_key(cell)
                        && *final(self) == *old(self),
                    BaseCtxError::CellOperation(ce) => {
                        &&& final(self).cells@ == old(self).cells@.insert(
                            cell,
                            final(self).cells@[cell],
                        )
                        &&& disconnect_port_post(
                            old(self).cells@[cell],
                            old(self).nets@,
                            final(self).cells@[cell],
                            final(self).nets@,
                            port,
                            Err(ce),
                        )
                    },
                    _ => false,
                },
            },
    {
        let mut cell_val = match self.cells.take(cell) {
            Some(c) => c,
            None => {
                proof {
                    assert(final(self).cells@ =~= old(self).cells@);
                }
                return Err(BaseCtxError::CellIndexNotFound);
            },
        };
        let inner = cell_val.disconnect_port(port, &mut self.nets);
        self.cells.put(cell, cell_val);
        proof {
            assert(final(self).cells@ =~= old(self).cells@.insert(cell, final(self).cells@[cell]));
        }
        match inner {
            Ok(()) => Ok(()),
            Err(e) => Err(BaseCtxError::CellOperation(e)),
        }
    }

    /// Attaches a clock constraint to the net answering to `net`.
    pub fn add_clock(&mut self, net: IdString, constraint: ClockConstraint<D>) -> (r: Result<
        (),
        BaseCtxError,
    >)
        requires
            old(self).inv(),
        ensures
            final(self).inv(),
            match r {
                Ok(()) => {
                    &&& old(self).net_aliases@.contains_key(net@)
                    &&& old(self).nets@.contains_key(old(self).net_aliases@[net@])
                    &&& ({
                        let idx = old(self).net_aliases@[net@];
                        let n0 = old(self).nets@[idx];
                        let n1 = final(self).nets@[idx];
                        &&& final(self).nets@ == old(self).nets@.insert(idx, n1)
                        &&& n1.clk_constr == Some(constraint)
                        &&& n1.driver == n0.driver
                        &&& n1.users@ == n0.users@
                        &&& n1.name == n0.name
                        &&& n1.aliases@ == n0.aliases@
                        &&& n1.wires@ == n0.wires@
                        &&& n1.attrs@ == n0.attrs@
                        &&& n1.region == n0.region
                        &&& n1.arch_net_info == n0.arch_net_info
                        &&& n1.hierarchy_path == n0.hierarchy_path
                        &&& n1.udata == n0.udata
                    })
                    &&& final(self).cells == old(self).cells
                    &&& final(self).pseudo_cells == old(self).pseudo_cells
                    &&& final(self).region == old(self).region
                    &&& final(self).net_aliases@ == old(self).net_aliases@
                    &&& final(self).region_names@ == old(self).region_names@
                    &&& base_ctx_same_misc(*old(self), *final(self))
                },
                Err(e) => {
                    &&& e == BaseCtxError::NetAliasNotFound
                    &&& *final(self) == *old(self)
                },
            },
    {
        let idx = match self.net_aliases.get(net.index()) {
            Some(idx) => *idx,
            None => {
                return Err(BaseCtxError::NetAliasNotFound);
            },
        };
        let mut n = match self.nets.take(idx) {
            Some(n) => n,
            None => {
                proof {
                    assert(final(self).nets@ =~= old(self).nets@);
                }
                return Err(BaseCtxError::NetAliasNotFound);
            },
        };
        n.clk_constr = Some(constraint);
        self.nets.put(idx, n);
        proof {
            assert(final(self).nets@ =~= old(self).nets@.insert(idx, final(self).nets@[idx]));
        }
        Ok(())
    }

    /// Creates a named region and registers it; its membership starts
    /// empty and is filled through `add_bel_to_region`.  Fails if a
    /// region already answers to the name.
    pub fn create_rectangular_region(
        &mut self,
        name: IdString,
        x0: i32,
        y0: i32,
        x1: i32,
        y1: i32,
    ) -> (r: Result<ArenaIndex<Region>, BaseCtxError>)
        requires
            old(self).inv(),
            x1 < i32::MAX,
            y1 < i32::MAX,
        ensures
            final(self).inv(),
            match r {
                Ok(idx) => {
                    &&& !old(self).region_names@.contains_key(name@)
                    &&& final(self).region@ == old(self).region@.insert(
                        idx,
                        final(self).region@[idx],
                    )
                    &&& final(self).region@.contains_key(idx)
                    &&& final(self).region@[idx].name == name
                    &&& !final(self).region@[idx].constr_bels
                    &&& final(self).region@[idx].bels@ == Seq::<BelId>::empty()
                    &&& (forall|l: Loc|
                        final(self).region@[idx].piplocs@.contains(l) <==> (x0 <= l.x <= x1 && y0
                            <= l.y <= y1 && l.z == 0))
                    &&& ({
                        let locs = final(self).region@[idx].piplocs@;
                        forall|i: int, j: int| 0 <= i < j < locs.len() ==> locs[i] != locs[j]
                    })
                    &&& final(self).region_names@ == old(self).region_names@.insert(name@, idx)
                    &&& final(self).nets == old(self).nets
                    &&& final(self).cells == old(self).cells
                    &&& final(self).pseudo_cells == old(self).pseudo_cells
                    &&& final(self).net_aliases@ == old(self).net_aliases@
                    &&& base_ctx_same_misc(*old(self), *final(self))
                },
                Err(e) => {
                    &&& e == BaseCtxError::RegionNameTaken
                    &&& old(self).region_names@.contains_key(name@)
                    &&& *final(self) == *old(self)
                },
            },
    {
        if self.region_names.contains_key(name.index()) {
            return Err(BaseCtxError::RegionNameTaken);
        }
        let mut reg = Region::new();
        reg.name = name;
        let mut x = x0;
        while x <= x1
            invariant
                x1 < i32::MAX,
                y1 < i32::MAX,
                x0 <= x,
                x <= x1 + 1 || x == x0,
                reg.name == name,
                !reg.constr_bels,
                reg.bels@ == Seq::<BelId>::empty(),
                forall|l: Loc|
                    reg.piplocs@.contains(l) <==> (x0 <= l.x < x && y0 <= l.y <= y1 && l.z == 0),
                forall|i: int, j: int|
                    0 <= i < j < reg.piplocs@.len() ==> reg.piplocs@[i] != reg.piplocs@[j],
            decreases x1 - x + 1,
        {
            let mut y = y0;
            while y <= y1
                invariant
                    x1 < i32::MAX,
                    y1 < i32::MAX,
                    x0 <= x <= x1,
                    y0 <= y,
                    y <= y1 + 1 || y == y0,
                    reg.name == name,
                    !reg.constr_bels,
                    reg.bels@ == Seq::<BelId>::empty(),
                    forall|l: Loc|
                        reg.piplocs@.contains(l) <==> ((x0 <= l.x < x && y0 <= l.y <= y1 && l.z
                            == 0) || (l.x == x && y0 <= l.y < y && l.z == 0)),
                    forall|i: int, j: int|
                        0 <= i < j < reg.piplocs@.len() ==> reg.piplocs@[i] != reg.piplocs@[j],
                decreases y1 - y + 1,
            {
                let ghost locs0 = reg.piplocs@;
                proof {
                    assert(!locs0.contains(Loc { x, y, z: 0i32 }));
                }
                reg.piplocs.push(Loc { x, y, z: 0 });
                proof {
                    assert forall|i: int, j: int| 0 <= i < j < reg.piplocs@.len() implies
                        reg.piplocs@[i] != reg.piplocs@[j] by {
                        if j == reg.piplocs@.len() - 1 {
                            assert(locs0[i] == reg.piplocs@[i]);
                            assert(locs0.contains(reg.piplocs@[i]) ==> true) by {
                                assert(locs0[i] == reg.piplocs@[i]);
                            }
                            if reg.piplocs@[i] == (Loc { x, y, z: 0i32 }) {
                                assert(locs0.contains(Loc { x, y, z: 0i32 }));
                            }
                        }
                    }
                    assert forall|l: Loc| reg.piplocs@.contains(l) implies ((x0 <= l.x < x && y0
                        <= l.y <= y1 && l.z == 0) || (l.x == x && y0 <= l.y < y + 1 && l.z
                        == 0)) by {
                        if l != (Loc { x, y, z: 0i32 }) {
                            let j = choose|j: int|
                                0 <= j < reg.piplocs@.len() && reg.piplocs@[j] == l;
                            assert(locs0[j] == l);
                            assert(locs0.contains(l));
                        }
                    }
                    assert forall|l: Loc| ((x0 <= l.x < x && y0 <= l.y <= y1 && l.z == 0) || (l.x
                        == x && y0 <= l.y < y + 1 && l.z == 0)) implies reg.piplocs@.contains(
                        l,
                    ) by {
                        if l == (Loc { x, y, z: 0i32 }) {
                            assert(reg.piplocs@.last() == l);
                        } else {
                            assert(locs0.contains(l));
                            let j = choose|j: int| 0 <= j < locs0.len() && locs0[j] == l;
                            assert(reg.piplocs@[j] == l);
                        }
                    }
                }
                y += 1;
            }
            x += 1;
        }
        let idx = self.region.insert(reg);
        self.region_names.insert(name.index(), idx);
        Ok(idx)
    }

    /// Adds a bel to the membership set of the named region.
    pub fn add_bel_to_region(&mut self, name: IdString, bel: BelId) -> (r: Result<
        (),
        BaseCtxError,
    >)
        requires
            old(self).inv(),
        ensures
            final(self).inv(),
            match r {
                Ok(()) => {
                    &&& old(self).region_names@.contains_key(name@)
                    &&& ({
                        let idx = old(self).region_names@[name@];
                        &&& old(self).region@.contains_key(idx)
                        &&& final(self).region@ == old(self).region@.insert(
                            idx,
                            final(self).region@[idx],
                        )
                        &&& final(self).region@[idx].bels@.contains(bel)
                        &&& crate::region::unchanged_but_bels(
                            old(self).region@[idx],
                            final(self).region@[idx],
                        )
                        &&& ({
                            let bs0 = old(self).region@[idx].bels@;
                            let bs1 = final(self).region@[idx].bels@;
                            &&& (bs0.contains(bel) ==> bs1 == bs0)
                            &&& (!bs0.contains(bel) ==> bs1 == bs0.push(bel))
                        })
                    })
                    &&& final(self).nets == old(self).nets
                    &&& final(self).cells == old(self).cells
                    &&& final(self).pseudo_cells == old(self).pseudo_cells
                    &&& final(self).net_aliases@ == old(self).net_aliases@
                    &&& final(self).region_names@ == old(self).region_names@
                    &&& base_ctx_same_misc(*old(self), *final(self))
                },
                Err(e) => {
                    &&& e == BaseCtxError::RegionNotFound
                    &&& *final(self) == *old(self)
                },
            },
    {
        let idx = match self.region_names.get(name.index()) {
            Some(idx) => *idx,
            None => {
                return Err(BaseCtxError::RegionNotFound);
            },
        };
        let mut reg = match self.region.take(idx) {
            Some(reg) => reg,
            None => {
                proof {
                    assert(final(self).region@ =~= old(self).region@);
                }
                return Err(BaseCtxError::RegionNotFound);
            },
        };
        reg.add_bel(bel);
        self.region.put(idx, reg);
        proof {
            assert(final(self).region@ =~= old(self).region@.insert(idx, final(self).region@[idx]));
        }
        Ok(())
    }

    /// Constrains a cell to the named region.
    pub fn constrain_cell_to_region(
        &mut self,
        cell: ArenaIndex<CellInfo<D>>,
        region_name: IdString,
    ) -> (r: Result<(), BaseCtxError>)
        requires
            old(self).inv(),
        ensures
            final(self).inv(),
            match r {
                Ok(()) => {
                    &&& old(self).region_names@.contains_key(region_name@)
                    &&& old(self).cells@.contains_key(cell)
                    &&& final(self).cells@ == old(self).cells@.insert(
                        cell,
                        final(self).cells@[cell],
                    )
                    &&& final(self).cells@[cell].region == Some(
                        old(self).region_names@[region_name@],
                    )
                    &&& final(self).cells@[cell].ports@ == old(self).cells@[cell].ports@
                    &&& final(self).cells@[cell].name == old(self).cells@[cell].name
                    &&& final(self).nets == old(self).nets
                    &&& final(self).pseudo_cells == old(self).pseudo_cells
                    &&& final(self).region == old(self).region
                    &&& final(self).net_aliases@ == old(self).net_aliases@
                    &&& final(self).region_names@ == old(self).region_names@
                    &&& base_ctx_same_misc(*old(self), *final(self))
                },
                Err(e) => {
                    &&& (e == BaseCtxError::RegionNotFound || e == BaseCtxError::CellIndexNotFound)
                    &&& *final(self) == *old(self)
                },
            },
    {
        let idx = match self.region_names.get(region_name.index()) {
            Some(idx) => *idx,
            None => {
                return Err(BaseCtxError::RegionNotFound);
            },
        };
        let mut cell_val = match self.cells.take(cell) {
            Some(c) => c,
            None => {
                proof {
                    assert(final(self).cells@ =~= old(self).cells@);
                }
                return Err(BaseCtxError::CellIndexNotFound);
            },
        };
        cell_val.region = Some(idx);
        self.cells.put(cell, cell_val);
        proof {
            assert(final(self).cells@ =~= old(self).cells@.insert(cell, final(self).cells@[cell]));
        }
        Ok(())
    }

    /// Rips a net's routing up: forgets every wire-to-pip binding of
    /// its routing tree, leaving driver and sinks in place.
    pub fn rip_up_net(&mut self, net: IdString) -> (r: Result<(), BaseCtxError>)
        requires
            old(self).inv(),
        ensures
            final(self).inv(),
            match r {
                Ok(()) => {
                    &&& old(self).net_aliases@.contains_key(net@)
                    &&& old(self).nets@.contains_key(old(self).net_aliases@[net@])
                    &&& ({
                        let idx = old(self).net_aliases@[net@];
                        let n0 = old(self).nets@[idx];
                        let n1 = final(self).nets@[idx];
                        &&& final(self).nets@ == old(self).nets@.insert(idx, n1)
                        &&& n1.wires@ == Map::<u64, crate::net::PipMap>::empty()
                        &&& n1.driver == n0.driver
                        &&& n1.users@ == n0.users@
                        &&& n1.name == n0.name
                        &&& n1.aliases@ == n0.aliases@
                        &&& n1.attrs@ == n0.attrs@
                        &&& n1.clk_constr == n0.clk_constr
                        &&& n1.region == n0.region
                        &&& n1.arch_net_info == n0.arch_net_info
                        &&& n1.hierarchy_path == n0.hierarchy_path
                        &&& n1.udata == n0.udata
                    })
                    &&& final(self).cells == old(self).cells
                    &&& final(self).pseudo_cells == old(self).pseudo_cells
                    &&& final(self).region == old(self).region
                    &&& final(self).net_aliases@ == old(self).net_aliases@
                    &&& final(self).region_names@ == old(self).region_names@
                    &&& base_ctx_same_misc(*old(self), *final(self))
                },
                Err(e) => {
                    &&& e == BaseCtxError::NetAliasNotFound
                    &&& *final(self) == *old(self)
                },
            },
    {
        let idx = match self.net_aliases.get(net.index()) {
            Some(idx) => *idx,
            None => {
                return Err(BaseCtxError::NetAliasNotFound);
            },
        };
        let mut n = match self.nets.take(idx) {
            Some(n) => n,
            None => {
                proof {
                    assert(final(self).nets@ =~= old(self).nets@);
                }
                return Err(BaseCtxError::NetAliasNotFound);
            },
        };
        n.wires.clear();
        self.nets.put(idx, n);
        proof {
            assert(final(self).nets@ =~= old(self).nets@.insert(idx, final(self).nets@[idx]));
        }
        Ok(())
    }

    /// Creates a pseudo-cell plug: a cell of the given name and type
    /// backed by a fresh `RegionPlug` at the given approximate
    /// location.
    pub fn create_region_plug(
        &mut self,
        name: IdString,
        region_plug_type: IdString,
        approx_loc: Loc,
    ) -> (idx: ArenaIndex<CellInfo<D>>)
        requires
            old(self).inv(),
        ensures
            final(self).inv(),
            final(self).cells@.contains_key(idx),
            !old(self).cells@.contains_key(idx),
            final(self).cells@ == old(self).cells@.insert(idx, final(self).cells@[idx]),
            final(self).cells@[idx].name == name,
            final(self).cells@[idx].cell_type == region_plug_type,
            final(self).cells@[idx].self_index == Some(idx),
            final(self).cells@[idx].pseudo_cell is Some,
            final(self).pseudo_cells@.contains_key(final(self).cells@[idx].pseudo_cell->0),
            final(self).pseudo_cells@[final(self).cells@[idx].pseudo_cell->0].loc == approx_loc,
            final(self).pseudo_cells@ == old(self).pseudo_cells@.insert(
                final(self).cells@[idx].pseudo_cell->0,
                final(self).pseudo_cells@[final(self).cells@[idx].pseudo_cell->0],
            ),
            final(self).nets == old(self).nets,
            final(self).region == old(self).region,
            final(self).net_aliases@ == old(self).net_aliases@,
            final(self).region_names@ == old(self).region_names@,
            base_ctx_same_misc(*old(self), *final(self)),
    {
        let plug_idx = self.pseudo_cells.insert(RegionPlug::new(approx_loc));
        let mut cell = CellInfo::new();
        cell.name = name;
        cell.cell_type = region_plug_type;
        cell.pseudo_cell = Some(plug_idx);
        let idx = self.cells.insert(cell);
        let mut stored = match self.cells.take(idx) {
            Some(c) => c,
            None => {
                proof {
                    assert(false);
                }
                CellInfo::new()
            },
        };
        stored.self_index = Some(idx);
        self.cells.put(idx, stored);
        proof {
            assert(final(self).cells@ =~= old(self).cells@.insert(idx, final(self).cells@[idx]));
        }
        idx
    }

    /// Adds a pin to a pseudo-cell plug: the cell gains a port of the
    /// given direction and the plug maps that port onto `wire`.
    pub fn add_plug_pin(
        &mut self,
        plug: ArenaIndex<CellInfo<D>>,
        pin: IdString,
        direction: PortType,
        wire: WireId,
    ) -> (r: Result<(), BaseCtxError>)
        requires
            old(self).inv(),
        ensures
            final(self).inv(),
            match r {
                Ok(()) => {
                    &&& old(self).cells@.contains_key(plug)
                    &&& old(self).cells@[plug].pseudo_cell is Some
                    &&& ({
                        let pidx = old(self).cells@[plug].pseudo_cell->0;
                        &&& old(self).pseudo_cells@.contains_key(pidx)
                        &&& final(self).cells@ == old(self).cells@.insert(
                            plug,
                            final(self).cells@[plug],
                        )
                        &&& final(self).cells@[plug].ports@ == old(self).cells@[plug].ports@.insert(
                            pin@,
                            PortInfo {
                                name: pin,
                                port_type: direction,
                                net: if old(self).cells@[plug].ports@.contains_key(pin@) {
                                    old(self).cells@[plug].ports@[pin@].net
                                } else {
                                    None
                                },
                                user_index: if old(self).cells@[plug].ports@.contains_key(pin@) {
                                    old(self).cells@[plug].ports@[pin@].user_index
                                } else {
                                    None
                                },
                            },
                        )
                        &&& final(self).pseudo_cells@ == old(self).pseudo_cells@.insert(
                            pidx,
                            final(self).pseudo_cells@[pidx],
                        )
                        &&& final(self).pseudo_cells@[pidx].port_wires@ == old(
                            self,
                        ).pseudo_cells@[pidx].port_wires@.insert(pin@, wire)
                        &&& final(self).pseudo_cells@[pidx].loc == old(
                            self,
                        ).pseudo_cells@[pidx].loc
                    })
                    &&& final(self).nets == old(self).nets
                    &&& final(self).region == old(self).region
                    &&& final(self).net_aliases@ == old(self).net_aliases@
                    &&& final(self).region_names@ == old(self).region_names@
                    &&& base_ctx_same_misc(*old(self), *final(self))
                },
                Err(e) => {
                    &&& (e == BaseCtxError::CellIndexNotFound || e == BaseCtxError::CellNotPseudo)
                    &&& final(self).cells@ == old(self).cells@
                    &&& final(self).pseudo_cells@ == old(self).pseudo_cells@
                    &&& final(self).nets == old(self).nets
                    &&& final(self).region == old(self).region
                    &&& final(self).interner() == old(self).interner()
                    &&& final(self).net_aliases@ == old(self).net_aliases@
                },
            },
    {
        let mut cell_val = match self.cells.take(plug) {
            Some(c) => c,
            None => {
                proof {
                    assert(final(self).cells@ =~= old(self).cells@);
                }
                return Err(BaseCtxError::CellIndexNotFound);
            },
        };
        let pidx = match cell_val.pseudo_cell {
            Some(pidx) => pidx,
            None => {
                self.cells.put(plug, cell_val);
                proof {
                    assert(final(self).cells@ =~= old(self).cells@);
                }
                return Err(BaseCtxError::CellNotPseudo);
            },
        };
        let mut plug_val = match self.pseudo_cells.take(pidx) {
            Some(p) => p,
            None => {
                self.cells.put(plug, cell_val);
                proof {
                    assert(final(self).cells@ =~= old(self).cells@);
                    assert(final(self).pseudo_cells@ =~= old(self).pseudo_cells@);
                }
                return Err(BaseCtxError::CellNotPseudo);
            },
        };
        match direction {
            PortType::In => cell_val.add_input(pin),
            PortType::Out => cell_val.add_output(pin),
            PortType::InOut => cell_val.add_in_out(pin),
        }
        plug_val.port_wires.insert(pin.index(), wire);
        self.pseudo_cells.put(pidx, plug_val);
        self.cells.put(plug, cell_val);
        proof {
            assert(final(self).cells@ =~= old(self).cells@.insert(plug, final(self).cells@[plug]));
            assert(final(self).pseudo_cells@ =~= old(self).pseudo_cells@.insert(
                pidx,
                final(self).pseudo_cells@[pidx],
            ));
        }
        Ok(())
    }
}

} // verus!
