//! Legacy clustering data.
//!
//! A cluster is a rigid group of cells placed together at fixed relative
//! offsets.  Architectures without more elaborate clustering reuse this
//! record: the children ride along as arena handles, never as owned
//! cells.

use crate::arena::ArenaIndex;
use crate::cell::CellInfo;
use crate::delay::DelayTrait;
use vstd::prelude::*;

verus! {

/// Cluster bookkeeping of one cell: its constrained children and its
/// offset relative to the cluster root.
#[derive(Debug, Clone, PartialEq)]
pub struct BaseClusterInfo<D: DelayTrait> {
    /// The cells constrained to move together with this one.
    pub constr_children: Vec<ArenaIndex<CellInfo<D>>>,
    /// This cell's x offset from its parent.
    pub constr_x: i64,
    /// This cell's y offset from its parent.
    pub constr_y: i64,
    /// This cell's z offset from its parent.
    pub constr_z: i64,
    /// Whether the z offset is absolute rather than parent-relative.
    pub constr_abs_z: bool,
}

impl<D: DelayTrait> BaseClusterInfo<D> {
    /// A cell with no cluster constraints.
    pub fn new() -> (r: Self)
        ensures
            r.constr_children@ == Seq::<ArenaIndex<CellInfo<D>>>::empty(),
            r.constr_x == 0,
            r.constr_y == 0,
            r.constr_z == 0,
            !r.constr_abs_z,
    {
        let children: Vec<ArenaIndex<CellInfo<D>>> = Vec::new();
        proof {
            assert(children@ =~= Seq::<ArenaIndex<CellInfo<D>>>::empty());
        }
        Self {
            constr_children: children,
            constr_x: 0,
            constr_y: 0,
            constr_z: 0,
            constr_abs_z: false,
        }
    }
}

} // verus!
