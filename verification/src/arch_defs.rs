//! Physical-resource handles and per-architecture payload records.
//!
//! Bels, wires and pips are addressed by opaque slot handles that the
//! architecture backend hands out; the kernel only stores and compares
//! them.  "Unbound" is an explicit absent slot, and an unbound handle
//! orders below every bound one.  Groups are addressed spatially: two
//! group handles are the same logical group when type and tile
//! coordinates agree, regardless of where either was allocated.  Decals
//! are addressed by allocation slot instead: their identity is type plus
//! slot.

use crate::arena::ArenaIndex;
use crate::djb2::{djb2, djb2_hash, le_bytes_of_u32};
use crate::id_string::IdString;
use crate::net::NetInfo;
use crate::delay::DelayTrait;
use vstd::prelude::*;

verus! {

/// Marker trait for bel handle types an architecture may define.
pub trait BelIdTrait {}

/// A placement site handle: an optional slot in the backend's bel table.
#[derive(Debug, Copy, Clone, PartialEq, Eq, Structural, Hash)]
pub struct BelId {
    index: Option<u64>,
}

/// Whether `a` orders below `b`, with unbound below every bound slot.
pub open spec fn slot_lt(a: Option<u64>, b: Option<u64>) -> bool {
    match (a, b) {
        (None, None) => false,
        (None, Some(_)) => true,
        (Some(_), None) => false,
        (Some(x), Some(y)) => x < y,
    }
}

impl View for BelId {
    type V = Option<u64>;

    /// A bel handle is abstractly its optional slot.
    closed spec fn view(&self) -> Option<u64> {
        self.index
    }
}

impl BelId {
    /// The unbound bel handle.
    pub fn new() -> (r: Self)
        ensures
            r@ is None,
    {
        Self { index: None }
    }

    /// The handle of the given bel table slot.
    pub fn with_index(index: u64) -> (r: Self)
        ensures
            r@ == Some(index),
    {
        Self { index: Some(index) }
    }

    /// Whether two handles name the same slot.
    pub fn equals(&self, other: &Self) -> (r: bool)
        ensures
            r == (self@ == other@),
    {
        *self == *other
    }

    /// Whether two handles name different slots.
    pub fn not_equals(&self, other: &Self) -> (r: bool)
        ensures
            r == (self@ != other@),
    {
        !(*self == *other)
    }

    /// Whether this handle orders below `other`; unbound orders below
    /// every bound handle.
    pub fn less_than(&self, other: &Self) -> (r: bool)
        ensures
            r == slot_lt(self@, other@),
    {
        match (self.index, other.index) {
            (None, None) => false,
            (None, Some(_)) => true,
            (Some(_), None) => false,
            (Some(x), Some(y)) => x < y,
        }
    }
}

impl Default for BelId {
    /// The default bel handle is unbound.
    fn default() -> (r: Self)
        ensures
            r@ is None,
    {
        BelId::new()
    }
}

/// A routing wire handle: an optional slot in the backend's wire table.
#[derive(Debug, Copy, Clone, PartialEq, Eq, Structural, Hash)]
pub struct WireId {
    index: Option<u64>,
}

impl View for WireId {
    type V = Option<u64>;

    /// A wire handle is abstractly its optional slot.
    closed spec fn view(&self) -> Option<u64> {
        self.index
    }
}

impl WireId {
    /// The unbound wire handle.
    pub fn new() -> (r: Self)
        ensures
            r@ is None,
    {
        Self { index: None }
    }

    /// The handle of wire slot zero.
    pub fn zero() -> (r: Self)
        ensures
            r@ == Some(0u64),
    {
        Self { index: Some(0) }
    }

    /// The handle of the given wire table slot.
    pub fn with_index(index: u64) -> (r: Self)
        ensures
            r@ == Some(index),
    {
        Self { index: Some(index) }
    }

    /// The slot of a bound wire handle.
    pub fn hash(&self) -> (r: u64)
        requires
            self@ is Some,
        ensures
            r == self@->Some_0,
    {
        match self.index {
            Some(i) => i,
            None => 0,
        }
    }

    /// Whether two handles name the same slot.
    pub fn equals(&self, other: &Self) -> (r: bool)
        ensures
            r == (self@ == other@),
    {
        *self == *other
    }

    /// Whether two handles name different slots.
    pub fn not_equals(&self, other: &Self) -> (r: bool)
        ensures
            r == (self@ != other@),
    {
        !(*self == *other)
    }

    /// Whether this handle orders below `other`; unbound orders below
    /// every bound handle.
    pub fn less_than(&self, other: &Self) -> (r: bool)
        ensures
            r == slot_lt(self@, other@),
    {
        match (self.index, other.index) {
            (None, None) => false,
            (None, Some(_)) => true,
            (Some(_), None) => false,
            (Some(x), Some(y)) => x < y,
        }
    }
}

impl Default for WireId {
    /// The default wire handle is unbound.
    fn default() -> (r: Self)
        ensures
            r@ is None,
    {
        WireId::new()
    }
}

/// A programmable-interconnect-point handle: an optional slot in the
/// backend's pip table.
#[derive(Debug, Copy, Clone, PartialEq, Eq, Structural, Hash)]
pub struct PipId {
    index: Option<u64>,
}

impl View for PipId {
    type V = Option<u64>;

    /// A pip handle is abstractly its optional slot.
    closed spec fn view(&self) -> Option<u64> {
        self.index
    }
}

impl PipId {
    /// The unbound pip handle.
    pub fn new() -> (r: Self)
        ensures
            r@ is None,
    {
        Self { index: None }
    }

    /// The handle of the given pip table slot.
    pub fn with_index(index: u64) -> (r: Self)
        ensures
            r@ == Some(index),
    {
        Self { index: Some(index) }
    }

    /// The slot of a bound pip handle.
    pub fn hash(&self) -> (r: u64)
        requires
            self@ is Some,
        ensures
            r == self@->Some_0,
    {
        match self.index {
            Some(i) => i,
            None => 0,
        }
    }
}

impl Default for PipId {
    /// The default pip handle is unbound.
    fn default() -> (r: Self)
        ensures
            r@ is None,
    {
        PipId::new()
    }
}

/// The kind of fabric group a group handle names.
#[derive(Debug, Copy, Clone, PartialEq, Eq, Structural, Hash)]
pub enum GroupType {
    Nothing,
    Frame,
    MainSW,
    LocalSW,
    LC0SW,
    LC1SW,
    LC2SW,
    LC3SW,
    LC4SW,
    LC5SW,
    LC6SW,
    LC7SW,
}

/// A distinct byte code for each group type, used when hashing.
pub open spec fn group_type_code(t: GroupType) -> u8 {
    match t {
        GroupType::Nothing => 0,
        GroupType::Frame => 1,
        GroupType::MainSW => 2,
        GroupType::LocalSW => 3,
        GroupType::LC0SW => 4,
        GroupType::LC1SW => 5,
        GroupType::LC2SW => 6,
        GroupType::LC3SW => 7,
        GroupType::LC4SW => 8,
        GroupType::LC5SW => 9,
        GroupType::LC6SW => 10,
        GroupType::LC7SW => 11,
    }
}

impl GroupType {
    /// The group type of an unset group handle.
    pub fn new() -> (r: Self)
        ensures
            r == GroupType::Nothing,
    {
        GroupType::Nothing
    }

    /// The byte code of this group type.
    pub fn code(&self) -> (r: u8)
        ensures
            r == group_type_code(*self),
    {
        match self {
            GroupType::Nothing => 0,
            GroupType::Frame => 1,
            GroupType::MainSW => 2,
            GroupType::LocalSW => 3,
            GroupType::LC0SW => 4,
            GroupType::LC1SW => 5,
            GroupType::LC2SW => 6,
            GroupType::LC3SW => 7,
            GroupType::LC4SW => 8,
            GroupType::LC5SW => 9,
            GroupType::LC6SW => 10,
            GroupType::LC7SW => 11,
        }
    }
}

impl Default for GroupType {
    /// The default group type is unset.
    fn default() -> (r: Self)
        ensures
            r == GroupType::Nothing,
    {
        GroupType::Nothing
    }
}

/// A fabric group handle.
///
/// A group is addressed spatially: its identity — what `equals` and
/// `get_hash` look at — is the type plus the tile coordinates, never the
/// allocation slot or the active flag.
#[derive(Debug, Copy, Clone, Hash)]
pub struct GroupId {
    pub gtype: GroupType,
    pub index: Option<u64>,
    pub active: bool,
    pub x: i8,
    pub y: i8,
}

/// The byte string whose hash identifies a group: its type code and
/// tile coordinates.
pub open spec fn group_bytes(g: GroupId) -> Seq<u8> {
    seq![group_type_code(g.gtype), g.x as u8, g.y as u8]
}

impl GroupId {
    /// The unset group handle.
    pub fn new() -> (r: Self)
        ensures
            r == (GroupId {
                gtype: GroupType::Nothing,
                index: None,
                active: false,
                x: 0i8,
                y: 0i8,
            }),
    {
        Self { gtype: GroupType::Nothing, index: None, active: false, x: 0, y: 0 }
    }

    /// The DJB2 hash of this group's spatial identity.
    pub fn get_hash(&self) -> (r: u64)
        ensures
            r == djb2(group_bytes(*self)),
    {
        let mut bytes: Vec<u8> = Vec::new();
        bytes.push(self.gtype.code());
        bytes.push(self.x as u8);
        bytes.push(self.y as u8);
        proof {
            assert(bytes@ =~= group_bytes(*self));
        }
        djb2_hash(&bytes)
    }
}

impl PartialEq for GroupId {
    /// Two group handles are equal iff type and tile coordinates agree.
    fn eq(&self, other: &Self) -> (r: bool) {
        self.gtype == other.gtype && self.x == other.x && self.y == other.y
    }
}

impl vstd::std_specs::cmp::PartialEqSpecImpl for GroupId {
    open spec fn obeys_eq_spec() -> bool {
        true
    }

    open spec fn eq_spec(&self, other: &Self) -> bool {
        self.gtype == other.gtype && self.x == other.x && self.y == other.y
    }
}

impl Eq for GroupId {}

/// The kind of object a decal annotates.
#[derive(Debug, Copy, Clone, PartialEq, Eq, Structural, Hash)]
pub enum DecalType {
    Nothing,
    Bel,
    Wire,
    Pip,
    Group,
}

/// A distinct byte code for each decal type, used when hashing.
pub open spec fn decal_type_code(t: DecalType) -> u8 {
    match t {
        DecalType::Nothing => 0,
        DecalType::Bel => 1,
        DecalType::Wire => 2,
        DecalType::Pip => 3,
        DecalType::Group => 4,
    }
}

impl DecalType {
    /// The decal type of an unset decal handle.
    pub fn new() -> (r: Self)
        ensures
            r == DecalType::Nothing,
    {
        DecalType::Nothing
    }

    /// The byte code of this decal type.
    pub fn code(&self) -> (r: u8)
        ensures
            r == decal_type_code(*self),
    {
        match self {
            DecalType::Nothing => 0,
            DecalType::Bel => 1,
            DecalType::Wire => 2,
            DecalType::Pip => 3,
            DecalType::Group => 4,
        }
    }
}

impl Default for DecalType {
    /// The default decal type is unset.
    fn default() -> (r: Self)
        ensures
            r == DecalType::Nothing,
    {
        DecalType::Nothing
    }
}

/// A graphical annotation handle.
///
/// A decal is addressed by allocation: its identity — what `equals` and
/// `get_hash` look at — is the type plus the slot, never the active
/// flag.  This is deliberately asymmetric to [`GroupId`], which is
/// addressed spatially.
#[derive(Debug, Copy, Clone, Hash)]
pub struct DecalId {
    pub dtype: DecalType,
    pub index: Option<u64>,
    pub active: bool,
}

/// The byte string whose hash identifies a decal: its type code and, if
/// bound, its slot bytes.
pub open spec fn decal_bytes(d: DecalId) -> Seq<u8> {
    match d.index {
        None => seq![decal_type_code(d.dtype), 0u8],
        Some(i) => seq![decal_type_code(d.dtype), 1u8] + le_bytes_of_u32(i as u32)
            + le_bytes_of_u32((i >> 32) as u32),
    }
}

impl DecalId {
    /// The unset decal handle.
    pub fn new() -> (r: Self)
        ensures
            r == (DecalId { dtype: DecalType::Nothing, index: None, active: false }),
    {
        Self { dtype: DecalType::Nothing, index: None, active: false }
    }

    /// The DJB2 hash of this decal's identity.
    pub fn get_hash(&self) -> (r: u64)
        ensures
            r == djb2(decal_bytes(*self)),
    {
        let mut bytes: Vec<u8> = Vec::new();
        bytes.push(self.dtype.code());
        match self.index {
            None => {
                bytes.push(0u8);
            },
            Some(i) => {
                bytes.push(1u8);
                crate::djb2::push_le_bytes_of_u32(&mut bytes, i as u32);
                crate::djb2::push_le_bytes_of_u32(&mut bytes, (i >> 32u64) as u32);
            },
        }
        proof {
            assert(bytes@ =~= decal_bytes(*self));
        }
        djb2_hash(&bytes)
    }
}

impl PartialEq for DecalId {
    /// Two decal handles are equal iff type and slot agree.
    fn eq(&self, other: &Self) -> (r: bool) {
        self.dtype == other.dtype && self.index == other.index
    }
}

impl vstd::std_specs::cmp::PartialEqSpecImpl for DecalId {
    open spec fn obeys_eq_spec() -> bool {
        true
    }

    open spec fn eq_spec(&self, other: &Self) -> bool {
        self.dtype == other.dtype && self.index == other.index
    }
}

impl Eq for DecalId {}

/// Architecture-specific flags of a net.
#[derive(Debug, Copy, Clone, PartialEq, Eq, Structural, Hash)]
pub struct ArchNetInfo {
    pub is_global: bool,
    pub is_reset: bool,
    pub is_enable: bool,
}

impl ArchNetInfo {
    /// A net with no architecture flags set.
    pub fn new() -> (r: Self)
        ensures
            r == (ArchNetInfo { is_global: false, is_reset: false, is_enable: false }),
    {
        Self { is_global: false, is_reset: false, is_enable: false }
    }
}

impl Default for ArchNetInfo {
    /// The default net flags are all clear.
    fn default() -> (r: Self)
        ensures
            r == (ArchNetInfo { is_global: false, is_reset: false, is_enable: false }),
    {
        ArchNetInfo::new()
    }
}

/// Architecture payload of a logic cell.
#[derive(Debug, Clone, PartialEq)]
pub struct LcInfo<D: DelayTrait> {
    pub dff_enable: bool,
    pub carry_enable: bool,
    pub neg_clk: bool,
    pub input_count: i32,
    pub lut_input_mask: u32,
    pub clk: Option<ArenaIndex<NetInfo<D>>>,
    pub cen: Option<ArenaIndex<NetInfo<D>>>,
    pub sr: Option<ArenaIndex<NetInfo<D>>>,
}

/// Architecture payload of an I/O cell.
#[derive(Debug, Copy, Clone, PartialEq, Eq, Structural, Hash)]
pub struct IoInfo {
    pub lvds: bool,
    pub global: bool,
    pub negtrig: bool,
    pub pintype: i32,
}

impl IoInfo {
    /// An I/O cell with no flags set.
    pub fn new() -> (r: Self)
        ensures
            r == (IoInfo { lvds: false, global: false, negtrig: false, pintype: 0i32 }),
    {
        Self { lvds: false, global: false, negtrig: false, pintype: 0 }
    }
}

/// Architecture payload of a global buffer cell.
#[derive(Debug, Copy, Clone, PartialEq, Eq, Structural, Hash)]
pub struct GbInfo {
    pub for_pad_in: bool,
}

/// Architecture payload of an LED driver cell.
#[derive(Debug, Copy, Clone, PartialEq, Eq, Structural, Hash)]
pub struct LedInfo {
    pub led_cur_connected: bool,
}

/// The architecture payload of one cell, by cell family.
#[derive(Debug, Clone, PartialEq)]
pub enum CellEnum<D: DelayTrait> {
    Lc(LcInfo<D>),
    Io(IoInfo),
    Gb(GbInfo),
    Led(LedInfo),
}

/// Architecture-specific bookkeeping of a cell, carrying the legacy
/// clustering data alongside the per-family payload.
#[derive(Debug, Clone, PartialEq)]
pub struct ArchCellInfo<D: DelayTrait> {
    pub base_cluster_info: crate::base_clusterinfo::BaseClusterInfo<D>,
    pub cell: CellEnum<D>,
}

impl<D: DelayTrait> ArchCellInfo<D> {
    /// A fresh payload: no cluster constraints, an I/O cell with no
    /// flags.
    pub fn new() -> (r: Self)
        ensures
            r.cell is Io,
            r.cell->Io_0 == (IoInfo { lvds: false, global: false, negtrig: false, pintype: 0i32 }),
    {
        Self {
            base_cluster_info: crate::base_clusterinfo::BaseClusterInfo::new(),
            cell: CellEnum::Io(IoInfo::new()),
        }
    }
}

/// One pin of a bel: the bel and the pin's name on it.
#[derive(Debug, Copy, Clone, PartialEq, Eq, Structural, Hash)]
pub struct BelPin {
    pub bel: BelId,
    pub pin: IdString,
}

impl BelPin {
    /// The pin `pin` of `bel`.
    pub fn with_parts(bel: BelId, pin: IdString) -> (r: Self)
        ensures
            r == (BelPin { bel, pin }),
    {
        Self { bel, pin }
    }
}

/// A bel bucket is named by an interned identifier.
pub type BelBucketId = IdString;

/// A cluster is named by an interned identifier.
pub type ClusterId = IdString;

} // verus!
