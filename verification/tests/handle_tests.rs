use std::hash::Hasher;

use pnr_core::arch_defs::{BelId, DecalId, DecalType, GroupId, GroupType, PipId, WireId};
use pnr_core::base_types::{ArcBounds, Loc, PlaceStrength};
use pnr_core::frontend::ModuleInfo;
use pnr_core::id_string::{IdPair, IdString};

#[test]
fn handle_equality_and_order() {
    assert!(BelId::new().equals(&BelId::new()));
    assert!(BelId::with_index(3).not_equals(&BelId::with_index(4)));
    assert!(BelId::new().less_than(&BelId::with_index(0)));
    assert!(!BelId::with_index(0).less_than(&BelId::new()));
    assert!(BelId::with_index(1).less_than(&BelId::with_index(2)));

    assert!(WireId::new().equals(&WireId::new()));
    assert!(WireId::zero().equals(&WireId::with_index(0)));
    assert_eq!(WireId::with_index(7).hash(), 7);
    assert_eq!(PipId::with_index(9).hash(), 9);
    assert!(WireId::new().less_than(&WireId::zero()));
    assert!(WireId::with_index(1).not_equals(&WireId::with_index(2)));
}

#[test]
fn group_identity_is_spatial() {
    let mut a = GroupId::new();
    a.gtype = GroupType::Frame;
    a.x = 3;
    a.y = 4;
    a.index = Some(10);
    let mut b = GroupId::new();
    b.gtype = GroupType::Frame;
    b.x = 3;
    b.y = 4;
    b.index = Some(99);
    b.active = true;
    // Same type and coordinates: the same logical group, whatever the
    // allocation slot says.
    assert_eq!(a, b);
    assert_eq!(a.get_hash(), b.get_hash());
    let mut c = a;
    c.x = 5;
    assert_ne!(a, c);
}

#[test]
fn decal_identity_is_allocation() {
    let mut a = DecalId::new();
    a.dtype = DecalType::Bel;
    a.index = Some(4);
    let mut b = DecalId::new();
    b.dtype = DecalType::Bel;
    b.index = Some(4);
    b.active = true;
    assert_eq!(a, b);
    assert_eq!(a.get_hash(), b.get_hash());
    let mut c = a;
    c.index = Some(5);
    assert_ne!(a, c);
    assert_ne!(a.get_hash(), DecalId::new().get_hash());
}

#[test]
fn loc_hash_matches_djb2() {
    let loc = Loc::new(1, 2, 3);
    let mut hasher = hashers::oz::DJB2Hasher::default();
    hasher.write(&1i32.to_le_bytes());
    hasher.write(&2i32.to_le_bytes());
    hasher.write(&3i32.to_le_bytes());
    assert_eq!(loc.get_hash(), hasher.finish());
    assert_ne!(loc.get_hash(), Loc::new(3, 2, 1).get_hash());
}

#[test]
fn arc_bounds_geometry() {
    let b = ArcBounds::new(0, 0, 10, 10);
    assert!(b.contains(0, 0));
    assert!(b.contains(10, 10));
    assert!(!b.contains(11, 10));
    assert_eq!(b.distance(Loc::new(5, 5, 0)), 0);
    assert_eq!(b.distance(Loc::new(12, -3, 0)), 5);
    assert_eq!(b.distance(Loc::new(-2, 13, 0)), 5);
    assert_eq!(ArcBounds::default(), ArcBounds::new(-1, -1, -1, -1));
    assert_eq!(Loc::default(), Loc::new(-1, -1, -1));
    assert_eq!(Loc::origin(), Loc::new(0, 0, 0));
}

#[test]
fn id_string_basics() {
    let a = IdString::new();
    assert!(a.is_empty());
    let b = IdString::with_index(3);
    assert!(!b.is_empty());
    assert_eq!(b.index(), 3);
    assert!(b.inside(&IdString::with_index(3)));
    let ids = [IdString::with_index(1), IdString::with_index(3)];
    assert!(b.inside_list(&ids));
    assert!(!a.inside_list(&ids));
    assert!(!a.inside_list(&[]));
    let p = IdPair::with_ids(a, b);
    assert_eq!(p.0, a);
    assert_eq!(p.1, b);
}

#[test]
fn placement_strength_defaults() {
    assert_eq!(PlaceStrength::new(), PlaceStrength::Unbound);
    assert_eq!(PlaceStrength::default(), PlaceStrength::Unbound);
}

#[test]
fn frontend_module_info() {
    assert_eq!(pnr_core::frontend::add(2, 2), 4);
    let m = ModuleInfo::new();
    assert!(!m.is_top);
    assert!(!m.is_box());
    let mut b = ModuleInfo::new();
    b.is_whitebox = true;
    assert!(b.is_box());
}
