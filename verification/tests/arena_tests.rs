use pnr_core::arena::Arena;
use pnr_core::net::{NetInfo, PipMap, UserId};
use pnr_core::region::Region;

#[test]
fn arena_insert_get_remove() {
    let mut arena: Arena<u64> = Arena::new();
    let a = arena.insert(10);
    let b = arena.insert(20);
    assert_eq!(arena.get(a), Some(&10));
    assert_eq!(arena.get(b), Some(&20));
    assert!(arena.contains(a));

    assert_eq!(arena.remove(a), Some(10));
    // The handle is stale now: lookups answer None instead of
    // aliasing whatever reuses the slot.
    assert_eq!(arena.get(a), None);
    assert!(!arena.contains(a));
    assert_eq!(arena.remove(a), None);

    // The slot is reused under a fresh generation; the old handle
    // stays stale.
    let c = arena.insert(30);
    assert_eq!(arena.get(c), Some(&30));
    assert_eq!(arena.get(a), None);
    assert_ne!(a, c);
    assert_eq!(arena.get(b), Some(&20));
}

#[test]
fn arena_take_and_put() {
    let mut arena: Arena<Region> = Arena::new();
    let idx = arena.insert(Region::new());
    let mut taken = arena.take(idx).unwrap();
    assert!(arena.get(idx).is_none());
    taken.constr_bels = true;
    arena.put(idx, taken);
    assert!(arena.get(idx).unwrap().constr_bels);
}

#[test]
fn net_live_user_counting() {
    let mut net: NetInfo<i64> = NetInfo::new();
    assert_eq!(net.live_users(), 0);
    net.users.push(None);
    net.users.push(None);
    assert_eq!(net.live_users(), 0);
    net.users.push(Some(pnr_core::port::PortRef::new()));
    assert_eq!(net.live_users(), 1);
}

#[test]
fn rip_up_net_clears_routing() {
    let mut ctx = pnr_core::base_context::BaseCtx::<i64>::new();
    let name = ctx.id("routed");
    let idx = ctx.create_net(name).unwrap();
    let mut n = ctx.nets.take(idx).unwrap();
    n.wires.insert(3, PipMap::new());
    n.wires.insert(9, PipMap::new());
    ctx.nets.put(idx, n);
    assert_eq!(ctx.nets.get(idx).unwrap().wires.len(), 2);
    assert_eq!(ctx.rip_up_net(name), Ok(()));
    assert!(ctx.nets.get(idx).unwrap().wires.is_empty());
    let missing = ctx.id("missing");
    assert_eq!(
        ctx.rip_up_net(missing),
        Err(pnr_core::base_context::BaseCtxError::NetAliasNotFound)
    );
}

#[test]
fn net_constructors() {
    let named: NetInfo<i64> = NetInfo::with_name(pnr_core::id_string::IdString::with_index(5));
    assert_eq!(named.name.index(), 5);
    assert!(named.driver.cell.is_none());

    let mut regions: Arena<Region> = Arena::new();
    let with_arena: NetInfo<i64> = NetInfo::with_arena(&mut regions);
    assert!(with_arena.region.is_some());
    assert!(with_arena.clk_constr.is_some());
    assert!(regions.get(with_arena.region.unwrap()).is_some());

    let pm = PipMap::new();
    assert_eq!(pm.strength, pnr_core::base_types::PlaceStrength::Unbound);
    let u = UserId::with_index(4);
    assert_eq!(u.index(), 4);
}
