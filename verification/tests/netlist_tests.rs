use pnr_core::base_context::{BaseCtx, BaseCtxError, NetAlias};
use pnr_core::cell::CellError;
use pnr_core::id_string::IdString;
use pnr_core::port::PortType;

type Ctx = BaseCtx<i64>;

#[test]
fn single_driver_invariant() {
    let mut ctx = Ctx::new();
    let q = ctx.id("Q");
    let net_name = ctx.id("n1");
    let _net = ctx.create_net(net_name).unwrap();

    let name_c = ctx.id("C");
    let type_c = ctx.id("DFF");
    let c = ctx.create_cell(name_c, type_c);
    let mut cv = ctx.cells.take(c).unwrap();
    cv.add_output(q);
    ctx.cells.put(c, cv);

    let name_e = ctx.id("E");
    let type_e = ctx.id("DFF");
    let e = ctx.create_cell(name_e, type_e);
    let mut ev = ctx.cells.take(e).unwrap();
    ev.add_output(q);
    ctx.cells.put(e, ev);

    assert_eq!(ctx.connect_port(net_name, c, q), Ok(()));
    assert_eq!(
        ctx.connect_port(net_name, e, q),
        Err(BaseCtxError::CellOperation(CellError::DriverCellInUse))
    );
}

#[test]
fn connect_disconnect_symmetry() {
    let mut ctx = Ctx::new();
    let d = ctx.id("D");
    let net_name = ctx.id("n");
    let net = ctx.create_net(net_name).unwrap();

    let name_cell = ctx.id("D1");
    let type_cell = ctx.id("DFF");
    let cell = ctx.create_cell(name_cell, type_cell);
    let mut cv = ctx.cells.take(cell).unwrap();
    cv.add_input(d);
    ctx.cells.put(cell, cv);

    assert_eq!(ctx.connect_port(net_name, cell, d), Ok(()));
    assert_eq!(ctx.nets.get(net).unwrap().live_users(), 1);
    assert!(ctx.cells.get(cell).unwrap().get_port(d).is_some());

    assert_eq!(ctx.disconnect_port(cell, d), Ok(()));
    assert_eq!(ctx.nets.get(net).unwrap().live_users(), 0);
    assert!(ctx.cells.get(cell).unwrap().get_port(d).is_none());
    // Disconnecting again is idempotent.
    assert_eq!(ctx.disconnect_port(cell, d), Ok(()));
}

#[test]
fn scenario_clk_net_driver_and_sink() {
    let mut ctx = Ctx::new();
    // Interning "clk" twice yields the same handle.
    let clk = ctx.id("clk");
    assert_eq!(clk, ctx.id("clk"));

    let net_name = ctx.id("N");
    let n = ctx.create_net(net_name).unwrap();

    // Cell C with output port Q drives N.
    let q = ctx.id("Q");
    let name_c = ctx.id("C");
    let type_c = ctx.id("DFF");
    let c = ctx.create_cell(name_c, type_c);
    let mut cv = ctx.cells.take(c).unwrap();
    cv.add_output(q);
    ctx.cells.put(c, cv);
    assert_eq!(ctx.connect_port(net_name, c, q), Ok(()));

    // Cell D with input port D becomes one sink.
    let dp = ctx.id("D");
    let name_d = ctx.id("D");
    let type_d = ctx.id("DFF");
    let d = ctx.create_cell(name_d, type_d);
    let mut dv = ctx.cells.take(d).unwrap();
    dv.add_input(dp);
    ctx.cells.put(d, dv);
    assert_eq!(ctx.connect_port(net_name, d, dp), Ok(()));
    assert_eq!(ctx.nets.get(n).unwrap().live_users(), 1);

    // A second driver attempt from cell E fails.
    let name_e = ctx.id("E");
    let type_e = ctx.id("DFF");
    let e = ctx.create_cell(name_e, type_e);
    let mut ev = ctx.cells.take(e).unwrap();
    ev.add_output(q);
    ctx.cells.put(e, ev);
    assert_eq!(
        ctx.connect_port(net_name, e, q),
        Err(BaseCtxError::CellOperation(CellError::DriverCellInUse))
    );

    // Disconnecting D's sink leaves N driven by C with zero sinks.
    assert_eq!(ctx.disconnect_port(d, dp), Ok(()));
    let net = ctx.nets.get(n).unwrap();
    assert_eq!(net.live_users(), 0);
    assert_eq!(net.driver.cell, Some(c));
    assert_eq!(net.driver.port, q);
}

#[test]
fn connect_errors() {
    let mut ctx = Ctx::new();
    let net_name = ctx.id("n");
    let missing = ctx.id("missing");
    let net = ctx.create_net(net_name).unwrap();
    let p = ctx.id("P");
    let name_cell = ctx.id("C");
    let type_cell = ctx.id("T");
    let cell = ctx.create_cell(name_cell, type_cell);

    // Unknown net alias.
    assert_eq!(ctx.connect_port(missing, cell, p), Err(BaseCtxError::NetAliasNotFound));
    // Port not found on the cell.
    assert_eq!(
        ctx.connect_port(net_name, cell, p),
        Err(BaseCtxError::CellOperation(CellError::PortNotFound))
    );
    // Port already connected.
    let mut cv = ctx.cells.take(cell).unwrap();
    cv.add_input(p);
    ctx.cells.put(cell, cv);
    assert_eq!(ctx.connect_port(net_name, cell, p), Ok(()));
    assert_eq!(
        ctx.connect_port(net_name, cell, p),
        Err(BaseCtxError::CellOperation(CellError::PortAlreadyConnected))
    );
    // Stale cell handle.
    let name_gone = ctx.id("G");
    let type_gone = ctx.id("T");
    let gone = ctx.create_cell(name_gone, type_gone);
    ctx.cells.remove(gone).unwrap();
    assert_eq!(ctx.connect_port(net_name, gone, p), Err(BaseCtxError::CellIndexNotFound));
    // Stale net handle behind a live alias.
    ctx.nets.remove(net).unwrap();
    let name_cell2 = ctx.id("C2");
    let type_cell2 = ctx.id("T");
    let cell2 = ctx.create_cell(name_cell2, type_cell2);
    let mut cv2 = ctx.cells.take(cell2).unwrap();
    cv2.add_input(p);
    ctx.cells.put(cell2, cv2);
    assert_eq!(
        ctx.connect_port(net_name, cell2, p),
        Err(BaseCtxError::CellOperation(CellError::NetIndexNotFound))
    );
    // Duplicate net name.
    let other = ctx.id("n2");
    ctx.create_net(other).unwrap();
    assert_eq!(ctx.create_net(other), Err(BaseCtxError::NetNameTaken));
}

#[test]
fn connect_ports_shares_the_net() {
    let mut ctx = Ctx::new();
    let net_name = ctx.id("shared");
    let net = ctx.create_net(net_name).unwrap();
    let q = ctx.id("Q");
    let d = ctx.id("D");

    let name_a = ctx.id("A");
    let type_a = ctx.id("T");
    let a = ctx.create_cell(name_a, type_a);
    let name_b = ctx.id("B");
    let type_b = ctx.id("T");
    let b = ctx.create_cell(name_b, type_b);
    let mut av = ctx.cells.take(a).unwrap();
    av.add_output(q);
    ctx.cells.put(a, av);
    let mut bv = ctx.cells.take(b).unwrap();
    bv.add_input(d);
    ctx.cells.put(b, bv);

    assert_eq!(ctx.connect_port(net_name, a, q), Ok(()));

    let mut av = ctx.cells.take(a).unwrap();
    let mut bv = ctx.cells.take(b).unwrap();
    assert_eq!(av.connect_ports(q, &mut bv, d, &mut ctx.nets), Ok(()));
    // An unbound source port refuses to synthesize a net.
    let u = IdString::with_index(4096);
    av.add_input(u);
    let r = av.connect_ports(u, &mut bv, d, &mut ctx.nets);
    assert_eq!(r, Err(CellError::NetIndexIsNone));
    ctx.cells.put(a, av);
    ctx.cells.put(b, bv);

    assert_eq!(ctx.nets.get(net).unwrap().live_users(), 1);
}

#[test]
fn move_rename_copy_ports() {
    let mut ctx = Ctx::new();
    let net_name = ctx.id("n");
    let net = ctx.create_net(net_name).unwrap();
    let q = ctx.id("Q");
    let q2 = ctx.id("Q2");
    let q3 = ctx.id("Q3");

    let name_a = ctx.id("A");
    let type_a = ctx.id("T");
    let a = ctx.create_cell(name_a, type_a);
    let name_b = ctx.id("B");
    let type_b = ctx.id("T");
    let b = ctx.create_cell(name_b, type_b);
    let mut av = ctx.cells.take(a).unwrap();
    av.add_output(q);
    ctx.cells.put(a, av);
    assert_eq!(ctx.connect_port(net_name, a, q), Ok(()));

    // Move the driving port onto cell B.
    let mut av = ctx.cells.take(a).unwrap();
    let mut bv = ctx.cells.take(b).unwrap();
    assert_eq!(av.move_port_to(q, &mut bv, q2, &mut ctx.nets), Ok(()));
    assert!(av.get_port(q).is_none());
    assert_eq!(bv.get_port(q2), Some(net));

    // Rename it on B; the driver reference follows.
    assert_eq!(bv.rename_port(q2, q3, &mut ctx.nets), Ok(()));
    assert!(bv.get_port(q2).is_none());
    assert_eq!(bv.get_port(q3), Some(net));
    ctx.cells.put(a, av);
    ctx.cells.put(b, bv);
    assert_eq!(ctx.nets.get(net).unwrap().driver.cell, Some(b));
    assert_eq!(ctx.nets.get(net).unwrap().driver.port, q3);

    // Copy an input binding: two sinks afterwards.
    let din = ctx.id("I0");
    let din2 = ctx.id("I1");
    let name_c = ctx.id("C");
    let type_c = ctx.id("T");
    let c = ctx.create_cell(name_c, type_c);
    let mut cv = ctx.cells.take(c).unwrap();
    cv.add_input(din);
    cv.add_input(din2);
    ctx.cells.put(c, cv);
    assert_eq!(ctx.connect_port(net_name, c, din), Ok(()));
    let mut cv = ctx.cells.take(c).unwrap();
    let name_d = ctx.id("D");
    let type_d = ctx.id("T");
    let d = ctx.create_cell(name_d, type_d);
    let mut dv = ctx.cells.take(d).unwrap();
    dv.add_input(din2);
    assert_eq!(cv.copy_port_to(din, &mut dv, din2, &mut ctx.nets), Ok(()));
    ctx.cells.put(c, cv);
    ctx.cells.put(d, dv);
    assert_eq!(ctx.nets.get(net).unwrap().live_users(), 2);
}

#[test]
fn move_port_error_taxonomy() {
    let mut ctx = Ctx::new();
    let net_name = ctx.id("n");
    let _net = ctx.create_net(net_name).unwrap();
    let io = ctx.id("IO");
    let other = ctx.id("OTHER");

    let name_a = ctx.id("A");
    let type_a = ctx.id("T");
    let a = ctx.create_cell(name_a, type_a);
    let name_b = ctx.id("B");
    let type_b = ctx.id("T");
    let b = ctx.create_cell(name_b, type_b);
    let mut av = ctx.cells.take(a).unwrap();
    av.add_in_out(io);
    ctx.cells.put(a, av);
    assert_eq!(ctx.connect_port(net_name, a, io), Ok(()));

    let mut av = ctx.cells.take(a).unwrap();
    let mut bv = ctx.cells.take(b).unwrap();
    // Moving a connected inout port is structurally invalid.
    assert_eq!(
        av.move_port_to(io, &mut bv, other, &mut ctx.nets),
        Err(CellError::PortInOutMoveInvalid)
    );
    // Moving a missing port.
    let nope = IdString::with_index(4096);
    assert_eq!(av.move_port_to(nope, &mut bv, other, &mut ctx.nets), Err(CellError::PortNotFound));
    // Type mismatch between source and an existing target port.
    bv.add_output(other);
    assert_eq!(
        av.move_port_to(io, &mut bv, other, &mut ctx.nets),
        Err(CellError::InvalidConnectPortType)
    );
    ctx.cells.put(a, av);
    ctx.cells.put(b, bv);
}

#[test]
fn bus_move_and_copy() {
    let mut ctx = Ctx::new();
    let n0 = ctx.id("bus0");
    let n1 = ctx.id("bus1");
    let net0 = ctx.create_net(n0).unwrap();
    let net1 = ctx.create_net(n1).unwrap();

    let d0 = ctx.id("D0");
    let d1 = ctx.id("D1");
    let e0 = ctx.id("E0");
    let e1 = ctx.id("E1");

    let name_a = ctx.id("A");
    let type_a = ctx.id("T");
    let a = ctx.create_cell(name_a, type_a);
    let name_b = ctx.id("B");
    let b = ctx.create_cell(name_b, type_a);

    let mut av = ctx.cells.take(a).unwrap();
    av.add_input(d0);
    av.add_input(d1);
    av.connect_port(d0, net0, &mut ctx.nets).unwrap();
    av.connect_port(d1, net1, &mut ctx.nets).unwrap();
    let mut bv = ctx.cells.take(b).unwrap();

    // Move both elements across; the sink references follow.
    assert_eq!(
        av.move_port_bus_to(&vec![d0, d1], &mut bv, &vec![e0, e1], &mut ctx.nets),
        Ok(())
    );
    assert!(av.get_port(d0).is_none());
    assert!(av.get_port(d1).is_none());
    assert_eq!(bv.get_port(e0), Some(net0));
    assert_eq!(bv.get_port(e1), Some(net1));

    // Copy the bus back onto fresh ports of A.
    av.add_input(d0);
    av.add_input(d1);
    assert_eq!(
        bv.copy_port_bus_to(&vec![e0, e1], &mut av, &vec![d0, d1], &mut ctx.nets),
        Ok(())
    );
    assert_eq!(av.get_port(d0), Some(net0));
    assert_eq!(av.get_port(d1), Some(net1));
    assert_eq!(ctx.nets.get(net0).unwrap().live_users(), 2);

    // A failing element stops the walk: the first element moves, the
    // failing one reports and nothing later is touched.
    let f0 = ctx.id("F0");
    let missing = IdString::with_index(4096);
    let r = bv.move_port_bus_to(&vec![e0, missing], &mut av, &vec![f0, f0], &mut ctx.nets);
    assert_eq!(r, Err(CellError::PortNotFound));
    assert!(bv.get_port(e0).is_none());
    ctx.cells.put(a, av);
    ctx.cells.put(b, bv);
}

#[test]
fn port_user_bookkeeping_errors() {
    let mut ctx = Ctx::new();
    let net_name = ctx.id("n");
    let net = ctx.create_net(net_name).unwrap();
    let d = ctx.id("D");
    let d2 = ctx.id("D2");

    let name_a = ctx.id("A");
    let type_a = ctx.id("T");
    let a = ctx.create_cell(name_a, type_a);
    let mut av = ctx.cells.take(a).unwrap();
    av.add_input(d);
    av.connect_port(d, net, &mut ctx.nets).unwrap();

    // Corrupt the sink identifier: disconnect then reports UserNotFound.
    let mut p = *av.ports.get(d.index()).unwrap();
    p.user_index = Some(pnr_core::net::UserId::with_index(99));
    av.ports.insert(d.index(), p);
    assert_eq!(av.disconnect_port(d, &mut ctx.nets), Err(CellError::UserNotFound));

    // A connected input port with no sink identifier cannot be moved.
    let name_b = ctx.id("B");
    let type_b = ctx.id("T");
    let b = ctx.create_cell(name_b, type_b);
    let mut bv = ctx.cells.take(b).unwrap();
    let mut p = *av.ports.get(d.index()).unwrap();
    p.user_index = None;
    av.ports.insert(d.index(), p);
    assert_eq!(av.move_port_to(d, &mut bv, d2, &mut ctx.nets), Err(CellError::UserIndexIsNone));
    ctx.cells.put(a, av);
    ctx.cells.put(b, bv);
}

#[test]
fn net_alias_lookup() {
    let mut ctx = Ctx::new();
    let name = ctx.id("my_net");
    let idx = ctx.create_net(name).unwrap();
    assert!(ctx.get_net_by_alias(NetAlias::Id(name)).is_some());
    assert!(ctx.get_net_by_alias(NetAlias::Index(idx)).is_some());
    let unknown = ctx.id("unknown");
    assert!(ctx.get_net_by_alias(NetAlias::Id(unknown)).is_none());
    assert_eq!(ctx.get_net_by_alias(NetAlias::Id(name)).unwrap().name, name);
    assert_eq!(ctx.get_net_by_alias(NetAlias::Id(name)).unwrap().aliases, vec![name]);
}

#[test]
fn ports_keep_direction_and_net_across_retyping() {
    let mut ctx = Ctx::new();
    let net_name = ctx.id("n");
    let net = ctx.create_net(net_name).unwrap();
    let p = ctx.id("P");
    let name_c = ctx.id("C");
    let type_c = ctx.id("T");
    let c = ctx.create_cell(name_c, type_c);
    let mut cv = ctx.cells.take(c).unwrap();
    cv.add_input(p);
    cv.connect_port(p, net, &mut ctx.nets).unwrap();
    // Retyping the port keeps its net binding.
    cv.add_in_out(p);
    assert_eq!(cv.get_port(p), Some(net));
    assert_eq!(cv.ports.get(p.index()).unwrap().port_type, PortType::InOut);
    ctx.cells.put(c, cv);
}
