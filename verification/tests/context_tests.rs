use pnr_core::arch_defs::BelId;
use pnr_core::base_context::{BaseCtx, BaseCtxError};
use pnr_core::base_types::Loc;
use pnr_core::delay::DelayPair;
use pnr_core::id_string::{IdString, IdStringError};
use pnr_core::port::PortType;
use pnr_core::timing::ClockConstraint;

type Ctx = BaseCtx<i64>;

#[test]
fn intern_round_trip() {
    let mut ctx = Ctx::new();
    let h = ctx.id("clk");
    assert_eq!(ctx.name_of(h).unwrap().as_str(), "clk");
    assert_eq!(ctx.id("clk"), h);
    // Handle 0 is the empty string.
    assert_eq!(ctx.name_of(IdString::new()).unwrap().as_str(), "");
    assert_eq!(ctx.id(""), IdString::new());
    // A foreign handle is rejected.
    assert_eq!(ctx.name_of(IdString::with_index(999)), Err(BaseCtxError::NameNotFound));
    let fresh = Ctx::new();
    assert_eq!(
        IdString::with_index(7).to_string(&fresh),
        Err(IdStringError::IndexNotFoundInCtx)
    );
}

#[test]
fn interner_seeding() {
    let mut ctx = Ctx::new();
    assert_eq!(IdString::initialize_add(&mut ctx, "$reserved", 1), Ok(()));
    assert_eq!(ctx.name_of(IdString::with_index(1)).unwrap().as_str(), "$reserved");
    assert_eq!(
        IdString::initialize_add(&mut ctx, "$late", 5),
        Err(IdStringError::SeedIndexOutOfOrder)
    );
}

#[test]
fn region_legality() {
    let mut ctx = Ctx::new();
    let rname = ctx.id("r0");
    let reg = ctx.create_rectangular_region(rname, 0, 0, 2, 1).unwrap();
    // The rectangle's tile locations are recorded.
    let rv = ctx.region.get(reg).unwrap();
    assert!(rv.piplocs.contains(&Loc::new(0, 0, 0)));
    assert!(rv.piplocs.contains(&Loc::new(2, 1, 0)));
    assert!(!rv.piplocs.contains(&Loc::new(3, 0, 0)));

    let b1 = BelId::with_index(4);
    let b2 = BelId::with_index(9);

    // A cell with no region accepts every bel.
    let name_c = ctx.id("C");
    let type_c = ctx.id("T");
    let c = ctx.create_cell(name_c, type_c);
    assert!(ctx.cells.get(c).unwrap().test_region(b1, &ctx.region));

    // Constrained to a region that does not restrict bels: everything
    // is still legal.
    assert_eq!(ctx.constrain_cell_to_region(c, rname), Ok(()));
    assert!(ctx.cells.get(c).unwrap().test_region(b1, &ctx.region));
    assert!(ctx.cells.get(c).unwrap().test_region(b2, &ctx.region));

    // Restrict bels: only listed members are legal.
    let mut rv = ctx.region.take(reg).unwrap();
    rv.constr_bels = true;
    ctx.region.put(reg, rv);
    assert_eq!(ctx.add_bel_to_region(rname, b1), Ok(()));
    assert!(ctx.cells.get(c).unwrap().test_region(b1, &ctx.region));
    assert!(!ctx.cells.get(c).unwrap().test_region(b2, &ctx.region));

    // Error taxonomy.
    let missing = ctx.id("nope");
    assert_eq!(ctx.add_bel_to_region(missing, b1), Err(BaseCtxError::RegionNotFound));
    assert_eq!(
        ctx.create_rectangular_region(rname, 0, 0, 1, 1),
        Err(BaseCtxError::RegionNameTaken)
    );
    assert_eq!(ctx.constrain_cell_to_region(c, missing), Err(BaseCtxError::RegionNotFound));
}

#[test]
fn clock_constraint_attachment() {
    let mut ctx = Ctx::new();
    let nname = ctx.id("clknet");
    let n = ctx.create_net(nname).unwrap();
    let constraint = ClockConstraint::with_parts(
        DelayPair::with_min_max(4.into(), 5.into()),
        DelayPair::with_min_max(4.into(), 5.into()),
        DelayPair::with_min_max(9.into(), 10.into()),
    );
    assert_eq!(ctx.add_clock(nname, constraint), Ok(()));
    let net = ctx.nets.get(n).unwrap();
    let got = net.clk_constr.unwrap();
    assert_eq!(got.period.min_delay(), 9.into());
    assert_eq!(got.period.max_delay(), 10.into());
    let missing = ctx.id("missing");
    assert_eq!(ctx.add_clock(missing, constraint), Err(BaseCtxError::NetAliasNotFound));
}

#[test]
fn region_plug_cells() {
    let mut ctx = Ctx::new();
    let plug_name = ctx.id("plug0");
    let plug_type = ctx.id("PLUG");
    let plug = ctx.create_region_plug(plug_name, plug_type, Loc::new(3, 4, 0));
    assert!(ctx.cells.get(plug).unwrap().is_pseudo(BelId::new()));

    let pin = ctx.id("PIN_A");
    let wire = pnr_core::arch_defs::WireId::with_index(17);
    assert_eq!(ctx.add_plug_pin(plug, pin, PortType::In, wire), Ok(()));
    let cv = ctx.cells.get(plug).unwrap();
    assert!(cv.ports.get(pin.index()).is_some());
    let pidx = cv.pseudo_cell.unwrap();
    let pv = ctx.pseudo_cells.get(pidx).unwrap();
    assert_eq!(pv.port_wires.get(pin.index()), Some(&wire));
    assert_eq!(pv.loc, Loc::new(3, 4, 0));

    // The plug's location is answered from the kernel; a physical
    // cell defers to the backend.
    assert_eq!(
        ctx.cells.get(plug).unwrap().get_location(BelId::new(), &ctx.pseudo_cells),
        Some(Loc::new(3, 4, 0))
    );

    // A plain cell is not a plug.
    let name_c = ctx.id("C");
    let type_c = ctx.id("T");
    let c = ctx.create_cell(name_c, type_c);
    assert!(!ctx.cells.get(c).unwrap().is_pseudo(BelId::new()));
    assert_eq!(ctx.cells.get(c).unwrap().get_location(BelId::new(), &ctx.pseudo_cells), None);
    assert_eq!(ctx.add_plug_pin(c, pin, PortType::In, wire), Err(BaseCtxError::CellNotPseudo));
}

#[test]
fn ui_refresh_flags_accumulate() {
    let mut ctx = Ctx::new();
    ctx.all_ui_reload = false;
    ctx.refresh_ui();
    assert!(ctx.all_ui_reload);
    ctx.refresh_ui_frame();
    assert!(ctx.frame_ui_reload);
    ctx.refresh_ui_bel(BelId::with_index(1));
    ctx.refresh_ui_bel(BelId::with_index(2));
    assert_eq!(ctx.bel_ui_reload.len(), 2);
    ctx.refresh_ui_wire(pnr_core::arch_defs::WireId::zero());
    assert_eq!(ctx.wire_ui_reload.len(), 1);
    ctx.refresh_ui_pip(pnr_core::arch_defs::PipId::with_index(3));
    assert_eq!(ctx.pip_ui_reload.len(), 1);
    ctx.refresh_ui_group(pnr_core::arch_defs::GroupId::new());
    assert_eq!(ctx.group_ui_reload.len(), 1);
}

#[test]
fn context_initialization() {
    let mut ctx = Ctx::new();
    assert_eq!(ctx.get_context(), Err(BaseCtxError::ContextNotInitialized));
    ctx.as_context = Some(pnr_core::context::Context::new());
    assert!(ctx.get_context().is_ok());
    assert!(!ctx.get_context().unwrap().verbose);
}
