//! Timing entities: clock events, constraints, and analysis results.
//!
//! These records are written wholesale by a static-timing pass and read
//! back by callers; the kernel only stores them.  Frequencies are held
//! in fixed-point kilohertz, so that the summary carries exact values.

use crate::delay::{Delay, DelayPair, DelayQuad, DelayTrait};
use crate::id_map::IdMap;
use crate::id_string::{IdPair, IdString};
use crate::segment::Segment;
use vstd::prelude::*;

verus! {

/// How a port participates in timing analysis.
#[derive(Debug, Copy, Clone, PartialEq, Eq, Structural, Hash)]
pub enum TimingPortClass {
    /// Clock input to a sequential cell.
    ClockInput,
    /// Generated clock output (PLL, DCC, and the like).
    GenClock,
    /// Input to a register, with an associated clock.
    RegisterInput,
    /// Output from a register.
    RegisterOutput,
    /// Combinational input: no paths end here.
    CombInput,
    /// Combinational output: no paths start here.
    CombOutput,
    /// Unclocked primary startpoint, such as an I/O cell output.
    StartPoint,
    /// Unclocked primary endpoint, such as an I/O cell input.
    EndPoint,
    /// Asynchronous to all clocks; ignored as a false path.
    Ignore,
}

impl TimingPortClass {
    /// The class of a port that analysis ignores.
    pub fn new() -> (r: Self)
        ensures
            r == TimingPortClass::Ignore,
    {
        TimingPortClass::Ignore
    }
}

/// The edge of a clock signal.
#[derive(Debug, Copy, Clone, PartialEq, Eq, Structural, Hash)]
pub enum ClockEdge {
    RisingEdge,
    FallingEdge,
}

/// The clocking discipline of one port: its clock domain, edge, and
/// input/output checks.
#[derive(Debug, Copy, Clone, PartialEq)]
pub struct TimingClockingInfo<D: DelayTrait> {
    /// Port name of the clock domain.
    pub clock_port: IdString,
    pub edge: ClockEdge,
    /// Input setup check.
    pub setup: DelayPair<D>,
    /// Input hold check.
    pub hold: DelayPair<D>,
    /// Output clock-to-Q time.
    pub clock_to_q: DelayQuad<D>,
}

impl<D: DelayTrait> TimingClockingInfo<D> {
    /// A clocking record with no domain and zero checks.
    pub fn new() -> (r: Self)
        ensures
            r.clock_port@ == 0,
            r.edge == ClockEdge::RisingEdge,
            r.setup@ == (0int, 0int),
            r.hold@ == (0int, 0int),
            r.clock_to_q@ == ((0int, 0int), (0int, 0int)),
    {
        Self {
            clock_port: IdString::new(),
            edge: ClockEdge::RisingEdge,
            setup: DelayPair::new(),
            hold: DelayPair::new(),
            clock_to_q: DelayQuad::new(),
        }
    }
}

/// The duty-cycle constraint of one clock: high and low phase widths
/// and the full period.
#[derive(Debug, Copy, Clone, PartialEq)]
pub struct ClockConstraint<D: DelayTrait> {
    pub high: DelayPair<D>,
    pub low: DelayPair<D>,
    pub period: DelayPair<D>,
}

impl<D: DelayTrait> ClockConstraint<D> {
    /// The zero constraint.
    pub fn new() -> (r: Self)
        ensures
            r.high@ == (0int, 0int),
            r.low@ == (0int, 0int),
            r.period@ == (0int, 0int),
    {
        Self { high: DelayPair::new(), low: DelayPair::new(), period: DelayPair::new() }
    }

    /// The constraint with the three pairs supplied.
    pub fn with_parts(high: DelayPair<D>, low: DelayPair<D>, period: DelayPair<D>) -> (r: Self)
        ensures
            r.high == high,
            r.low == low,
            r.period == period,
    {
        Self { high, low, period }
    }
}

/// Achieved versus constrained maximum frequency of one clock domain,
/// in fixed-point kilohertz.
#[derive(Debug, Copy, Clone, PartialEq, Eq, Structural, Hash)]
pub struct ClockFmax {
    /// The frequency the analysed design reaches, in kilohertz.
    pub achieved_khz: u64,
    /// The frequency the constraint asks for, in kilohertz.
    pub constraint_khz: u64,
}

/// One clock event: a domain and the edge of interest.
#[derive(Debug, Copy, Clone, PartialEq, Eq, Structural, Hash)]
pub struct ClockEvent {
    pub clock: IdString,
    pub edge: ClockEdge,
}

/// The launching and capturing events of a path.
#[derive(Debug, Copy, Clone, PartialEq, Eq, Structural, Hash)]
pub struct ClockPair {
    pub start: ClockEvent,
    pub end: ClockEvent,
}

/// One critical path: its clock pair, total and allowed delay, and the
/// segments along it.
#[derive(Debug, Clone, PartialEq)]
pub struct CriticalPath<D: DelayTrait> {
    /// The launching and capturing clock events.
    pub clock_pair: ClockPair,
    /// Total path delay.
    pub delay: Delay<D>,
    /// The maximum allowed delay (the period).
    pub period: Delay<D>,
    /// The individual path segments, in path order.
    pub segments: Vec<Segment<D>>,
}

/// Timing of a single source-to-sink arc of a net.
#[derive(Debug, Copy, Clone, PartialEq)]
pub struct NetSinkTiming<D: DelayTrait> {
    /// The clock event pair of the arc.
    pub clock_pair: ClockPair,
    /// The sink, as a cell.port pair.
    pub cell_port: IdPair,
    /// The arc's delay.
    pub delay: Delay<D>,
    /// The arc's delay budget.
    pub budget: Delay<D>,
}

/// The result of one timing-analysis run, replaced wholesale after each
/// run.
#[derive(Debug, PartialEq)]
pub struct TimingResult<D: DelayTrait> {
    /// Achieved and target Fmax per clock domain, keyed by clock name.
    pub clock_fmax: IdMap<ClockFmax>,
    /// Single-domain critical paths, keyed by clock name.
    pub clock_paths: IdMap<CriticalPath<D>>,
    /// Cross-domain critical paths.
    pub xclock_paths: Vec<CriticalPath<D>>,
    /// Per-net sink timing, keyed by net name.
    pub detailed_net_timings: IdMap<Vec<NetSinkTiming<D>>>,
}

impl<D: DelayTrait> TimingResult<D> {
    /// An empty result: no domains, no paths, no net timings.
    pub fn new() -> (r: Self)
        ensures
            r.clock_fmax@ == Map::<u64, ClockFmax>::empty(),
            r.clock_paths@ == Map::<u64, CriticalPath<D>>::empty(),
            r.xclock_paths@ == Seq::<CriticalPath<D>>::empty(),
            r.detailed_net_timings@ == Map::<u64, Vec<NetSinkTiming<D>>>::empty(),
    {
        let xclock_paths: Vec<CriticalPath<D>> = Vec::new();
        proof {
            assert(xclock_paths@ =~= Seq::<CriticalPath<D>>::empty());
        }
        Self {
            clock_fmax: IdMap::new(),
            clock_paths: IdMap::new(),
            xclock_paths,
            detailed_net_timings: IdMap::new(),
        }
    }
}

impl<D: DelayTrait> Default for TimingResult<D> {
    /// The default result is empty.
    fn default() -> (r: Self)
        ensures
            r.clock_fmax@ == Map::<u64, ClockFmax>::empty(),
            r.clock_paths@ == Map::<u64, CriticalPath<D>>::empty(),
            r.xclock_paths@ == Seq::<CriticalPath<D>>::empty(),
            r.detailed_net_timings@ == Map::<u64, Vec<NetSinkTiming<D>>>::empty(),
    {
        TimingResult::new()
    }
}

} // verus!
