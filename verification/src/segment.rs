//! Critical-path segments.

use crate::delay::{Delay, DelayTrait};
use crate::id_string::{IdPair, IdString};
use vstd::prelude::*;

verus! {

/// What a path segment models.
#[derive(Debug, Copy, Clone, PartialEq, Eq, Structural, Hash)]
pub enum SegmentType {
    /// Clock-to-Q delay.
    ClkToQ,
    /// Delayless source.
    Source,
    /// Combinational logic delay.
    Logic,
    /// Routing delay.
    Routing,
    /// Setup time in the sink.
    Setup,
}

/// One segment of a critical path.
#[derive(Debug, Copy, Clone, PartialEq)]
pub struct Segment<D: DelayTrait> {
    /// What this segment models.
    pub segment_type: SegmentType,
    /// The net traversed (routing segments only).
    pub net: IdString,
    /// The cell.port pair the segment starts at.
    pub from: IdPair,
    /// The cell.port pair the segment ends at.
    pub to: IdPair,
    /// The segment's delay.
    pub delay: Delay<D>,
    /// The segment's routing budget (routing segments only).
    pub budget: Delay<D>,
}

impl<D: DelayTrait> Segment<D> {
    /// A segment with every field supplied.
    pub fn with_parts(
        segment_type: SegmentType,
        net: IdString,
        from: IdPair,
        to: IdPair,
        delay: Delay<D>,
        budget: Delay<D>,
    ) -> (r: Self)
        ensures
            r.segment_type == segment_type,
            r.net == net,
            r.from == from,
            r.to == to,
            r.delay == delay,
            r.budget == budget,
    {
        Self { segment_type, net, from, to, delay, budget }
    }
}

} // verus!
