use vstd::prelude::*;

verus! {

/// Where a waypoint gate stands relative to the player's progress.
#[derive(Debug, Clone, Copy, PartialEq, Eq, Structural)]
pub enum GateStatus {
    /// The waypoint the player must pass next.
    Next,
    /// A gate already passed on this lap.
    Passed,
    /// A gate still to come on this lap.
    Upcoming,
}

/// The colours a gate is shown in.
#[derive(Debug, Clone, Copy, PartialEq, Eq, Structural)]
pub enum GateColor {
    Yellow,
    Orange,
    Green,
    Red,
}

/// The status of gate `gate` when the player's next gate is `next_gate`.
pub open spec fn spec_gate_status(gate: usize, next_gate: usize) -> GateStatus {
    if gate == next_gate {
        GateStatus::Next
    } else if gate < next_gate {
        GateStatus::Passed
    } else {
        GateStatus::Upcoming
    }
}

/// The status of gate `gate` when the player's next gate is `next_gate`:
/// gates before it were passed this lap, gates after it are still to come.
pub fn gate_status(gate: usize, next_gate: usize) -> (s: GateStatus)
    ensures
        s == spec_gate_status(gate, next_gate),
        gate > next_gate ==> s == GateStatus::Upcoming,
        gate < next_gate ==> s == GateStatus::Passed,
        gate == next_gate ==> s == GateStatus::Next,
{
    if gate == next_gate {
        GateStatus::Next
    } else if gate < next_gate {
        GateStatus::Passed
    } else {
        GateStatus::Upcoming
    }
}

/// The colour of a gate's poles: the next gate is yellow once the player is
/// approaching it and orange before that; passed gates are green, gates still
/// to come are red.
pub fn gate_pole_color(gate: usize, next_gate: usize, approaching: bool) -> (c: GateColor)
    ensures
        c == match spec_gate_status(gate, next_gate) {
            GateStatus::Next => if approaching {
                GateColor::Yellow
            } else {
                GateColor::Orange
            },
            GateStatus::Passed => GateColor::Green,
            GateStatus::Upcoming => GateColor::Red,
        },
        gate > next_gate ==> c == GateColor::Red,
        gate < next_gate ==> c == GateColor::Green,
        gate == next_gate && approaching ==> c == GateColor::Yellow,
        gate == next_gate && !approaching ==> c == GateColor::Orange,
{
    match gate_status(gate, next_gate) {
        GateStatus::Next => if approaching {
            GateColor::Yellow
        } else {
            GateColor::Orange
        },
        GateStatus::Passed => GateColor::Green,
        GateStatus::Upcoming => GateColor::Red,
    }
}

/// The colour of the smoke a gate emits: the next gate plumes yellow, passed
/// gates green, gates still to come red.
pub fn gate_smoke_color(gate: usize, next_gate: usize) -> (c: GateColor)
    ensures
        c == match spec_gate_status(gate, next_gate) {
            GateStatus::Next => GateColor::Yellow,
            GateStatus::Passed => GateColor::Green,
            GateStatus::Upcoming => GateColor::Red,
        },
        gate > next_gate ==> c == GateColor::Red,
        gate < next_gate ==> c == GateColor::Green,
        gate == next_gate ==> c == GateColor::Yellow,
{
    match gate_status(gate, next_gate) {
        GateStatus::Next => GateColor::Yellow,
        GateStatus::Passed => GateColor::Green,
        GateStatus::Upcoming => GateColor::Red,
    }
}

/// On a circuit whose next gate is `next_gate`, exactly one gate is the next
/// one, and every gate is the next one, passed or still to come according to
/// its index.
pub proof fn lemma_exactly_one_next_gate(next_gate: usize, num_gates: usize)
    requires
        next_gate < num_gates,
    ensures
        forall|g: usize|
            g < num_gates ==> (#[trigger] spec_gate_status(g, next_gate) == GateStatus::Next
                <==> g == next_gate),
        exists|g: usize| g < num_gates && #[trigger] spec_gate_status(g, next_gate) == GateStatus::Next,
{
    assert(spec_gate_status(next_gate, next_gate) == GateStatus::Next);
}

/// A gate's status follows from its index relative to the player's next gate,
/// for every next gate including the start line (0): gates with a lower index
/// have been passed this lap, gates with a higher index are still to come, and
/// only the next gate itself is the next one.
pub proof fn lemma_gate_status_by_index(gate: usize, next_gate: usize)
    ensures
        gate > next_gate ==> spec_gate_status(gate, next_gate) == GateStatus::Upcoming,
        gate < next_gate ==> spec_gate_status(gate, next_gate) == GateStatus::Passed,
        gate == next_gate ==> spec_gate_status(gate, next_gate) == GateStatus::Next,
{
}

/// Number of dots around the speed gauge.
pub const GAUGE_SEGMENTS: usize = 32;

/// The colour of one dot of the speed gauge.
#[derive(Debug, Clone, Copy, PartialEq, Eq, Structural)]
pub enum SegmentColor {
    /// Not lit.
    Dark,
    /// Lit, in the first 60% of the arc.
    Cyan,
    /// Lit, between 60% and 85% of the arc.
    Amber,
    /// Lit, in the last 15% of the arc.
    Red,
}

/// The colour of dot `segment` when `lit` dots of the gauge are lit: unlit
/// dots are dark, lit ones go cyan, then amber from 60% of the arc, then red
/// from 85%.
pub fn gauge_segment_color(segment: usize, lit: usize) -> (c: SegmentColor)
    requires
        segment < GAUGE_SEGMENTS,
    ensures
        segment >= lit ==> c == SegmentColor::Dark,
        segment < lit && segment * 5 < 3 * GAUGE_SEGMENTS ==> c == SegmentColor::Cyan,
        segment < lit && 3 * GAUGE_SEGMENTS <= segment * 5 && segment * 20 < 17 * GAUGE_SEGMENTS
            ==> c == SegmentColor::Amber,
        segment < lit && 17 * GAUGE_SEGMENTS <= segment * 20 ==> c == SegmentColor::Red,
{
    if segment >= lit {
        SegmentColor::Dark
    } else if segment * 5 < 3 * GAUGE_SEGMENTS {
        SegmentColor::Cyan
    } else if segment * 20 < 17 * GAUGE_SEGMENTS {
        SegmentColor::Amber
    } else {
        SegmentColor::Red
    }
}

} // verus!
