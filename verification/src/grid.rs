use vstd::prelude::*;

verus! {


/// Which side of the track a starting slot is on.
#[derive(Debug, Clone, Copy, PartialEq, Eq, Structural)]
pub enum GridLane {
    /// Pole position, on the centre line.
    Centre,
    Left,
    Right,
}

/// A slot on the starting grid: how many rows behind the start line, and on
/// which side.
#[derive(Debug, Clone, Copy, PartialEq, Eq, Structural)]
pub struct GridSlot {
    pub row: u32,
    pub lane: GridLane,
}

/// The slot of car `i` on the starting grid (car 0 is on pole): cars line up
/// in pairs, row `(i + 1) / 2`, odd-numbered cars on the left and even-numbered
/// ones on the right.
pub open spec fn spec_grid_slot(i: int) -> GridSlot {
    GridSlot {
        row: ((i + 1) / 2) as u32,
        lane: if i == 0 {
            GridLane::Centre
        } else if i % 2 == 1 {
            GridLane::Left
        } else {
            GridLane::Right
        },
    }
}

/// The slot of car `i` on the starting grid.
pub fn grid_slot(i: u32) -> (slot: GridSlot)
    requires
        i < u32::MAX,
    ensures
        slot == spec_grid_slot(i as int),
{
    let lane = if i == 0 {
        GridLane::Centre
    } else if i % 2 == 1 {
        GridLane::Left
    } else {
        GridLane::Right
    };
    GridSlot { row: (i + 1) / 2, lane }
}

/// No two cars are given the same starting slot.
pub proof fn lemma_grid_slots_distinct(i: u32, j: u32)
    requires
        i < u32::MAX,
        j < u32::MAX,
        i != j,
    ensures
        spec_grid_slot(i as int) != spec_grid_slot(j as int),
{
}

/// The grid fills in pairs behind the pole: car 0 alone on the centre line in
/// row 0; for every odd car `i`, cars `i` and `i + 1` share row `(i + 1) / 2`,
/// `i` on the left and `i + 1` on the right; and a later car never starts
/// further forward than an earlier one.
pub proof fn lemma_grid_fills_in_pairs(i: int, j: int)
    requires
        0 <= i <= j < u32::MAX,
    ensures
        spec_grid_slot(0) == (GridSlot { row: 0, lane: GridLane::Centre }),
        i % 2 == 1 && j == i + 1 ==> spec_grid_slot(i).row == spec_grid_slot(j).row
            && spec_grid_slot(i).lane == GridLane::Left && spec_grid_slot(j).lane
            == GridLane::Right,
        i >= 1 ==> spec_grid_slot(i).row >= 1 && spec_grid_slot(i).lane != GridLane::Centre,
        spec_grid_slot(i).row <= spec_grid_slot(j).row,
        2 * (spec_grid_slot(i).row as int) - 1 <= i <= 2 * (spec_grid_slot(i).row as int),
{
}

/// Number of AI opponents on the grid.
pub const AI_CARS: u32 = 12;

/// The pace of AI car `car` (1..=12) as a percentage of the chosen AI skill:
/// cars 1 to 4 are 10% quicker, cars 5 to 8 match it, cars 9 to 12 are 10%
/// slower.
pub fn ai_pace_percent(car: u32) -> (percent: u32)
    requires
        1 <= car <= AI_CARS,
    ensures
        car <= 4 ==> percent == 110,
        5 <= car <= 8 ==> percent == 100,
        9 <= car ==> percent == 90,
{
    if car <= 4 {
        110
    } else if car <= 8 {
        100
    } else {
        90
    }
}

} // verus!
