use vstd::prelude::*;
use vstd::arithmetic::div_mod::{lemma_fundamental_div_mod, lemma_fundamental_div_mod_converse};


verus! {

/// How far a racer has got: the lap it is on, the laps the race lasts, and the
/// index of the waypoint gate it must pass next.
///
/// Waypoint 0 is the start/finish line; passing it starts a new lap.
#[derive(Debug, Clone, Copy, PartialEq, Eq, Structural)]
pub struct LapProgress {
    pub current_lap: u32,
    pub total_laps: u32,
    pub next_waypoint: usize,
}

/// The lap and next waypoint after passing one waypoint gate on a circuit of
/// `num_waypoints` gates.
pub open spec fn spec_pass(lap: int, next: int, num_waypoints: int) -> (int, int) {
    if next + 1 >= num_waypoints {
        (lap + 1, 0)
    } else {
        (lap, next + 1)
    }
}

/// The lap and next waypoint after passing `k` gates in a row.
pub open spec fn spec_pass_times(lap: int, next: int, num_waypoints: int, k: nat) -> (int, int)
    decreases k,
{
    if k == 0 {
        (lap, next)
    } else {
        let (l, w) = spec_pass(lap, next, num_waypoints);
        spec_pass_times(l, w, num_waypoints, (k - 1) as nat)
    }
}

impl LapProgress {
    /// Progress is consistent with a circuit of `num_waypoints` gates when the
    /// next gate is one of them.
    pub open spec fn valid_for(self, num_waypoints: int) -> bool {
        self.next_waypoint < num_waypoints
    }

    /// Whether the racer has completed every lap of the race.
    pub open spec fn spec_finished(self) -> bool {
        self.current_lap > self.total_laps
    }

    /// A racer on the grid: first lap, aiming at the waypoint after the start line.
    pub fn new(total_laps: u32) -> (p: LapProgress)
        ensures
            !p.spec_finished() <==> total_laps >= 1,
            p.current_lap == 1,
            p.total_laps == total_laps,
            p.next_waypoint == 1,
    {
        LapProgress { current_lap: 1, total_laps, next_waypoint: 1 }
    }

    /// Records that the racer passed its next gate: it aims at the following
    /// gate, and passing the last gate wraps round to the start line and starts
    /// a new lap.
    pub fn pass_waypoint(&mut self, num_waypoints: usize)
        requires
            old(self).next_waypoint < num_waypoints,
            old(self).current_lap < u32::MAX,
        ensures
            (final(self).current_lap as int, final(self).next_waypoint as int) == spec_pass(
                old(self).current_lap as int,
                old(self).next_waypoint as int,
                num_waypoints as int,
            ),
            final(self).total_laps == old(self).total_laps,
            final(self).valid_for(num_waypoints as int),
            old(self).next_waypoint + 1 < num_waypoints ==> final(self).next_waypoint
                == old(self).next_waypoint + 1 && final(self).current_lap == old(self).current_lap,
            old(self).next_waypoint + 1 == num_waypoints ==> final(self).next_waypoint == 0
                && final(self).current_lap == old(self).current_lap + 1,
    {
        self.next_waypoint = self.next_waypoint + 1;
        if self.next_waypoint >= num_waypoints {
            self.next_waypoint = 0;
            self.current_lap = self.current_lap + 1;
        }
    }

    /// One frame of lap tracking: when the racer is within reach of its next
    /// gate it passes it, otherwise nothing changes.
    pub fn track(&mut self, num_waypoints: usize, within_reach: bool)
        requires
            old(self).next_waypoint < num_waypoints,
            old(self).current_lap < u32::MAX,
        ensures
            within_reach ==> (final(self).current_lap as int, final(self).next_waypoint as int)
                == spec_pass(
                old(self).current_lap as int,
                old(self).next_waypoint as int,
                num_waypoints as int,
            ),
            !within_reach ==> *final(self) == *old(self),
            final(self).total_laps == old(self).total_laps,
            final(self).valid_for(num_waypoints as int),
    {
        if within_reach {
            self.pass_waypoint(num_waypoints);
        }
    }

    /// Whether the racer has completed every lap (its lap counter went past
    /// the race length).
    pub fn has_finished(&self) -> (b: bool)
        ensures
            b == self.spec_finished(),
            b <==> self.current_lap > self.total_laps,
    {
        self.current_lap > self.total_laps
    }

    /// The lap shown on the HUD: the current lap, but never more than the
    /// race length (a finished racer shows the last lap).
    pub fn displayed_lap(&self) -> (l: u32)
        ensures
            l == if self.current_lap <= self.total_laps {
                self.current_lap
            } else {
                self.total_laps
            },
    {
        if self.current_lap <= self.total_laps {
            self.current_lap
        } else {
            self.total_laps
        }
    }
}

/// Passing `k` gates in a row from gate `next` on a circuit of
/// `num_waypoints` gates completes `(next + k) / num_waypoints` laps and leaves
/// the racer aiming at gate `(next + k) % num_waypoints`.
pub proof fn lemma_pass_times(lap: int, next: int, num_waypoints: int, k: nat)
    requires
        0 <= next < num_waypoints,
    ensures
        spec_pass_times(lap, next, num_waypoints, k) == (
            lap + (next + k) / num_waypoints,
            (next + k) % num_waypoints,
        ),
    decreases k,
{
    let n = num_waypoints;
    if k == 0 {
        lemma_fundamental_div_mod_converse(next, n, 0, next);
    } else {
        let (l, w) = spec_pass(lap, next, n);
        lemma_pass_times(l, w, n, (k - 1) as nat);
        if next + 1 >= n {
            let q = (k - 1) / n;
            let r = (k - 1) % n;
            lemma_fundamental_div_mod(k - 1, n);
            assert(next + k == n * (q + 1) + r) by (nonlinear_arith)
                requires
                    next + 1 == n,
                    k - 1 == n * q + r,
            ;
            lemma_fundamental_div_mod_converse(next + k, n, q + 1, r);
        } else {
            assert(next + 1 + (k - 1) == next + k);
        }
    }
}

/// Going once round the whole circuit, passing every one of its gates,
/// completes exactly one lap and leaves the racer aiming at the same gate.
pub proof fn lemma_full_circuit(lap: int, next: int, num_waypoints: int)
    requires
        0 <= next < num_waypoints,
    ensures
        spec_pass_times(lap, next, num_waypoints, num_waypoints as nat) == (lap + 1, next),
{
    lemma_pass_times(lap, next, num_waypoints, num_waypoints as nat);
    lemma_fundamental_div_mod_converse(next + num_waypoints, num_waypoints, 1, next);
}

/// Passing any number of gates never loses a lap, and always leaves the racer
/// aiming at a gate of the circuit.
pub proof fn lemma_laps_never_decrease(lap: int, next: int, num_waypoints: int, k: nat)
    requires
        0 <= next < num_waypoints,
    ensures
        spec_pass_times(lap, next, num_waypoints, k).0 >= lap,
        0 <= spec_pass_times(lap, next, num_waypoints, k).1 < num_waypoints,
{
    lemma_pass_times(lap, next, num_waypoints, k);
    assert((next + k) / num_waypoints >= 0) by (nonlinear_arith)
        requires
            next + k >= 0,
            num_waypoints > 0,
    ;
}

/// A racer has finished exactly when its lap counter has gone past the race
/// length; whatever waypoint it is heading for, a racer on the last lap (or
/// an earlier one) has not finished.
pub proof fn lemma_finished_exactly_after_last_lap(p: LapProgress)
    ensures
        p.spec_finished() <==> p.current_lap > p.total_laps,
        p.current_lap <= p.total_laps ==> !p.spec_finished(),
        p.current_lap == p.total_laps + 1 ==> p.spec_finished(),
{
}

/// A racer starting on the grid (lap 1, heading for waypoint 1) of a circuit of
/// `num_waypoints` waypoints has completed `total_laps` laps exactly when it has
/// passed `num_waypoints * total_laps - 1` waypoints: its lap counter exceeds
/// the race length after that many passes and not one pass sooner.
pub proof fn lemma_finish_after_every_lap(total_laps: int, num_waypoints: int, k: nat)
    requires
        num_waypoints >= 2,
        total_laps >= 0,
    ensures
        spec_pass_times(1, 1, num_waypoints, k).0 > total_laps <==> k + 1 >= num_waypoints
            * total_laps,
{
    lemma_pass_times(1, 1, num_waypoints, k);
    let x: int = k as int + 1;
    let q = x / num_waypoints;
    let r = x % num_waypoints;
    lemma_fundamental_div_mod(x, num_waypoints);
    assert(q >= total_laps <==> x >= num_waypoints * total_laps) by (nonlinear_arith)
        requires
            x == num_waypoints * q + r,
            0 <= r < num_waypoints,
            num_waypoints >= 2,
    ;
}

} // verus!
