use vstd::prelude::*;

verus! {

/// The finish key standing for "has not finished": the ordering key of the
/// placeholder finish time, 99999 seconds.
pub const UNFINISHED_KEY: u32 = 0x47C3_4F80;

/// What the race order of one racer is decided by.
///
/// The two time/distance measures are carried as ordering keys: for the
/// non-negative times and distances of a race the key of a smaller value is
/// smaller, so comparing keys compares the values.
#[derive(Debug, Clone, Copy, PartialEq, Eq, Structural)]
pub struct RacerStanding {
    pub is_player: bool,
    pub current_lap: u32,
    pub next_waypoint: usize,
    /// Key of the finish time, or `UNFINISHED_KEY` while still racing.
    pub finish_key: u32,
    /// Key of the distance to the next waypoint gate.
    pub distance_key: u32,
}

/// Whether `a` is strictly ahead of `b` in the race order:
/// 1. if either has finished, the faster finish time is ahead;
/// 2. otherwise more laps is ahead,
/// 3. then a later next gate,
/// 4. then being closer to that gate.
pub open spec fn spec_ahead(a: RacerStanding, b: RacerStanding) -> bool {
    if a.finish_key < UNFINISHED_KEY || b.finish_key < UNFINISHED_KEY {
        a.finish_key < b.finish_key
    } else if a.current_lap != b.current_lap {
        a.current_lap > b.current_lap
    } else if a.next_waypoint != b.next_waypoint {
        a.next_waypoint > b.next_waypoint
    } else {
        a.distance_key < b.distance_key
    }
}

/// `order` lists every index of `racers` exactly once.
pub open spec fn spec_is_permutation(order: Seq<usize>, n: int) -> bool {
    &&& order.len() == n
    &&& forall|i: int| 0 <= i < order.len() ==> #[trigger] order[i] < n
    &&& forall|i: int, j: int|
        0 <= i < j < order.len() ==> #[trigger] order[i] != #[trigger] order[j]
}

/// `order` ranks `racers` from first to last place: nobody is ahead of a
/// racer ranked before them, and tied racers keep their listed order.
pub open spec fn spec_ranked(racers: Seq<RacerStanding>, order: Seq<usize>) -> bool {
    &&& forall|i: int, j: int|
        0 <= i < j < order.len() ==> !spec_ahead(
            #[trigger] racers[order[j] as int],
            #[trigger] racers[order[i] as int],
        )
    &&& forall|i: int, j: int|
        0 <= i < j < order.len() && !spec_ahead(
            #[trigger] racers[order[i] as int],
            #[trigger] racers[order[j] as int],
        ) ==> order[i] < order[j]
}

/// Being ahead is never mutual.
pub proof fn lemma_ahead_asymmetric(a: RacerStanding, b: RacerStanding)
    ensures
        spec_ahead(a, b) ==> !spec_ahead(b, a),
{
}

/// Being ahead carries past anyone not ahead of the one overtaken:
/// if `a` is ahead of `b` and `c` is not ahead of `b`, then `a` is ahead of `c`.
pub proof fn lemma_ahead_carries(a: RacerStanding, b: RacerStanding, c: RacerStanding)
    ensures
        spec_ahead(a, b) && !spec_ahead(c, b) ==> spec_ahead(a, c),
{
}

/// Whether `a` is strictly ahead of `b` in the race order.
pub fn is_ahead(a: &RacerStanding, b: &RacerStanding) -> (r: bool)
    ensures
        r == spec_ahead(*a, *b),
        a.finish_key >= UNFINISHED_KEY && b.finish_key >= UNFINISHED_KEY && a.current_lap
            == b.current_lap && a.next_waypoint > b.next_waypoint ==> r,
        a.finish_key >= UNFINISHED_KEY && b.finish_key >= UNFINISHED_KEY && a.current_lap
            == b.current_lap && a.next_waypoint < b.next_waypoint ==> !r,
{
    if a.finish_key < UNFINISHED_KEY || b.finish_key < UNFINISHED_KEY {
        a.finish_key < b.finish_key
    } else if a.current_lap != b.current_lap {
        a.current_lap > b.current_lap
    } else if a.next_waypoint != b.next_waypoint {
        a.next_waypoint > b.next_waypoint
    } else {
        a.distance_key < b.distance_key
    }
}

/// The race order: indices into `racers` from first to last place. Racers
/// that are tied keep the order they are listed in.
pub fn race_order(racers: &Vec<RacerStanding>) -> (order: Vec<usize>)
    ensures
        spec_is_permutation(order@, racers@.len() as int),
        spec_ranked(racers@, order@),
{
    let n = racers.len();
    let mut order: Vec<usize> = Vec::new();
    let mut k: usize = 0;
    while k < n
        invariant
            n == racers@.len(),
            k <= n,
            spec_is_permutation(order@, k as int),
            spec_ranked(racers@, order@),
        decreases n - k,
    {
        let mut p: usize = 0;
        while p < order.len() && !is_ahead(&racers[k], &racers[order[p]])
            invariant
                n == racers@.len(),
                k < n,
                p <= order@.len(),
                spec_is_permutation(order@, k as int),
                forall|q: int|
                    0 <= q < p ==> !spec_ahead(racers@[k as int], #[trigger] racers@[order@[q] as int]),
            decreases order@.len() - p,
        {
            p = p + 1;
        }
        let ghost old_order = order@;
        proof {
            // Everyone from position p on is behind the racer being placed.
            assert forall|q: int| p <= q < old_order.len() implies spec_ahead(
                racers@[k as int],
                #[trigger] racers@[old_order[q] as int],
            ) by {
                if q > p {
                    lemma_ahead_carries(
                        racers@[k as int],
                        racers@[old_order[p as int] as int],
                        racers@[old_order[q] as int],
                    );
                }
            }
        }
        order.insert(p, k);
        proof {
            let s = order@;
            assert(s == old_order.insert(p as int, k));
            assert forall|i: int| 0 <= i < s.len() implies #[trigger] s[i] < k + 1 by {
                if i < p {
                    assert(s[i] == old_order[i]);
                } else if i > p {
                    assert(s[i] == old_order[i - 1]);
                }
            }
            assert forall|i: int, j: int| 0 <= i < j < s.len() implies #[trigger] s[i] != #[trigger] s[j] by {
                if i < p && j < p {
                    assert(s[i] == old_order[i] && s[j] == old_order[j]);
                } else if i < p && j == p {
                    assert(s[i] == old_order[i]);
                } else if i < p && j > p {
                    assert(s[i] == old_order[i] && s[j] == old_order[j - 1]);
                } else if i == p {
                    assert(s[j] == old_order[j - 1]);
                } else {
                    assert(s[i] == old_order[i - 1] && s[j] == old_order[j - 1]);
                }
            }
            assert forall|i: int, j: int| 0 <= i < j < s.len() implies !spec_ahead(
                #[trigger] racers@[s[j] as int],
                #[trigger] racers@[s[i] as int],
            ) by {
                if i < p && j < p {
                    assert(s[i] == old_order[i] && s[j] == old_order[j]);
                } else if i < p && j == p {
                    assert(s[i] == old_order[i]);
                } else if i < p && j > p {
                    assert(s[i] == old_order[i] && s[j] == old_order[j - 1]);
                } else if i == p {
                    assert(s[j] == old_order[j - 1]);
                    lemma_ahead_asymmetric(racers@[k as int], racers@[s[j] as int]);
                } else {
                    assert(s[i] == old_order[i - 1] && s[j] == old_order[j - 1]);
                }
            }
            assert forall|i: int, j: int|
                0 <= i < j < s.len() && !spec_ahead(
                    #[trigger] racers@[s[i] as int],
                    #[trigger] racers@[s[j] as int],
                ) implies s[i] < s[j] by {
                if i < p && j < p {
                    assert(s[i] == old_order[i] && s[j] == old_order[j]);
                } else if i < p && j == p {
                    assert(s[i] == old_order[i]);
                } else if i < p && j > p {
                    assert(s[i] == old_order[i] && s[j] == old_order[j - 1]);
                } else if i == p {
                    assert(s[j] == old_order[j - 1]);
                } else {
                    assert(s[i] == old_order[i - 1] && s[j] == old_order[j - 1]);
                }
            }
        }
        k = k + 1;
    }
    order
}

/// The player's place (1 = first) in the race order `order` of `racers`.
pub fn player_place(racers: &Vec<RacerStanding>, order: &Vec<usize>) -> (place: usize)
    requires
        forall|i: int| 0 <= i < order@.len() ==> #[trigger] order@[i] < racers@.len(),
    ensures
        1 <= place,
        place <= order@.len() || place == 1,
        (exists|i: int| 0 <= i < order@.len() && (#[trigger] racers@[order@[i] as int]).is_player)
            ==> racers@[order@[place - 1] as int].is_player && forall|j: int|
            0 <= j < place - 1 ==> !(#[trigger] racers@[order@[j] as int]).is_player,
        !(exists|i: int| 0 <= i < order@.len() && (#[trigger] racers@[order@[i] as int]).is_player)
            ==> place == 1,
{
    let mut i: usize = 0;
    while i < order.len()
        invariant
            i <= order@.len(),
            forall|k: int| 0 <= k < order@.len() ==> #[trigger] order@[k] < racers@.len(),
            forall|j: int| 0 <= j < i ==> !(#[trigger] racers@[order@[j] as int]).is_player,
        decreases order@.len() - i,
    {
        if racers[order[i]].is_player {
            return i + 1;
        }
        i = i + 1;
    }
    1
}

/// The English ordinal suffix of a place: 1st, 2nd, 3rd, and "th" otherwise.
pub fn place_suffix(place: usize) -> (s: &'static str)
    ensures
        place == 1 ==> s@ == "st"@,
        place == 2 ==> s@ == "nd"@,
        place == 3 ==> s@ == "rd"@,
        place != 1 && place != 2 && place != 3 ==> s@ == "th"@,
{
    if place == 1 {
        "st"
    } else if place == 2 {
        "nd"
    } else if place == 3 {
        "rd"
    } else {
        "th"
    }
}

/// The name a racer is listed under on the scoreboard.
pub fn racer_name(is_player: bool) -> (name: &'static str)
    ensures
        is_player ==> name@ == "Player"@,
        !is_player ==> name@ == "AI Racer"@,
{
    if is_player {
        "Player"
    } else {
        "AI Racer"
    }
}

/// In a race order, a racer who is ahead of another is ranked before them.
pub proof fn lemma_ahead_ranks_first(racers: Seq<RacerStanding>, order: Seq<usize>, i: int, j: int)
    requires
        spec_is_permutation(order, racers.len() as int),
        spec_ranked(racers, order),
        0 <= i < order.len(),
        0 <= j < order.len(),
        spec_ahead(racers[order[i] as int], racers[order[j] as int]),
    ensures
        i < j,
{
    if j < i {
        assert(!spec_ahead(racers[order[i] as int], racers[order[j] as int]));
    } else if i == j {
        lemma_ahead_asymmetric(racers[order[i] as int], racers[order[j] as int]);
    }
}

/// A racer who has finished is ranked ahead of every racer still on track.
pub proof fn lemma_finishers_rank_first(racers: Seq<RacerStanding>, order: Seq<usize>, i: int, j: int)
    requires
        spec_is_permutation(order, racers.len() as int),
        spec_ranked(racers, order),
        0 <= i < order.len(),
        0 <= j < order.len(),
        racers[order[i] as int].finish_key < UNFINISHED_KEY,
        racers[order[j] as int].finish_key >= UNFINISHED_KEY,
    ensures
        i < j,
{
    lemma_ahead_ranks_first(racers, order, i, j);
}

/// Among racers still on track, one on a later lap is ranked ahead of one on
/// an earlier lap.
pub proof fn lemma_more_laps_rank_first(racers: Seq<RacerStanding>, order: Seq<usize>, i: int, j: int)
    requires
        spec_is_permutation(order, racers.len() as int),
        spec_ranked(racers, order),
        0 <= i < order.len(),
        0 <= j < order.len(),
        racers[order[i] as int].finish_key >= UNFINISHED_KEY,
        racers[order[j] as int].finish_key >= UNFINISHED_KEY,
        racers[order[i] as int].current_lap > racers[order[j] as int].current_lap,
    ensures
        i < j,
{
    lemma_ahead_ranks_first(racers, order, i, j);
}

/// Among finishers, the faster finish time is ranked first.
pub proof fn lemma_faster_finish_ranks_first(racers: Seq<RacerStanding>, order: Seq<usize>, i: int, j: int)
    requires
        spec_is_permutation(order, racers.len() as int),
        spec_ranked(racers, order),
        0 <= i < order.len(),
        0 <= j < order.len(),
        racers[order[i] as int].finish_key < racers[order[j] as int].finish_key,
        racers[order[i] as int].finish_key < UNFINISHED_KEY,
    ensures
        i < j,
{
    lemma_ahead_ranks_first(racers, order, i, j);
}

/// The race order, criterion by criterion: a finisher is ahead of anyone still
/// on track; between finishers the faster time is ahead and equal times tie;
/// between racers still on track the later lap is ahead, then on the same lap
/// the one heading for a higher-numbered waypoint, then on the same lap and
/// waypoint the one closer to it; racers equal on all of these tie.
pub proof fn lemma_race_order_criteria(a: RacerStanding, b: RacerStanding)
    ensures
        a.finish_key < UNFINISHED_KEY && b.finish_key >= UNFINISHED_KEY ==> spec_ahead(a, b)
            && !spec_ahead(b, a),
        a.finish_key < UNFINISHED_KEY && b.finish_key < UNFINISHED_KEY && a.finish_key
            < b.finish_key ==> spec_ahead(a, b) && !spec_ahead(b, a),
        a.finish_key < UNFINISHED_KEY && a.finish_key == b.finish_key ==> !spec_ahead(a, b)
            && !spec_ahead(b, a),
        a.finish_key >= UNFINISHED_KEY && b.finish_key >= UNFINISHED_KEY && a.current_lap
            > b.current_lap ==> spec_ahead(a, b) && !spec_ahead(b, a),
        a.finish_key >= UNFINISHED_KEY && b.finish_key >= UNFINISHED_KEY && a.current_lap
            == b.current_lap && a.next_waypoint > b.next_waypoint ==> spec_ahead(a, b)
            && !spec_ahead(b, a),
        a.finish_key >= UNFINISHED_KEY && b.finish_key >= UNFINISHED_KEY && a.current_lap
            == b.current_lap && a.next_waypoint == b.next_waypoint && a.distance_key
            < b.distance_key ==> spec_ahead(a, b) && !spec_ahead(b, a),
        a.finish_key >= UNFINISHED_KEY && b.finish_key >= UNFINISHED_KEY && a.current_lap
            == b.current_lap && a.next_waypoint == b.next_waypoint && a.distance_key
            == b.distance_key ==> !spec_ahead(a, b) && !spec_ahead(b, a),
{
}

/// On the same lap, a racer still on track heading for a higher-numbered
/// waypoint is ranked ahead of one heading for a lower-numbered waypoint.
pub proof fn lemma_later_waypoint_ranks_first(
    racers: Seq<RacerStanding>,
    order: Seq<usize>,
    i: int,
    j: int,
)
    requires
        spec_is_permutation(order, racers.len() as int),
        spec_ranked(racers, order),
        0 <= i < order.len(),
        0 <= j < order.len(),
        racers[order[i] as int].finish_key >= UNFINISHED_KEY,
        racers[order[j] as int].finish_key >= UNFINISHED_KEY,
        racers[order[i] as int].current_lap == racers[order[j] as int].current_lap,
        racers[order[i] as int].next_waypoint > racers[order[j] as int].next_waypoint,
    ensures
        i < j,
{
    lemma_race_order_criteria(racers[order[i] as int], racers[order[j] as int]);
    lemma_ahead_ranks_first(racers, order, i, j);
}

/// On the same lap and heading for the same waypoint, the racer closer to it
/// is ranked ahead.
pub proof fn lemma_closer_ranks_first(racers: Seq<RacerStanding>, order: Seq<usize>, i: int, j: int)
    requires
        spec_is_permutation(order, racers.len() as int),
        spec_ranked(racers, order),
        0 <= i < order.len(),
        0 <= j < order.len(),
        racers[order[i] as int].finish_key >= UNFINISHED_KEY,
        racers[order[j] as int].finish_key >= UNFINISHED_KEY,
        racers[order[i] as int].current_lap == racers[order[j] as int].current_lap,
        racers[order[i] as int].next_waypoint == racers[order[j] as int].next_waypoint,
        racers[order[i] as int].distance_key < racers[order[j] as int].distance_key,
    ensures
        i < j,
{
    lemma_race_order_criteria(racers[order[i] as int], racers[order[j] as int]);
    lemma_ahead_ranks_first(racers, order, i, j);
}

/// Racers that tie on every criterion stay in the order they are listed in.
pub proof fn lemma_ties_keep_listed_order(racers: Seq<RacerStanding>, order: Seq<usize>, i: int, j: int)
    requires
        spec_is_permutation(order, racers.len() as int),
        spec_ranked(racers, order),
        0 <= i < order.len(),
        0 <= j < order.len(),
        racers[order[i] as int].finish_key == racers[order[j] as int].finish_key,
        racers[order[i] as int].current_lap == racers[order[j] as int].current_lap,
        racers[order[i] as int].next_waypoint == racers[order[j] as int].next_waypoint,
        racers[order[i] as int].distance_key == racers[order[j] as int].distance_key,
        order[i] < order[j],
    ensures
        i < j,
{
    lemma_race_order_criteria(racers[order[i] as int], racers[order[j] as int]);
    if j < i {
        assert(!spec_ahead(racers[order[j] as int], racers[order[i] as int]));
    }
}

} // verus!
