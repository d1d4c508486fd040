//! Scan path planning over device waypoints: the waypoint type, its
//! Manhattan travel cost, and tour optimization (nearest-neighbour
//! construction followed by 2-opt local search under a wall-clock
//! budget).  Whatever the budget, the optimized tour is a permutation of
//! its input: no waypoint is dropped, duplicated or invented.

use vstd::prelude::*;
use vstd::seq_lib::group_to_multiset_ensures;
use vstd::seq_lib::to_multiset_update;

verus! {

/// Largest coordinate magnitude the planner accepts; keeps every
/// pairwise Manhattan distance within `u32` and every tour cost within
/// `u64`.  Device positions are a few thousand steps, far inside this.
pub const COORD_LIMIT: i32 = 500000000;

/// A target position in device angular units (stepper counts).
#[derive(Clone, Copy, Debug, PartialEq, Eq, Structural)]
pub struct Waypoint {
    pub pitch: i32,
    pub yaw: i32,
}

pub open spec fn in_range(w: Waypoint) -> bool {
    &&& -COORD_LIMIT <= w.pitch <= COORD_LIMIT
    &&& -COORD_LIMIT <= w.yaw <= COORD_LIMIT
}

pub open spec fn abs_val(x: int) -> int {
    if x >= 0 {
        x
    } else {
        -x
    }
}

/// Travel cost between two waypoints: Manhattan distance in pitch/yaw
/// step space, a proxy for physical travel time since both axes step at
/// comparable rates.
pub open spec fn spec_manhattan(a: Waypoint, b: Waypoint) -> int {
    abs_val(a.pitch - b.pitch) + abs_val(a.yaw - b.yaw)
}

impl Waypoint {
    pub fn manhattan_distance(&self, other: &Self) -> (r: u32)
        requires
            in_range(*self),
            in_range(*other),
        ensures
            r == spec_manhattan(*self, *other),
    {
        let dp: i64 = self.pitch as i64 - other.pitch as i64;
        let dy: i64 = self.yaw as i64 - other.yaw as i64;
        let dp_abs: i64 = if dp >= 0 {
            dp
        } else {
            -dp
        };
        let dy_abs: i64 = if dy >= 0 {
            dy
        } else {
            -dy
        };
        (dp_abs + dy_abs) as u32
    }
}

/// Swapping two elements of a sequence leaves its multiset unchanged.
proof fn lemma_swap_multiset(s: Seq<Waypoint>, i: int, j: int)
    requires
        0 <= i < s.len(),
        0 <= j < s.len(),
    ensures
        s.update(i, s[j]).update(j, s[i]).to_multiset() == s.to_multiset(),
{
    broadcast use group_to_multiset_ensures;

    if i == j {
        assert(s.update(i, s[j]).update(j, s[i]) =~= s);
    } else {
        let s1 = s.update(i, s[j]);
        let s2 = s1.update(j, s[i]);
        to_multiset_update(s, i, s[j]);
        to_multiset_update(s1, j, s[i]);
        assert(s.contains(s[i]));
        assert(s1.contains(s1[j]));
        assert(s1[j] == s[j]);
        assert(s2.to_multiset() =~= s.to_multiset());
    }
}

/// Swap the waypoints at `i` and `j` in place.
fn swap_waypoints(v: &mut Vec<Waypoint>, i: usize, j: usize)
    requires
        i < old(v)@.len(),
        j < old(v)@.len(),
    ensures
        final(v)@ == old(v)@.update(i as int, old(v)@[j as int]).update(j as int, old(v)@[i as int]),
        final(v)@.to_multiset() == old(v)@.to_multiset(),
        final(v)@.len() == old(v)@.len(),
    {
        let a = v[i];
        let b = v[j];
        v.set(i, b);
        v.set(j, a);
        proof {
            lemma_swap_multiset(old(v)@, i as int, j as int);
        }
    }

/// Reorder the tour into greedy nearest-neighbour order: the first
/// waypoint stays the anchor, and each later position takes whichever
/// remaining waypoint is nearest to the one before it.
fn nearest_neighbor_order(v: &mut Vec<Waypoint>)
    requires
        forall|k: int| 0 <= k < old(v)@.len() ==> in_range(#[trigger] old(v)@[k]),
    ensures
        final(v)@.to_multiset() == old(v)@.to_multiset(),
        final(v)@.len() == old(v)@.len(),
        forall|k: int| 0 <= k < final(v)@.len() ==> in_range(#[trigger] final(v)@[k]),
{
    let n = v.len();
    if n == 0 {
        return;
    }
    let mut i: usize = 1;
    while i < n
        invariant
            1 <= i <= n,
            n == v@.len(),
            v@.to_multiset() == old(v)@.to_multiset(),
            forall|k: int| 0 <= k < v@.len() ==> in_range(#[trigger] v@[k]),
        decreases n - i,
    {
        let mut best: usize = i;
        let mut best_d: u32 = v[i - 1].manhattan_distance(&v[i]);
        let mut t: usize = i + 1;
        while t < n
            invariant
                1 <= i < n,
                i <= best < n,
                i < t <= n,
                n == v@.len(),
                forall|k: int| 0 <= k < v@.len() ==> in_range(#[trigger] v@[k]),
            decreases n - t,
        {
            let d = v[i - 1].manhattan_distance(&v[t]);
            if d < best_d {
                best = t;
                best_d = d;
            }
            t = t + 1;
        }
        swap_waypoints(v, i, best);
        i = i + 1;
    }
}

/// Reverse the segment `v[from..=to]` in place.
fn reverse_segment(v: &mut Vec<Waypoint>, from: usize, to: usize)
    requires
        from <= to,
        to < old(v)@.len(),
        forall|k: int| 0 <= k < old(v)@.len() ==> in_range(#[trigger] old(v)@[k]),
    ensures
        final(v)@.to_multiset() == old(v)@.to_multiset(),
        final(v)@.len() == old(v)@.len(),
        forall|k: int| 0 <= k < final(v)@.len() ==> in_range(#[trigger] final(v)@[k]),
{
    let mut a = from;
    let mut b = to;
    while a < b
        invariant
            from <= a,
            b < v@.len(),
            a + b == from + to,
            v@.to_multiset() == old(v)@.to_multiset(),
            v@.len() == old(v)@.len(),
            forall|k: int| 0 <= k < v@.len() ==> in_range(#[trigger] v@[k]),
        decreases b + 1 - a,
    {
        swap_waypoints(v, a, b);
        a = a + 1;
        b = b - 1;
    }
}

/// Relies on `std::time::Instant`: an opaque monotonic timestamp.
#[verifier::external_type_specification]
#[verifier::external_body]
pub struct ExInstant(std::time::Instant);

/// Relies on `std::time::Instant::now` for the monotonic clock behind
/// the optimizer's deadline; nothing is assumed about its value.
#[verifier::external_body]
fn monotonic_now() -> std::time::Instant {
    std::time::Instant::now()
}

/// Relies on `std::time::Instant::elapsed`: the time since `start`;
/// nothing is assumed about its value.
#[verifier::external_body]
fn time_since(start: &std::time::Instant) -> std::time::Duration {
    start.elapsed()
}

/// Relies on `std::time::Duration::as_millis`: the duration in whole
/// milliseconds; nothing is assumed about its value.
#[verifier::external_body]
fn duration_as_millis(d: &std::time::Duration) -> u128 {
    d.as_millis()
}

/// Improve the tour by 2-opt moves: wherever replacing the edges into
/// `v[i]` and out of `v[j]` by their crossing pair shortens the tour,
/// reverse the segment between them.  Passes repeat until no move
/// improves, a fixed pass bound is hit, or the wall-clock budget runs
/// out; every early exit leaves a valid permutation.
fn two_opt(v: &mut Vec<Waypoint>, budget: std::time::Duration)
    requires
        forall|k: int| 0 <= k < old(v)@.len() ==> in_range(#[trigger] old(v)@[k]),
    ensures
        final(v)@.to_multiset() == old(v)@.to_multiset(),
        final(v)@.len() == old(v)@.len(),
        forall|k: int| 0 <= k < final(v)@.len() ==> in_range(#[trigger] final(v)@[k]),
{
    let n = v.len();
    if n < 4 {
        return;
    }
    let start = monotonic_now();
    let budget_ms = duration_as_millis(&budget);
    let mut pass: usize = 0;
    while pass < 64
        invariant
            n == v@.len(),
            4 <= n,
            v@.to_multiset() == old(v)@.to_multiset(),
            forall|k: int| 0 <= k < v@.len() ==> in_range(#[trigger] v@[k]),
        decreases 64 - pass,
    {
        if duration_as_millis(&time_since(&start)) >= budget_ms {
            break;
        }
        let mut improved = false;
        let mut i: usize = 1;
        while i <= n - 2
            invariant
                1 <= i <= n - 1,
                n == v@.len(),
                4 <= n,
                v@.to_multiset() == old(v)@.to_multiset(),
                forall|k: int| 0 <= k < v@.len() ==> in_range(#[trigger] v@[k]),
            decreases n - i,
        {
            let mut j: usize = i + 1;
            while j <= n - 2
                invariant
                    1 <= i,
                    i <= n - 2,
                    i < j <= n - 1,
                    n == v@.len(),
                    v@.to_multiset() == old(v)@.to_multiset(),
                    forall|k: int| 0 <= k < v@.len() ==> in_range(#[trigger] v@[k]),
                decreases n - j,
            {
                let d_kept = v[i - 1].manhattan_distance(&v[i]) as u64
                    + v[j].manhattan_distance(&v[j + 1]) as u64;
                let d_crossed = v[i - 1].manhattan_distance(&v[j]) as u64
                    + v[i].manhattan_distance(&v[j + 1]) as u64;
                if d_crossed < d_kept {
                    reverse_segment(v, i, j);
                    improved = true;
                }
                j = j + 1;
            }
            i = i + 1;
        }
        if !improved {
            break;
        }
        pass = pass + 1;
    }
}

/// Build a tour over `path` minimizing total Manhattan travel,
/// best-effort: nearest-neighbour construction, then 2-opt local search
/// bounded by the wall-clock `duration`.  The optimizer may stop early
/// once the deadline elapses, but whatever the budget — even none — the
/// result is a permutation of the input: the same waypoints, each
/// exactly as often as it came in.
pub fn optimize_path(path: Vec<Waypoint>, duration: std::time::Duration) -> (tour: Vec<Waypoint>)
    requires
        forall|k: int| 0 <= k < path@.len() ==> in_range(#[trigger] path@[k]),
    ensures
        tour@.to_multiset() == path@.to_multiset(),
        tour@.len() == path@.len(),
{
    let mut tour = path;
    nearest_neighbor_order(&mut tour);
    two_opt(&mut tour, duration);
    tour
}

} // verus!
