//! Scan orchestration: the checkpoint log and the state machine that
//! drives a sweep over the planned waypoints.
//!
//! Starting a scan begins at index `scanned_points.len()`, right after
//! the recorded prefix, so resuming a paused scan never revisits what is
//! already recorded.  Within a run the sweep keeps its own cursor: a
//! failed measurement is skipped — no checkpoint, no retry, the sweep
//! moves on to the next waypoint (the skip policy is deliberate) — and a
//! skipped waypoint is visited again only when a later run resumes over
//! it.  A scan that runs out of waypoints ends as an implicit pause.

use crate::distance::DistanceReading;
use crate::shared::{IsDead, StateEq};
use crate::sphere::Waypoint;
use crate::sphere::in_range;
use crate::sphere::optimize_path;
use vstd::prelude::*;

verus! {

/// One persisted measurement record: the planned waypoint, the achieved
/// axis positions, the measured point (millimetres), the attitude at
/// measurement time (millidegrees), and the raw reading.  Appended once
/// per successfully measured waypoint and never mutated.
#[derive(Clone, Copy, Debug, PartialEq, Eq, Structural)]
pub struct ScannedCheckpoint {
    pub x_mm: i64,
    pub y_mm: i64,
    pub z_mm: i64,
    pub waypoint_yaw: i32,
    pub waypoint_pitch: i32,
    pub current_yaw: i32,
    pub current_pitch: i32,
    pub roll_mdeg: i64,
    pub pitch_mdeg: i64,
    pub yaw_mdeg: i64,
    pub distance: u32,
    pub quality: u32,
}

/// A measured point in Cartesian device coordinates, millimetres.
#[derive(Clone, Copy, Debug, PartialEq, Eq, Structural)]
pub struct PointMm {
    pub x_mm: i64,
    pub y_mm: i64,
    pub z_mm: i64,
}

/// An attitude estimate as Euler angles in millidegrees.
#[derive(Clone, Copy, Debug, PartialEq, Eq, Structural)]
pub struct OrientationAngles {
    pub roll_mdeg: i64,
    pub pitch_mdeg: i64,
    pub yaw_mdeg: i64,
}

/// Whether the orchestrator is sweeping, holding, or shut down.
#[derive(Eq, PartialEq, Clone, Copy, Debug, Structural)]
pub enum ScanState {
    Scanning,
    Paused,
    Dead,
}

impl IsDead for ScanState {
    open spec fn dead_spec(&self) -> bool {
        *self is Dead
    }

    fn is_dead(&self) -> (r: bool) {
        *self == ScanState::Dead
    }
}

impl StateEq for ScanState {
    open spec fn eq_spec(&self, other: &Self) -> bool {
        *self == *other
    }

    proof fn eq_spec_reflexive(&self) {
    }

    fn state_eq(&self, other: &Self) -> (r: bool) {
        *self == *other
    }
}

/// A checkpoint records exactly this waypoint.
pub open spec fn checkpoint_matches(cp: ScannedCheckpoint, w: Waypoint) -> bool {
    cp.waypoint_pitch == w.pitch && cp.waypoint_yaw == w.yaw
}

/// The scan's data: the planned tour and the append-only checkpoint log.
pub struct ScanJobData {
    pub waypoints: Vec<Waypoint>,
    pub scanned_points: Vec<ScannedCheckpoint>,
}

impl ScanJobData {
    /// Every recorded checkpoint matches the waypoint at its own index:
    /// the log is a faithful prefix of the tour, with no waypoint
    /// recorded twice and none dropped from the prefix.  This is how a
    /// failure-free sweep leaves the log.
    pub open spec fn prefix_matched(self) -> bool {
        forall|i: int|
            0 <= i < self.scanned_points@.len() ==> i < self.waypoints@.len()
                && checkpoint_matches(#[trigger] self.scanned_points@[i], self.waypoints@[i])
    }

    pub fn new() -> (r: Self)
        ensures
            r.waypoints@.len() == 0,
            r.scanned_points@.len() == 0,
    {
        ScanJobData { waypoints: Vec::new(), scanned_points: Vec::new() }
    }

    /// Replace the tour with an optimized ordering of `candidates`,
    /// bounded by the wall-clock `budget`.  The stored waypoints are a
    /// permutation of the candidates; previously scanned points are
    /// retained (new path, same history).
    pub fn generate_path(&mut self, candidates: Vec<Waypoint>, budget: std::time::Duration)
        requires
            forall|k: int| 0 <= k < candidates@.len() ==> in_range(#[trigger] candidates@[k]),
        ensures
            final(self).waypoints@.to_multiset() == candidates@.to_multiset(),
            final(self).waypoints@.len() == candidates@.len(),
            final(self).scanned_points@ == old(self).scanned_points@,
    {
        self.waypoints = optimize_path(candidates, budget);
    }

    /// Where a fresh run starts: the waypoint right after the recorded
    /// prefix, if any tour remains.
    pub fn next_waypoint(&self) -> (r: Option<Waypoint>)
        ensures
            r == if self.scanned_points@.len() < self.waypoints@.len() {
                Some(self.waypoints@[self.scanned_points@.len() as int])
            } else {
                Option::<Waypoint>::None
            },
    {
        if self.scanned_points.len() < self.waypoints.len() {
            Some(self.waypoints[self.scanned_points.len()])
        } else {
            None
        }
    }

    /// Clear the checkpoint log to rescan the tour from zero; the
    /// planned waypoints stay.
    pub fn reset(&mut self)
        ensures
            final(self).scanned_points@.len() == 0,
            final(self).waypoints@ == old(self).waypoints@,
    {
        self.scanned_points = Vec::new();
    }
}

/// The scan orchestrator's decision core: the scan data, the
/// Scanning/Paused state, and the sweep cursor, driven by the command
/// surface (generate a path, start, pause, reset).  The thread that owns
/// the bounded command queue performs one command at a time against this
/// machine; while scanning it asks for the next waypoint, moves the
/// axes, measures, and records the outcome here.
pub struct ScanJob {
    data: ScanJobData,
    state: ScanState,
    next_index: usize,
}

impl ScanJob {
    pub closed spec fn data_spec(&self) -> ScanJobData {
        self.data
    }

    pub closed spec fn state_spec(&self) -> ScanState {
        self.state
    }

    /// The sweep cursor: the index of the waypoint the current run
    /// visits next.  Failures move it on without a checkpoint, so it can
    /// run ahead of the log; starting a run rewinds it to the log's end.
    pub closed spec fn next_index_spec(&self) -> usize {
        self.next_index
    }

    pub fn new() -> (r: Self)
        ensures
            r.data_spec().waypoints@.len() == 0,
            r.data_spec().scanned_points@.len() == 0,
            r.state_spec() == ScanState::Paused,
            r.next_index_spec() == 0,
    {
        ScanJob { data: ScanJobData::new(), state: ScanState::Paused, next_index: 0 }
    }

    pub fn state(&self) -> (r: ScanState)
        ensures
            r == self.state_spec(),
    {
        self.state
    }

    /// The recorded log, for inspection and persistence.  Saving is a
    /// snapshot: it never clears the log, so repeated saves are
    /// idempotent.
    pub fn scanned_points(&self) -> (r: &Vec<ScannedCheckpoint>)
        ensures
            r@ == self.data_spec().scanned_points@,
    {
        &self.data.scanned_points
    }

    pub fn waypoints(&self) -> (r: &Vec<Waypoint>)
        ensures
            r@ == self.data_spec().waypoints@,
    {
        &self.data.waypoints
    }

    /// Plan a new tour over `candidates`; accumulated checkpoints are
    /// retained (new path, same history).
    pub fn generate_path(&mut self, candidates: Vec<Waypoint>, budget: std::time::Duration)
        requires
            forall|k: int| 0 <= k < candidates@.len() ==> in_range(#[trigger] candidates@[k]),
        ensures
            final(self).data_spec().waypoints@.to_multiset() == candidates@.to_multiset(),
            final(self).data_spec().waypoints@.len() == candidates@.len(),
            final(self).data_spec().scanned_points@ == old(self).data_spec().scanned_points@,
            final(self).state_spec() == old(self).state_spec(),
            final(self).next_index_spec() == old(self).next_index_spec(),
    {
        self.data.generate_path(candidates, budget);
    }

    /// Begin (or resume) sweeping: the run starts at index
    /// `scanned_points.len()`, right after the recorded prefix.
    pub fn start_scan(&mut self)
        ensures
            final(self).state_spec() == ScanState::Scanning,
            final(self).next_index_spec() == final(self).data_spec().scanned_points@.len(),
            final(self).data_spec() == old(self).data_spec(),
    {
        self.state = ScanState::Scanning;
        self.next_index = self.data.scanned_points.len();
    }

    /// Interrupt the sweep.  While not scanning this is a no-op.
    pub fn pause_scan(&mut self)
        ensures
            final(self).state_spec() == if old(self).state_spec() is Scanning {
                ScanState::Paused
            } else {
                old(self).state_spec()
            },
            final(self).data_spec() == old(self).data_spec(),
            final(self).next_index_spec() == old(self).next_index_spec(),
    {
        if self.state == ScanState::Scanning {
            self.state = ScanState::Paused;
        }
    }

    /// The waypoint the current run visits next, if the tour is not
    /// exhausted; an exhausted tour ends the scan as an implicit pause.
    pub fn next_waypoint(&self) -> (r: Option<Waypoint>)
        ensures
            r == if self.next_index_spec() < self.data_spec().waypoints@.len() {
                Some(self.data_spec().waypoints@[self.next_index_spec() as int])
            } else {
                Option::<Waypoint>::None
            },
    {
        if self.next_index < self.data.waypoints.len() {
            Some(self.data.waypoints[self.next_index])
        } else {
            None
        }
    }

    /// Record the outcome of measuring the waypoint under the cursor.  A
    /// successful reading appends one checkpoint carrying exactly that
    /// waypoint, the achieved positions and the converted values; a
    /// failed reading appends nothing.  Either way the cursor moves on:
    /// failures are skipped, not retried, and the sweep continues.
    pub fn record_measurement(
        &mut self,
        measurement: &DistanceReading,
        point: PointMm,
        orientation: OrientationAngles,
        current_yaw: i32,
        current_pitch: i32,
    ) -> (recorded: bool)
        requires
            !(*measurement is NoReading),
            old(self).state_spec() is Scanning,
            old(self).next_index_spec() < old(self).data_spec().waypoints@.len(),
        ensures
            final(self).state_spec() == old(self).state_spec(),
            final(self).data_spec().waypoints@ == old(self).data_spec().waypoints@,
            final(self).next_index_spec() == old(self).next_index_spec() + 1,
            *measurement matches DistanceReading::Measured { distance, quality, measuring_time_ms }
                ==> {
                &&& recorded
                &&& final(self).data_spec().scanned_points@ == old(
                    self,
                ).data_spec().scanned_points@.push(
                    ScannedCheckpoint {
                        x_mm: point.x_mm,
                        y_mm: point.y_mm,
                        z_mm: point.z_mm,
                        waypoint_yaw: old(self).data_spec().waypoints@[old(
                            self,
                        ).next_index_spec() as int].yaw,
                        waypoint_pitch: old(self).data_spec().waypoints@[old(
                            self,
                        ).next_index_spec() as int].pitch,
                        current_yaw,
                        current_pitch,
                        roll_mdeg: orientation.roll_mdeg,
                        pitch_mdeg: orientation.pitch_mdeg,
                        yaw_mdeg: orientation.yaw_mdeg,
                        distance: distance.millimeters,
                        quality: quality as u32,
                    },
                )
            },
            *measurement is Failed ==> {
                &&& !recorded
                &&& final(self).data_spec().scanned_points@ == old(
                    self,
                ).data_spec().scanned_points@
            },
    {
        proof {
            // The cursor sits inside the tour, so advancing it stays in usize.
            assert(self.data.waypoints@.len() == self.data.waypoints.len());
        }
        let w = self.data.waypoints[self.next_index];
        let recorded = match measurement {
            DistanceReading::Measured { distance, quality, measuring_time_ms: _ } => {
                let cp = ScannedCheckpoint {
                    x_mm: point.x_mm,
                    y_mm: point.y_mm,
                    z_mm: point.z_mm,
                    waypoint_yaw: w.yaw,
                    waypoint_pitch: w.pitch,
                    current_yaw,
                    current_pitch,
                    roll_mdeg: orientation.roll_mdeg,
                    pitch_mdeg: orientation.pitch_mdeg,
                    yaw_mdeg: orientation.yaw_mdeg,
                    distance: distance.as_mm(),
                    quality: *quality as u32,
                };
                self.data.scanned_points.push(cp);
                true
            }
            _ => false,
        };
        self.next_index = self.next_index + 1;
        recorded
    }

    /// Clear the checkpoint log to rescan the tour from zero.
    pub fn reset(&mut self)
        ensures
            final(self).data_spec().scanned_points@.len() == 0,
            final(self).data_spec().waypoints@ == old(self).data_spec().waypoints@,
            final(self).state_spec() == old(self).state_spec(),
            final(self).next_index_spec() == old(self).next_index_spec(),
    {
        self.data.reset();
    }
}

/// Recording preserves the log's faithfulness: if every checkpoint so
/// far matches the waypoint at its index, so does the log after one more
/// checkpoint recorded for the next unrecorded waypoint.  Together with
/// `record_measurement`'s contract this says a failure-free sweep, with
/// any pauses and resumes, records each waypoint index exactly once, in
/// order.
pub proof fn lemma_record_preserves_prefix(
    pre: ScanJobData,
    post: ScanJobData,
    cp: ScannedCheckpoint,
)
    requires
        pre.prefix_matched(),
        post.waypoints@ == pre.waypoints@,
        pre.scanned_points@.len() < pre.waypoints@.len(),
        post.scanned_points@ == pre.scanned_points@.push(cp),
        checkpoint_matches(cp, pre.waypoints@[pre.scanned_points@.len() as int]),
    ensures
        post.prefix_matched(),
{
}

} // verus!
