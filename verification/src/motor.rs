//! Managing a 4-phase unipolar stepper motor: coil phase state machine,
//! the motor itself over abstract output pins, and the shared data and
//! step logic of the position controller.

use vstd::prelude::*;

verus! {

/// Current phase of a stepper motor.
///
/// Full-step phases are represented as even integers in `[0, 8)`,
/// half-step phases as the odd ones.
#[derive(Clone, Copy, Debug, PartialEq, Eq, Structural)]
pub enum MotorPhase {
    /// Initial startup state, before the first step.
    Unknown,
    OnStep(i8),
}

/// Motor phase shift direction.
#[derive(Clone, Copy, Debug, PartialEq, Eq, Structural)]
pub enum StepDirection {
    Forward,
    Nothing,
    Backward,
}

impl MotorPhase {
    /// A phase is either still unknown or one of the eight coil states.
    pub open spec fn wf(self) -> bool {
        match self {
            MotorPhase::Unknown => true,
            MotorPhase::OnStep(p) => 0 <= p < 8,
        }
    }

    /// The phase number used to index the coil tables; `Unknown` counts as 0.
    pub open spec fn spec_phase_num(self) -> int {
        match self {
            MotorPhase::Unknown => 0,
            MotorPhase::OnStep(p) => p as int,
        }
    }

    pub fn phase_num_or_0(&self) -> (n: usize)
        requires
            self.wf(),
        ensures
            n == self.spec_phase_num(),
    {
        match self {
            MotorPhase::Unknown => 0,
            MotorPhase::OnStep(p) => *p as usize,
        }
    }

    /// Coil levels for full-step drive: two adjacent coils are energized,
    /// rotating by a quarter of the electrical cycle every two phases.
    pub open spec fn spec_fullstep_pins(self) -> Seq<bool> {
        let n = self.spec_phase_num();
        if n == 0 || n == 1 {
            seq![true, true, false, false]
        } else if n == 2 || n == 3 {
            seq![false, true, true, false]
        } else if n == 4 || n == 5 {
            seq![false, false, true, true]
        } else {
            seq![true, false, false, true]
        }
    }

    pub fn fullstep_pins(&self) -> (r: [bool; 4])
        requires
            self.wf(),
        ensures
            r@ == self.spec_fullstep_pins(),
    {
        let n = self.phase_num_or_0();
        let r: [bool; 4] = if n <= 1 {
            [true, true, false, false]
        } else if n <= 3 {
            [false, true, true, false]
        } else if n <= 5 {
            [false, false, true, true]
        } else {
            [true, false, false, true]
        };
        proof {
            assert(r@ =~= self.spec_fullstep_pins());
        }
        r
    }

    /// Coil levels for half-step drive: even phases energize two coils,
    /// odd phases a single one.
    pub open spec fn spec_halfstep_pins(self) -> Seq<bool> {
        let n = self.spec_phase_num();
        if n == 0 {
            seq![true, true, false, false]
        } else if n == 1 {
            seq![false, true, false, false]
        } else if n == 2 {
            seq![false, true, true, false]
        } else if n == 3 {
            seq![false, false, true, false]
        } else if n == 4 {
            seq![false, false, true, true]
        } else if n == 5 {
            seq![false, false, false, true]
        } else if n == 6 {
            seq![true, false, false, true]
        } else {
            seq![true, false, false, false]
        }
    }

    pub fn halfstep_pins(&self) -> (r: [bool; 4])
        requires
            self.wf(),
        ensures
            r@ == self.spec_halfstep_pins(),
    {
        let n = self.phase_num_or_0();
        let r: [bool; 4] = if n == 0 {
            [true, true, false, false]
        } else if n == 1 {
            [false, true, false, false]
        } else if n == 2 {
            [false, true, true, false]
        } else if n == 3 {
            [false, false, true, false]
        } else if n == 4 {
            [false, false, true, true]
        } else if n == 5 {
            [false, false, false, true]
        } else if n == 6 {
            [true, false, false, true]
        } else {
            [true, false, false, false]
        };
        proof {
            assert(r@ =~= self.spec_halfstep_pins());
        }
        r
    }

    /// The phase two steps forward, wrapping around the 8-phase cycle;
    /// an unknown phase snaps to phase 0.
    pub open spec fn spec_next_fullstep(self) -> MotorPhase {
        match self {
            MotorPhase::Unknown => MotorPhase::OnStep(0),
            MotorPhase::OnStep(p) => MotorPhase::OnStep(
                if p + 2 < 8 {
                    (p + 2) as i8
                } else {
                    (p + 2 - 8) as i8
                },
            ),
        }
    }

    pub fn next_fullstep(&mut self)
        requires
            old(self).wf(),
        ensures
            *final(self) == old(self).spec_next_fullstep(),
            final(self).wf(),
    {
        *self = match *self {
            MotorPhase::Unknown => MotorPhase::OnStep(0),
            MotorPhase::OnStep(p) => MotorPhase::OnStep(
                if p + 2 < 8 {
                    p + 2
                } else {
                    p - 6
                },
            ),
        };
    }

    /// The phase two steps backward, wrapping around the 8-phase cycle;
    /// an unknown phase snaps to phase 0.
    pub open spec fn spec_prev_fullstep(self) -> MotorPhase {
        match self {
            MotorPhase::Unknown => MotorPhase::OnStep(0),
            MotorPhase::OnStep(p) => MotorPhase::OnStep(
                if p - 2 >= 0 {
                    (p - 2) as i8
                } else {
                    (p + 6) as i8
                },
            ),
        }
    }

    pub fn prev_fullstep(&mut self)
        requires
            old(self).wf(),
        ensures
            *final(self) == old(self).spec_prev_fullstep(),
            final(self).wf(),
    {
        *self = match *self {
            MotorPhase::Unknown => MotorPhase::OnStep(0),
            MotorPhase::OnStep(p) => MotorPhase::OnStep(
                if p - 2 >= 0 {
                    p - 2
                } else {
                    p + 6
                },
            ),
        };
    }

    pub fn init_phase(&mut self)
        ensures
            *final(self) == MotorPhase::OnStep(0i8),
    {
        *self = MotorPhase::OnStep(0);
    }

    /// The phase one half-step forward, wrapping around the 8-phase cycle;
    /// an unknown phase snaps to phase 0.
    pub open spec fn spec_next_halfstep(self) -> MotorPhase {
        match self {
            MotorPhase::Unknown => MotorPhase::OnStep(0),
            MotorPhase::OnStep(p) => MotorPhase::OnStep(
                if p + 1 < 8 {
                    (p + 1) as i8
                } else {
                    0
                },
            ),
        }
    }

    pub fn next_halfstep(&mut self)
        requires
            old(self).wf(),
        ensures
            *final(self) == old(self).spec_next_halfstep(),
            final(self).wf(),
    {
        *self = match *self {
            MotorPhase::Unknown => MotorPhase::OnStep(0),
            MotorPhase::OnStep(p) => MotorPhase::OnStep(
                if p + 1 < 8 {
                    p + 1
                } else {
                    0
                },
            ),
        };
    }

    /// The phase one half-step backward, wrapping around the 8-phase cycle;
    /// an unknown phase snaps to phase 0.
    pub open spec fn spec_prev_halfstep(self) -> MotorPhase {
        match self {
            MotorPhase::Unknown => MotorPhase::OnStep(0),
            MotorPhase::OnStep(p) => MotorPhase::OnStep(
                if p - 1 >= 0 {
                    (p - 1) as i8
                } else {
                    7
                },
            ),
        }
    }

    pub fn prev_halfstep(&mut self)
        requires
            old(self).wf(),
        ensures
            *final(self) == old(self).spec_prev_halfstep(),
            final(self).wf(),
    {
        *self = match *self {
            MotorPhase::Unknown => MotorPhase::OnStep(0),
            MotorPhase::OnStep(p) => MotorPhase::OnStep(
                if p - 1 >= 0 {
                    p - 1
                } else {
                    7
                },
            ),
        };
    }
}

/// A digital output pin driving one motor coil.
///
/// Hardware pin types (GPIO pins, port-expander pins) implement this
/// outside the library; nothing is assumed about what a write does to the
/// physical world.
pub trait OutputPin {
    fn write(&mut self, high: bool);

    fn set_low(&mut self);

    fn set_high(&mut self);
}

/// An output pin that only records the last level written, so the motor
/// logic can run without hardware.
pub struct MockPin {
    pub level: bool,
}

impl MockPin {
    pub fn new() -> (r: MockPin)
        ensures
            !r.level,
    {
        MockPin { level: false }
    }
}

impl OutputPin for MockPin {
    fn write(&mut self, high: bool) {
        self.level = high;
    }

    fn set_low(&mut self) {
        self.level = false;
    }

    fn set_high(&mut self) {
        self.level = true;
    }
}

/// Physical step motor: the current coil phase and the four coil pins.
pub struct StepMotor<T: OutputPin> {
    /// Current phase of the motor.
    state: MotorPhase,
    /// True if the pins are held at the levels of the current phase,
    /// false when the coils are released.
    coils_powered: bool,
    /// Pins controlling the motor coils, in order.
    pin0: T,
    pin1: T,
    pin2: T,
    pin3: T,
}

impl<T: OutputPin> StepMotor<T> {
    pub closed spec fn phase(&self) -> MotorPhase {
        self.state
    }

    pub closed spec fn powered(&self) -> bool {
        self.coils_powered
    }

    /// Create a new stepper motor over `pins`, the coil pins in order.
    /// The phase is unknown until the first step.
    pub fn new(pins: (T, T, T, T)) -> (r: StepMotor<T>)
        ensures
            r.phase() == MotorPhase::Unknown,
            !r.powered(),
    {
        let (pin0, pin1, pin2, pin3) = pins;
        StepMotor { state: MotorPhase::Unknown, coils_powered: false, pin0, pin1, pin2, pin3 }
    }

    fn set_pins(&mut self, levels: &[bool; 4])
        ensures
            final(self).phase() == old(self).phase(),
            final(self).powered() == old(self).powered(),
    {
        self.pin0.write(levels[0]);
        self.pin1.write(levels[1]);
        self.pin2.write(levels[2]);
        self.pin3.write(levels[3]);
    }

    /// Make the stepper motor go a single full-step phase in the chosen
    /// direction; `Nothing` re-asserts phase 0.
    pub fn full_step(&mut self, dir: StepDirection)
        requires
            old(self).phase().wf(),
        ensures
            final(self).phase() == match dir {
                StepDirection::Forward => old(self).phase().spec_next_fullstep(),
                StepDirection::Backward => old(self).phase().spec_prev_fullstep(),
                StepDirection::Nothing => MotorPhase::OnStep(0i8),
            },
            final(self).phase().wf(),
            final(self).powered(),
    {
        match dir {
            StepDirection::Forward => self.state.next_fullstep(),
            StepDirection::Backward => self.state.prev_fullstep(),
            StepDirection::Nothing => self.state.init_phase(),
        }
        let levels = self.state.fullstep_pins();
        self.set_pins(&levels);
        self.coils_powered = true;
    }

    /// Make the stepper motor go a single half-step phase in the chosen
    /// direction; `Nothing` re-asserts phase 0.
    pub fn half_step(&mut self, dir: StepDirection)
        requires
            old(self).phase().wf(),
        ensures
            final(self).phase() == match dir {
                StepDirection::Forward => old(self).phase().spec_next_halfstep(),
                StepDirection::Backward => old(self).phase().spec_prev_halfstep(),
                StepDirection::Nothing => MotorPhase::OnStep(0i8),
            },
            final(self).phase().wf(),
            final(self).powered(),
    {
        match dir {
            StepDirection::Forward => self.state.next_halfstep(),
            StepDirection::Backward => self.state.prev_halfstep(),
            StepDirection::Nothing => self.state.init_phase(),
        }
        let levels = self.state.halfstep_pins();
        self.set_pins(&levels);
        self.coils_powered = true;
    }

    /// Release all the coils of the motor.
    pub fn disable_power(&mut self)
        ensures
            final(self).phase() == old(self).phase(),
            !final(self).powered(),
    {
        self.coils_powered = false;
        self.set_pins(&[false, false, false, false]);
    }

    /// Energize the coils according to the current phase.
    pub fn enable_power(&mut self)
        requires
            old(self).phase().wf(),
        ensures
            final(self).phase() == old(self).phase(),
            final(self).powered(),
    {
        self.coils_powered = true;
        let levels = self.state.fullstep_pins();
        self.set_pins(&levels);
    }
}

/// Data shared between a motor controller's owner and its control loop:
/// positions, step delay, the update flag the loop sleeps on, and the
/// kill switch that shuts the loop down.
///
/// The motor is stopped exactly when `current_pos == target_pos`.  The
/// update flag is raised by every position write (and by `kill`) so a
/// parked control loop re-reads the positions; the loop consumes it when
/// it wakes and lowers it again whenever it finds itself on target.  The
/// flag only schedules the loop: a caller waiting for the motor to stop
/// waits on the positions themselves (`wait_stopped`), never on the
/// flag, since the flag is already low while the loop is still stepping.
pub struct ControllerSharedData {
    pub current_pos: i32,
    pub target_pos: i32,
    pub step_delay_ms: u32,
    pub update: bool,
    pub killed: bool,
}

impl Default for ControllerSharedData {
    fn default() -> (r: Self)
        ensures
            r.current_pos == 0,
            r.target_pos == 0,
            r.step_delay_ms == 0,
            !r.update,
            !r.killed,
    {
        ControllerSharedData {
            current_pos: 0,
            target_pos: 0,
            step_delay_ms: 0,
            update: false,
            killed: false,
        }
    }
}

impl ControllerSharedData {
    pub fn set_step_delay_ms(&mut self, step_delay_ms: u32)
        ensures
            *final(self) == (ControllerSharedData { step_delay_ms, ..*old(self) }),
    {
        self.step_delay_ms = step_delay_ms;
    }

    pub fn set_current_pos(&mut self, current_pos: i32)
        ensures
            *final(self) == (ControllerSharedData { current_pos, update: true, ..*old(self) }),
    {
        self.current_pos = current_pos;
        self.notify_update();
    }

    pub fn set_target_pos(&mut self, target_pos: i32)
        ensures
            *final(self) == (ControllerSharedData { target_pos, update: true, ..*old(self) }),
    {
        self.target_pos = target_pos;
        self.notify_update();
    }

    pub fn get_current_pos(&self) -> (r: i32)
        ensures
            r == self.current_pos,
    {
        self.current_pos
    }

    pub fn get_target_pos(&self) -> (r: i32)
        ensures
            r == self.target_pos,
    {
        self.target_pos
    }

    /// Raise the update flag, waking a parked control loop.
    pub fn notify_update(&mut self)
        ensures
            *final(self) == (ControllerSharedData { update: true, ..*old(self) }),
    {
        self.update = true;
    }

    /// Lower the update flag, releasing callers waiting for quiescence.
    pub fn notify_noupdate(&mut self)
        ensures
            *final(self) == (ControllerSharedData { update: false, ..*old(self) }),
    {
        self.update = false;
    }

    /// Whether a parked control loop may proceed, consuming the pending
    /// update if one is there.  The concurrent wrapper parks the loop
    /// thread until this returns true.
    pub fn wait_update(&mut self) -> (r: bool)
        ensures
            r == old(self).update,
            *final(self) == (ControllerSharedData { update: false, ..*old(self) }),
    {
        let pending = self.update;
        self.update = false;
        pending
    }

    /// Whether no update is pending.  The loop consumes a pending update
    /// before it starts stepping, so a low flag does not mean the motor
    /// is on target: a caller waiting for the motor to stop uses
    /// `wait_stopped` instead.
    pub fn wait_noupdate(&self) -> (r: bool)
        ensures
            r == !self.update,
    {
        !self.update
    }

    /// Whether a caller waiting for the motor to stop may proceed: true
    /// exactly when the motor is on target.  The concurrent wrapper
    /// parks the caller until this holds, re-checking on every wakeup.
    pub fn wait_stopped(&self) -> (r: bool)
        ensures
            r == (self.current_pos == self.target_pos),
    {
        self.current_pos == self.target_pos
    }

    pub fn inc_current_pos(&mut self, value: i32)
        requires
            i32::MIN <= old(self).current_pos + value <= i32::MAX,
        ensures
            *final(self) == (ControllerSharedData {
                current_pos: (old(self).current_pos + value) as i32,
                ..*old(self)
            }),
    {
        self.current_pos = self.current_pos + value;
    }

    /// Stop the motor where it is: the target becomes the current
    /// position.
    pub fn stop(&mut self)
        ensures
            *final(self) == (ControllerSharedData {
                target_pos: old(self).current_pos,
                update: true,
                ..*old(self)
            }),
    {
        let current = self.current_pos;
        self.set_target_pos(current);
    }

    /// Redefine the origin in place: both positions become 0, without
    /// physically moving.
    pub fn reset(&mut self)
        ensures
            *final(self) == (ControllerSharedData {
                current_pos: 0,
                target_pos: 0,
                update: true,
                ..*old(self)
            }),
    {
        self.set_target_pos(0);
        self.set_current_pos(0);
    }

    /// Change the target position by `delta_pos` steps.
    pub fn move_on(&mut self, delta_pos: i32)
        requires
            i32::MIN <= old(self).target_pos + delta_pos <= i32::MAX,
        ensures
            *final(self) == (ControllerSharedData {
                target_pos: (old(self).target_pos + delta_pos) as i32,
                update: true,
                ..*old(self)
            }),
    {
        let target = self.target_pos;
        self.set_target_pos(target + delta_pos);
    }

    /// Tell the control loop to exit, raising the update flag so a parked
    /// loop notices promptly.
    pub fn kill(&mut self)
        ensures
            *final(self) == (ControllerSharedData { killed: true, update: true, ..*old(self) }),
    {
        self.killed = true;
        self.notify_update();
    }

    pub fn is_killed(&self) -> (r: bool)
        ensures
            r == self.killed,
    {
        self.killed
    }
}

/// How far the current position is from the target.
pub open spec fn dist(current: int, target: int) -> int {
    if current <= target {
        target - current
    } else {
        current - target
    }
}

/// One iteration of the motor control loop: step the motor one full step
/// toward the target and adjust the current position, or, if the motor is
/// already on target, lower the update flag and report that there is
/// nothing to do (the loop then parks until the next update).
///
/// Returns true iff a step was taken; the caller waits the step delay
/// after each step.
pub fn control_step<T: OutputPin>(motor: &mut StepMotor<T>, shared: &mut ControllerSharedData) -> (stepped: bool)
    requires
        old(motor).phase().wf(),
    ensures
        final(motor).phase().wf(),
        final(shared).target_pos == old(shared).target_pos,
        final(shared).step_delay_ms == old(shared).step_delay_ms,
        final(shared).killed == old(shared).killed,
        old(shared).current_pos < old(shared).target_pos ==> {
            &&& stepped
            &&& final(shared).current_pos == old(shared).current_pos + 1
            &&& final(shared).update == old(shared).update
            &&& final(motor).phase() == old(motor).phase().spec_next_fullstep()
            &&& final(motor).powered()
        },
        old(shared).current_pos > old(shared).target_pos ==> {
            &&& stepped
            &&& final(shared).current_pos == old(shared).current_pos - 1
            &&& final(shared).update == old(shared).update
            &&& final(motor).phase() == old(motor).phase().spec_prev_fullstep()
            &&& final(motor).powered()
        },
        old(shared).current_pos == old(shared).target_pos ==> {
            &&& !stepped
            &&& final(shared).current_pos == old(shared).current_pos
            &&& !final(shared).update
            &&& final(motor).phase() == old(motor).phase()
            &&& final(motor).powered() == old(motor).powered()
        },
        stepped ==> dist(final(shared).current_pos as int, final(shared).target_pos as int)
            == dist(old(shared).current_pos as int, old(shared).target_pos as int) - 1,
{
    let current = shared.get_current_pos();
    let target = shared.get_target_pos();
    if current < target {
        motor.full_step(StepDirection::Forward);
        shared.inc_current_pos(1);
        true
    } else if current > target {
        motor.full_step(StepDirection::Backward);
        shared.inc_current_pos(-1);
        true
    } else {
        shared.notify_noupdate();
        false
    }
}

/// The phase after `k` full steps, all in one direction.
pub open spec fn spec_advance(p: MotorPhase, k: nat, forward: bool) -> MotorPhase
    decreases k,
{
    if k == 0 {
        p
    } else {
        let q = spec_advance(p, (k - 1) as nat, forward);
        if forward {
            q.spec_next_fullstep()
        } else {
            q.spec_prev_fullstep()
        }
    }
}

/// Run the control loop until the motor has reached the target: however
/// the target was set, the current position converges to it one step at
/// a time, the motor phase advancing one full step per unit of travel in
/// the direction of the delta, and this call returns with the motor
/// stopped on the target.
pub fn run_to_target<T: OutputPin>(motor: &mut StepMotor<T>, shared: &mut ControllerSharedData)
    requires
        old(motor).phase().wf(),
    ensures
        final(motor).phase().wf(),
        final(shared).current_pos == old(shared).target_pos,
        final(shared).target_pos == old(shared).target_pos,
        final(shared).step_delay_ms == old(shared).step_delay_ms,
        final(shared).killed == old(shared).killed,
        final(shared).update == old(shared).update,
        final(motor).phase() == spec_advance(
            old(motor).phase(),
            dist(old(shared).current_pos as int, old(shared).target_pos as int) as nat,
            old(shared).current_pos <= old(shared).target_pos,
        ),
        old(shared).current_pos != old(shared).target_pos ==> final(motor).powered(),
        old(shared).current_pos == old(shared).target_pos ==> final(motor).powered() == old(
            motor,
        ).powered(),
{
    let ghost c0 = shared.current_pos;
    let ghost p0 = motor.phase();
    let ghost fwd = shared.current_pos <= shared.target_pos;
    while shared.current_pos != shared.target_pos
        invariant
            motor.phase().wf(),
            shared.target_pos == old(shared).target_pos,
            shared.step_delay_ms == old(shared).step_delay_ms,
            shared.killed == old(shared).killed,
            shared.update == old(shared).update,
            c0 == old(shared).current_pos,
            p0 == old(motor).phase(),
            fwd == (c0 <= old(shared).target_pos),
            (if fwd {
                c0 <= shared.current_pos <= shared.target_pos
            } else {
                shared.target_pos <= shared.current_pos <= c0
            }),
            motor.phase() == spec_advance(
                p0,
                dist(c0 as int, shared.current_pos as int) as nat,
                fwd,
            ),
            shared.current_pos != c0 ==> motor.powered(),
            shared.current_pos == c0 ==> motor.powered() == old(motor).powered(),
        decreases dist(shared.current_pos as int, shared.target_pos as int),
    {
        control_step(motor, shared);
    }
}

/// Mock of a motor controller: implements the whole controller surface
/// over plain positions, with no motor and no control loop.  A wait for
/// the motor to stop completes the move in place.
pub struct ControllerMock {
    pub cur_pos: i32,
    pub tgt_pos: i32,
    pub step_delay_ms: u32,
}

impl Default for ControllerMock {
    fn default() -> (r: Self)
        ensures
            r.cur_pos == 0,
            r.tgt_pos == 0,
            r.step_delay_ms == 3,
    {
        Self::new()
    }
}

impl ControllerMock {
    pub fn new() -> (r: Self)
        ensures
            r.cur_pos == 0,
            r.tgt_pos == 0,
            r.step_delay_ms == 3,
    {
        ControllerMock { cur_pos: 0, tgt_pos: 0, step_delay_ms: 3 }
    }

    pub fn get_current_pos(&self) -> (r: i32)
        ensures
            r == self.cur_pos,
    {
        self.cur_pos
    }

    pub fn get_target_pos(&self) -> (r: i32)
        ensures
            r == self.tgt_pos,
    {
        self.tgt_pos
    }

    pub fn get_step_delay_ms(&self) -> (r: u32)
        ensures
            r == self.step_delay_ms,
    {
        self.step_delay_ms
    }

    /// Move instantly: both the target and the current position become `pos`.
    pub fn set_pos(&mut self, pos: i32)
        ensures
            *final(self) == (ControllerMock { cur_pos: pos, tgt_pos: pos, ..*old(self) }),
    {
        self.tgt_pos = pos;
        self.cur_pos = pos;
    }

    /// Redefine the origin: both positions become 0.
    pub fn reset(&mut self)
        ensures
            *final(self) == (ControllerMock { cur_pos: 0, tgt_pos: 0, ..*old(self) }),
    {
        self.tgt_pos = 0;
        self.cur_pos = 0;
    }

    /// Stop where the motor is: the target becomes the current position.
    pub fn stop(&mut self)
        ensures
            *final(self) == (ControllerMock { tgt_pos: old(self).cur_pos, ..*old(self) }),
    {
        self.tgt_pos = self.cur_pos;
    }

    pub fn set_step_delay_ms(&mut self, step_delay_ms: u32)
        ensures
            *final(self) == (ControllerMock { step_delay_ms, ..*old(self) }),
    {
        self.step_delay_ms = step_delay_ms;
    }

    pub fn is_stopped(&self) -> (r: bool)
        ensures
            r == (self.tgt_pos == self.cur_pos),
    {
        self.tgt_pos == self.cur_pos
    }

    /// Wait until the motor has stopped; the mock completes the move in
    /// place, so afterwards the current position equals the target.
    pub fn wait_stop(&mut self)
        ensures
            *final(self) == (ControllerMock { cur_pos: old(self).tgt_pos, ..*old(self) }),
    {
        self.cur_pos = self.tgt_pos;
    }

    /// Change the target position by `delta_pos` steps from where the
    /// motor currently is.
    pub fn move_on(&mut self, delta_pos: i32)
        requires
            i32::MIN <= old(self).cur_pos + delta_pos <= i32::MAX,
        ensures
            *final(self) == (ControllerMock {
                tgt_pos: (old(self).cur_pos + delta_pos) as i32,
                ..*old(self)
            }),
    {
        self.tgt_pos = self.cur_pos + delta_pos;
    }
}

} // verus!
