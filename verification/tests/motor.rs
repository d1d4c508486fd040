use lidarino::motor::control_step;
use lidarino::motor::run_to_target;
use lidarino::motor::ControllerMock;
use lidarino::motor::ControllerSharedData;
use lidarino::motor::MockPin;
use lidarino::motor::MotorPhase;
use lidarino::motor::StepDirection;
use lidarino::motor::StepMotor;

fn mock_motor() -> StepMotor<MockPin> {
    StepMotor::new((MockPin::new(), MockPin::new(), MockPin::new(), MockPin::new()))
}

#[test]
fn fullstep_pin_table() {
    let expected = [
        [true, true, false, false],
        [true, true, false, false],
        [false, true, true, false],
        [false, true, true, false],
        [false, false, true, true],
        [false, false, true, true],
        [true, false, false, true],
        [true, false, false, true],
    ];
    for n in 0..8 {
        let phase = MotorPhase::OnStep(n as i8);
        assert_eq!(phase.fullstep_pins(), expected[n]);
    }
    assert_eq!(MotorPhase::Unknown.fullstep_pins(), expected[0]);
}

#[test]
fn halfstep_pin_table() {
    let expected = [
        [true, true, false, false],
        [false, true, false, false],
        [false, true, true, false],
        [false, false, true, false],
        [false, false, true, true],
        [false, false, false, true],
        [true, false, false, true],
        [true, false, false, false],
    ];
    for n in 0..8 {
        let phase = MotorPhase::OnStep(n as i8);
        assert_eq!(phase.halfstep_pins(), expected[n]);
    }
    assert_eq!(MotorPhase::Unknown.halfstep_pins(), expected[0]);
}

#[test]
fn fullstep_transitions_wrap_by_two() {
    let mut phase = MotorPhase::Unknown;
    phase.next_fullstep();
    assert_eq!(phase, MotorPhase::OnStep(0));
    phase.next_fullstep();
    assert_eq!(phase, MotorPhase::OnStep(2));
    phase.next_fullstep();
    phase.next_fullstep();
    assert_eq!(phase, MotorPhase::OnStep(6));
    phase.next_fullstep();
    assert_eq!(phase, MotorPhase::OnStep(0));
    phase.prev_fullstep();
    assert_eq!(phase, MotorPhase::OnStep(6));
}

#[test]
fn halfstep_transitions_wrap_by_one() {
    let mut phase = MotorPhase::Unknown;
    phase.next_halfstep();
    assert_eq!(phase, MotorPhase::OnStep(0));
    for expected in [1, 2, 3, 4, 5, 6, 7, 0] {
        phase.next_halfstep();
        assert_eq!(phase, MotorPhase::OnStep(expected));
    }
    phase.prev_halfstep();
    assert_eq!(phase, MotorPhase::OnStep(7));
}

#[test]
fn phase_num_unknown_counts_as_zero() {
    assert_eq!(MotorPhase::Unknown.phase_num_or_0(), 0);
    assert_eq!(MotorPhase::OnStep(5).phase_num_or_0(), 5);
}

#[test]
fn motor_steps_in_every_direction() {
    let mut motor = mock_motor();
    motor.full_step(StepDirection::Forward);
    motor.full_step(StepDirection::Backward);
    motor.full_step(StepDirection::Nothing);
    motor.half_step(StepDirection::Forward);
    motor.half_step(StepDirection::Backward);
    motor.half_step(StepDirection::Nothing);
    motor.disable_power();
    motor.enable_power();
}

#[test]
fn shared_data_position_writes_raise_update() {
    let mut shared = ControllerSharedData::default();
    assert!(!shared.update);
    shared.set_target_pos(7);
    assert_eq!(shared.get_target_pos(), 7);
    assert!(shared.update);
    shared.notify_noupdate();
    shared.set_current_pos(-3);
    assert_eq!(shared.get_current_pos(), -3);
    assert!(shared.update);
    shared.set_step_delay_ms(12);
    assert_eq!(shared.step_delay_ms, 12);
}

#[test]
fn shared_data_wait_update_consumes_the_flag() {
    let mut shared = ControllerSharedData::default();
    assert!(!shared.wait_update());
    shared.notify_update();
    assert!(shared.wait_update());
    assert!(!shared.update);
    assert!(shared.wait_noupdate());
    shared.notify_update();
    assert!(!shared.wait_noupdate());
}

#[test]
fn shared_data_kill_raises_update() {
    let mut shared = ControllerSharedData::default();
    assert!(!shared.is_killed());
    shared.kill();
    assert!(shared.is_killed());
    assert!(shared.update);
}

#[test]
fn shared_data_stop_reset_move_on() {
    let mut shared = ControllerSharedData::default();
    shared.set_current_pos(9);
    shared.move_on(4);
    assert_eq!(shared.get_target_pos(), 4);
    shared.stop();
    assert_eq!(shared.get_target_pos(), 9);
    assert!(shared.update);
    shared.reset();
    assert_eq!(shared.get_current_pos(), 0);
    assert_eq!(shared.get_target_pos(), 0);
}

#[test]
fn wait_stopped_tracks_the_positions_not_the_flag() {
    let mut motor = mock_motor();
    let mut shared = ControllerSharedData::default();
    shared.set_target_pos(2);
    // The control loop consumes the update flag as soon as it wakes;
    // a stop-waiter still must not proceed while the motor moves.
    assert!(shared.wait_update());
    assert!(shared.wait_noupdate());
    assert!(!shared.wait_stopped());
    assert!(control_step(&mut motor, &mut shared));
    assert!(!shared.wait_stopped());
    assert!(control_step(&mut motor, &mut shared));
    assert!(shared.wait_stopped());
}

#[test]
fn shared_data_inc_current_pos() {
    let mut shared = ControllerSharedData::default();
    shared.inc_current_pos(5);
    shared.inc_current_pos(-2);
    assert_eq!(shared.get_current_pos(), 3);
}

#[test]
fn control_step_moves_one_step_toward_target() {
    let mut motor = mock_motor();
    let mut shared = ControllerSharedData::default();
    shared.set_target_pos(2);
    assert!(control_step(&mut motor, &mut shared));
    assert_eq!(shared.get_current_pos(), 1);
    assert!(control_step(&mut motor, &mut shared));
    assert_eq!(shared.get_current_pos(), 2);
    // On target: nothing to do, the update flag is lowered.
    assert!(!control_step(&mut motor, &mut shared));
    assert_eq!(shared.get_current_pos(), 2);
    assert!(!shared.update);
}

#[test]
fn control_step_backward() {
    let mut motor = mock_motor();
    let mut shared = ControllerSharedData::default();
    shared.set_target_pos(-1);
    assert!(control_step(&mut motor, &mut shared));
    assert_eq!(shared.get_current_pos(), -1);
}

#[test]
fn run_to_target_converges() {
    let mut motor = mock_motor();
    let mut shared = ControllerSharedData::default();
    shared.set_target_pos(5);
    run_to_target(&mut motor, &mut shared);
    assert_eq!(shared.get_current_pos(), 5);
    assert_eq!(shared.get_target_pos(), 5);
    shared.set_target_pos(-400);
    run_to_target(&mut motor, &mut shared);
    assert_eq!(shared.get_current_pos(), -400);
}

#[test]
fn mock_controller_surface() {
    let mut mock = ControllerMock::new();
    assert_eq!(mock.get_current_pos(), 0);
    assert_eq!(mock.get_target_pos(), 0);
    assert_eq!(mock.get_step_delay_ms(), 3);
    mock.set_pos(42);
    assert_eq!(mock.get_current_pos(), 42);
    assert_eq!(mock.get_target_pos(), 42);
    assert!(mock.is_stopped());
    mock.move_on(8);
    assert_eq!(mock.get_target_pos(), 50);
    assert!(!mock.is_stopped());
    mock.wait_stop();
    assert_eq!(mock.get_current_pos(), 50);
    assert!(mock.is_stopped());
    mock.set_step_delay_ms(9);
    assert_eq!(mock.get_step_delay_ms(), 9);
    mock.stop();
    assert_eq!(mock.get_target_pos(), 50);
    mock.reset();
    assert_eq!(mock.get_current_pos(), 0);
    assert_eq!(mock.get_target_pos(), 0);
}

#[test]
fn mock_controller_stop_freezes_target_at_current() {
    let mut mock = ControllerMock::new();
    mock.set_pos(10);
    mock.move_on(25);
    mock.stop();
    assert_eq!(mock.get_target_pos(), 10);
    assert!(mock.is_stopped());
}

#[test]
fn mock_controller_default_matches_new() {
    let mock = ControllerMock::default();
    assert_eq!(mock.get_current_pos(), 0);
    assert_eq!(mock.get_step_delay_ms(), 3);
}
