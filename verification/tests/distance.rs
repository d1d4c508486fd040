use lidarino::distance::parse_response;
use lidarino::distance::response_complete;
use lidarino::distance::Distance;
use lidarino::distance::DistanceController;
use lidarino::distance::DistanceReading;
use lidarino::distance::DistanceReadingError;
use lidarino::distance::ReadingMode;

#[test]
fn success_frame_parses_to_millimeters_and_quality() {
    let mut controller = DistanceController::new();
    let reading = controller.get_measurement(b"D: 5.614m,1211\r\n", 7);
    match reading {
        DistanceReading::Measured { distance, quality, measuring_time_ms } => {
            assert_eq!(distance.as_mm(), 5614);
            assert_eq!(quality, 1211);
            assert_eq!(measuring_time_ms, 7);
        }
        _ => panic!("expected a successful reading"),
    }
}

#[test]
fn short_distance_is_left_padded() {
    let reading = parse_response(b"F: 0.042m,0003\r\n", 1);
    match reading {
        DistanceReading::Measured { distance, quality, .. } => {
            assert_eq!(distance.as_mm(), 42);
            assert_eq!(quality, 3);
        }
        _ => panic!("expected a successful reading"),
    }
}

#[test]
fn error_frame_maps_the_device_code() {
    let reading = parse_response(b"D:Er08!\r\n", 3);
    assert_eq!(
        reading,
        DistanceReading::Failed {
            error: DistanceReadingError::LaserSignalIsTooWeak,
            measuring_time_ms: 3,
        }
    );
}

#[test]
fn truncated_frame_is_a_parsing_error() {
    let reading = parse_response(b"D: 5.6", 2);
    assert_eq!(
        reading,
        DistanceReading::Failed { error: DistanceReadingError::ParsingError, measuring_time_ms: 2 }
    );
}

#[test]
fn garbled_frame_is_a_parsing_error_not_a_panic() {
    for frame in [
        &b"XXXXXXXXXXXXXXXX"[..],
        &b"D: a.bcdm,12x1\r\n"[..],
        &b"D: 5.614m,12x1\r\n"[..],
        &b""[..],
        &b"\r\n"[..],
        &b"D:     .    \r\n  "[..],
    ] {
        match parse_response(frame, 0) {
            DistanceReading::Failed { error, .. } => {
                assert_eq!(error, DistanceReadingError::ParsingError);
            }
            other => panic!("expected a failure, got {other:?}"),
        }
    }
}

#[test]
fn every_device_error_code_maps_to_its_kind() {
    let expected = [
        (1, DistanceReadingError::VbatTooLow),
        (2, DistanceReadingError::InternalError),
        (3, DistanceReadingError::TempTooLow),
        (4, DistanceReadingError::TempTooHigh),
        (5, DistanceReadingError::TargetOutOfMeasureRange),
        (6, DistanceReadingError::InvalidMeasureResult),
        (7, DistanceReadingError::BackgroundLightIsTooStrong),
        (8, DistanceReadingError::LaserSignalIsTooWeak),
        (9, DistanceReadingError::LaserSignalIsTooStrong),
        (10, DistanceReadingError::HardwareFault1),
        (11, DistanceReadingError::HardwareFault2),
        (12, DistanceReadingError::HardwareFault3),
        (13, DistanceReadingError::HardwareFault4),
        (14, DistanceReadingError::HardwareFault5),
        (15, DistanceReadingError::LaserSignalIsNotStable),
        (16, DistanceReadingError::HardwareFault6),
        (17, DistanceReadingError::HardwareFault7),
    ];
    for (code, kind) in expected {
        assert_eq!(DistanceReadingError::new(code), kind);
        let frame = format!("D:Er{code:02}!\r\n");
        match parse_response(frame.as_bytes(), 0) {
            DistanceReading::Failed { error, .. } => assert_eq!(error, kind),
            other => panic!("expected a failure, got {other:?}"),
        }
    }
    assert_eq!(DistanceReadingError::new(0), DistanceReadingError::UnknownError);
    assert_eq!(DistanceReadingError::new(18), DistanceReadingError::UnknownError);
    assert_eq!(DistanceReadingError::new(99), DistanceReadingError::UnknownError);
    for frame in [&b"D:Er00!\r\n"[..], &b"D:Er18!\r\n"[..], &b"D:Er99!\r\n"[..]] {
        match parse_response(frame, 0) {
            DistanceReading::Failed { error, .. } => {
                assert_eq!(error, DistanceReadingError::UnknownError);
            }
            other => panic!("expected a failure, got {other:?}"),
        }
    }
}

#[test]
fn partial_reads_complete_on_error_frame_or_full_buffer() {
    assert!(response_complete(b"D:Er08!\r\n"));
    assert!(response_complete(b"D: 5.614m,1211\r\n"));
    assert!(!response_complete(b"D: 5.614m"));
    assert!(!response_complete(b"D:Er0"));
    // Nine bytes that are not an error frame: keep reading.
    assert!(!response_complete(b"D: 5.614m"));
    assert!(!response_complete(b"D:Erxy!\r\n"));
}

#[test]
fn controller_state_machine_round_trip() {
    let mut controller = DistanceController::new();
    assert_eq!(controller.get_last_measurement(), DistanceReading::NoReading);
    assert!(controller.await_measurement());
    controller.request_measurement();
    assert!(!controller.await_measurement());
    controller.process_response(b"D: 1.000m,0042\r\n", 11);
    assert!(controller.await_measurement());
    assert_eq!(
        controller.get_last_measurement(),
        DistanceReading::Measured {
            distance: Distance::from_mm(1000),
            quality: 42,
            measuring_time_ms: 11,
        }
    );
}

#[test]
fn read_failure_degrades_to_unknown_error() {
    let mut controller = DistanceController::new();
    controller.request_measurement();
    controller.process_read_failure(9);
    assert!(controller.await_measurement());
    assert_eq!(
        controller.get_last_measurement(),
        DistanceReading::Failed { error: DistanceReadingError::UnknownError, measuring_time_ms: 9 }
    );
}

#[test]
fn dead_controller_releases_waiters() {
    let mut controller = DistanceController::new();
    controller.request_measurement();
    assert!(!controller.await_measurement());
    controller.kill();
    assert!(controller.await_measurement());
}

#[test]
fn reading_modes_and_request_bytes() {
    let mut controller = DistanceController::new();
    assert_eq!(controller.get_mode(), ReadingMode::Default);
    controller.set_mode(ReadingMode::Fast);
    assert_eq!(controller.get_mode(), ReadingMode::Fast);
    assert_eq!(ReadingMode::Default.as_u8(), b'D');
    assert_eq!(ReadingMode::Fast.as_u8(), b'F');
    assert_eq!(ReadingMode::Slow.as_u8(), b'M');
}

#[test]
fn distance_round_trips_millimeters() {
    let d = Distance::from_mm(123456);
    assert_eq!(d.as_mm(), 123456);
}
