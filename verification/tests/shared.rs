use lidarino::distance::ReadingState;
use lidarino::scan::ScanState;
use lidarino::shared::SharedState;

#[test]
fn cell_stores_and_returns_state() {
    let mut cell = SharedState::new(ScanState::Paused);
    assert_eq!(cell.get_state(), ScanState::Paused);
    cell.set_state(ScanState::Scanning);
    assert_eq!(cell.get_state(), ScanState::Scanning);
}

#[test]
fn wait_completes_after_matching_set() {
    // No lost wakeup: a wait for exactly the value just stored completes.
    let mut cell = SharedState::new(ScanState::Paused);
    cell.set_state(ScanState::Scanning);
    assert!(cell.await_state(ScanState::Scanning));
}

#[test]
fn wait_blocks_on_other_live_state() {
    let cell = SharedState::new(ScanState::Paused);
    assert!(!cell.await_state(ScanState::Scanning));
}

#[test]
fn dead_state_releases_every_waiter() {
    let mut cell = SharedState::new(ScanState::Scanning);
    cell.set_state(ScanState::Dead);
    assert!(cell.await_state(ScanState::Paused));
    assert!(cell.await_state(ScanState::Scanning));
}

#[test]
fn wait_until_follows_the_predicate() {
    let mut cell = SharedState::new(ReadingState::Pending);
    assert!(!cell.await_until(|s| s == ReadingState::Ready));
    assert!(cell.await_until(|s| s == ReadingState::Pending));
    cell.set_state(ReadingState::Ready);
    assert!(cell.await_until(|s| s == ReadingState::Ready));
}

#[test]
fn wait_until_released_by_dead() {
    let mut cell = SharedState::new(ReadingState::Pending);
    cell.set_state(ReadingState::Dead);
    assert!(cell.await_until(|s| s == ReadingState::Ready));
}
