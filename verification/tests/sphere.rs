use std::time::Duration;

use lidarino::sphere::optimize_path;
use lidarino::sphere::Waypoint;

fn wp(pitch: i32, yaw: i32) -> Waypoint {
    Waypoint { pitch, yaw }
}

fn sorted_pairs(tour: &[Waypoint]) -> Vec<(i32, i32)> {
    let mut pairs: Vec<(i32, i32)> = tour.iter().map(|w| (w.pitch, w.yaw)).collect();
    pairs.sort();
    pairs
}

fn tour_cost(tour: &[Waypoint]) -> u64 {
    tour.windows(2).map(|e| e[0].manhattan_distance(&e[1]) as u64).sum()
}

#[test]
fn manhattan_distance_is_the_coordinate_sum() {
    assert_eq!(wp(0, 0).manhattan_distance(&wp(3, -4)), 7);
    assert_eq!(wp(-2, 5).manhattan_distance(&wp(-2, 5)), 0);
    assert_eq!(wp(4000, -4000).manhattan_distance(&wp(-4000, 4000)), 16000);
    // Symmetric.
    assert_eq!(wp(10, 20).manhattan_distance(&wp(-5, 2)), wp(-5, 2).manhattan_distance(&wp(10, 20)));
}

#[test]
fn optimize_returns_a_permutation_even_with_no_budget() {
    let path = vec![wp(5, 5), wp(0, 0), wp(3, 3), wp(0, 0), wp(-7, 2)];
    let expected = sorted_pairs(&path);
    let tour = optimize_path(path, Duration::ZERO);
    assert_eq!(tour.len(), 5);
    assert_eq!(sorted_pairs(&tour), expected);
}

#[test]
fn optimize_returns_a_permutation_with_a_budget() {
    let path = vec![
        wp(0, 0),
        wp(100, 100),
        wp(0, 10),
        wp(100, 90),
        wp(0, 20),
        wp(100, 80),
        wp(0, 30),
    ];
    let expected = sorted_pairs(&path);
    let tour = optimize_path(path, Duration::from_millis(50));
    assert_eq!(sorted_pairs(&tour), expected);
}

#[test]
fn optimize_handles_degenerate_inputs() {
    assert_eq!(optimize_path(Vec::new(), Duration::ZERO).len(), 0);
    let single = optimize_path(vec![wp(1, 2)], Duration::from_millis(5));
    assert_eq!(single, vec![wp(1, 2)]);
}

#[test]
fn nearest_neighbour_orders_points_on_a_line() {
    let path = vec![wp(0, 0), wp(100, 0), wp(10, 0)];
    let tour = optimize_path(path, Duration::ZERO);
    assert_eq!(tour, vec![wp(0, 0), wp(10, 0), wp(100, 0)]);
}

#[test]
fn optimization_never_worsens_the_nearest_neighbour_tour() {
    let path = vec![
        wp(0, 0),
        wp(50, 60),
        wp(1, 1),
        wp(49, 61),
        wp(2, 0),
        wp(51, 59),
        wp(0, 2),
        wp(48, 62),
    ];
    let no_budget = optimize_path(path.clone(), Duration::ZERO);
    let optimized = optimize_path(path, Duration::from_millis(200));
    assert!(tour_cost(&optimized) <= tour_cost(&no_budget));
}
