use rust_racer::controls::{read_driver_keys, DriverKeys};
use rust_racer::laps::LapProgress;
use rust_racer::standings::{
    is_ahead, place_suffix, player_place, race_order, racer_name, RacerStanding, UNFINISHED_KEY,
};

fn racer(is_player: bool, lap: u32, wp: usize, finish: Option<f32>, dist: f32) -> RacerStanding {
    RacerStanding {
        is_player,
        current_lap: lap,
        next_waypoint: wp,
        finish_key: finish.unwrap_or(99999.0).to_bits(),
        distance_key: dist.to_bits(),
    }
}

#[test]
fn unfinished_key_is_the_placeholder_time() {
    assert_eq!(99999.0f32.to_bits(), UNFINISHED_KEY);
}

#[test]
fn lap_progress_starts_after_start_line() {
    let p = LapProgress::new(3);
    assert_eq!(p.current_lap, 1);
    assert_eq!(p.total_laps, 3);
    assert_eq!(p.next_waypoint, 1);
    assert!(!p.has_finished());
}

#[test]
fn passing_last_gate_starts_new_lap() {
    let mut p = LapProgress { current_lap: 1, total_laps: 3, next_waypoint: 3 };
    p.pass_waypoint(5);
    assert_eq!((p.current_lap, p.next_waypoint), (1, 4));
    p.pass_waypoint(5);
    assert_eq!((p.current_lap, p.next_waypoint), (2, 0));
}

#[test]
fn full_circuit_adds_one_lap() {
    let mut p = LapProgress { current_lap: 2, total_laps: 3, next_waypoint: 2 };
    for _ in 0..7 {
        p.pass_waypoint(7);
    }
    assert_eq!((p.current_lap, p.next_waypoint), (3, 2));
}

#[test]
fn track_only_moves_within_reach() {
    let mut p = LapProgress::new(2);
    p.track(4, false);
    assert_eq!(p, LapProgress::new(2));
    p.track(4, true);
    assert_eq!(p.next_waypoint, 2);
}

#[test]
fn finishing_after_last_lap() {
    let mut p = LapProgress { current_lap: 3, total_laps: 3, next_waypoint: 3 };
    assert!(!p.has_finished());
    assert_eq!(p.displayed_lap(), 3);
    p.pass_waypoint(4);
    assert!(p.has_finished());
    assert_eq!(p.current_lap, 4);
    assert_eq!(p.displayed_lap(), 3);
}

#[test]
fn finishers_lead_by_time() {
    let a = racer(false, 4, 0, Some(95.5), 3.0);
    let b = racer(true, 4, 0, Some(90.25), 8.0);
    let c = racer(false, 3, 5, None, 1.0);
    assert!(is_ahead(&b, &a));
    assert!(is_ahead(&a, &c));
    assert!(!is_ahead(&c, &a));
    let racers = vec![c, a, b];
    let order = race_order(&racers);
    assert_eq!(order, vec![2, 1, 0]);
    assert_eq!(player_place(&racers, &order), 1);
}

#[test]
fn race_order_by_lap_gate_then_distance() {
    let racers = vec![
        racer(false, 2, 3, None, 40.0),
        racer(true, 2, 4, None, 90.0),
        racer(false, 3, 0, None, 10.0),
        racer(false, 2, 4, None, 20.0),
        racer(false, 1, 9, None, 1.0),
    ];
    let order = race_order(&racers);
    assert_eq!(order, vec![2, 3, 1, 0, 4]);
    let place = player_place(&racers, &order);
    assert_eq!(place, 3);
    assert_eq!(format!("Place: {}{} / {}", place, place_suffix(place), racers.len()), "Place: 3rd / 5");
}

#[test]
fn ties_keep_listed_order() {
    let racers = vec![
        racer(false, 2, 3, None, 5.0),
        racer(true, 2, 3, None, 5.0),
        racer(false, 2, 3, None, 5.0),
    ];
    assert_eq!(race_order(&racers), vec![0, 1, 2]);
    assert_eq!(player_place(&racers, &race_order(&racers)), 2);
}

#[test]
fn empty_race_and_no_player() {
    let racers: Vec<RacerStanding> = Vec::new();
    let order = race_order(&racers);
    assert!(order.is_empty());
    assert_eq!(player_place(&racers, &order), 1);
    let racers = vec![racer(false, 1, 1, None, 3.0), racer(false, 1, 1, None, 2.0)];
    let order = race_order(&racers);
    assert_eq!(order, vec![1, 0]);
    assert_eq!(player_place(&racers, &order), 1);
}

#[test]
fn ordinal_suffixes_and_names() {
    assert_eq!(place_suffix(1), "st");
    assert_eq!(place_suffix(2), "nd");
    assert_eq!(place_suffix(3), "rd");
    assert_eq!(place_suffix(4), "th");
    assert_eq!(place_suffix(13), "th");
    assert_eq!(racer_name(true), "Player");
    assert_eq!(racer_name(false), "AI Racer");
}

fn keys() -> DriverKeys {
    DriverKeys {
        accelerate: false,
        reverse: false,
        brake: false,
        handbrake: false,
        steer_left: false,
        steer_right: false,
    }
}

#[test]
fn driver_keys_to_commands() {
    let none = read_driver_keys(keys());
    assert_eq!((none.throttle, none.steering, none.braking, none.drifting), (0, 0, false, false));
    let fwd = read_driver_keys(DriverKeys { accelerate: true, steer_left: true, ..keys() });
    assert_eq!((fwd.throttle, fwd.steering), (1, 1));
    let rev = read_driver_keys(DriverKeys { reverse: true, steer_right: true, handbrake: true, ..keys() });
    assert_eq!((rev.throttle, rev.steering, rev.drifting), (-1, -1, true));
    let both = read_driver_keys(DriverKeys { accelerate: true, reverse: true, steer_left: true, steer_right: true, ..keys() });
    assert_eq!((both.throttle, both.steering), (0, 0));
    let brake = read_driver_keys(DriverKeys { accelerate: true, brake: true, ..keys() });
    assert_eq!((brake.throttle, brake.braking), (0, true));
}
