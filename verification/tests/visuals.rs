use rust_racer::geometry::{
    bridge_waypoints, ribbon_indices, signal_waypoints, terrain_indices, window_texture_pixels,
    wrapped_index,
};
use rust_racer::grid::{ai_pace_percent, grid_slot, GridLane, GridSlot};
use rust_racer::indicators::{
    gate_pole_color, gate_smoke_color, gate_status, gauge_segment_color, GateColor, GateStatus,
    SegmentColor, GAUGE_SEGMENTS,
};

#[test]
fn gate_status_and_colours() {
    assert_eq!(gate_status(3, 3), GateStatus::Next);
    assert_eq!(gate_status(1, 3), GateStatus::Passed);
    assert_eq!(gate_status(5, 3), GateStatus::Upcoming);
    assert_eq!(gate_pole_color(3, 3, true), GateColor::Yellow);
    assert_eq!(gate_pole_color(3, 3, false), GateColor::Orange);
    assert_eq!(gate_pole_color(0, 3, true), GateColor::Green);
    assert_eq!(gate_pole_color(9, 3, true), GateColor::Red);
    assert_eq!(gate_smoke_color(3, 3), GateColor::Yellow);
    assert_eq!(gate_smoke_color(2, 3), GateColor::Green);
    assert_eq!(gate_smoke_color(4, 3), GateColor::Red);
}

#[test]
fn gauge_colour_bands_match_fractions() {
    for i in 0..GAUGE_SEGMENTS {
        let t = i as f32 / GAUGE_SEGMENTS as f32;
        let expected = if t < 0.6 {
            SegmentColor::Cyan
        } else if t < 0.85 {
            SegmentColor::Amber
        } else {
            SegmentColor::Red
        };
        assert_eq!(gauge_segment_color(i, GAUGE_SEGMENTS), expected);
        assert_eq!(gauge_segment_color(i, i), SegmentColor::Dark);
    }
    assert_eq!(gauge_segment_color(19, 20), SegmentColor::Cyan);
    assert_eq!(gauge_segment_color(20, 21), SegmentColor::Amber);
    assert_eq!(gauge_segment_color(28, 32), SegmentColor::Red);
}

#[test]
fn terrain_indices_small_grid() {
    let idx = terrain_indices(3, 2);
    assert_eq!(idx, vec![0, 3, 1, 1, 3, 4, 1, 4, 2, 2, 4, 5]);
    assert!(terrain_indices(1, 5).is_empty());
}

#[test]
fn terrain_indices_full_size() {
    let idx = terrain_indices(401, 401);
    assert_eq!(idx.len(), 6 * 400 * 400);
    assert!(idx.iter().all(|&i| (i as usize) < 401 * 401));
    let last = idx.len() - 6;
    assert_eq!(&idx[last..], &[160398, 160799, 160399, 160399, 160799, 160800]);
}

#[test]
fn ribbon_closes_the_loop() {
    let idx = ribbon_indices(3, 2);
    assert_eq!(idx, vec![0, 2, 1, 1, 2, 3, 2, 4, 3, 3, 4, 5, 4, 0, 5, 5, 0, 1]);
    assert!(ribbon_indices(0, 10).is_empty());
    let big = ribbon_indices(50, 10);
    assert_eq!(big.len(), 6 * 50 * 9);
    assert!(big.iter().all(|&i| i < 500));
}

#[test]
fn window_texture_layout() {
    let data = window_texture_pixels();
    assert_eq!(data.len(), 32 * 32 * 4);
    // Pixel (0, 0) is on the frame.
    assert_eq!(&data[0..4], &[26, 28, 34, 255]);
    // Pixel (1, 1) is inside window (0, 0): 0 ^ 0 = 0, 0 % 5 < 2, lit.
    let p = 4 * (32 + 1);
    assert_eq!(&data[p..p + 4], &[255, 232, 158, 255]);
    // Pixel (5, 1) is inside window (1, 0): 73 % 5 = 3, dark.
    let p = 4 * (32 + 5);
    assert_eq!(&data[p..p + 4], &[70, 92, 122, 255]);
    // 25 of the 64 windows are lit; every pixel inside a window has its colour.
    let mut lit = 0;
    for cy in 0..8usize {
        for cx in 0..8usize {
            let texel = |x: usize, y: usize| {
                let p = 4 * (32 * y + x);
                [data[p], data[p + 1], data[p + 2], data[p + 3]]
            };
            let inside = texel(4 * cx + 1, 4 * cy + 1);
            if inside == [255, 232, 158, 255] {
                lit += 1;
            } else {
                assert_eq!(inside, [70, 92, 122, 255]);
            }
            for dy in 1..4 {
                for dx in 1..4 {
                    assert_eq!(texel(4 * cx + dx, 4 * cy + dy), inside);
                }
                assert_eq!(texel(4 * cx, 4 * cy + dy), [26, 28, 34, 255]);
            }
        }
    }
    assert_eq!(lit, 25);
}

#[test]
fn signals_every_third_gate() {
    assert_eq!(signal_waypoints(7), vec![0, 3, 6]);
    assert_eq!(signal_waypoints(9), vec![0, 3, 6]);
    assert_eq!(signal_waypoints(10), vec![0, 3, 6, 9]);
    assert!(signal_waypoints(0).is_empty());
}

#[test]
fn bridge_wraps_round_the_circuit() {
    assert_eq!(bridge_waypoints(5, 30), vec![3, 4, 5, 6, 7]);
    assert_eq!(bridge_waypoints(0, 30), vec![28, 29, 0, 1, 2]);
    assert_eq!(bridge_waypoints(29, 30), vec![27, 28, 29, 0, 1]);
    assert_eq!(bridge_waypoints(0, 1), vec![0, 0, 0, 0, 0]);
}

#[test]
fn wrapped_index_round_the_path() {
    assert_eq!(wrapped_index(98, 5, 100), 3);
    assert_eq!(wrapped_index(10, 3, 100), 13);
    assert_eq!(wrapped_index(7, 3, 0), 0);
}

#[test]
fn starting_grid_pairs() {
    assert_eq!(grid_slot(0), GridSlot { row: 0, lane: GridLane::Centre });
    assert_eq!(grid_slot(1), GridSlot { row: 1, lane: GridLane::Left });
    assert_eq!(grid_slot(2), GridSlot { row: 1, lane: GridLane::Right });
    assert_eq!(grid_slot(11), GridSlot { row: 6, lane: GridLane::Left });
    assert_eq!(grid_slot(12), GridSlot { row: 6, lane: GridLane::Right });
    let slots: Vec<GridSlot> = (0..13).map(grid_slot).collect();
    for i in 0..slots.len() {
        for j in 0..i {
            assert_ne!(slots[i], slots[j]);
        }
    }
}

#[test]
fn ai_pace_tiers() {
    let pace: Vec<u32> = (1..=12).map(ai_pace_percent).collect();
    assert_eq!(pace, vec![110, 110, 110, 110, 100, 100, 100, 100, 90, 90, 90, 90]);
}
