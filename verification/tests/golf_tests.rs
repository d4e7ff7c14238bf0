use golf::mathfuncs::{Vec2, check_collision_for_quads, get_distance, isqrt};
use golf::state::{CaptureAnim, MainState};

fn fresh() -> MainState {
    MainState::new(800_000, 600_000)
}

fn load_level(s: &mut MainState, level: i32) {
    s.level = level;
    s.get_level_obstacles();
}

#[test]
fn isqrt_exact_and_floor() {
    assert_eq!(isqrt(0), 0);
    assert_eq!(isqrt(1), 1);
    assert_eq!(isqrt(25_000_000), 5_000);
    assert_eq!(isqrt(2_000_000), 1_414);
    assert_eq!(isqrt(1_999_395), 1_413);
}

#[test]
fn get_distance_exact_values() {
    let a = Vec2 { x: 3_000, y: 4_000 };
    let o = Vec2 { x: 0, y: 0 };
    assert_eq!(get_distance(a, o, 1_000), 5_000);
    assert_eq!(get_distance(a, o, 1_200), 4_166);
    assert_eq!(get_distance(a, o, 5_000), 1_000);
    assert_eq!(get_distance(o, a, 1_000), 5_000);
}

#[test]
fn get_distance_guards_bad_divisor() {
    let a = Vec2 { x: 3_000, y: 4_000 };
    let o = Vec2 { x: 0, y: 0 };
    assert_eq!(get_distance(a, o, 0), 0);
    assert_eq!(get_distance(a, o, -7), 0);
    assert_eq!(get_distance(o, o, 0), 0);
}

#[test]
fn quads_touching_edges_do_not_overlap() {
    assert!(!check_collision_for_quads(
        0, 0, 32_000, 32_000, 32_000, 0, 32_000, 34_000
    ));
    assert!(!check_collision_for_quads(
        0, 0, 32_000, 32_000, 0, 32_000, 32_000, 34_000
    ));
    assert!(check_collision_for_quads(
        0, 0, 32_000, 32_000, 31_999, 0, 32_000, 34_000
    ));
    assert!(check_collision_for_quads(
        100_000, 100_000, 32_000, 32_000, 90_000, 110_000, 32_000, 34_000
    ));
}

#[test]
fn new_session_default_layout() {
    let s = fresh();
    assert_eq!(s.player.position, Vec2 { x: 400_000, y: 450_000 });
    assert_eq!(s.hole.position, Vec2 { x: 400_000, y: 150_000 });
    assert_eq!(s.player.velocity, 0);
    assert_eq!(s.player.size, 1_000);
    assert_eq!(s.level, 0);
    assert_eq!(s.strokes, 0);
    assert!(!s.completed);
    assert!(s.obstacle_cords.is_empty());
    assert!(s.obstacle_size.is_empty());
}

#[test]
fn level_lists_stay_aligned_on_every_load() {
    let mut s = fresh();
    let expected = [3usize, 8, 6, 5, 14, 10];
    for level in 1..=6i32 {
        load_level(&mut s, level);
        assert_eq!(s.obstacle_cords.len(), expected[(level - 1) as usize]);
        assert_eq!(s.obstacle_cords.len(), s.obstacle_size.len());
        assert_eq!(s.player.size, 1_000);
    }
    // Out-of-range ordinals degrade to the empty layout without moving anything.
    let ball = s.player.position;
    let hole = s.hole.position;
    load_level(&mut s, 0);
    assert!(s.obstacle_cords.is_empty());
    assert!(s.obstacle_size.is_empty());
    assert_eq!(s.player.position, ball);
    assert_eq!(s.hole.position, hole);
}

#[test]
fn level_five_lists_have_one_size_per_obstacle() {
    // The size-class list matches the obstacle list exactly; no trailing entry.
    let mut s = fresh();
    load_level(&mut s, 5);
    assert_eq!(s.obstacle_cords.len(), 14);
    assert_eq!(s.obstacle_size.len(), 14);
    assert!(s.obstacle_size.iter().all(|&c| c == 32));
}

#[test]
fn level_two_table() {
    let mut s = fresh();
    load_level(&mut s, 2);
    assert_eq!(s.player.position, Vec2 { x: 141_490, y: 100_000 });
    assert_eq!(s.hole.position, Vec2 { x: 623_000, y: 380_000 });
    assert_eq!(s.obstacle_cords[0], Vec2 { x: 583_000, y: 338_000 });
    assert_eq!(s.obstacle_size[0], 32);
    assert_eq!(s.obstacle_cords[7], Vec2 { x: 207_000, y: 330_000 });
    assert_eq!(s.obstacle_size[7], 64);
}

#[test]
fn velocity_clamps_at_zero_when_decay_overshoots() {
    let mut s = fresh();
    s.player.velocity = 100;
    s.player.anglevec = Vec2 { x: 0, y: -1_000 };
    s.player.mouse_pos_when_shot = Vec2 { x: 0, y: 0 };
    let _ = s.update_tick(Vec2 { x: 0, y: 0 }, false);
    assert_eq!(s.player.velocity, 0);
}

#[test]
fn velocity_stays_nonnegative_across_many_ticks() {
    let mut s = fresh();
    load_level(&mut s, 1);
    s.player.velocity = 30_000_000;
    s.player.anglevec = Vec2 { x: 707, y: -707 };
    s.player.mouse_pos_when_shot = s.player.position;
    for _ in 0..600 {
        let _ = s.update_tick(Vec2 { x: 0, y: 0 }, false);
        assert!(s.player.velocity >= 0);
    }
}

#[test]
fn capture_boundary_is_exact() {
    let mut s = fresh();
    s.player.position = Vec2 {
        x: s.hole.position.x + 31_999,
        y: s.hole.position.y,
    };
    assert!(s.check_collision_with_hole());
    s.player.position.x = s.hole.position.x + 32_001;
    assert!(!s.check_collision_with_hole());
    s.player.position.x = s.hole.position.x;
    assert!(s.check_collision_with_hole());
}

#[test]
fn border_bounce_does_not_oscillate_at_margin() {
    let mut s = fresh();
    s.player.position = Vec2 { x: 400_000, y: 10_000 };
    s.player.anglevec = Vec2 { x: 300, y: -500 };
    s.check_collision_with_border();
    assert_eq!(s.player.anglevec, Vec2 { x: 300, y: 500 });
    s.check_collision_with_border();
    assert_eq!(s.player.anglevec, Vec2 { x: 300, y: 500 });
    s.check_collision_with_border();
    assert_eq!(s.player.anglevec, Vec2 { x: 300, y: 500 });
}

#[test]
fn border_bounce_priority_bottom_left_right() {
    let mut s = fresh();
    // Past the bottom margin: vertical sign forced upward (negative).
    s.player.position = Vec2 { x: 400_000, y: 590_000 };
    s.player.anglevec = Vec2 { x: 300, y: 500 };
    s.check_collision_with_border();
    assert_eq!(s.player.anglevec, Vec2 { x: 300, y: -500 });
    // Past the left margin: horizontal sign forced rightward (positive).
    s.player.position = Vec2 { x: 10_000, y: 300_000 };
    s.player.anglevec = Vec2 { x: -400, y: 200 };
    s.check_collision_with_border();
    assert_eq!(s.player.anglevec, Vec2 { x: 400, y: 200 });
    // Past the right margin: horizontal sign forced leftward (negative).
    s.player.position = Vec2 { x: 790_000, y: 300_000 };
    s.player.anglevec = Vec2 { x: 400, y: 200 };
    s.check_collision_with_border();
    assert_eq!(s.player.anglevec, Vec2 { x: -400, y: 200 });
}

#[test]
fn obstacle_bounce_flips_horizontal_only() {
    let mut s = fresh();
    s.obstacle_cords.push(Vec2 { x: 100_000, y: 100_000 });
    s.obstacle_size.push(32);
    s.player.position = Vec2 { x: 67_000, y: 100_000 };
    s.player.velocity = 600_000;
    s.player.anglevec = Vec2 { x: 1_000, y: 0 };
    s.check_collision_with_obstacles();
    assert_eq!(s.player.anglevec, Vec2 { x: -1_000, y: 0 });
}

#[test]
fn obstacle_bounce_via_full_tick_leaves_vertical_alone() {
    let mut s = fresh();
    s.obstacle_cords.push(Vec2 { x: 100_000, y: 100_000 });
    s.obstacle_size.push(32);
    s.player.position = Vec2 { x: 67_000, y: 100_000 };
    s.player.velocity = 600_000;
    s.player.anglevec = Vec2 { x: 1_000, y: 0 };
    s.player.mouse_pos_when_shot = Vec2 { x: 57_000, y: 100_000 };
    let sound = s.update_tick(Vec2 { x: 0, y: 0 }, false);
    assert!(!sound);
    // Horizontal direction flipped before integration, so the ball moved left.
    assert_eq!(s.player.anglevec.x, -1_000);
    assert_eq!(s.player.anglevec.y, 0);
    assert_eq!(s.player.position, Vec2 { x: 57_000, y: 100_000 });
}

#[test]
fn obstacle_bounce_ignores_the_large_size_class() {
    // The collision hitbox is the same 32x34 footprint for both classes: a
    // predicted position just outside it does not bounce even on a 64x67
    // obstacle.
    let mut s = fresh();
    s.obstacle_cords.push(Vec2 { x: 100_000, y: 100_000 });
    s.obstacle_size.push(64);
    s.player.position = Vec2 { x: 140_000, y: 100_000 };
    s.player.velocity = 60_000;
    s.player.anglevec = Vec2 { x: 1_000, y: 0 };
    s.check_collision_with_obstacles();
    assert_eq!(s.player.anglevec, Vec2 { x: 1_000, y: 0 });
}

#[test]
fn strokes_count_releases_exactly() {
    let mut s = fresh();
    load_level(&mut s, 1);
    // Release with zero charge: nothing happens.
    assert!(!s.mouse_button_up_event(Vec2 { x: 0, y: 0 }));
    assert_eq!(s.strokes, 0);
    // Charge, then release: exactly one stroke.
    let pointer = Vec2 {
        x: s.player.position.x,
        y: s.player.position.y - 50_000,
    };
    let _ = s.update_tick(pointer, true);
    assert!(s.holding_lmb);
    assert!(s.mousevel_buildup > 0);
    assert!(s.mouse_button_up_event(pointer));
    assert_eq!(s.strokes, 1);
    // Release while the ball is moving: no stroke.
    assert!(s.player.velocity > 0);
    assert!(!s.mouse_button_up_event(pointer));
    assert_eq!(s.strokes, 1);
}

#[test]
fn press_plays_charge_sound_once_per_cycle() {
    let mut s = fresh();
    assert!(s.mouse_button_down_event());
    let pointer = Vec2 { x: 300_000, y: 300_000 };
    let _ = s.update_tick(pointer, true);
    assert!(s.mousevel_buildup > 0);
    assert!(!s.mouse_button_down_event());
}

#[test]
fn launch_scenario_speed_and_direction() {
    let mut s = fresh();
    load_level(&mut s, 1);
    let ball = s.player.position;
    let pointer = Vec2 { x: ball.x, y: ball.y - 50_000 };
    let _ = s.update_tick(pointer, true);
    // Charge equals the drag distance over the 1.2 divisor.
    assert_eq!(s.mousevel_buildup, 41_666);
    assert_eq!(s.mousevel_buildup, get_distance(pointer, ball, 1_200));
    // Facing points from the ball toward the pointer: straight up.
    assert_eq!(s.player.aim, Vec2 { x: 0, y: -1_000 });
    assert!(s.mouse_button_up_event(pointer));
    assert_eq!(s.player.velocity, 41_666);
    assert_eq!(s.player.anglevec, Vec2 { x: 0, y: -1_000 });
    assert_eq!(s.player.mouse_pos_when_shot, pointer);
    assert_eq!(s.player.pos_before_shot, ball);
    assert_eq!(s.strokes, 1);
}

#[test]
fn capture_scenario_shrinks_then_advances() {
    let mut s = fresh();
    load_level(&mut s, 1);
    s.player.position = s.hole.position;
    s.player.velocity = 0;
    // First capture tick: the capture sound fires and the shrink starts.
    let sound = s.update_tick(Vec2 { x: 0, y: 0 }, false);
    assert!(sound);
    assert!(s.hit_hole);
    assert_eq!(s.player.size, 980);
    assert_eq!(s.player.velocity, 0);
    assert_eq!(s.player.position, s.hole.position);
    // The scale drops by 20 thousandths per tick down to 200 at tick 40.
    for tick in 2..=40 {
        let sound = s.update_tick(Vec2 { x: 0, y: 0 }, false);
        assert!(!sound);
        assert_eq!(s.player.size, 1_000 - 20 * tick);
        assert_eq!(s.level, 1);
    }
    assert_eq!(s.player.size, 200);
    // The next tick advances to level 2 and resets the layout.
    let sound = s.update_tick(Vec2 { x: 0, y: 0 }, false);
    assert!(!sound);
    assert_eq!(s.level, 2);
    assert_eq!(s.player.size, 1_000);
    assert_eq!(s.player.position, Vec2 { x: 141_490, y: 100_000 });
    assert_eq!(s.obstacle_cords.len(), 8);
    assert!(!s.completed);
}

#[test]
fn capture_on_last_level_completes_the_game() {
    let mut s = fresh();
    load_level(&mut s, 6);
    s.player.position = s.hole.position;
    s.player.velocity = 0;
    for _ in 0..41 {
        let _ = s.update_tick(Vec2 { x: 0, y: 0 }, false);
    }
    assert!(s.completed);
    assert_eq!(s.level, 6);
    // The ball stays on the hole, so the animation restarts and the capture
    // sound fires again on the following tick.
    let sound = s.update_tick(Vec2 { x: 0, y: 0 }, false);
    assert!(sound);
    assert!(s.completed);
}

#[test]
fn render_position_applies_jitter_only_while_capturing() {
    let mut s = fresh();
    assert_eq!(s.render_position(), s.player.position);
    s.player.capture_anim = CaptureAnim::Capturing {
        shake: Vec2 { x: 2_000, y: -2_000 },
    };
    let r = s.render_position();
    assert_eq!(r.x, s.player.position.x - 2_000);
    assert_eq!(r.y, s.player.position.y + 2_000);
}

#[test]
fn capture_jitter_alternates_sign() {
    let mut s = fresh();
    load_level(&mut s, 1);
    s.player.position = s.hole.position;
    s.player.velocity = 0;
    let _ = s.update_tick(Vec2 { x: 0, y: 0 }, false);
    match s.player.capture_anim {
        CaptureAnim::Capturing { shake } => assert_eq!(shake, Vec2 { x: -2_000, y: -2_000 }),
        CaptureAnim::Idle => panic!("capture animation should be running"),
    }
    let _ = s.update_tick(Vec2 { x: 0, y: 0 }, false);
    match s.player.capture_anim {
        CaptureAnim::Capturing { shake } => assert_eq!(shake, Vec2 { x: 2_000, y: 2_000 }),
        CaptureAnim::Idle => panic!("capture animation should be running"),
    }
}

#[test]
fn charge_bar_fraction() {
    let mut s = fresh();
    assert_eq!(s.charge_fraction_milli(), 0);
    s.mousevel_buildup = 16_000;
    assert_eq!(s.charge_fraction_milli(), 500);
    s.mousevel_buildup = 64_000;
    assert_eq!(s.charge_fraction_milli(), 1_000);
}

#[test]
fn velocity_bar_fraction() {
    let mut s = fresh();
    // Degenerate reference speed: the bar reads full instead of failing.
    s.player.velocity = 10_000;
    assert_eq!(s.velocity_fraction_milli(), 1_000);
    // Reference speed 20 units: half velocity gives a half-full bar.
    s.player.mouse_pos_when_shot = Vec2 { x: 0, y: 0 };
    s.player.pos_before_shot = Vec2 { x: 0, y: 30_000 };
    assert_eq!(s.velocity_fraction_milli(), 500);
    s.player.velocity = 40_000;
    assert_eq!(s.velocity_fraction_milli(), 1_000);
}

#[test]
fn aim_defaults_downward_when_pointer_on_ball() {
    let mut s = fresh();
    let ball = s.player.position;
    let _ = s.update_tick(ball, true);
    assert_eq!(s.player.aim, Vec2 { x: 0, y: 1_000 });
}

#[test]
fn held_button_tracks_live_drag_and_release_resets() {
    let mut s = fresh();
    let ball = s.player.position;
    let near = Vec2 { x: ball.x + 12_000, y: ball.y };
    let far = Vec2 { x: ball.x + 24_000, y: ball.y };
    let _ = s.update_tick(near, true);
    assert_eq!(s.mousevel_buildup, 10_000);
    let _ = s.update_tick(far, true);
    assert_eq!(s.mousevel_buildup, 20_000);
    assert_eq!(s.player.aim, Vec2 { x: 1_000, y: 0 });
    let _ = s.update_tick(far, false);
    assert!(!s.holding_lmb);
    assert_eq!(s.mousevel_buildup, 0);
}
