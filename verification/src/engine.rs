use vstd::prelude::*;
use crate::mathfuncs::{
    Vec2, COORD_LIMIT, DIR_ONE, dist2, dist_milli, speed_spec, rects_overlap,
    isqrt, check_collision_for_quads, get_distance,
    lemma_component_le_dist, lemma_speed_bound,
};
use crate::state::{MainState, GameModel, CaptureAnim, VEL_LIMIT, FULL_SIZE, dir_bounded};
use crate::levels::{level_start, level_hole, level_cords, level_sizes};

verus! {

/// Radius of ball and hole alike, in milli-units.
pub const BALL_RADIUS: i64 = 16_000;

/// The ball is captured when the two centers are closer than the sum of the
/// two radii (32 units).
pub open spec fn hole_capture(p: Vec2, h: Vec2) -> bool {
    dist2(p, h) < 32_000 * 32_000
}

/// Travel-direction component scaled down to one tick's displacement:
/// `vel * c` over one milli-unit direction and one tick, rounded toward zero.
pub open spec fn step_milli(vel: int, c: int) -> int {
    if c >= 0 {
        vel * c / 60_000
    } else {
        -(vel * -c / 60_000)
    }
}

/// One tick's displacement along one axis, for a direction component `c`.
pub fn step_per_tick(vel: i64, c: i64) -> (r: i64)
    requires
        0 <= vel <= VEL_LIMIT,
        -DIR_ONE <= c <= DIR_ONE,
    ensures
        r == step_milli(vel as int, c as int),
        -1_700_000 <= r <= 1_700_000,
{
    if c >= 0 {
        proof {
            assert(0 <= vel * c <= 100_000_000_000 && vel * c / 60_000 <= 1_700_000)
                by (nonlinear_arith)
                requires 0 <= vel <= 100_000_000, 0 <= c <= 1000;
        }
        ((vel as u64) * (c as u64) / 60_000) as i64
    } else {
        proof {
            assert(0 <= vel * -c <= 100_000_000_000 && vel * -c / 60_000 <= 1_700_000)
                by (nonlinear_arith)
                requires 0 <= vel <= 100_000_000, -1000 <= c < 0;
        }
        -(((vel as u64) * ((-c) as u64) / 60_000) as i64)
    }
}

/// Direction the ball faces while aiming: the milli-scaled unit vector from
/// the ball toward the pointer, pointing straight down when they coincide.
pub open spec fn aim_spec(pos: Vec2, mouse: Vec2) -> Vec2 {
    let d = dist_milli(mouse, pos);
    if d <= 0 {
        Vec2 { x: 0, y: DIR_ONE }
    } else {
        Vec2 {
            x: scale_to_dir(mouse.x - pos.x, d) as i64,
            y: scale_to_dir(mouse.y - pos.y, d) as i64,
        }
    }
}

/// A coordinate difference scaled to a milli-unit direction component,
/// rounded toward zero.
pub open spec fn scale_to_dir(c: int, d: int) -> int {
    if c >= 0 {
        c * 1000 / d
    } else {
        -(-c * 1000 / d)
    }
}

/// The sign-forcing border bounce: past one screen margin, in the fixed
/// priority top, bottom, left, right, the matching direction component is
/// forced to point back inward; at most one axis is corrected per tick.
pub open spec fn border_bounce(pos: Vec2, screen_w: int, screen_h: int, dir: Vec2) -> Vec2 {
    if pos.y < 16_000 {
        Vec2 { x: dir.x, y: abs_dir(dir.y as int) as i64 }
    } else if pos.y > screen_h - 16_000 {
        Vec2 { x: dir.x, y: (-abs_dir(dir.y as int)) as i64 }
    } else if pos.x < 16_000 {
        Vec2 { x: abs_dir(dir.x as int) as i64, y: dir.y }
    } else if pos.x > screen_w - 16_000 {
        Vec2 { x: (-abs_dir(dir.x as int)) as i64, y: dir.y }
    } else {
        dir
    }
}

pub open spec fn abs_dir(c: int) -> int {
    if c >= 0 { c } else { -c }
}

/// One obstacle's bounce test: the ball's one-tick predicted position on
/// each axis, as a 32x32 box, against the obstacle's fixed 32x34 hitbox
/// (the collision footprint is the same for both size classes); an overlap
/// flips that axis's direction sign.
pub open spec fn obstacle_step(pos: Vec2, vel: int, ob: Vec2, dir: Vec2) -> Vec2 {
    let px = pos.x + step_milli(vel, dir.x as int);
    let py = pos.y + step_milli(vel, dir.y as int);
    let flip_x = rects_overlap(
        px, pos.y as int, 32_000, 32_000, ob.x as int, ob.y as int, 32_000, 34_000);
    let flip_y = rects_overlap(
        pos.x as int, py, 32_000, 32_000, ob.x as int, ob.y as int, 32_000, 34_000);
    Vec2 {
        x: if flip_x { (-dir.x) as i64 } else { dir.x },
        y: if flip_y { (-dir.y) as i64 } else { dir.y },
    }
}

/// The obstacle tests folded over the first `n` obstacles in iteration
/// order; an earlier flip feeds the later obstacles' predicted positions.
pub open spec fn obstacles_fold(pos: Vec2, vel: int, obs: Seq<Vec2>, dir: Vec2, n: int) -> Vec2
    decreases n,
{
    if n <= 0 {
        dir
    } else {
        obstacle_step(pos, vel, obs[n - 1], obstacles_fold(pos, vel, obs, dir, n - 1))
    }
}

/// A coordinate saturated into the representable range; real play never
/// comes near the limit.
pub open spec fn clamp_coord(x: int) -> int {
    if x < -(COORD_LIMIT as int) {
        -(COORD_LIMIT as int)
    } else if x > COORD_LIMIT as int {
        COORD_LIMIT as int
    } else {
        x
    }
}

/// The moving branch of one tick: border bounce, obstacle bounces, position
/// integration over one tick, then velocity decay proportional to the
/// distance from the point where the shot was released, clamped at zero.
pub open spec fn move_phase(m: GameModel) -> GameModel {
    let dir1 = border_bounce(m.position, m.screen_w, m.screen_h, m.anglevec);
    let dir2 = obstacles_fold(m.position, m.velocity, m.cords, dir1, m.cords.len() as int);
    let npos = Vec2 {
        x: clamp_coord(m.position.x + step_milli(m.velocity, dir2.x as int)) as i64,
        y: clamp_coord(m.position.y + step_milli(m.velocity, dir2.y as int)) as i64,
    };
    let dec = speed_spec(m.mouse_pos_when_shot, npos, 5000) / 60;
    let nvel = if dec >= m.velocity { 0 } else { m.velocity - dec };
    GameModel { position: npos, velocity: nvel, anglevec: dir2, ..m }
}

/// The captured branch of one tick: the ball stops on the hole; the shrink
/// animation starts (once, with a capture sound) and runs the scale down by
/// 20 thousandths per tick, jittering; at a fifth of full scale the level
/// advances, or the game completes on the last level.
pub open spec fn capture_phase(m: GameModel) -> (GameModel, bool) {
    let starting = m.capture_anim == CaptureAnim::Idle;
    let shake = if starting { Vec2 { x: 2000, y: 2000 } } else { m.capture_anim.shake_spec() };
    let m1 = GameModel {
        velocity: 0,
        position: m.hole,
        capture_anim: CaptureAnim::Capturing { shake },
        ..m
    };
    if m.size > 200 {
        (GameModel {
            size: m.size - 20,
            capture_anim: CaptureAnim::Capturing {
                shake: Vec2 { x: (-shake.x) as i64, y: (-shake.y) as i64 },
            },
            ..m1
        }, starting)
    } else if m.level == 6 {
        (GameModel { completed: true, capture_anim: CaptureAnim::Idle, ..m1 }, starting)
    } else {
        (GameModel {
            level: m.level + 1,
            cords: level_cords(m.level + 1),
            sizes: level_sizes(m.level + 1),
            position: level_start(m.level + 1, m.screen_w, m.screen_h),
            hole: level_hole(m.level + 1, m.screen_w, m.screen_h),
            size: FULL_SIZE as int,
            capture_anim: CaptureAnim::Idle,
            ..m1
        }, starting)
    }
}

/// The at-rest input sampling of one tick: while the button is held the
/// charge tracks the live pointer distance and the facing follows the
/// pointer; released, the charge resets.
pub open spec fn input_phase(m: GameModel, mouse: Vec2, lmb_down: bool) -> GameModel {
    if m.velocity <= 0 && !m.hit_hole {
        if lmb_down {
            GameModel {
                holding_lmb: true,
                mousevel_buildup: speed_spec(mouse, m.position, 1200),
                aim: aim_spec(m.position, mouse),
                ..m
            }
        } else {
            GameModel { holding_lmb: false, mousevel_buildup: 0, ..m }
        }
    } else {
        m
    }
}

/// One whole simulation tick: the capture check runs first and picks the
/// branch; afterwards, a ball at rest samples the launch input. The second
/// component is whether the capture sound fires this tick.
pub open spec fn tick_spec(m: GameModel, mouse: Vec2, lmb_down: bool) -> (GameModel, bool) {
    let cap = hole_capture(m.position, m.hole);
    let m0 = GameModel { hit_hole: cap, ..m };
    let br = if m.velocity > 0 && !cap {
        (move_phase(m0), false)
    } else if cap {
        capture_phase(m0)
    } else {
        (m0, false)
    };
    (input_phase(br.0, mouse, lmb_down), br.1)
}

/// A release with positive charge on a resting, uncaptured ball launches
/// the shot: the charge becomes the speed, the facing becomes the travel
/// direction, the anchors are recorded and the stroke counts. Any other
/// release changes nothing. The second component is whether a shot fired.
pub open spec fn release_spec(m: GameModel, mouse: Vec2) -> (GameModel, bool) {
    if m.mousevel_buildup > 0 && m.velocity <= 0 && !m.hit_hole {
        (GameModel {
            velocity: m.mousevel_buildup,
            holding_lmb: false,
            anglevec: m.aim,
            mouse_pos_when_shot: mouse,
            pos_before_shot: m.position,
            strokes: m.strokes + 1,
            ..m
        }, true)
    } else {
        (m, false)
    }
}

/// A coordinate saturated into the representable range.
fn clamp_exec(x: i64) -> (r: i64)
    requires
        -100_000_000 <= x <= 100_000_000,
    ensures
        r == clamp_coord(x as int),
{
    if x < -COORD_LIMIT {
        -COORD_LIMIT
    } else if x > COORD_LIMIT {
        COORD_LIMIT
    } else {
        x
    }
}

impl MainState {
    /// Whether the ball currently sits within capture distance of the hole.
    pub fn check_collision_with_hole(&self) -> (r: bool)
        requires
            self.wf(),
        ensures
            r == hole_capture(self.player.position, self.hole.position),
    {
        let dx: i64 = (self.player.position.x + BALL_RADIUS) - (self.hole.position.x + BALL_RADIUS);
        let dy: i64 = (self.player.position.y + BALL_RADIUS) - (self.hole.position.y + BALL_RADIUS);
        proof {
            assert(0 <= dx * dx <= 400_000_000_000_000) by (nonlinear_arith)
                requires -20_000_000 <= dx <= 20_000_000;
            assert(0 <= dy * dy <= 400_000_000_000_000) by (nonlinear_arith)
                requires -20_000_000 <= dy <= 20_000_000;
        }
        dx * dx + dy * dy < 1_024_000_000
    }

    /// Points the ball's facing direction from its position toward the pointer.
    pub fn change_player_rotation(&mut self, mouse: Vec2)
        requires
            old(self).wf(),
            mouse.in_bounds(),
        ensures
            final(self).wf(),
            final(self).model() == (GameModel {
                aim: aim_spec(old(self).player.position, mouse),
                ..old(self).model()
            }),
    {
        let dx: i64 = mouse.x - self.player.position.x;
        let dy: i64 = mouse.y - self.player.position.y;
        proof {
            assert(0 <= dx * dx <= 400_000_000_000_000) by (nonlinear_arith)
                requires -20_000_000 <= dx <= 20_000_000;
            assert(0 <= dy * dy <= 400_000_000_000_000) by (nonlinear_arith)
                requires -20_000_000 <= dy <= 20_000_000;
        }
        let d2: u64 = (dx * dx + dy * dy) as u64;
        let d: u64 = isqrt(d2);
        if d == 0 {
            self.player.aim = Vec2 { x: 0, y: DIR_ONE };
        } else {
            proof {
                lemma_component_le_dist(mouse, self.player.position);
                assert(d <= 29_000_000) by (nonlinear_arith)
                    requires d * d <= d2, d2 <= 800_000_000_000_000;
                assert(forall|a: int| 0 <= a <= d ==> #[trigger] (a * 1000 / (d as int)) <= 1000)
                    by (nonlinear_arith)
                    requires d >= 1;
            }
            let ax: i64 = if dx >= 0 {
                (((dx as u64) * 1000) / d) as i64
            } else {
                -(((((-dx) as u64)) * 1000 / d) as i64)
            };
            let ay: i64 = if dy >= 0 {
                (((dy as u64) * 1000) / d) as i64
            } else {
                -(((((-dy) as u64)) * 1000 / d) as i64)
            };
            self.player.aim = Vec2 { x: ax, y: ay };
        }
    }

    /// Forces the travel direction back inward when the ball is past a
    /// screen margin, one axis per tick in the fixed priority order.
    pub fn check_collision_with_border(&mut self)
        requires
            old(self).wf(),
        ensures
            final(self).wf(),
            final(self).model() == (GameModel {
                anglevec: border_bounce(
                    old(self).player.position,
                    old(self).screen_w as int,
                    old(self).screen_h as int,
                    old(self).player.anglevec,
                ),
                ..old(self).model()
            }),
    {
        if self.player.position.y < 16_000 {
            let a = self.player.anglevec;
            self.player.anglevec = Vec2 { x: a.x, y: if a.y >= 0 { a.y } else { -a.y } };
        } else if self.player.position.y > self.screen_h - 16_000 {
            let a = self.player.anglevec;
            self.player.anglevec = Vec2 { x: a.x, y: if a.y >= 0 { -a.y } else { a.y } };
        } else if self.player.position.x < 16_000 {
            let a = self.player.anglevec;
            self.player.anglevec = Vec2 { x: if a.x >= 0 { a.x } else { -a.x }, y: a.y };
        } else if self.player.position.x > self.screen_w - 16_000 {
            let a = self.player.anglevec;
            self.player.anglevec = Vec2 { x: if a.x >= 0 { -a.x } else { a.x }, y: a.y };
        }
    }

    /// Tests the ball's one-tick predicted position against every obstacle
    /// in order, flipping a direction axis on each overlap.
    pub fn check_collision_with_obstacles(&mut self)
        requires
            old(self).wf(),
        ensures
            final(self).wf(),
            final(self).model() == (GameModel {
                anglevec: obstacles_fold(
                    old(self).player.position,
                    old(self).player.velocity as int,
                    old(self).obstacle_cords@,
                    old(self).player.anglevec,
                    old(self).obstacle_cords@.len() as int,
                ),
                ..old(self).model()
            }),
    {
        let ghost pos = self.player.position;
        let ghost vel = self.player.velocity as int;
        let ghost obs = self.obstacle_cords@;
        let ghost dir0 = self.player.anglevec;
        let mut dir: Vec2 = self.player.anglevec;
        let n: usize = self.obstacle_cords.len();
        let mut i: usize = 0;
        while i < n
            invariant
                self.wf(),
                i <= n,
                n == self.obstacle_cords@.len(),
                pos == self.player.position,
                vel == self.player.velocity as int,
                obs == self.obstacle_cords@,
                dir0 == self.player.anglevec,
                dir_bounded(dir),
                dir == obstacles_fold(pos, vel, obs, dir0, i as int),
            decreases n - i,
        {
            let ob: Vec2 = self.obstacle_cords[i];
            let sx: i64 = step_per_tick(self.player.velocity, dir.x);
            let sy: i64 = step_per_tick(self.player.velocity, dir.y);
            let px: i64 = self.player.position.x + sx;
            let py: i64 = self.player.position.y + sy;
            let ghost dir_in = dir;
            if check_collision_for_quads(
                px, self.player.position.y, 32_000, 32_000, ob.x, ob.y, 32_000, 34_000) {
                dir.x = -dir.x;
            }
            if check_collision_for_quads(
                self.player.position.x, py, 32_000, 32_000, ob.x, ob.y, 32_000, 34_000) {
                dir.y = -dir.y;
            }
            proof {
                assert(dir == obstacle_step(pos, vel, obs[i as int], dir_in));
            }
            i = i + 1;
        }
        self.player.anglevec = dir;
    }

    /// One fixed-timestep simulation tick, fed the live pointer position and
    /// whether the launch button is held; returns whether the capture sound
    /// fires this tick.
    pub fn update_tick(&mut self, mouse: Vec2, lmb_down: bool) -> (hole_sound: bool)
        requires
            old(self).wf(),
            mouse.in_bounds(),
        ensures
            final(self).wf(),
            final(self).model() == tick_spec(old(self).model(), mouse, lmb_down).0,
            hole_sound == tick_spec(old(self).model(), mouse, lmb_down).1,
    {
        let cap: bool = self.check_collision_with_hole();
        self.hit_hole = cap;
        let mut hole_sound: bool = false;

        if self.player.velocity > 0 && !cap {
            self.check_collision_with_border();
            self.check_collision_with_obstacles();

            let sx: i64 = step_per_tick(self.player.velocity, self.player.anglevec.x);
            let sy: i64 = step_per_tick(self.player.velocity, self.player.anglevec.y);
            self.player.position = Vec2 {
                x: clamp_exec(self.player.position.x + sx),
                y: clamp_exec(self.player.position.y + sy),
            };

            let dec_per_sec: i64 = get_distance(
                self.player.mouse_pos_when_shot, self.player.position, 5000);
            let dec: i64 = dec_per_sec / 60;
            if dec >= self.player.velocity {
                self.player.velocity = 0;
            } else {
                self.player.velocity = self.player.velocity - dec;
            }
            proof {
                assert(self.model() =~= move_phase(GameModel {
                    hit_hole: cap, ..old(self).model() }));
            }
        } else if cap {
            self.player.velocity = 0;
            self.player.position = self.hole.position;

            let starting: bool = match self.player.capture_anim {
                CaptureAnim::Idle => true,
                CaptureAnim::Capturing { .. } => false,
            };
            if starting {
                hole_sound = true;
                self.player.capture_anim = CaptureAnim::Capturing {
                    shake: Vec2 { x: 2000, y: 2000 },
                };
            }

            if self.player.size > 200 {
                self.player.size = self.player.size - 20;
                let sh: Vec2 = match self.player.capture_anim {
                    CaptureAnim::Capturing { shake } => shake,
                    CaptureAnim::Idle => Vec2 { x: 0, y: 0 },
                };
                self.player.capture_anim = CaptureAnim::Capturing {
                    shake: Vec2 { x: -sh.x, y: -sh.y },
                };
            } else {
                self.player.capture_anim = CaptureAnim::Idle;
                if self.level == 6 {
                    self.completed = true;
                } else {
                    self.level = self.level + 1;
                    self.get_level_obstacles();
                }
            }
            proof {
                assert(self.model() =~= capture_phase(GameModel {
                    hit_hole: cap, ..old(self).model() }).0);
            }
        }

        if self.player.velocity <= 0 && !cap {
            if lmb_down {
                self.holding_lmb = true;
                proof {
                    lemma_speed_bound(mouse, self.player.position, 1200);
                }
                self.mousevel_buildup = get_distance(mouse, self.player.position, 1200);
                self.change_player_rotation(mouse);
            } else {
                self.holding_lmb = false;
                self.mousevel_buildup = 0;
            }
        }

        proof {
            assert(self.model() =~= tick_spec(old(self).model(), mouse, lmb_down).0);
        }
        hole_sound
    }

    /// The release transition of the launch button: fires the shot when the
    /// charge is positive and the ball is at rest and uncaptured; returns
    /// whether a shot (and so the shot sound) fired.
    pub fn mouse_button_up_event(&mut self, mouse: Vec2) -> (shot: bool)
        requires
            old(self).wf(),
            mouse.in_bounds(),
            old(self).strokes < i64::MAX,
        ensures
            final(self).wf(),
            final(self).model() == release_spec(old(self).model(), mouse).0,
            shot == release_spec(old(self).model(), mouse).1,
    {
        if self.mousevel_buildup > 0 && self.player.velocity <= 0 && !self.hit_hole {
            self.player.velocity = self.mousevel_buildup;
            self.holding_lmb = false;
            self.player.anglevec = self.player.aim;
            self.player.mouse_pos_when_shot = mouse;
            self.player.pos_before_shot = self.player.position;
            self.strokes = self.strokes + 1;
            true
        } else {
            false
        }
    }

    /// The press transition of the launch button: the charge sound plays
    /// exactly when no charge is pending yet, once per charge cycle.
    pub fn mouse_button_down_event(&self) -> (charge_sound: bool)
        requires
            self.wf(),
        ensures
            charge_sound == (self.mousevel_buildup <= 0),
    {
        self.mousevel_buildup <= 0
    }
}

} // verus!
