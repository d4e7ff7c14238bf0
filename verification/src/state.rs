use vstd::prelude::*;
use crate::mathfuncs::{Vec2, COORD_LIMIT, DIR_ONE};

verus! {

/// Largest launch speed the engine represents, in milli-units per second.
pub const VEL_LIMIT: i64 = 100_000_000;

/// Ball scale at the start of a level: a visual factor of one, in thousandths.
pub const FULL_SIZE: i64 = 1000;

/// The hole-capture shrink animation, made explicit instead of being read off
/// a zero shake vector: while it runs it carries the current jitter offset.
#[derive(Clone, Copy, PartialEq, Eq, Structural, Debug)]
pub enum CaptureAnim {
    Idle,
    Capturing { shake: Vec2 },
}

impl CaptureAnim {
    /// The visual jitter offset: zero whenever no capture animation runs.
    pub open spec fn shake_spec(self) -> Vec2 {
        match self {
            CaptureAnim::Idle => Vec2 { x: 0, y: 0 },
            CaptureAnim::Capturing { shake } => shake,
        }
    }

    pub open spec fn wf(self) -> bool {
        match self {
            CaptureAnim::Idle => true,
            CaptureAnim::Capturing { shake } =>
                -10_000 <= shake.x <= 10_000 && -10_000 <= shake.y <= 10_000,
        }
    }
}

/// The ball: its motion state, its aim while charging, and the purely
/// cosmetic fields the renderer reads.
pub struct Player {
    /// Ball position in milli-units.
    pub position: Vec2,
    /// Speed in milli-units per second; never negative, zero means at rest.
    pub velocity: i64,
    /// Facing direction while aiming: a milli-scaled unit vector from the
    /// ball toward the pointer, updated every tick the button is held.
    pub aim: Vec2,
    /// Travel direction: a milli-scaled unit vector fixed at launch and only
    /// flipped axis-wise by bounces.
    pub anglevec: Vec2,
    /// Pointer position at the moment of the last launch; only feeds the
    /// velocity decay and the velocity-bar normalization.
    pub mouse_pos_when_shot: Vec2,
    /// Ball position at the moment of the last launch; only feeds the
    /// velocity-bar normalization.
    pub pos_before_shot: Vec2,
    /// Visual scale in thousandths: `FULL_SIZE` down to 200 while captured.
    pub size: i64,
    /// State of the capture shrink animation.
    pub capture_anim: CaptureAnim,
}

/// The target of the current level.
pub struct Hole {
    pub position: Vec2,
}

/// One full game session: ball, hole, level layout, input latches and the
/// progress counters. The screen extent is fixed at construction.
pub struct MainState {
    pub player: Player,
    pub hole: Hole,
    /// Whether the launch button is currently held with the ball at rest.
    pub holding_lmb: bool,
    /// Charge magnitude: the launch speed a release right now would give.
    pub mousevel_buildup: i64,
    /// Current level ordinal, 0 through 6; 0 is the initial default layout.
    pub level: i32,
    /// Obstacle anchor positions of the current level.
    pub obstacle_cords: Vec<Vec2>,
    /// Size class per obstacle, in lock-step with `obstacle_cords`: 32 for
    /// the 32x34 footprint, 64 for the 64x67 one.
    pub obstacle_size: Vec<i32>,
    /// Total strokes over the whole session.
    pub strokes: i64,
    /// Set once the last level's hole has been taken; terminal.
    pub completed: bool,
    /// Whether the ball is within capture distance of the hole, refreshed
    /// every simulation tick.
    pub hit_hole: bool,
    /// Screen width in milli-units.
    pub screen_w: i64,
    /// Screen height in milli-units.
    pub screen_h: i64,
}

/// The mathematical value of a whole session: the engine's transition
/// contracts are stated over this flat model, with unbounded integers for
/// scalars and sequences for the obstacle lists.
#[verifier::ext_equal]
pub struct GameModel {
    pub position: Vec2,
    pub velocity: int,
    pub aim: Vec2,
    pub anglevec: Vec2,
    pub mouse_pos_when_shot: Vec2,
    pub pos_before_shot: Vec2,
    pub size: int,
    pub capture_anim: CaptureAnim,
    pub hole: Vec2,
    pub holding_lmb: bool,
    pub mousevel_buildup: int,
    pub level: int,
    pub cords: Seq<Vec2>,
    pub sizes: Seq<i32>,
    pub strokes: int,
    pub completed: bool,
    pub hit_hole: bool,
    pub screen_w: int,
    pub screen_h: int,
}

/// A milli-scaled direction component never exceeds one unit in magnitude.
pub open spec fn dir_bounded(v: Vec2) -> bool {
    -DIR_ONE <= v.x <= DIR_ONE && -DIR_ONE <= v.y <= DIR_ONE
}

impl Player {
    pub open spec fn wf(self) -> bool {
        &&& self.position.in_bounds()
        &&& 0 <= self.velocity <= VEL_LIMIT
        &&& dir_bounded(self.aim)
        &&& dir_bounded(self.anglevec)
        &&& self.mouse_pos_when_shot.in_bounds()
        &&& self.pos_before_shot.in_bounds()
        &&& 0 <= self.size <= FULL_SIZE
        &&& self.capture_anim.wf()
    }
}

impl MainState {
    /// Well-formedness: every engine operation requires and preserves it.
    pub open spec fn wf(self) -> bool {
        &&& self.player.wf()
        &&& self.hole.position.in_bounds()
        &&& 0 <= self.mousevel_buildup <= VEL_LIMIT
        &&& 0 <= self.level <= 6
        &&& self.obstacle_cords@.len() == self.obstacle_size@.len()
        &&& forall|i: int| 0 <= i < self.obstacle_cords@.len()
                ==> self.obstacle_cords@[i].in_bounds()
        &&& forall|i: int| 0 <= i < self.obstacle_size@.len()
                ==> (self.obstacle_size@[i] == 32 || self.obstacle_size@[i] == 64)
        &&& 0 <= self.strokes
        &&& 0 <= self.screen_w <= COORD_LIMIT
        &&& 0 <= self.screen_h <= COORD_LIMIT
    }

    /// The session's mathematical value.
    pub open spec fn model(self) -> GameModel {
        GameModel {
            position: self.player.position,
            velocity: self.player.velocity as int,
            aim: self.player.aim,
            anglevec: self.player.anglevec,
            mouse_pos_when_shot: self.player.mouse_pos_when_shot,
            pos_before_shot: self.player.pos_before_shot,
            size: self.player.size as int,
            capture_anim: self.player.capture_anim,
            hole: self.hole.position,
            holding_lmb: self.holding_lmb,
            mousevel_buildup: self.mousevel_buildup as int,
            level: self.level as int,
            cords: self.obstacle_cords@,
            sizes: self.obstacle_size@,
            strokes: self.strokes as int,
            completed: self.completed,
            hit_hole: self.hit_hole,
            screen_w: self.screen_w as int,
            screen_h: self.screen_h as int,
        }
    }

    /// Default ball start for the initial layout: screen center, 150 units down.
    pub open spec fn default_start(screen_w: int, screen_h: int) -> Vec2 {
        Vec2 { x: (screen_w / 2) as i64, y: (screen_h / 2 + 150_000) as i64 }
    }

    /// Default hole position for the initial layout: screen center, 150 units up.
    pub open spec fn default_hole(screen_w: int, screen_h: int) -> Vec2 {
        Vec2 { x: (screen_w / 2) as i64, y: (screen_h / 2 - 150_000) as i64 }
    }

    /// A fresh session on the default layout: ball at rest below the center,
    /// hole above it, no obstacles, level 0, no strokes.
    pub fn new(screen_w: i64, screen_h: i64) -> (s: MainState)
        requires
            0 <= screen_w <= COORD_LIMIT,
            0 <= screen_h <= COORD_LIMIT,
        ensures
            s.wf(),
            s.player.position == Self::default_start(screen_w as int, screen_h as int),
            s.player.velocity == 0,
            s.player.aim == (Vec2 { x: 0, y: DIR_ONE }),
            s.player.anglevec == (Vec2 { x: 0, y: 0 }),
            s.player.mouse_pos_when_shot == (Vec2 { x: 0, y: 0 }),
            s.player.pos_before_shot == (Vec2 { x: 0, y: 0 }),
            s.player.size == FULL_SIZE,
            s.player.capture_anim == CaptureAnim::Idle,
            s.hole.position == Self::default_hole(screen_w as int, screen_h as int),
            !s.holding_lmb,
            s.mousevel_buildup == 0,
            s.level == 0,
            s.obstacle_cords@ =~= Seq::<Vec2>::empty(),
            s.obstacle_size@ =~= Seq::<i32>::empty(),
            s.strokes == 0,
            !s.completed,
            !s.hit_hole,
            s.screen_w == screen_w,
            s.screen_h == screen_h,
    {
        let half_w: i64 = screen_w / 2;
        let half_h: i64 = screen_h / 2;
        MainState {
            player: Player {
                position: Vec2 { x: half_w, y: half_h + 150_000 },
                velocity: 0,
                aim: Vec2 { x: 0, y: DIR_ONE },
                anglevec: Vec2 { x: 0, y: 0 },
                mouse_pos_when_shot: Vec2 { x: 0, y: 0 },
                pos_before_shot: Vec2 { x: 0, y: 0 },
                size: FULL_SIZE,
                capture_anim: CaptureAnim::Idle,
            },
            hole: Hole { position: Vec2 { x: half_w, y: half_h - 150_000 } },
            holding_lmb: false,
            mousevel_buildup: 0,
            level: 0,
            obstacle_cords: Vec::new(),
            obstacle_size: Vec::new(),
            strokes: 0,
            completed: false,
            hit_hole: false,
            screen_w,
            screen_h,
        }
    }
}

/// What the renderer draws the ball at: the position offset by the capture
/// jitter; the jitter never feeds back into the physics.
pub open spec fn render_pos_spec(m: GameModel) -> Vec2 {
    Vec2 {
        x: (m.position.x - m.capture_anim.shake_spec().x) as i64,
        y: (m.position.y - m.capture_anim.shake_spec().y) as i64,
    }
}

/// Fill fraction of the charge bar, in thousandths: the charge against a
/// full bar worth 32 units of speed, clamped to a full bar.
pub open spec fn charge_fraction_spec(m: GameModel) -> int {
    let f = m.mousevel_buildup / 32;
    if f > 1000 {
        1000
    } else if f < 0 {
        0
    } else {
        f
    }
}

/// Fill fraction of the post-launch velocity bar, in thousandths: current
/// velocity against the launch speed the shot anchors give back, clamped to
/// a full bar, and a full bar when that reference speed is zero.
pub open spec fn velocity_fraction_spec(m: GameModel) -> int {
    let full = crate::mathfuncs::speed_spec(m.mouse_pos_when_shot, m.pos_before_shot, 1500);
    if full <= 0 {
        1000
    } else {
        let f = m.velocity * 1000 / full;
        if f > 1000 {
            1000
        } else if f < 0 {
            0
        } else {
            f
        }
    }
}

impl MainState {
    /// Ball position for the renderer, jitter applied.
    pub fn render_position(&self) -> (r: Vec2)
        requires
            self.wf(),
        ensures
            r == render_pos_spec(self.model()),
    {
        match self.player.capture_anim {
            CaptureAnim::Idle => self.player.position,
            CaptureAnim::Capturing { shake } => Vec2 {
                x: self.player.position.x - shake.x,
                y: self.player.position.y - shake.y,
            },
        }
    }

    /// Charge-bar fill in thousandths.
    pub fn charge_fraction_milli(&self) -> (r: i64)
        requires
            self.wf(),
        ensures
            r == charge_fraction_spec(self.model()),
            0 <= r <= 1000,
    {
        let f: i64 = self.mousevel_buildup / 32;
        if f > 1000 {
            1000
        } else {
            f
        }
    }

    /// Velocity-bar fill in thousandths.
    pub fn velocity_fraction_milli(&self) -> (r: i64)
        requires
            self.wf(),
        ensures
            r == velocity_fraction_spec(self.model()),
            0 <= r <= 1000,
    {
        let full: i64 = crate::mathfuncs::get_distance(
            self.player.mouse_pos_when_shot, self.player.pos_before_shot, 1500);
        if full <= 0 {
            1000
        } else {
            let f: i64 = (self.player.velocity * 1000) / full;
            if f > 1000 {
                1000
            } else {
                f
            }
        }
    }
}

} // verus!
