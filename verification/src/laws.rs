use vstd::prelude::*;
use crate::mathfuncs::{Vec2, dist2, dist_milli, sqrt_floor, lemma_sqrt_floor};
use crate::state::{MainState, GameModel, CaptureAnim, FULL_SIZE, dir_bounded};
use crate::engine::{border_bounce, hole_capture, tick_spec, release_spec, capture_phase};

verus! {

/// The obstacle list and the size-class list of a well-formed session have
/// the same length, on every level and at every tick.
pub proof fn lemma_obstacle_lists_aligned(s: MainState)
    requires
        s.wf(),
    ensures
        s.obstacle_cords@.len() == s.obstacle_size@.len(),
{
}

/// A simulation tick never leaves the velocity negative: decay that would
/// overshoot clamps at zero, and every other branch keeps it nonnegative.
pub proof fn lemma_tick_velocity_nonneg(m: GameModel, mouse: Vec2, lmb_down: bool)
    requires
        m.velocity >= 0,
    ensures
        tick_spec(m, mouse, lmb_down).0.velocity >= 0,
{
}

/// The ball is captured exactly when the distance between ball center and
/// hole center is below the sum of the two radii, 32 units.
pub proof fn lemma_capture_iff_distance(p: Vec2, h: Vec2)
    requires
        p.in_bounds(),
        h.in_bounds(),
    ensures
        hole_capture(p, h) <==> dist_milli(p, h) < 32_000,
{
    let n = dist2(p, h);
    assert(n >= 0) by (nonlinear_arith)
        requires n == (p.x - h.x) * (p.x - h.x) + (p.y - h.y) * (p.y - h.y);
    lemma_sqrt_floor(n);
    let s = sqrt_floor(n);
    if s >= 32_000 {
        assert(n >= 32_000 * 32_000) by (nonlinear_arith)
            requires s >= 32_000, s * s <= n;
    }
    if s < 32_000 {
        assert(n < 32_000 * 32_000) by (nonlinear_arith)
            requires 0 <= s < 32_000, n < (s + 1) * (s + 1);
    }
}

/// The border bounce is idempotent: a ball that stays past the same margin
/// has its direction sign forced once, and a second application with the
/// same position changes nothing, so the direction cannot oscillate while
/// the ball sits at the margin.
pub proof fn lemma_border_bounce_idempotent(pos: Vec2, screen_w: int, screen_h: int, dir: Vec2)
    requires
        dir_bounded(dir),
    ensures
        border_bounce(pos, screen_w, screen_h, border_bounce(pos, screen_w, screen_h, dir))
            == border_bounce(pos, screen_w, screen_h, dir),
{
}

/// The capture animation's course: the capture sound fires exactly on its
/// first tick; above a fifth of full scale, each captured tick shrinks the
/// ball by exactly 20 thousandths and the level stands still; at or below
/// that scale the level advances by one, scale restored, or the game
/// completes on the last level.
pub proof fn lemma_capture_progression(m: GameModel)
    ensures
        capture_phase(m).1 <==> m.capture_anim == CaptureAnim::Idle,
        m.size > 200 ==> {
            &&& capture_phase(m).0.size == m.size - 20
            &&& capture_phase(m).0.level == m.level
            &&& capture_phase(m).0.completed == m.completed
        },
        m.size <= 200 && m.level == 6 ==> {
            &&& capture_phase(m).0.completed
            &&& capture_phase(m).0.level == m.level
        },
        m.size <= 200 && m.level != 6 ==> {
            &&& capture_phase(m).0.level == m.level + 1
            &&& capture_phase(m).0.size == FULL_SIZE
            &&& capture_phase(m).0.completed == m.completed
        },
        capture_phase(m).0.velocity == 0,
{
}

/// The stroke count goes up by exactly one on a release with positive
/// charge while the ball rests uncaptured, and stays unchanged on any other
/// release; nothing else ever changes it.
pub proof fn lemma_stroke_increment(m: GameModel, mouse: Vec2, lmb_down: bool)
    ensures
        release_spec(m, mouse).1
            <==> m.mousevel_buildup > 0 && m.velocity <= 0 && !m.hit_hole,
        release_spec(m, mouse).1 ==> release_spec(m, mouse).0.strokes == m.strokes + 1,
        !release_spec(m, mouse).1 ==> release_spec(m, mouse).0.strokes == m.strokes,
        tick_spec(m, mouse, lmb_down).0.strokes == m.strokes,
{
}

} // verus!
