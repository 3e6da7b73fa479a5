//! Per-tick input systems: the slingshot controller, the right-button
//! camera pan, and the debug grid geometry.
//!
//! The slingshot maps the pointer drag to the bird: while the left button
//! is held the bird follows the clamped drag vector with its velocity
//! zeroed; the moment the button is released the opposite of the drag
//! vector, scaled to physics units, becomes a one-time impulse and the
//! controller goes inert until restart.

use vstd::prelude::*;
use crate::geom::COORD_LIMIT;
use crate::geom::Vec2i;
use crate::geom::clamp_length;
use crate::geom::clamp_pre;
use crate::geom::clamp_spec;
use crate::geom::div_trunc;
use crate::geom::div_trunc_i64;
use crate::geom::lemma_clamp_length_bounded;
use crate::geom::lemma_div_trunc_bound;
use crate::geom::lemma_square_monotone;
use crate::geom::mul_div_trunc;
use crate::resources::BirdState;

verus! {

/// How far (in milli-units) the bird can be drawn from the anchor.
pub const SLINGSHOT_MAX_DIST: i64 = 120_000;

/// Conversion from drawn distance to impulse strength.
pub const PIXEL_PHYSIC_SCALE: i64 = 10_000;

/// What the slingshot asks of the bird body on one tick.
#[derive(Clone, Copy, PartialEq, Eq, Structural, Debug)]
pub enum SlingshotAction {
    /// Leave the body alone.
    Idle,
    /// Hold the body at `position` with zero velocity and zero pending
    /// impulse; the aiming guide runs from the anchor to `aim_to`.
    Hold { position: Vec2i, aim_to: Vec2i },
    /// Apply `impulse` once and give the physics engine full control.
    Launch { impulse: Vec2i },
}

/// The drag vector for a cursor: the offset from the anchor, length-capped
/// at the draw limit.
pub open spec fn drag_of(anchor: Vec2i, c: Vec2i) -> crate::geom::Frac2 {
    clamp_spec(
        Vec2i { x: (c.x - anchor.x) as i64, y: (c.y - anchor.y) as i64 },
        SLINGSHOT_MAX_DIST,
    )
}

/// One slingshot tick as a mathematical transition: the next state and
/// the action requested of the bird body.
///
/// A launched controller, or one without a cursor, does nothing. With the
/// button held the bird is placed at the anchor plus the (truncated) drag
/// vector. When the button goes up during a drag, the opposite of the
/// drag vector, scaled by `PIXEL_PHYSIC_SCALE`, is launched.
pub open spec fn slingshot_step(
    s: BirdState,
    anchor: Vec2i,
    cursor: Option<Vec2i>,
    left_pressed: bool,
    left_just_released: bool,
) -> (BirdState, SlingshotAction) {
    if s.launched {
        (s, SlingshotAction::Idle)
    } else if cursor is None {
        (s, SlingshotAction::Idle)
    } else {
        let c = cursor.unwrap();
        let drag = drag_of(anchor, c);
        let dx = div_trunc(drag.nx as int, drag.den as int);
        let dy = div_trunc(drag.ny as int, drag.den as int);
        if left_pressed {
            (
                BirdState { dragging: true, launched: false },
                SlingshotAction::Hold {
                    position: Vec2i { x: (anchor.x + dx) as i64, y: (anchor.y + dy) as i64 },
                    aim_to: Vec2i { x: (anchor.x - dx) as i64, y: (anchor.y - dy) as i64 },
                },
            )
        } else if s.dragging && left_just_released {
            (
                BirdState { dragging: false, launched: true },
                SlingshotAction::Launch {
                    impulse: Vec2i {
                        x: (-div_trunc(drag.nx * PIXEL_PHYSIC_SCALE, drag.den as int)) as i64,
                        y: (-div_trunc(drag.ny * PIXEL_PHYSIC_SCALE, drag.den as int)) as i64,
                    },
                },
            )
        } else {
            (s, SlingshotAction::Idle)
        }
    }
}

/// Each clamped component is at most `max` times the denominator in
/// magnitude.
proof fn lemma_drag_component_bounds(v: Vec2i, max: i64)
    requires
        clamp_pre(v, max),
    ensures
        ({
            let r = clamp_spec(v, max);
            &&& r.den >= 1
            &&& -max * r.den <= r.nx <= max * r.den
            &&& -max * r.den <= r.ny <= max * r.den
        }),
{
    lemma_clamp_length_bounded(v, max);
    let r = clamp_spec(v, max);
    assert(r.nx * r.nx >= 0) by (nonlinear_arith);
    assert(r.ny * r.ny >= 0) by (nonlinear_arith);
    assert(r.nx * r.nx <= (max * r.den) * (max * r.den)) by (nonlinear_arith)
        requires
            r.nx * r.nx + r.ny * r.ny <= (max * max) * (r.den * r.den),
            r.ny * r.ny >= 0,
    ;
    assert(r.ny * r.ny <= (max * r.den) * (max * r.den)) by (nonlinear_arith)
        requires
            r.nx * r.nx + r.ny * r.ny <= (max * max) * (r.den * r.den),
            r.nx * r.nx >= 0,
    ;
    assert(max * r.den >= 0) by (nonlinear_arith)
        requires
            0 <= max,
            r.den >= 1,
    ;
    lemma_abs_le_of_sq_le(r.nx as int, max * r.den);
    lemma_abs_le_of_sq_le(r.ny as int, max * r.den);
    assert((-max) * r.den == -(max * r.den)) by (nonlinear_arith);
}

/// If `a * a <= c * c` with `c` nonnegative then `|a| <= c`.
proof fn lemma_abs_le_of_sq_le(a: int, c: int)
    requires
        a * a <= c * c,
        c >= 0,
    ensures
        -c <= a <= c,
{
    if a > c {
        lemma_square_monotone(c, a);
        assert(a * a <= c * c && c * c <= a * a);
        assert(a * a == c * c);
        assert(false) by (nonlinear_arith)
            requires
                a > c >= 0,
                a * a == c * c,
        ;
    }
    if a < -c {
        lemma_square_monotone(c, -a);
        assert((-a) * (-a) == a * a) by (nonlinear_arith);
        assert(a * a == c * c);
        assert(false) by (nonlinear_arith)
            requires
                -a > c >= 0,
                (-a) * (-a) == c * c,
        ;
    }
}

/// One slingshot tick over the current input, following `slingshot_step`
/// exactly.
pub fn bird_slingshot(
    state: &mut BirdState,
    anchor: Vec2i,
    cursor: Option<Vec2i>,
    left_pressed: bool,
    left_just_released: bool,
) -> (action: SlingshotAction)
    requires
        old(state).wf(),
        anchor.wf(),
        cursor matches Some(c) ==> c.wf(),
    ensures
        ({
            let (s2, a2) = slingshot_step(
                *old(state),
                anchor,
                cursor,
                left_pressed,
                left_just_released,
            );
            *final(state) == s2 && action == a2
        }),
        final(state).wf(),
        old(state).launched ==> *final(state) == *old(state) && action == SlingshotAction::Idle,
{
    if state.launched {
        return SlingshotAction::Idle;
    }
    let c = match cursor {
        Some(c) => c,
        None => {
            return SlingshotAction::Idle;
        },
    };
    let v = c.sub(anchor);
    let drag = clamp_length(v, SLINGSHOT_MAX_DIST);
    proof {
        lemma_drag_component_bounds(v, SLINGSHOT_MAX_DIST);
    }
    if left_pressed {
        state.dragging = true;
        let dx = div_trunc_i64(drag.nx, drag.den);
        let dy = div_trunc_i64(drag.ny, drag.den);
        proof {
            lemma_div_trunc_bound(drag.nx as int, drag.den as int, SLINGSHOT_MAX_DIST as int);
            lemma_div_trunc_bound(drag.ny as int, drag.den as int, SLINGSHOT_MAX_DIST as int);
        }
        SlingshotAction::Hold {
            position: Vec2i { x: anchor.x + dx, y: anchor.y + dy },
            aim_to: Vec2i { x: anchor.x - dx, y: anchor.y - dy },
        }
    } else if state.dragging && left_just_released {
        state.dragging = false;
        state.launched = true;
        proof {
            assert(SLINGSHOT_MAX_DIST * drag.den <= COORD_LIMIT * drag.den) by (nonlinear_arith)
                requires
                    drag.den >= 1,
                    0 < SLINGSHOT_MAX_DIST <= COORD_LIMIT,
            ;
        }
        let qx = mul_div_trunc(drag.nx, PIXEL_PHYSIC_SCALE, drag.den);
        let qy = mul_div_trunc(drag.ny, PIXEL_PHYSIC_SCALE, drag.den);
        SlingshotAction::Launch { impulse: Vec2i { x: -qx, y: -qy } }
    } else {
        SlingshotAction::Idle
    }
}

/// Releasing the button during a drag always launches: the next state has
/// `launched` set and `dragging` cleared, and the action is a launch.
pub proof fn lemma_release_launches(
    s: BirdState,
    anchor: Vec2i,
    cursor: Option<Vec2i>,
    left_pressed: bool,
    left_just_released: bool,
)
    requires
        s.wf(),
        s.dragging,
        !left_pressed,
        left_just_released,
        cursor is Some,
    ensures
        ({
            let (s2, a2) = slingshot_step(s, anchor, cursor, left_pressed, left_just_released);
            &&& s2.launched
            &&& !s2.dragging
            &&& a2 is Launch
        }),
{
}

/// Once launched, the controller is inert: no input changes the state or
/// touches the bird until restart.
pub proof fn lemma_launched_is_inert(
    s: BirdState,
    anchor: Vec2i,
    cursor: Option<Vec2i>,
    left_pressed: bool,
    left_just_released: bool,
)
    requires
        s.launched,
    ensures
        slingshot_step(s, anchor, cursor, left_pressed, left_just_released) == (
            s,
            SlingshotAction::Idle,
        ),
{
}

/// One camera-pan tick: while the right button is held and a cursor is
/// present, the camera moves opposite the pointer's horizontal motion and
/// with its vertical motion (screen coordinates grow downward); the
/// cursor is remembered for the next tick. Releasing the button forgets
/// the remembered position.
pub fn camera_drag(
    cam: Vec2i,
    last_pos: Option<Vec2i>,
    cursor: Option<Vec2i>,
    right_pressed: bool,
) -> (r: (Vec2i, Option<Vec2i>))
    requires
        cam.wf(),
        last_pos matches Some(l) ==> l.wf(),
        cursor matches Some(c) ==> c.wf(),
    ensures
        !right_pressed ==> r == (cam, None::<Vec2i>),
        right_pressed && cursor is None ==> r == (cam, last_pos),
        right_pressed && cursor is Some && last_pos is None ==> r == (cam, cursor),
        (right_pressed && cursor is Some && last_pos is Some) ==> ({
            let c = cursor.unwrap();
            let l = last_pos.unwrap();
            &&& r.0.x == cam.x - (c.x - l.x)
            &&& r.0.y == cam.y + (c.y - l.y)
            &&& r.1 == cursor
        }),
{
    if !right_pressed {
        return (cam, None);
    }
    let c = match cursor {
        Some(c) => c,
        None => {
            return (cam, last_pos);
        },
    };
    match last_pos {
        Some(l) => {
            let dx = c.x - l.x;
            let dy = c.y - l.y;
            (Vec2i { x: cam.x - dx, y: cam.y + dy }, Some(c))
        },
        None => (cam, Some(c)),
    }
}

/// Spacing of the debug grid in milli-units.
pub const GRID_CELL_MILLI: i64 = 50_000;

/// The debug grid for the given world bounds: one vertical line every
/// grid cell from `x = 0` across the world's width, running from `y = 0`
/// down to `y = -height`, then one horizontal line every grid cell from
/// `y = 0` down to `y = -height`, running from `x = 0` to `x = width`
/// (widths taken directly from the bounds, in milli-units).
pub fn draw_grid(world_bound: [i32; 4]) -> (lines: Vec<(Vec2i, Vec2i)>)
    requires
        0 <= world_bound@[0] <= world_bound@[2] <= 40_000,
        0 <= world_bound@[1] <= world_bound@[3] <= 40_000,
    ensures
        ({
            let w = (world_bound@[2] - world_bound@[0]) * 1000;
            let h = (world_bound@[3] - world_bound@[1]) * 1000;
            let vcount = w / (GRID_CELL_MILLI as int);
            let hcount = h / (GRID_CELL_MILLI as int);
            &&& lines@.len() == vcount + hcount + 2
            &&& forall|k: int|
                0 <= k <= vcount ==> lines@[k] == (
                    (Vec2i { x: (k * GRID_CELL_MILLI) as i64, y: 0 }),
                    (Vec2i { x: (k * GRID_CELL_MILLI) as i64, y: (-h) as i64 }),
                )
            &&& forall|j: int|
                0 <= j <= hcount ==> #[trigger] lines@[vcount + 1 + j] == (
                    (Vec2i { x: 0, y: (-(j * GRID_CELL_MILLI)) as i64 }),
                    (Vec2i { x: w as i64, y: (-(j * GRID_CELL_MILLI)) as i64 }),
                )
        }),
{
    let w: i64 = ((world_bound[2] as i64) - (world_bound[0] as i64)) * 1000;
    let h: i64 = ((world_bound[3] as i64) - (world_bound[1] as i64)) * 1000;
    let vcount: u64 = (w as u64) / (GRID_CELL_MILLI as u64);
    let hcount: u64 = (h as u64) / (GRID_CELL_MILLI as u64);
    proof {
        vstd::arithmetic::div_mod::lemma_div_nonincreasing(w as int, GRID_CELL_MILLI as int);
        vstd::arithmetic::div_mod::lemma_div_nonincreasing(h as int, GRID_CELL_MILLI as int);
        vstd::arithmetic::div_mod::lemma_div_pos_is_pos(w as int, GRID_CELL_MILLI as int);
        vstd::arithmetic::div_mod::lemma_div_pos_is_pos(h as int, GRID_CELL_MILLI as int);
    }
    let mut lines: Vec<(Vec2i, Vec2i)> = Vec::new();
    let mut k: u64 = 0;
    while k <= vcount
        invariant
            vcount <= 40_000_000,
            0 <= w <= 40_000_000,
            0 <= h <= 40_000_000,
            k <= vcount + 1,
            lines@.len() == k,
            forall|t: int|
                0 <= t < k ==> lines@[t] == (
                    (Vec2i { x: (t * GRID_CELL_MILLI) as i64, y: 0 }),
                    (Vec2i { x: (t * GRID_CELL_MILLI) as i64, y: (-h) as i64 }),
                ),
        decreases vcount + 1 - k,
    {
        let x: i64 = (k as i64) * GRID_CELL_MILLI;
        lines.push((Vec2i { x, y: 0 }, Vec2i { x, y: -h }));
        k = k + 1;
    }
    let base: usize = lines.len();
    let mut j: u64 = 0;
    while j <= hcount
        invariant
            vcount <= 40_000_000,
            hcount <= 40_000_000,
            0 <= w <= 40_000_000,
            0 <= h <= 40_000_000,
            base == vcount + 1,
            j <= hcount + 1,
            lines@.len() == base + j,
            forall|t: int|
                0 <= t < base ==> lines@[t] == (
                    (Vec2i { x: (t * GRID_CELL_MILLI) as i64, y: 0 }),
                    (Vec2i { x: (t * GRID_CELL_MILLI) as i64, y: (-h) as i64 }),
                ),
            forall|t: int|
                0 <= t < j ==> #[trigger] lines@[base + t] == (
                    (Vec2i { x: 0, y: (-(t * GRID_CELL_MILLI)) as i64 }),
                    (Vec2i { x: w as i64, y: (-(t * GRID_CELL_MILLI)) as i64 }),
                ),
        decreases hcount + 1 - j,
    {
        let y: i64 = -((j as i64) * GRID_CELL_MILLI);
        lines.push((Vec2i { x: 0, y }, Vec2i { x: w, y }));
        j = j + 1;
    }
    lines
}

} // verus!
