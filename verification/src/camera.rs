//! Camera state: first-person orientation and position.
//!
//! Angles are millidegrees. The yaw is kept wrapped into a full turn
//! and the pitch clamped to just short of straight up or down; both
//! facts are invariants of `Camera` and hold after any sequence of
//! updates. Positions are fixed-point milli world units.
//!
//! The camera-relative movement frame (forward/right/up) is a function
//! of the angles through the sine and cosine; the platform layer
//! evaluates it and hands it in as a `CameraBasis`, and every movement
//! contract here is exact in terms of that basis. The GPU view and
//! projection matrices of an arbitrary camera are likewise derived by
//! the platform layer from the fields modelled here.

use vstd::prelude::*;

verus! {

use crate::math::{
    Vec3, MILLI, FULL_TURN_MDEG, ANGLE_LIMIT_MDEG, spec_wrap_mdeg, wrap_mdeg, spec_clamp,
    clamp_i64, spec_div_trunc, div_trunc, spec_min, lemma_abs_mul_le,
};
use vstd::arithmetic::div_mod::{lemma_div_is_ordered, lemma_div_by_multiple, lemma_div_pos_is_pos};

/// Near plane distance of every projection, in world units.
pub const NEAR_PLANE: i64 = 1;

/// Far plane distance of every projection, in world units.
pub const FAR_PLANE: i64 = 3000;

/// The pitch is clamped to this magnitude, in millidegrees.
pub const PITCH_LIMIT_MDEG: i64 = 89000;

/// Magnitude bound on each camera position component, in milli units.
pub const POSITION_LIMIT_MILLI: i64 = 1000000000000;

/// Bound on the accumulated mouse deltas held by the controller.
pub const MOUSE_DELTA_LIMIT: i64 = 1000000;

/// Bound on a single mouse motion event.
pub const MOUSE_EVENT_LIMIT: i64 = 100000;

/// Bound on the mouse sensitivity, in milli.
pub const SENSITIVITY_LIMIT_MILLI: i64 = 1000000;

/// Bound on the movement speed, in milli world units per second.
pub const SPEED_MAX_MILLI: i64 = 10000000;

/// Bound on the frame time handed to an update, in milliseconds.
pub const DT_LIMIT_MS: u64 = 60000;

/// Magnitude bound on the components of a movement basis vector.
pub const BASIS_LIMIT_MILLI: i64 = 2000;

/// Numerator of the millidegrees-per-count mouse scale.
pub const MOUSE_MDEG_NUM: i64 = 22;

/// Denominator of the millidegrees-per-count mouse scale.
pub const MOUSE_MDEG_DEN: i64 = 1000;

/// Perspective projection parameters. The aspect ratio is carried as
/// the exact viewport pair `width / height`.
#[derive(Clone, Copy, Debug, PartialEq, Eq, Structural)]
pub struct PerspectiveProjection {
    pub width: u32,
    pub height: u32,
    pub fovy_mdeg: i64,
    pub znear: i64,
    pub zfar: i64,
}

impl PerspectiveProjection {
    /// Valid projection parameters.
    pub open spec fn wf(self) -> bool {
        &&& self.width > 0
        &&& self.height > 0
        &&& 0 < self.znear < self.zfar
        &&& 0 < self.fovy_mdeg < crate::math::HALF_TURN_MDEG
    }

    /// Adopts a new viewport size; the other parameters are unchanged.
    pub fn resize(&mut self, width: u32, height: u32)
        requires
            width > 0,
            height > 0,
        ensures
            final(self).width == width,
            final(self).height == height,
            final(self).fovy_mdeg == old(self).fovy_mdeg,
            final(self).znear == old(self).znear,
            final(self).zfar == old(self).zfar,
    {
        self.width = width;
        self.height = height;
    }
}

/// One-shot and held input state feeding the camera each tick.
///
/// The `move_*` fields are `MILLI` while the key is held and 0
/// otherwise; `deltax` and `deltay` accumulate mouse counts until an
/// update consumes them.
#[derive(Clone, Copy, Debug, PartialEq, Eq, Structural)]
pub struct CameraController {
    pub speed_milli: i64,
    pub sensitivity_milli: i64,
    pub move_forward: i64,
    pub move_backward: i64,
    pub move_left: i64,
    pub move_right: i64,
    pub move_up: i64,
    pub move_down: i64,
    pub deltax: i64,
    pub deltay: i64,
}

/// A camera-relative movement axis selected by a held key.
#[derive(Clone, Copy, Debug, PartialEq, Eq, Structural)]
pub enum MoveDirection {
    Forward,
    Backward,
    Left,
    Right,
    Up,
    Down,
}

/// An input event already translated to plain values by the platform
/// layer. Events the camera does not consume arrive as `Other`.
#[derive(Clone, Copy, Debug, PartialEq, Eq, Structural)]
pub enum InputEvent {
    Move { dir: MoveDirection, pressed: bool },
    MouseDelta { dx: i64, dy: i64 },
    SpeedScroll { increase: bool },
    Other,
}

/// A held-key amount: fully held or released.
pub open spec fn is_move_amount(v: int) -> bool {
    v == 0 || v == MILLI
}

impl CameraController {
    /// Controller invariant: bounded speed, sensitivity and mouse
    /// accumulation, and two-state key amounts.
    pub open spec fn wf(self) -> bool {
        &&& 1 <= self.speed_milli <= SPEED_MAX_MILLI
        &&& 0 <= self.sensitivity_milli <= SENSITIVITY_LIMIT_MILLI
        &&& is_move_amount(self.move_forward as int)
        &&& is_move_amount(self.move_backward as int)
        &&& is_move_amount(self.move_left as int)
        &&& is_move_amount(self.move_right as int)
        &&& is_move_amount(self.move_up as int)
        &&& is_move_amount(self.move_down as int)
        &&& -MOUSE_DELTA_LIMIT <= self.deltax <= MOUSE_DELTA_LIMIT
        &&& -MOUSE_DELTA_LIMIT <= self.deltay <= MOUSE_DELTA_LIMIT
    }

    /// A fresh controller: no keys held, no pending mouse motion.
    pub fn new(speed_milli: i64, sensitivity_milli: i64) -> (c: CameraController)
        requires
            1 <= speed_milli <= SPEED_MAX_MILLI,
            0 <= sensitivity_milli <= SENSITIVITY_LIMIT_MILLI,
        ensures
            c.wf(),
            c.speed_milli == speed_milli,
            c.sensitivity_milli == sensitivity_milli,
            c.move_forward == 0 && c.move_backward == 0,
            c.move_left == 0 && c.move_right == 0,
            c.move_up == 0 && c.move_down == 0,
            c.deltax == 0 && c.deltay == 0,
    {
        CameraController {
            speed_milli,
            sensitivity_milli,
            move_forward: 0,
            move_backward: 0,
            move_left: 0,
            move_right: 0,
            move_up: 0,
            move_down: 0,
            deltax: 0,
            deltay: 0,
        }
    }

    /// Clears the one-shot mouse accumulation; clears the held-key
    /// amounts as well only when `held_keys` is set.
    pub fn reset(&mut self, held_keys: bool)
        ensures
            final(self).deltax == 0,
            final(self).deltay == 0,
            final(self).speed_milli == old(self).speed_milli,
            final(self).sensitivity_milli == old(self).sensitivity_milli,
            held_keys ==> final(self).move_forward == 0 && final(self).move_backward == 0
                && final(self).move_left == 0 && final(self).move_right == 0
                && final(self).move_up == 0 && final(self).move_down == 0,
            !held_keys ==> final(self).move_forward == old(self).move_forward
                && final(self).move_backward == old(self).move_backward
                && final(self).move_left == old(self).move_left
                && final(self).move_right == old(self).move_right
                && final(self).move_up == old(self).move_up
                && final(self).move_down == old(self).move_down,
            old(self).wf() ==> final(self).wf(),
    {
        if held_keys {
            self.move_forward = 0;
            self.move_backward = 0;
            self.move_left = 0;
            self.move_right = 0;
            self.move_up = 0;
            self.move_down = 0;
        }
        self.deltax = 0;
        self.deltay = 0;
    }

    /// The amount the given key contributes after an event with
    /// `pressed` set or cleared.
    pub open spec fn spec_amount(pressed: bool) -> int {
        if pressed {
            MILLI as int
        } else {
            0
        }
    }

    /// Applies one translated input event: key events set the matching
    /// held amount, mouse motion accumulates, a scroll doubles or
    /// halves the speed, and anything else is not handled.
    pub fn process_events(&mut self, ev: &InputEvent) -> (handled: bool)
        requires
            old(self).wf(),
            *ev matches InputEvent::MouseDelta { dx, dy } ==>
                -MOUSE_EVENT_LIMIT <= dx <= MOUSE_EVENT_LIMIT
                && -MOUSE_EVENT_LIMIT <= dy <= MOUSE_EVENT_LIMIT,
        ensures
            final(self).wf(),
            handled == !(*ev is Other),
            is_processed_controller(*final(self), *old(self), *ev),
    {
        match ev {
            InputEvent::Move { dir, pressed } => {
                let amount: i64 = if *pressed { MILLI } else { 0 };
                match dir {
                    MoveDirection::Forward => { self.move_forward = amount; }
                    MoveDirection::Backward => { self.move_backward = amount; }
                    MoveDirection::Left => { self.move_left = amount; }
                    MoveDirection::Right => { self.move_right = amount; }
                    MoveDirection::Up => { self.move_up = amount; }
                    MoveDirection::Down => { self.move_down = amount; }
                }
                true
            }
            InputEvent::MouseDelta { dx, dy } => {
                self.deltax = clamp_i64(self.deltax + *dx, -MOUSE_DELTA_LIMIT, MOUSE_DELTA_LIMIT);
                self.deltay = clamp_i64(self.deltay + *dy, -MOUSE_DELTA_LIMIT, MOUSE_DELTA_LIMIT);
                true
            }
            InputEvent::SpeedScroll { increase } => {
                if *increase {
                    if self.speed_milli <= SPEED_MAX_MILLI / 2 {
                        self.speed_milli = self.speed_milli * 2;
                    } else {
                        self.speed_milli = SPEED_MAX_MILLI;
                    }
                } else {
                    let halved: i64 = ((self.speed_milli as u64) / 2) as i64;
                    self.speed_milli = if halved < 1 { 1 } else { halved };
                }
                true
            }
            InputEvent::Other => false,
        }
    }
}

/// `c1` is `c0` after one input event: key events set the matching
/// held amount, mouse motion accumulates clamped into its range, a
/// scroll doubles or halves the speed within its range, and everything
/// else leaves the controller unchanged.
pub open spec fn is_processed_controller(c1: CameraController, c0: CameraController, ev: InputEvent) -> bool {
    &&& c1.speed_milli == (match ev {
        InputEvent::SpeedScroll { increase } => if increase {
            spec_min(c0.speed_milli * 2, SPEED_MAX_MILLI as int)
        } else {
            spec_clamp(c0.speed_milli / 2, 1, SPEED_MAX_MILLI as int)
        },
        _ => c0.speed_milli as int,
    })
    &&& c1.sensitivity_milli == c0.sensitivity_milli
    &&& c1.deltax == (match ev {
        InputEvent::MouseDelta { dx, .. } =>
            spec_clamp(c0.deltax + dx, -MOUSE_DELTA_LIMIT as int, MOUSE_DELTA_LIMIT as int),
        _ => c0.deltax as int,
    })
    &&& c1.deltay == (match ev {
        InputEvent::MouseDelta { dy, .. } =>
            spec_clamp(c0.deltay + dy, -MOUSE_DELTA_LIMIT as int, MOUSE_DELTA_LIMIT as int),
        _ => c0.deltay as int,
    })
    &&& c1.move_forward == (match ev {
        InputEvent::Move { dir: MoveDirection::Forward, pressed } => CameraController::spec_amount(pressed),
        _ => c0.move_forward as int,
    })
    &&& c1.move_backward == (match ev {
        InputEvent::Move { dir: MoveDirection::Backward, pressed } => CameraController::spec_amount(pressed),
        _ => c0.move_backward as int,
    })
    &&& c1.move_left == (match ev {
        InputEvent::Move { dir: MoveDirection::Left, pressed } => CameraController::spec_amount(pressed),
        _ => c0.move_left as int,
    })
    &&& c1.move_right == (match ev {
        InputEvent::Move { dir: MoveDirection::Right, pressed } => CameraController::spec_amount(pressed),
        _ => c0.move_right as int,
    })
    &&& c1.move_up == (match ev {
        InputEvent::Move { dir: MoveDirection::Up, pressed } => CameraController::spec_amount(pressed),
        _ => c0.move_up as int,
    })
    &&& c1.move_down == (match ev {
        InputEvent::Move { dir: MoveDirection::Down, pressed } => CameraController::spec_amount(pressed),
        _ => c0.move_down as int,
    })
}

/// The camera-relative frame for one tick, in milli units, supplied by
/// the platform layer from the camera's orientation.
#[derive(Clone, Copy, Debug, PartialEq, Eq, Structural)]
pub struct CameraBasis {
    pub forward: Vec3,
    pub right: Vec3,
    pub up: Vec3,
}

impl CameraBasis {
    /// All basis components are bounded.
    pub open spec fn wf(self) -> bool {
        &&& self.forward.bounded(BASIS_LIMIT_MILLI as int)
        &&& self.right.bounded(BASIS_LIMIT_MILLI as int)
        &&& self.up.bounded(BASIS_LIMIT_MILLI as int)
    }
}

/// The yaw change one update applies, in millidegrees.
pub open spec fn spec_yaw_delta_mdeg(c: CameraController) -> int {
    spec_div_trunc(c.deltax * c.sensitivity_milli * MOUSE_MDEG_NUM, MOUSE_MDEG_DEN as int)
}

/// The pitch change one update subtracts, in millidegrees.
pub open spec fn spec_pitch_delta_mdeg(c: CameraController) -> int {
    spec_div_trunc(c.deltay * c.sensitivity_milli * MOUSE_MDEG_NUM, MOUSE_MDEG_DEN as int)
}

/// The displacement one axis contributes to one position component:
/// basis component times held amount times speed times frame time,
/// scaled back from the three milli factors.
pub open spec fn spec_axis_disp(v: int, amount: int, speed: int, dt_ms: int) -> int {
    spec_div_trunc(v * amount * speed * dt_ms, 1000000000)
}

/// The first-person camera.
#[derive(Clone, Copy, Debug, PartialEq, Eq, Structural)]
pub struct Camera {
    pub position: Vec3,
    pub pitch_mdeg: i64,
    pub yaw_mdeg: i64,
    pub projection: PerspectiveProjection,
}

impl Camera {
    /// Camera invariant: canonical yaw, clamped pitch, bounded
    /// position, valid projection.
    pub open spec fn wf(self) -> bool {
        &&& 0 <= self.yaw_mdeg < FULL_TURN_MDEG
        &&& -PITCH_LIMIT_MDEG <= self.pitch_mdeg <= PITCH_LIMIT_MDEG
        &&& self.position.bounded(POSITION_LIMIT_MILLI as int)
        &&& self.projection.wf()
    }

    /// A camera at the given position and orientation, with the shared
    /// near and far planes.
    pub fn new(position: Vec3, pitch_mdeg: i64, yaw_mdeg: i64, fovy_mdeg: i64, width: u32, height: u32) -> (c: Camera)
        requires
            position.bounded(POSITION_LIMIT_MILLI as int),
            -PITCH_LIMIT_MDEG <= pitch_mdeg <= PITCH_LIMIT_MDEG,
            0 <= yaw_mdeg < FULL_TURN_MDEG,
            0 < fovy_mdeg < crate::math::HALF_TURN_MDEG,
            width > 0,
            height > 0,
        ensures
            c.wf(),
            c.position == position,
            c.pitch_mdeg == pitch_mdeg,
            c.yaw_mdeg == yaw_mdeg,
            c.projection.fovy_mdeg == fovy_mdeg,
            c.projection.width == width,
            c.projection.height == height,
            c.projection.znear == NEAR_PLANE,
            c.projection.zfar == FAR_PLANE,
    {
        Camera {
            position,
            pitch_mdeg,
            yaw_mdeg,
            projection: PerspectiveProjection {
                width,
                height,
                fovy_mdeg,
                znear: NEAR_PLANE,
                zfar: FAR_PLANE,
            },
        }
    }

    /// Turns the camera by the controller's accumulated mouse motion:
    /// the pitch moves opposite the vertical delta and is clamped, the
    /// yaw moves with the horizontal delta and is wrapped.
    pub fn apply_look(&mut self, c: &CameraController)
        requires
            old(self).wf(),
            c.wf(),
        ensures
            final(self).wf(),
            final(self).pitch_mdeg == spec_clamp(
                old(self).pitch_mdeg - spec_pitch_delta_mdeg(*c),
                -PITCH_LIMIT_MDEG as int,
                PITCH_LIMIT_MDEG as int,
            ),
            final(self).yaw_mdeg == spec_wrap_mdeg(old(self).yaw_mdeg + spec_yaw_delta_mdeg(*c)),
            final(self).position == old(self).position,
            final(self).projection == old(self).projection,
    {
        proof {
            lemma_abs_mul_le(c.deltax as int, c.sensitivity_milli as int,
                MOUSE_DELTA_LIMIT as int, SENSITIVITY_LIMIT_MILLI as int);
            lemma_abs_mul_le(c.deltay as int, c.sensitivity_milli as int,
                MOUSE_DELTA_LIMIT as int, SENSITIVITY_LIMIT_MILLI as int);
            crate::math::lemma_div_trunc_bound(
                c.deltax * c.sensitivity_milli * MOUSE_MDEG_NUM, MOUSE_MDEG_DEN as int, 22000000000);
            crate::math::lemma_div_trunc_bound(
                c.deltay * c.sensitivity_milli * MOUSE_MDEG_NUM, MOUSE_MDEG_DEN as int, 22000000000);
        }
        let pitch_delta: i64 = div_trunc(c.deltay * c.sensitivity_milli * MOUSE_MDEG_NUM, MOUSE_MDEG_DEN);
        let yaw_delta: i64 = div_trunc(c.deltax * c.sensitivity_milli * MOUSE_MDEG_NUM, MOUSE_MDEG_DEN);
        self.pitch_mdeg = clamp_i64(self.pitch_mdeg - pitch_delta, -PITCH_LIMIT_MDEG, PITCH_LIMIT_MDEG);
        self.yaw_mdeg = wrap_mdeg(self.yaw_mdeg + yaw_delta);
    }

    /// Moves the camera along the given frame by the controller's held
    /// keys, scaled by speed and frame time; each component is clamped
    /// into the position range.
    pub fn apply_move(&mut self, dt_ms: u64, c: &CameraController, basis: &CameraBasis)
        requires
            old(self).wf(),
            c.wf(),
            basis.wf(),
            dt_ms <= DT_LIMIT_MS,
        ensures
            final(self).wf(),
            is_moved_position(final(self).position, old(self).position, dt_ms as int, *c, *basis),
            final(self).pitch_mdeg == old(self).pitch_mdeg,
            final(self).yaw_mdeg == old(self).yaw_mdeg,
            final(self).projection == old(self).projection,
    {
        let af: i64 = c.move_forward - c.move_backward;
        let ar: i64 = c.move_right - c.move_left;
        let au: i64 = c.move_up - c.move_down;
        let dxf: i64 = axis_disp(basis.forward.x, af, c.speed_milli, dt_ms);
        let dyf: i64 = axis_disp(basis.forward.y, af, c.speed_milli, dt_ms);
        let dzf: i64 = axis_disp(basis.forward.z, af, c.speed_milli, dt_ms);
        let dxr: i64 = axis_disp(basis.right.x, ar, c.speed_milli, dt_ms);
        let dyr: i64 = axis_disp(basis.right.y, ar, c.speed_milli, dt_ms);
        let dzr: i64 = axis_disp(basis.right.z, ar, c.speed_milli, dt_ms);
        let dxu: i64 = axis_disp(basis.up.x, au, c.speed_milli, dt_ms);
        let dyu: i64 = axis_disp(basis.up.y, au, c.speed_milli, dt_ms);
        let dzu: i64 = axis_disp(basis.up.z, au, c.speed_milli, dt_ms);
        self.position = Vec3 {
            x: clamp_i64(self.position.x + dxf + dxr + dxu, -POSITION_LIMIT_MILLI, POSITION_LIMIT_MILLI),
            y: clamp_i64(self.position.y + dyf + dyr + dyu, -POSITION_LIMIT_MILLI, POSITION_LIMIT_MILLI),
            z: clamp_i64(self.position.z + dzf + dzr + dzu, -POSITION_LIMIT_MILLI, POSITION_LIMIT_MILLI),
        };
    }

    /// One camera tick: the look update, then the movement update, in
    /// that order, as the per-frame protocol runs them.
    pub fn update(&mut self, dt_ms: u64, c: &CameraController, basis: &CameraBasis)
        requires
            old(self).wf(),
            c.wf(),
            basis.wf(),
            dt_ms <= DT_LIMIT_MS,
        ensures
            final(self).wf(),
            final(self).pitch_mdeg == spec_clamp(
                old(self).pitch_mdeg - spec_pitch_delta_mdeg(*c),
                -PITCH_LIMIT_MDEG as int,
                PITCH_LIMIT_MDEG as int,
            ),
            final(self).yaw_mdeg == spec_wrap_mdeg(old(self).yaw_mdeg + spec_yaw_delta_mdeg(*c)),
            is_moved_position(final(self).position, old(self).position, dt_ms as int, *c, *basis),
            final(self).projection == old(self).projection,
    {
        self.apply_look(c);
        self.apply_move(dt_ms, c, basis);
    }
}

/// `np` is `p` displaced along the three basis axes and clamped.
pub open spec fn is_moved_position(np: Vec3, p: Vec3, dt_ms: int, c: CameraController, basis: CameraBasis) -> bool {
    &&& np.x == spec_clamp(
        p.x
            + spec_axis_disp(basis.forward.x as int, c.move_forward - c.move_backward, c.speed_milli as int, dt_ms)
            + spec_axis_disp(basis.right.x as int, c.move_right - c.move_left, c.speed_milli as int, dt_ms)
            + spec_axis_disp(basis.up.x as int, c.move_up - c.move_down, c.speed_milli as int, dt_ms),
        -POSITION_LIMIT_MILLI as int,
        POSITION_LIMIT_MILLI as int,
    )
    &&& np.y == spec_clamp(
        p.y
            + spec_axis_disp(basis.forward.y as int, c.move_forward - c.move_backward, c.speed_milli as int, dt_ms)
            + spec_axis_disp(basis.right.y as int, c.move_right - c.move_left, c.speed_milli as int, dt_ms)
            + spec_axis_disp(basis.up.y as int, c.move_up - c.move_down, c.speed_milli as int, dt_ms),
        -POSITION_LIMIT_MILLI as int,
        POSITION_LIMIT_MILLI as int,
    )
    &&& np.z == spec_clamp(
        p.z
            + spec_axis_disp(basis.forward.z as int, c.move_forward - c.move_backward, c.speed_milli as int, dt_ms)
            + spec_axis_disp(basis.right.z as int, c.move_right - c.move_left, c.speed_milli as int, dt_ms)
            + spec_axis_disp(basis.up.z as int, c.move_up - c.move_down, c.speed_milli as int, dt_ms),
        -POSITION_LIMIT_MILLI as int,
        POSITION_LIMIT_MILLI as int,
    )
}

/// Evaluates one axis displacement exactly.
fn axis_disp(v: i64, amount: i64, speed: i64, dt_ms: u64) -> (r: i64)
    requires
        -BASIS_LIMIT_MILLI <= v <= BASIS_LIMIT_MILLI,
        -MILLI <= amount <= MILLI,
        0 <= speed <= SPEED_MAX_MILLI,
        dt_ms <= DT_LIMIT_MS,
    ensures
        r == spec_axis_disp(v as int, amount as int, speed as int, dt_ms as int),
        -2000000000 <= r <= 2000000000,
{
    proof {
        lemma_abs_mul_le(v as int, amount as int, BASIS_LIMIT_MILLI as int, MILLI as int);
        lemma_abs_mul_le(v * amount, speed as int, 2000000, SPEED_MAX_MILLI as int);
        lemma_abs_mul_le(v * amount * speed, dt_ms as int, 20000000000000, DT_LIMIT_MS as int);
        crate::math::lemma_div_trunc_bound(v * amount * speed * dt_ms, 1000000000, 2000000000);
    }
    let p1: i64 = v * amount;
    let p2: i64 = p1 * speed;
    let p3: i64 = p2 * (dt_ms as i64);
    div_trunc(p3, 1000000000)
}

/// The GPU-visible camera snapshot the uniform buffer carries, in the
/// parts this model states exactly: the homogeneous world position and
/// the `{near, far, viewport width, viewport height}` quad. The view,
/// projection and inverse view-projection matrices of an arbitrary
/// camera are floating-point and are derived from these same fields by
/// the platform layer when it fills the buffer.
#[derive(Clone, Copy, Debug, PartialEq, Eq, Structural)]
pub struct CameraUniform {
    pub position: Vec3,
    pub position_w: i64,
    pub near_milli: i64,
    pub far_milli: i64,
    pub width: u32,
    pub height: u32,
}

impl CameraUniform {
    /// The snapshot before any camera was seen: origin position and a
    /// one-by-one viewport.
    pub fn new() -> (u: CameraUniform)
        ensures
            u.position == (Vec3 { x: 0, y: 0, z: 0 }),
            u.position_w == MILLI,
            u.near_milli == NEAR_PLANE * MILLI,
            u.far_milli == FAR_PLANE * MILLI,
            u.width == 1,
            u.height == 1,
    {
        CameraUniform {
            position: Vec3 { x: 0, y: 0, z: 0 },
            position_w: MILLI,
            near_milli: NEAR_PLANE * MILLI,
            far_milli: FAR_PLANE * MILLI,
            width: 1,
            height: 1,
        }
    }

    /// Snapshots the camera for the given viewport: the homogeneous
    /// position equals the camera position exactly.
    pub fn update(&mut self, camera: &Camera, width: u32, height: u32)
        requires
            width > 0,
            height > 0,
        ensures
            final(self).position == camera.position,
            final(self).position_w == MILLI,
            final(self).near_milli == NEAR_PLANE * MILLI,
            final(self).far_milli == FAR_PLANE * MILLI,
            final(self).width == width,
            final(self).height == height,
    {
        self.position = camera.position;
        self.position_w = MILLI;
        self.near_milli = NEAR_PLANE * MILLI;
        self.far_milli = FAR_PLANE * MILLI;
        self.width = width;
        self.height = height;
    }
}

/// The yaw after a sequence of deltas, each step wrapped as one look
/// update wraps it.
pub open spec fn spec_yaw_after(yaw0: int, deltas: Seq<int>) -> int
    decreases deltas.len(),
{
    if deltas.len() == 0 {
        yaw0
    } else {
        spec_wrap_mdeg(spec_yaw_after(yaw0, deltas.drop_last()) + deltas.last())
    }
}

/// The pitch after a sequence of deltas, each step clamped as one look
/// update clamps it.
pub open spec fn spec_pitch_after(pitch0: int, deltas: Seq<int>) -> int
    decreases deltas.len(),
{
    if deltas.len() == 0 {
        pitch0
    } else {
        spec_clamp(
            spec_pitch_after(pitch0, deltas.drop_last()) - deltas.last(),
            -PITCH_LIMIT_MDEG as int,
            PITCH_LIMIT_MDEG as int,
        )
    }
}

/// One more delta extends the yaw fold by exactly the step
/// `apply_look` performs, so the fold below describes any sequence of
/// look updates.
pub proof fn lemma_yaw_fold_step(yaw0: int, deltas: Seq<int>, d: int)
    ensures
        spec_yaw_after(yaw0, deltas.push(d)) == spec_wrap_mdeg(spec_yaw_after(yaw0, deltas) + d),
{
    assert(deltas.push(d).drop_last() =~= deltas);
}

/// One more delta extends the pitch fold by exactly the step
/// `apply_look` performs.
pub proof fn lemma_pitch_fold_step(pitch0: int, deltas: Seq<int>, d: int)
    ensures
        spec_pitch_after(pitch0, deltas.push(d)) == spec_clamp(
            spec_pitch_after(pitch0, deltas) - d,
            -PITCH_LIMIT_MDEG as int,
            PITCH_LIMIT_MDEG as int,
        ),
{
    assert(deltas.push(d).drop_last() =~= deltas);
}

/// The yaw stays canonical under any sequence of yaw deltas: starting
/// in `[0, FULL_TURN_MDEG)`, every wrapped step lands back in that
/// range.
pub proof fn lemma_yaw_canonical(yaw0: int, deltas: Seq<int>)
    requires
        0 <= yaw0 < FULL_TURN_MDEG,
    ensures
        0 <= spec_yaw_after(yaw0, deltas) < FULL_TURN_MDEG,
    decreases deltas.len(),
{
    if deltas.len() > 0 {
        lemma_yaw_canonical(yaw0, deltas.drop_last());
    }
}

/// The pitch stays clamped under any sequence of pitch deltas,
/// whatever their magnitude.
pub proof fn lemma_pitch_clamped(pitch0: int, deltas: Seq<int>)
    requires
        -PITCH_LIMIT_MDEG <= pitch0 <= PITCH_LIMIT_MDEG,
    ensures
        -PITCH_LIMIT_MDEG <= spec_pitch_after(pitch0, deltas) <= PITCH_LIMIT_MDEG,
    decreases deltas.len(),
{
    if deltas.len() > 0 {
        lemma_pitch_clamped(pitch0, deltas.drop_last());
    }
}

} // verus!
