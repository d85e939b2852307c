//! The trajectory integrator: owns the projectile's kinematic state and
//! advances it one fixed time step at a time with semi-implicit Euler
//! integration, combining gravity, wind and the drag model.

use crate::drag::{drag_mag, drag_magnitude, lemma_drag_mag_at_zero, lemma_drag_mag_nonneg};
use crate::fixed::{
    div_towards_zero, div_i128, is_sqrt, lemma_div_towards_zero_abs, lemma_div_towards_zero_bound,
    lemma_div_towards_zero_neg, lemma_sqrt_floor_is_sqrt, sqrt_floor, sqrt_u64, BC_LIMIT,
    CALIBER_LIMIT, DRAG_LIMIT, DT_LIMIT, GRAVITY, POS_LIMIT, SCALE, VEL_LIMIT,
};
use crate::vector::Vec3;
use vstd::arithmetic::div_mod::{
    lemma_basic_div, lemma_div_by_multiple, lemma_div_is_ordered, lemma_div_pos_is_pos,
    lemma_fundamental_div_mod, lemma_mod_bound,
};
use vstd::arithmetic::mul::{
    lemma_mul_by_zero_is_zero, lemma_mul_nonnegative, lemma_mul_unary_negation,
};
use vstd::prelude::*;

verus! {

/// Why the integrator rejected a call. A rejected call mutates nothing.
#[derive(Clone, Copy, PartialEq, Eq, Debug)]
pub enum SimError {
    /// A parameter is outside its documented range: a non-positive caliber,
    /// ballistic coefficient or time step, or a value beyond the
    /// representable fixed-point bounds.
    InvalidParameter,
    /// The step's result would leave the representable state space: the drag
    /// deceleration exceeds `DRAG_LIMIT`, or a new velocity or position
    /// component exceeds its limit.
    OutOfRange,
}

/// Snapshot of the environment parameters, read once per step so one step
/// sees one consistent set of values. Wind acts on the horizontal axes only;
/// its vertical component does not enter the dynamics.
#[derive(Clone, Copy, PartialEq, Eq, Debug)]
pub struct SimulationParameters {
    /// Wind, in fixed-point metres per second.
    pub wind: Vec3,
    /// Projectile diameter, in fixed-point metres; must be positive.
    pub caliber: i64,
    /// Dimensionless drag-resistance factor; must be positive.
    pub ballistic_coefficient: i64,
}

impl SimulationParameters {
    /// A valid snapshot: positive caliber and ballistic coefficient, every
    /// value within the representable bounds.
    pub open spec fn wf(self) -> bool {
        &&& 0 < self.caliber <= CALIBER_LIMIT
        &&& 0 < self.ballistic_coefficient <= BC_LIMIT
        &&& self.wind.within(VEL_LIMIT as int)
    }

    /// The parameter-acceptance boundary: accepts exactly the snapshots the
    /// integrator admits, and rejects the rest before they can reach a step.
    pub fn new(wind: Vec3, caliber: i64, ballistic_coefficient: i64) -> (r: Result<
        SimulationParameters,
        SimError,
    >)
        ensures
            r is Ok <==> (SimulationParameters { wind, caliber, ballistic_coefficient }).wf(),
            r matches Ok(p) ==> p == (SimulationParameters { wind, caliber, ballistic_coefficient }),
            r is Err ==> r == Err::<SimulationParameters, SimError>(SimError::InvalidParameter),
    {
        let p = SimulationParameters { wind, caliber, ballistic_coefficient };
        if p.is_valid() {
            Ok(p)
        } else {
            Err(SimError::InvalidParameter)
        }
    }

    /// Runtime check of `wf`.
    pub fn is_valid(&self) -> (b: bool)
        ensures
            b == self.wf(),
    {
        0 < self.caliber && self.caliber <= CALIBER_LIMIT && 0 < self.ballistic_coefficient
            && self.ballistic_coefficient <= BC_LIMIT && -VEL_LIMIT <= self.wind.x
            && self.wind.x <= VEL_LIMIT && -VEL_LIMIT <= self.wind.y && self.wind.y <= VEL_LIMIT
            && -VEL_LIMIT <= self.wind.z && self.wind.z <= VEL_LIMIT
    }
}

/// The projectile's kinematic state: position and velocity in the world
/// frame, origin at the launch point, in fixed-point units.
#[derive(Clone, Copy, PartialEq, Eq, Debug)]
pub struct Projectile {
    /// Position in fixed-point metres.
    pub position: Vec3,
    /// Velocity in fixed-point metres per second.
    pub velocity: Vec3,
}

/// The speed: integer square root of the squared norm of the velocity.
pub open spec fn speed_of(v: Vec3) -> int {
    sqrt_floor(v.norm_sq() as nat) as int
}

/// The drag magnitude a step integrates, from the drag model at the current
/// speed; zero exactly when the projectile is at rest.
pub open spec fn step_drag(v: Vec3, params: SimulationParameters) -> int {
    drag_mag(speed_of(v), params.caliber as int, params.ballistic_coefficient as int)
}

/// One axis of the acceleration: the external acceleration `ext` (wind on a
/// horizontal axis, gravity on the vertical one), less the drag magnitude `m`
/// distributed along this axis's share `vi / speed` of the motion. At speed
/// zero there is no drag direction, so drag is skipped entirely.
pub open spec fn axis_accel(vi: int, ext: int, m: int, speed: int) -> int {
    if speed == 0 {
        ext
    } else {
        ext - div_towards_zero(m * vi, speed)
    }
}

/// One axis of the velocity update: the acceleration integrated over `dt`.
pub open spec fn vel_axis_update(vi: int, ext: int, m: int, speed: int, dt: int) -> int {
    vi + div_towards_zero(axis_accel(vi, ext, m, speed) * dt, SCALE as int)
}

/// One axis of the position update, from the already-updated velocity.
pub open spec fn pos_axis_update(pi: int, vi_new: int, dt: int) -> int {
    pi + div_towards_zero(vi_new * dt, SCALE as int)
}

/// The new horizontal `x` velocity of a step.
pub open spec fn step_vel_x(p: Projectile, params: SimulationParameters, dt: int) -> int {
    vel_axis_update(
        p.velocity.x as int,
        params.wind.x as int,
        step_drag(p.velocity, params),
        speed_of(p.velocity),
        dt,
    )
}

/// The new vertical velocity of a step; gravity is the only external
/// acceleration on this axis.
pub open spec fn step_vel_y(p: Projectile, params: SimulationParameters, dt: int) -> int {
    vel_axis_update(
        p.velocity.y as int,
        -(GRAVITY as int),
        step_drag(p.velocity, params),
        speed_of(p.velocity),
        dt,
    )
}

/// The new horizontal `z` velocity of a step.
pub open spec fn step_vel_z(p: Projectile, params: SimulationParameters, dt: int) -> int {
    vel_axis_update(
        p.velocity.z as int,
        params.wind.z as int,
        step_drag(p.velocity, params),
        speed_of(p.velocity),
        dt,
    )
}

/// The new position of a step, component-wise.
pub open spec fn step_pos_x(p: Projectile, params: SimulationParameters, dt: int) -> int {
    pos_axis_update(p.position.x as int, step_vel_x(p, params, dt), dt)
}

pub open spec fn step_pos_y(p: Projectile, params: SimulationParameters, dt: int) -> int {
    pos_axis_update(p.position.y as int, step_vel_y(p, params, dt), dt)
}

pub open spec fn step_pos_z(p: Projectile, params: SimulationParameters, dt: int) -> int {
    pos_axis_update(p.position.z as int, step_vel_z(p, params, dt), dt)
}

/// The step's result fits the representable state space: the drag magnitude
/// is within what a step integrates, and every new component is within its
/// limit.
pub open spec fn step_fits(p: Projectile, params: SimulationParameters, dt: int) -> bool {
    &&& step_drag(p.velocity, params) <= DRAG_LIMIT
    &&& -VEL_LIMIT <= step_vel_x(p, params, dt) <= VEL_LIMIT
    &&& -VEL_LIMIT <= step_vel_y(p, params, dt) <= VEL_LIMIT
    &&& -VEL_LIMIT <= step_vel_z(p, params, dt) <= VEL_LIMIT
    &&& -POS_LIMIT <= step_pos_x(p, params, dt) <= POS_LIMIT
    &&& -POS_LIMIT <= step_pos_y(p, params, dt) <= POS_LIMIT
    &&& -POS_LIMIT <= step_pos_z(p, params, dt) <= POS_LIMIT
}

/// One axis of the velocity integration: `vi + acc * dt / SCALE`, rounded
/// toward zero, computed without overflow.
fn integrate_axis(vi: i64, acc: i128, dt: i64) -> (nv: i128)
    requires
        -VEL_LIMIT <= vi <= VEL_LIMIT,
        -2_002_000_000_000_000_000_000_000_000 <= acc <= 2_002_000_000_000_000_000_000_000_000,
        0 < dt <= DT_LIMIT,
    ensures
        nv == vi + div_towards_zero(acc * dt, SCALE as int),
{
    assert(-21_000_000_000_000_000_000_000_000_000_000_000int <= acc * dt
        <= 21_000_000_000_000_000_000_000_000_000_000_000int) by (nonlinear_arith)
        requires
            -2_002_000_000_000_000_000_000_000_000 <= acc <= 2_002_000_000_000_000_000_000_000_000,
            0 < dt <= 10_000_000,
    ;
    let prod = acc * (dt as i128);
    proof {
        lemma_div_towards_zero_abs(
            prod as int,
            SCALE as int,
            21_000_000_000_000_000_000_000_000_000_000_000int,
        );
    }
    let dv = div_i128(prod, SCALE as i128);
    (vi as i128) + dv
}

/// One axis of the position integration from the already-updated velocity:
/// `pi + nv * dt / SCALE`, rounded toward zero, computed without overflow.
fn advance_axis(pi: i64, nv: i128, dt: i64) -> (np: i128)
    requires
        -POS_LIMIT <= pi <= POS_LIMIT,
        -VEL_LIMIT <= nv <= VEL_LIMIT,
        0 < dt <= DT_LIMIT,
    ensures
        np == pi + div_towards_zero(nv * dt, SCALE as int),
{
    assert(-20_000_000_000_000_000_000int <= nv * dt <= 20_000_000_000_000_000_000int)
        by (nonlinear_arith)
        requires
            -2_000_000_000 <= nv <= 2_000_000_000,
            0 < dt <= 10_000_000,
    ;
    let prod = nv * (dt as i128);
    proof {
        lemma_div_towards_zero_abs(prod as int, SCALE as int, 20_000_000_000_000_000_000int);
    }
    let dp = div_i128(prod, SCALE as i128);
    (pi as i128) + dp
}

impl Projectile {
    /// The state is representable: every component within its limit.
    pub open spec fn wf(self) -> bool {
        self.velocity.within(VEL_LIMIT as int) && self.position.within(POS_LIMIT as int)
    }

    /// Pre-launch state: zero velocity.
    pub open spec fn at_rest(self) -> bool {
        self.velocity.is_zero()
    }

    /// A projectile at the origin, at rest.
    pub fn new() -> (p: Projectile)
        ensures
            p.position.is_zero(),
            p.velocity.is_zero(),
            p.at_rest(),
            p.wf(),
    {
        Projectile { position: Vec3::zero(), velocity: Vec3::zero() }
    }

    /// The launch event: resets the velocity to the muzzle speed decomposed
    /// along the elevation direction, and leaves the position unchanged. The
    /// direction is supplied as the fixed-point cosine and sine of the
    /// elevation angle (the trigonometry stays outside the verified core);
    /// motion starts in the x-y plane, so the `z` velocity is zero.
    pub fn launch(&mut self, elevation_cos: i64, elevation_sin: i64, muzzle_velocity: i64)
        requires
            old(self).wf(),
            -SCALE <= elevation_cos <= SCALE,
            -SCALE <= elevation_sin <= SCALE,
            0 <= muzzle_velocity <= VEL_LIMIT,
        ensures
            final(self).position == old(self).position,
            final(self).velocity.x == div_towards_zero(
                muzzle_velocity * elevation_cos,
                SCALE as int,
            ),
            final(self).velocity.y == div_towards_zero(
                muzzle_velocity * elevation_sin,
                SCALE as int,
            ),
            final(self).velocity.z == 0,
            final(self).wf(),
    {
        proof {
            assert(-(muzzle_velocity * SCALE) <= muzzle_velocity * elevation_cos
                <= muzzle_velocity * SCALE) by (nonlinear_arith)
                requires
                    0 <= muzzle_velocity,
                    -SCALE <= elevation_cos <= SCALE,
            ;
            assert(-(muzzle_velocity * SCALE) <= muzzle_velocity * elevation_sin
                <= muzzle_velocity * SCALE) by (nonlinear_arith)
                requires
                    0 <= muzzle_velocity,
                    -SCALE <= elevation_sin <= SCALE,
            ;
            lemma_div_towards_zero_bound(
                muzzle_velocity * elevation_cos,
                SCALE as int,
                muzzle_velocity as int,
            );
            lemma_div_towards_zero_bound(
                muzzle_velocity * elevation_sin,
                SCALE as int,
                muzzle_velocity as int,
            );
        }
        let vx = div_i128(
            (muzzle_velocity as i128) * (elevation_cos as i128),
            SCALE as i128,
        );
        let vy = div_i128(
            (muzzle_velocity as i128) * (elevation_sin as i128),
            SCALE as i128,
        );
        self.velocity = Vec3 { x: vx as i64, y: vy as i64, z: 0 };
    }

    /// Advances the state by one time step of `dt`, semi-implicit Euler: the
    /// acceleration is computed from the velocity at the start of the step,
    /// the velocity is updated from it, and the position is updated from the
    /// *already-updated* velocity. A call with a non-positive `dt` or an
    /// invalid parameter snapshot is rejected, and a step whose result would
    /// leave the representable state space reports `OutOfRange`; a rejected
    /// call mutates nothing.
    pub fn step(&mut self, params: &SimulationParameters, dt: i64) -> (r: Result<(), SimError>)
        requires
            old(self).wf(),
            dt <= DT_LIMIT,
        ensures
            final(self).wf(),
            r is Ok <==> (dt > 0 && params.wf() && step_fits(*old(self), *params, dt as int)),
            r == Err::<(), SimError>(SimError::InvalidParameter) <==> (dt <= 0 || !params.wf()),
            r == Err::<(), SimError>(SimError::OutOfRange) <==> (dt > 0 && params.wf()
                && !step_fits(*old(self), *params, dt as int)),
            !(r is Ok) ==> *final(self) == *old(self),
            r is Ok ==> final(self).velocity.x == step_vel_x(*old(self), *params, dt as int),
            r is Ok ==> final(self).velocity.y == step_vel_y(*old(self), *params, dt as int),
            r is Ok ==> final(self).velocity.z == step_vel_z(*old(self), *params, dt as int),
            r is Ok ==> final(self).position.x == step_pos_x(*old(self), *params, dt as int),
            r is Ok ==> final(self).position.y == step_pos_y(*old(self), *params, dt as int),
            r is Ok ==> final(self).position.z == step_pos_z(*old(self), *params, dt as int),
    {
        if dt <= 0 || !params.is_valid() {
            return Err(SimError::InvalidParameter);
        }
        let ghost before = *old(self);
        let ghost dti = dt as int;
        let vx = self.velocity.x;
        let vy = self.velocity.y;
        let vz = self.velocity.z;
        assert(0 <= (vx as int) * (vx as int) <= 4_000_000_000_000_000_000int
            && 0 <= (vy as int) * (vy as int) <= 4_000_000_000_000_000_000int
            && 0 <= (vz as int) * (vz as int) <= 4_000_000_000_000_000_000int)
            by (nonlinear_arith)
            requires
                -2_000_000_000 <= vx <= 2_000_000_000,
                -2_000_000_000 <= vy <= 2_000_000_000,
                -2_000_000_000 <= vz <= 2_000_000_000,
        ;
        let sum: i128 = (vx as i128) * (vx as i128) + (vy as i128) * (vy as i128) + (vz as i128)
            * (vz as i128);
        let speed = sqrt_u64(sum as u64);
        let ghost si = speed_of(before.velocity);
        proof {
            assert(sum as u64 as nat == before.velocity.norm_sq() as nat);
            assert(si == speed as int);
        }
        let ghost ms = step_drag(before.velocity, *params);
        let acc: (i128, i128, i128);
        if speed == 0 {
            acc = ((params.wind.x as i128), -(GRAVITY as i128), (params.wind.z as i128));
            proof {
                lemma_drag_mag_at_zero(
                    params.caliber as int,
                    params.ballistic_coefficient as int,
                );
                assert(ms == 0);
                assert(ms <= DRAG_LIMIT);
            }
        } else {
            assert(speed <= 3_500_000_000) by (nonlinear_arith)
                requires
                    (speed as int) * (speed as int) <= sum,
                    0 <= sum <= 12_000_000_000_000_000_000int,
            ;
            let drag = drag_magnitude(
                speed as i64,
                params.caliber,
                params.ballistic_coefficient,
            );
            proof {
                assert(-(drag as int) == ms);
            }
            if drag < -DRAG_LIMIT {
                assert(!step_fits(before, *params, dti));
                return Err(SimError::OutOfRange);
            }
            assert({
                &&& -2_000_000_000_000_000_000_000_000_000int <= (drag as int) * (vx as int)
                    <= 2_000_000_000_000_000_000_000_000_000int
                &&& -2_000_000_000_000_000_000_000_000_000int <= (drag as int) * (vy as int)
                    <= 2_000_000_000_000_000_000_000_000_000int
                &&& -2_000_000_000_000_000_000_000_000_000int <= (drag as int) * (vz as int)
                    <= 2_000_000_000_000_000_000_000_000_000int
            }) by (nonlinear_arith)
                requires
                    -1_000_000_000_000_000_000 <= drag <= 0,
                    -2_000_000_000 <= vx <= 2_000_000_000,
                    -2_000_000_000 <= vy <= 2_000_000_000,
                    -2_000_000_000 <= vz <= 2_000_000_000,
            ;
            let tx = div_i128(drag * (vx as i128), speed as i128);
            let ty = div_i128(drag * (vy as i128), speed as i128);
            let tz = div_i128(drag * (vz as i128), speed as i128);
            proof {
                lemma_div_towards_zero_abs(
                    (drag as int) * (vx as int),
                    si,
                    2_000_000_000_000_000_000_000_000_000int,
                );
                lemma_div_towards_zero_abs(
                    (drag as int) * (vy as int),
                    si,
                    2_000_000_000_000_000_000_000_000_000int,
                );
                lemma_div_towards_zero_abs(
                    (drag as int) * (vz as int),
                    si,
                    2_000_000_000_000_000_000_000_000_000int,
                );
                assert((drag as int) * (vx as int) == -(ms * (vx as int)))
                    by (nonlinear_arith)
                    requires
                        ms == -(drag as int),
                ;
                assert((drag as int) * (vy as int) == -(ms * (vy as int)))
                    by (nonlinear_arith)
                    requires
                        ms == -(drag as int),
                ;
                assert((drag as int) * (vz as int) == -(ms * (vz as int)))
                    by (nonlinear_arith)
                    requires
                        ms == -(drag as int),
                ;
                lemma_div_towards_zero_neg(ms * (vx as int), si);
                lemma_div_towards_zero_neg(ms * (vy as int), si);
                lemma_div_towards_zero_neg(ms * (vz as int), si);
            }
            acc = ((params.wind.x as i128) + tx, -(GRAVITY as i128) + ty, (params.wind.z
                as i128) + tz);
        }
        assert(acc.0 == axis_accel(vx as int, params.wind.x as int, ms, si));
        assert(acc.1 == axis_accel(vy as int, -(GRAVITY as int), ms, si));
        assert(acc.2 == axis_accel(vz as int, params.wind.z as int, ms, si));
        let nvx = integrate_axis(vx, acc.0, dt);
        let nvy = integrate_axis(vy, acc.1, dt);
        let nvz = integrate_axis(vz, acc.2, dt);
        assert(nvx == step_vel_x(before, *params, dti));
        assert(nvy == step_vel_y(before, *params, dti));
        assert(nvz == step_vel_z(before, *params, dti));
        if nvx < -(VEL_LIMIT as i128) || nvx > (VEL_LIMIT as i128) || nvy < -(VEL_LIMIT as i128)
            || nvy > (VEL_LIMIT as i128) || nvz < -(VEL_LIMIT as i128) || nvz > (VEL_LIMIT
            as i128) {
            return Err(SimError::OutOfRange);
        }
        let npx = advance_axis(self.position.x, nvx, dt);
        let npy = advance_axis(self.position.y, nvy, dt);
        let npz = advance_axis(self.position.z, nvz, dt);
        assert(npx == step_pos_x(before, *params, dti));
        assert(npy == step_pos_y(before, *params, dti));
        assert(npz == step_pos_z(before, *params, dti));
        if npx < -(POS_LIMIT as i128) || npx > (POS_LIMIT as i128) || npy < -(POS_LIMIT as i128)
            || npy > (POS_LIMIT as i128) || npz < -(POS_LIMIT as i128) || npz > (POS_LIMIT
            as i128) {
            return Err(SimError::OutOfRange);
        }
        self.velocity = Vec3 { x: nvx as i64, y: nvy as i64, z: nvz as i64 };
        self.position = Vec3 { x: npx as i64, y: npy as i64, z: npz as i64 };
        Ok(())
    }
}

/// Each velocity component is bounded in magnitude by the speed.
pub proof fn lemma_component_le_speed(v: Vec3)
    ensures
        0 <= speed_of(v),
        -speed_of(v) <= v.x <= speed_of(v),
        -speed_of(v) <= v.y <= speed_of(v),
        -speed_of(v) <= v.z <= speed_of(v),
{
    let nsq = v.norm_sq();
    assert(v.x * v.x >= 0 && v.y * v.y >= 0 && v.z * v.z >= 0) by (nonlinear_arith);
    lemma_sqrt_floor_is_sqrt(nsq as nat);
    let s = speed_of(v);
    assert(is_sqrt(nsq, s));
    assert(-s <= v.x <= s && -s <= v.y <= s && -s <= v.z <= s) by (nonlinear_arith)
        requires
            0 <= s,
            v.x * v.x <= nsq,
            v.y * v.y <= nsq,
            v.z * v.z <= nsq,
            nsq < (s + 1) * (s + 1),
    ;
}

/// Law (zero-speed step): at rest under zero wind, one step leaves both
/// horizontal velocity components unchanged at zero and lowers the vertical
/// velocity by exactly the gravitational impulse `GRAVITY * dt / SCALE`.
pub proof fn lemma_step_at_rest(p: Projectile, params: SimulationParameters, dt: int)
    requires
        p.wf(),
        params.wf(),
        p.at_rest(),
        params.wind.is_zero(),
        0 < dt,
    ensures
        step_vel_x(p, params, dt) == 0,
        step_vel_z(p, params, dt) == 0,
        step_vel_y(p, params, dt) == -((GRAVITY as int) * dt / (SCALE as int)),
{
    assert(p.velocity.norm_sq() == 0);
    assert(speed_of(p.velocity) == 0);
    lemma_mul_by_zero_is_zero(dt);
    assert((params.wind.x as int) * dt == 0);
    assert((params.wind.z as int) * dt == 0);
    lemma_basic_div(0, SCALE as int);
    assert((GRAVITY as int) * dt > 0);
}

/// Drag alone (no external acceleration on the axis) never increases the
/// axis's velocity magnitude and never flips its sign, provided the drag
/// impulse over the step does not exceed the current speed; the nonnegative
/// case.
proof fn lemma_vel_axis_drag_decay_nonneg(vi: int, m: int, speed: int, dt: int)
    requires
        0 < speed,
        0 <= m,
        0 < dt,
        0 <= vi <= speed,
        m * dt <= speed * (SCALE as int),
    ensures
        0 <= vel_axis_update(vi, 0, m, speed, dt) <= vi,
{
    let sc = SCALE as int;
    lemma_mul_nonnegative(m, vi);
    let t = div_towards_zero(m * vi, speed);
    lemma_div_pos_is_pos(m * vi, speed);
    assert(t == (m * vi) / speed);
    assert(0 <= t);
    lemma_mul_unary_negation(t, dt);
    lemma_div_towards_zero_neg(t * dt, sc);
    lemma_mul_nonnegative(t, dt);
    lemma_div_pos_is_pos(t * dt, sc);
    // The drag impulse on this axis stays below the velocity component:
    // t * speed <= m * vi, so t * dt * speed <= m * dt * vi <= speed * sc * vi.
    lemma_fundamental_div_mod(m * vi, speed);
    lemma_mod_bound(m * vi, speed);
    assert(t * speed <= m * vi) by (nonlinear_arith)
        requires
            m * vi == speed * t + (m * vi) % speed,
            0 <= (m * vi) % speed,
    ;
    assert(t * dt * speed <= vi * sc * speed) by (nonlinear_arith)
        requires
            t * speed <= m * vi,
            m * dt <= speed * sc,
            0 <= vi,
            0 <= t,
            0 < dt,
            0 < speed,
            0 <= m,
            0 < sc,
    ;
    assert(t * dt <= vi * sc) by (nonlinear_arith)
        requires
            t * dt * speed <= vi * sc * speed,
            0 < speed,
    ;
    lemma_div_is_ordered(t * dt, vi * sc, sc);
    lemma_div_by_multiple(vi, sc);
    assert((t * dt) / sc <= vi);
    assert(vel_axis_update(vi, 0, m, speed, dt) == vi - (t * dt) / sc);
}

/// Drag alone never increases an axis's velocity magnitude and never flips
/// its sign, provided the drag impulse over the step does not exceed the
/// current speed.
pub proof fn lemma_vel_axis_drag_decay(vi: int, m: int, speed: int, dt: int)
    requires
        0 < speed,
        0 <= m,
        0 < dt,
        -speed <= vi <= speed,
        m * dt <= speed * (SCALE as int),
    ensures
        vi >= 0 ==> 0 <= vel_axis_update(vi, 0, m, speed, dt) <= vi,
        vi <= 0 ==> vi <= vel_axis_update(vi, 0, m, speed, dt) <= 0,
{
    let sc = SCALE as int;
    if vi >= 0 {
        lemma_vel_axis_drag_decay_nonneg(vi, m, speed, dt);
    } else {
        let u = -vi;
        lemma_vel_axis_drag_decay_nonneg(u, m, speed, dt);
        // The update is odd in the velocity component: flipping its sign
        // flips the drag term, the acceleration and the integrated change.
        lemma_mul_unary_negation(m, u);
        assert(m * vi == -(m * u));
        lemma_div_towards_zero_neg(m * u, speed);
        let tu = div_towards_zero(m * u, speed);
        assert(axis_accel(vi, 0, m, speed) == tu);
        assert(axis_accel(u, 0, m, speed) == -tu);
        lemma_mul_unary_negation(tu, dt);
        lemma_div_towards_zero_neg(tu * dt, sc);
        assert(vel_axis_update(vi, 0, m, speed, dt) == -vel_axis_update(u, 0, m, speed, dt));
    }
}

/// Law (drag decays horizontal motion): with no wind on the horizontal axes,
/// one step never increases the magnitude of a horizontal velocity component
/// and never flips its sign, provided the drag impulse over the step does not
/// exceed the current speed, so repeated such steps yield a non-increasing
/// horizontal speed sequence. (A drag impulse larger than the speed can
/// overshoot zero within one step and is excluded; gravity still acts on the
/// vertical axis, which this law says nothing about.)
pub proof fn lemma_step_drag_decays_horizontal(
    p: Projectile,
    params: SimulationParameters,
    dt: int,
)
    requires
        p.wf(),
        params.wf(),
        params.wind.x == 0,
        params.wind.z == 0,
        0 < dt,
        speed_of(p.velocity) > 0,
        step_drag(p.velocity, params) * dt <= speed_of(p.velocity) * (SCALE as int),
    ensures
        p.velocity.x >= 0 ==> 0 <= step_vel_x(p, params, dt) <= p.velocity.x,
        p.velocity.x <= 0 ==> p.velocity.x <= step_vel_x(p, params, dt) <= 0,
        p.velocity.z >= 0 ==> 0 <= step_vel_z(p, params, dt) <= p.velocity.z,
        p.velocity.z <= 0 ==> p.velocity.z <= step_vel_z(p, params, dt) <= 0,
{
    lemma_component_le_speed(p.velocity);
    lemma_drag_mag_nonneg(
        speed_of(p.velocity),
        params.caliber as int,
        params.ballistic_coefficient as int,
    );
    lemma_vel_axis_drag_decay(
        p.velocity.x as int,
        step_drag(p.velocity, params),
        speed_of(p.velocity),
        dt,
    );
    lemma_vel_axis_drag_decay(
        p.velocity.z as int,
        step_drag(p.velocity, params),
        speed_of(p.velocity),
        dt,
    );
}

} // verus!
