use vstd::prelude::*;

verus! {

/// Gravitational acceleration, in metres per second squared.
pub const GRAVITY: i64 = -5;

/// Mass factor of a controller that sets none, in thousandths.
pub const DEFAULT_MASS_MILLI: u32 = 1000;

/// The value clamped into the range of `i64`.
pub open spec fn clamp_i64(x: int) -> int {
    if x < i64::MIN {
        i64::MIN as int
    } else if x > i64::MAX {
        i64::MAX as int
    } else {
        x
    }
}

/// Velocity gained from gravity over `delta_nanos` nanoseconds with a mass
/// factor of `mass_milli` thousandths, in picometres per second.
pub open spec fn gravity_gain(mass_milli: nat, delta_nanos: nat) -> int {
    GRAVITY * mass_milli * delta_nanos
}

/// The vertical velocity carried into the next step: zero when the
/// controller reported ground contact, the previous velocity otherwise, plus
/// the gravity of this step.
pub open spec fn next_velocity(v: int, grounded: bool, mass_milli: nat, delta_nanos: nat) -> int {
    clamp_i64((if grounded { 0 } else { v }) + gravity_gain(mass_milli, delta_nanos))
}

/// The vertical velocity after a run of airborne steps of the given
/// durations, starting from `v`.
pub open spec fn airborne_velocity(v: int, mass_milli: nat, steps: Seq<nat>) -> int
    decreases steps.len(),
{
    if steps.len() == 0 {
        v
    } else {
        next_velocity(
            airborne_velocity(v, mass_milli, steps.drop_last()),
            false,
            mass_milli,
            steps.last(),
        )
    }
}

/// Total duration of a run of steps.
pub open spec fn total_time(steps: Seq<nat>) -> nat
    decreases steps.len(),
{
    if steps.len() == 0 {
        0
    } else {
        total_time(steps.drop_last()) + steps.last()
    }
}

/// The mass factor of a character controller: its own when it sets one,
/// else one.
pub fn effective_mass_milli(custom_mass_milli: Option<u32>) -> (r: u32)
    ensures
        r == match custom_mass_milli {
            Some(m) => m,
            None => DEFAULT_MASS_MILLI,
        },
{
    match custom_mass_milli {
        Some(m) => m,
        None => DEFAULT_MASS_MILLI,
    }
}

/// Vertical velocity of the player, in picometres per second, accumulated
/// across physics steps.
#[derive(Clone, Copy, Debug, PartialEq, Eq, Structural)]
pub struct VerticalMotion {
    pub velocity: i64,
}

impl VerticalMotion {
    pub fn new() -> (r: VerticalMotion)
        ensures
            r.velocity == 0,
    {
        VerticalMotion { velocity: 0 }
    }

    /// One physics step. Returns the vertical velocity to move by during this
    /// step: zero when the controller reported ground contact after the last
    /// step, the accumulated velocity otherwise. Gravity for this step is
    /// then added to the stored velocity, which saturates at the range of
    /// `i64`.
    pub fn step(&mut self, grounded: bool, mass_milli: u32, delta_nanos: u64) -> (used: i64)
        ensures
            used == if grounded { 0 } else { old(self).velocity },
            grounded ==> used == 0,
            final(self).velocity == next_velocity(
                old(self).velocity as int,
                grounded,
                mass_milli as nat,
                delta_nanos as nat,
            ),
    {
        if grounded {
            self.velocity = 0;
        }
        let used = self.velocity;
        let m = mass_milli as i128;
        let dt = delta_nanos as i128;
        assert(0 <= m * dt <= 0xffff_ffff * 0xffff_ffff_ffff_ffff) by (nonlinear_arith)
            requires
                0 <= m <= 0xffff_ffff,
                0 <= dt <= 0xffff_ffff_ffff_ffff,
        ;
        let gain: i128 = (GRAVITY as i128) * (m * dt);
        let total: i128 = used as i128 + gain;
        if total < i64::MIN as i128 {
            self.velocity = i64::MIN;
        } else if total > i64::MAX as i128 {
            self.velocity = i64::MAX;
        } else {
            self.velocity = total as i64;
        }
        assert(gain == gravity_gain(mass_milli as nat, delta_nanos as nat)) by (nonlinear_arith)
            requires
                gain == -5 * (m * dt),
                m == mass_milli,
                dt == delta_nanos,
        ;
        used
    }
}

/// Airborne from rest, the vertical velocity grows linearly: after any run
/// of steps without ground contact it equals gravity times the mass factor
/// times the total time, as long as that product fits in an `i64`.
pub proof fn lemma_free_fall_linear(mass_milli: nat, steps: Seq<nat>)
    requires
        gravity_gain(mass_milli, total_time(steps)) >= i64::MIN,
    ensures
        airborne_velocity(0, mass_milli, steps) == gravity_gain(mass_milli, total_time(steps)),
    decreases steps.len(),
{
    let m = mass_milli as int;
    if steps.len() == 0 {
        assert(-5 * m * 0 == 0) by (nonlinear_arith);
    } else {
        let prev = steps.drop_last();
        let t0 = total_time(prev) as int;
        let t = steps.last() as int;
        assert(total_time(steps) == t0 + t);
        assert(m * t0 + m * t == m * (t0 + t)) by (nonlinear_arith);
        assert(m * t0 <= m * (t0 + t)) by (nonlinear_arith)
            requires
                m >= 0,
                t >= 0,
        ;
        assert(m * t >= 0) by (nonlinear_arith)
            requires
                m >= 0,
                t >= 0,
        ;
        assert(-5 * m * t0 == -5 * (m * t0)) by (nonlinear_arith);
        assert(-5 * m * t == -5 * (m * t)) by (nonlinear_arith);
        assert(-5 * m * (t0 + t) == -5 * (m * (t0 + t))) by (nonlinear_arith);
        lemma_free_fall_linear(mass_milli, prev);
    }
}

/// Ground contact resets the velocity before gravity is applied: the step
/// moves by zero vertically and the velocity carried on is this step's
/// gravity alone, whatever the velocity was before.
pub proof fn lemma_ground_resets(v1: int, v2: int, mass_milli: nat, delta_nanos: nat)
    ensures
        next_velocity(v1, true, mass_milli, delta_nanos) == next_velocity(
            v2,
            true,
            mass_milli,
            delta_nanos,
        ),
        next_velocity(v1, true, mass_milli, delta_nanos) == clamp_i64(
            gravity_gain(mass_milli, delta_nanos),
        ),
{
}

} // verus!
