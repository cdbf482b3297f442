//! Which commanded velocity drives which joint motor of a robot.

use vstd::prelude::*;

verus! {

/// How many of the joints are revolute joints with a motor.
pub open spec fn motor_count(motorized: Seq<bool>) -> nat
    decreases motorized.len(),
{
    if motorized.len() == 0 {
        0
    } else {
        motor_count(motorized.drop_last()) + if motorized.last() {
            1nat
        } else {
            0nat
        }
    }
}

/// The index of the velocity that drives joint `j`: motors take the
/// velocities in order; no joint is driven when no velocity is given.
pub open spec fn velocity_index_for(motorized: Seq<bool>, j: int, velocity_count: usize) -> Option<usize> {
    if velocity_count == 0 || !motorized[j] {
        None
    } else {
        Some(motor_count(motorized.take(j)) as usize)
    }
}

/// Enough velocities are given for the motors: none at all, or at least one
/// per motor. With fewer, driving the motors fails.
pub open spec fn velocities_suffice(motorized: Seq<bool>, velocity_count: usize) -> bool {
    velocity_count == 0 || motor_count(motorized) <= velocity_count
}

proof fn lemma_motor_count_step(motorized: Seq<bool>, n: int)
    requires
        0 <= n < motorized.len(),
    ensures
        motor_count(motorized.take(n + 1)) == motor_count(motorized.take(n)) + if motorized[n] {
            1nat
        } else {
            0nat
        },
{
    assert(motorized.take(n + 1).drop_last() =~= motorized.take(n));
}

proof fn lemma_motor_count_monotone(motorized: Seq<bool>, a: int, b: int)
    requires
        0 <= a <= b <= motorized.len(),
    ensures
        motor_count(motorized.take(a)) <= motor_count(motorized.take(b)),
        a < b && motorized[a] ==> motor_count(motorized.take(a)) + 1 <= motor_count(motorized.take(b)),
    decreases b - a,
{
    if a < b {
        lemma_motor_count_step(motorized, a);
        lemma_motor_count_monotone(motorized, a + 1, b);
    }
}

/// Whether the given number of velocities suffices for the motors.
pub fn enough_velocities(motorized: &Vec<bool>, velocity_count: usize) -> (res: bool)
    ensures
        res == velocities_suffice(motorized@, velocity_count),
{
    if velocity_count == 0 {
        return true;
    }
    let mut count: usize = 0;
    for j in 0..motorized.len()
        invariant
            count == motor_count(motorized@.take(j as int)),
            count <= velocity_count,
            velocity_count > 0,
    {
        proof {
            lemma_motor_count_step(motorized@, j as int);
        }
        if motorized[j] {
            if count == velocity_count {
                proof {
                    lemma_motor_count_monotone(motorized@, j + 1, motorized.len() as int);
                    assert(motorized@.take(motorized.len() as int) =~= motorized@);
                }
                return false;
            }
            count = count + 1;
        }
    }
    assert(motorized@.take(motorized.len() as int) =~= motorized@);
    true
}

/// Assigns the commanded velocities to the joints: the motors, in joint
/// order, take velocity 0, 1, 2, ...; other joints take none, and no joint
/// takes one when no velocity is given.
pub fn assign_motor_velocities(motorized: &Vec<bool>, velocity_count: usize) -> (res: Vec<Option<usize>>)
    requires
        velocities_suffice(motorized@, velocity_count),
    ensures
        res.len() == motorized.len(),
        forall|j: int|
            0 <= j < res.len() ==> #[trigger] res@[j] == velocity_index_for(motorized@, j, velocity_count),
        forall|j: int| 0 <= j < res.len() ==> (#[trigger] res@[j] matches Some(i) ==> i < velocity_count),
{
    let mut res: Vec<Option<usize>> = Vec::new();
    let mut actuator_index: usize = 0;
    let n = motorized.len();
    proof {
        assert(motorized@.take(n as int) =~= motorized@);
    }
    for j in 0..n
        invariant
            n == motorized.len(),
            velocities_suffice(motorized@, velocity_count),
            motor_count(motorized@.take(n as int)) == motor_count(motorized@),
            res.len() == j,
            velocity_count > 0 ==> actuator_index == motor_count(motorized@.take(j as int)),
            forall|i: int|
                0 <= i < j ==> #[trigger] res@[i] == velocity_index_for(motorized@, i, velocity_count),
            forall|i: int| 0 <= i < j ==> (#[trigger] res@[i] matches Some(v) ==> v < velocity_count),
    {
        proof {
            lemma_motor_count_step(motorized@, j as int);
            lemma_motor_count_monotone(motorized@, j as int, n as int);
        }
        if motorized[j] && velocity_count > 0 {
            res.push(Some(actuator_index));
            actuator_index = actuator_index + 1;
        } else {
            res.push(None);
        }
    }
    res
}

/// Each velocity drives at most one motor, and motors earlier in joint order
/// take earlier velocities.
pub proof fn lemma_velocity_indices_increase(motorized: Seq<bool>, velocity_count: usize, j1: int, j2: int)
    requires
        velocities_suffice(motorized, velocity_count),
        0 <= j1 < j2 < motorized.len(),
        velocity_index_for(motorized, j1, velocity_count) is Some,
        velocity_index_for(motorized, j2, velocity_count) is Some,
    ensures
        velocity_index_for(motorized, j1, velocity_count)->0 < velocity_index_for(
            motorized,
            j2,
            velocity_count,
        )->0,
{
    lemma_motor_count_monotone(motorized, j1, j2);
    lemma_motor_count_monotone(motorized, j2, motorized.len() as int);
    assert(motorized.take(motorized.len() as int) =~= motorized);
}

proof fn lemma_motor_count_flat(motorized: Seq<bool>, a: int, b: int)
    requires
        0 <= a <= b <= motorized.len(),
        forall|k: int| a <= k < b ==> !motorized[k],
    ensures
        motor_count(motorized.take(a)) == motor_count(motorized.take(b)),
    decreases b - a,
{
    if a < b {
        lemma_motor_count_step(motorized, a);
        lemma_motor_count_flat(motorized, a + 1, b);
    }
}

/// Which joint takes which velocity: no joint takes one when none is given,
/// and only motors take one; a motor takes one that was given; the first
/// motor takes the first velocity, and the next motor the next one.
pub proof fn lemma_velocity_index_cases(motorized: Seq<bool>, velocity_count: usize, j: int)
    requires
        velocities_suffice(motorized, velocity_count),
        0 <= j < motorized.len(),
    ensures
        velocity_count == 0 ==> velocity_index_for(motorized, j, velocity_count) is None,
        !motorized[j] ==> velocity_index_for(motorized, j, velocity_count) is None,
        motorized[j] && velocity_count > 0 ==> (velocity_index_for(motorized, j, velocity_count) matches Some(
            i,
        ) && i < velocity_count),
        motorized[j] && velocity_count > 0 && (forall|k: int| 0 <= k < j ==> !motorized[k])
            ==> velocity_index_for(motorized, j, velocity_count) == Some(0usize),
{
    lemma_motor_count_monotone(motorized, j, motorized.len() as int);
    lemma_motor_count_step(motorized, j);
    lemma_motor_count_monotone(motorized, j + 1, motorized.len() as int);
    assert(motorized.take(motorized.len() as int) =~= motorized);
    if forall|k: int| 0 <= k < j ==> !motorized[k] {
        lemma_motor_count_flat(motorized, 0, j);
        assert(motorized.take(0) =~= Seq::<bool>::empty());
    }
}

/// Of two motors with no motor between them, the later one takes the
/// velocity right after the earlier one's.
pub proof fn lemma_next_motor_takes_next_velocity(motorized: Seq<bool>, velocity_count: usize, j1: int, j2: int)
    requires
        velocities_suffice(motorized, velocity_count),
        velocity_count > 0,
        0 <= j1 < j2 < motorized.len(),
        motorized[j1],
        motorized[j2],
        forall|k: int| j1 < k < j2 ==> !motorized[k],
    ensures
        velocity_index_for(motorized, j2, velocity_count) matches Some(i2)
            && velocity_index_for(motorized, j1, velocity_count) matches Some(i1) && i2 == i1 + 1,
{
    lemma_motor_count_step(motorized, j1);
    lemma_motor_count_flat(motorized, j1 + 1, j2);
    lemma_motor_count_monotone(motorized, j2, motorized.len() as int);
    lemma_motor_count_step(motorized, j2);
    lemma_motor_count_monotone(motorized, j2 + 1, motorized.len() as int);
    assert(motorized.take(motorized.len() as int) =~= motorized);
}

} // verus!
