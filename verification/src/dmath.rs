//! Angles and times of day reduced to one turn and to one day.
use vstd::arithmetic::div_mod::lemma_fundamental_div_mod;
use vstd::arithmetic::div_mod::lemma_fundamental_div_mod_converse;
use vstd::arithmetic::div_mod::lemma_mod_pos_bound;
use vstd::prelude::*;

verus! {

/// One full turn, in millionths of a degree.
pub const FULL_TURN: i64 = 360_000_000;

/// One hour, in microseconds.
pub const HOUR: i64 = 3_600_000_000;

/// One day, in microseconds.
pub const DAY: i64 = 86_400_000_000;

/// The angle in `[0, FULL_TURN)` that differs from `angle` by whole turns.
pub open spec fn normalized_angle(angle: int) -> int {
    angle % (FULL_TURN as int)
}

/// The time in `[0, DAY)` that differs from `hour` by whole days.
pub open spec fn normalized_hour(hour: int) -> int {
    hour % (DAY as int)
}

/// `a` reduced by multiples of `b` into `[0, b)`, also where `a` is negative.
pub fn fix(a: i64, b: i64) -> (fixed: i64)
    requires
        b > 0,
    ensures
        fixed == a % b,
        0 <= fixed < b,
{
    let rest: i64 = a % b;
    proof {
        if a < 0 {
            lemma_remainder_of_negative(a as int, b as int);
        }
    }
    if rest < 0 {
        rest + b
    } else {
        rest
    }
}

/// The remainder of a negative `a`, from the remainder of `-a`.
proof fn lemma_remainder_of_negative(a: int, b: int)
    requires
        a < 0,
        b > 0,
    ensures
        0 <= (-a) % b < b,
        a % b == if (-a) % b == 0 {
            0
        } else {
            b - (-a) % b
        },
{
    let k = (-a) / b;
    let m = (-a) % b;
    lemma_fundamental_div_mod(-a, b);
    lemma_mod_pos_bound(-a, b);
    if m == 0 {
        assert(a == (-k) * b + 0) by (nonlinear_arith)
            requires
                -a == b * k + m,
                m == 0,
        ;
        lemma_fundamental_div_mod_converse(a, b, -k, 0);
    } else {
        assert(a == (-k - 1) * b + (b - m)) by (nonlinear_arith)
            requires
                -a == b * k + m,
        ;
        lemma_fundamental_div_mod_converse(a, b, -k - 1, b - m);
    }
}

/// An angle in millionths of a degree, reduced into `[0, FULL_TURN)`.
pub fn fix_angle(angle: i64) -> (fixed: i64)
    ensures
        fixed == normalized_angle(angle as int),
        0 <= fixed < FULL_TURN,
{
    fix(angle, FULL_TURN)
}

/// A time in microseconds, reduced into `[0, DAY)`.
pub fn fix_hour(hour: i64) -> (fixed: i64)
    ensures
        fixed == normalized_hour(hour as int),
        0 <= fixed < DAY,
{
    fix(hour, DAY)
}

/// A reduced angle lies in `[0, FULL_TURN)`, and reducing it again changes nothing.
pub proof fn normalized_angle_is_idempotent(angle: int)
    ensures
        0 <= normalized_angle(angle) < FULL_TURN,
        normalized_angle(normalized_angle(angle)) == normalized_angle(angle),
{
}

/// A reduced time lies in `[0, DAY)`, and reducing it again changes nothing.
pub proof fn normalized_hour_is_idempotent(hour: int)
    ensures
        0 <= normalized_hour(hour) < DAY,
        normalized_hour(normalized_hour(hour)) == normalized_hour(hour),
{
}

} // verus!
