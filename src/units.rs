use vstd::prelude::*;
use vstd::std_specs::ops::{AddSpec, DivSpec, MulSpec, RemSpec, SubSpec};
use crate::full_float::{FullFloat, ge_spec, obeys_ops, ops_total};

verus! {

/// `pi * degrees / half_turn`: radians of an angle in degrees, where
/// `half_turn` is the number of degrees in half a turn.
pub open spec fn radians_of_degrees<F: FullFloat>(degrees: F, pi: F, half_turn: F) -> F {
    pi.mul_spec(degrees).div_spec(half_turn)
}

/// `radians * half_turn / pi`: degrees of an angle in radians.
pub open spec fn degrees_of_radians<F: FullFloat>(radians: F, pi: F, half_turn: F) -> F {
    radians.mul_spec(half_turn).div_spec(pi)
}

/// `two * pi`: the radians of a full turn.
pub open spec fn full_turn<F: FullFloat>(two: F, pi: F) -> F {
    two.mul_spec(pi)
}

/// `two * pi * cycles`: radians of an angle counted in full turns.
pub open spec fn radians_of_cycles<F: FullFloat>(cycles: F, two: F, pi: F) -> F {
    full_turn(two, pi).mul_spec(cycles)
}

/// `radians / (two * pi)`: full turns of an angle in radians.
pub open spec fn cycles_of_radians<F: FullFloat>(radians: F, two: F, pi: F) -> F {
    radians.div_spec(full_turn(two, pi))
}

/// `((value % turn) + turn) % turn`: the floored remainder of `value` by
/// `turn`, which lies in `[0, turn)` whatever the sign of `value`.
pub open spec fn wrapped_positive<F: FullFloat>(value: F, turn: F) -> F {
    value.rem_spec(turn).add_spec(turn).rem_spec(turn)
}

/// The floored remainder, moved down by one turn where it is at least `pi`,
/// so that it lies in `[-pi, pi)`.
pub open spec fn wrapped_around_zero<F: FullFloat>(value: F, turn: F, pi: F) -> F {
    let w = wrapped_positive(value, turn);
    if ge_spec(w, pi) {
        w.sub_spec(turn)
    } else {
        w
    }
}

/// Converts degrees to radians, given pi and the degrees of half a turn.
pub fn degrees_to_radians<F: FullFloat>(degrees: F, pi: F, half_turn: F) -> (r: F)
    requires
        ops_total::<F>(),
    ensures
        obeys_ops::<F>() ==> r == radians_of_degrees(degrees, pi, half_turn),
{
    pi * degrees / half_turn
}

/// Converts radians to degrees, given pi and the degrees of half a turn.
pub fn radians_to_degrees<F: FullFloat>(radians: F, pi: F, half_turn: F) -> (r: F)
    requires
        ops_total::<F>(),
    ensures
        obeys_ops::<F>() ==> r == degrees_of_radians(radians, pi, half_turn),
{
    radians * half_turn / pi
}

/// Converts full turns to radians, given two and pi.
pub fn cycles_to_radians<F: FullFloat>(cycles: F, two: F, pi: F) -> (r: F)
    requires
        ops_total::<F>(),
    ensures
        obeys_ops::<F>() ==> r == radians_of_cycles(cycles, two, pi),
{
    two * pi * cycles
}

/// Converts radians to full turns, given two and pi.
pub fn radians_to_cycles<F: FullFloat>(radians: F, two: F, pi: F) -> (r: F)
    requires
        ops_total::<F>(),
    ensures
        obeys_ops::<F>() ==> r == cycles_of_radians(radians, two, pi),
{
    radians / (two * pi)
}

/// Wraps `value` into `[0, turn)` by the floored remainder.
pub fn wrap_positive<F: FullFloat>(value: F, turn: F) -> (r: F)
    requires
        ops_total::<F>(),
    ensures
        obeys_ops::<F>() ==> r == wrapped_positive(value, turn),
{
    (value % turn + turn) % turn
}

/// Wraps `value` into `[-pi, pi)`, where `turn` is two pi.
pub fn wrap_around_zero<F: FullFloat>(value: F, turn: F, pi: F) -> (r: F)
    requires
        ops_total::<F>(),
    ensures
        obeys_ops::<F>() ==> r == wrapped_around_zero(value, turn, pi),
{
    let w = wrap_positive(value, turn);
    if w >= pi {
        w - turn
    } else {
        w
    }
}

} // verus!
