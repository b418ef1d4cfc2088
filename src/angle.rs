use vstd::prelude::*;
use vstd::std_specs::ops::{AddSpec, DivSpec, MulSpec, NegSpec, RemSpec, SubSpec};
use crate::full_float::{
    FullFloat, obeys_ops, ops_total, float_pi, float_of_u32, float_zero, float_is_zero, float_one,
    float_is_one, float_min_value, float_max_value,
};
use crate::units::{
    radians_of_degrees, degrees_of_radians, radians_of_cycles, cycles_of_radians, full_turn,
    wrapped_positive, wrapped_around_zero, degrees_to_radians, radians_to_degrees,
    cycles_to_radians, radians_to_cycles, wrap_positive, wrap_around_zero,
};

verus! {

/// An angle, held as a number of radians.
///
/// Functions that take or give plain numbers say which unit the numbers
/// are in (radians, degrees or cycles). Nothing normalizes an angle but the
/// two `normalize_*` methods.
#[derive(Clone, Copy, Debug, PartialEq, PartialOrd)]
pub struct Angle<F>(pub F);

impl<F> View for Angle<F> {
    type V = F;

    /// The angle's value in radians.
    open spec fn view(&self) -> F {
        self.0
    }
}

/// The sum of `start` and the radians of `angles`, added from left to right.
pub open spec fn sum_from<F: FullFloat>(angles: Seq<Angle<F>>, start: F) -> F
    decreases angles.len(),
{
    if angles.len() == 0 {
        start
    } else {
        sum_from(angles.drop_last(), start).add_spec(angles.last()@)
    }
}

impl<F: FullFloat> Angle<F> {
    /// Create an angle from radians.
    pub fn new_radians(radians: F) -> (r: Angle<F>)
        ensures
            r@ == radians,
    {
        Angle::<F>::from_radians(radians)
    }

    /// Create an angle from radians.
    pub fn from_radians(radians: F) -> (r: Angle<F>)
        ensures
            r@ == radians,
    {
        Angle(radians)
    }

    /// Get the value of the angle as radians.
    pub fn as_radians(&self) -> (r: F)
        ensures
            r == self@,
    {
        self.0
    }

    /// `self += rhs`: the same result as `self + rhs`.
    pub fn add_assign(&mut self, rhs: Angle<F>)
        requires
            old(self).add_req(rhs),
        ensures
            F::obeys_add_spec() ==> *final(self) == old(self).add_spec(rhs),
    {
        *self = *self + rhs;
    }

    /// `self -= rhs`: the same result as `self - rhs`.
    pub fn sub_assign(&mut self, rhs: Angle<F>)
        requires
            old(self).sub_req(rhs),
        ensures
            F::obeys_sub_spec() ==> *final(self) == old(self).sub_spec(rhs),
    {
        *self = *self - rhs;
    }

    /// `self *= rhs`: the same result as `self * rhs`.
    pub fn mul_assign(&mut self, rhs: Angle<F>)
        requires
            old(self).mul_req(rhs),
        ensures
            F::obeys_mul_spec() ==> *final(self) == old(self).mul_spec(rhs),
    {
        *self = *self * rhs;
    }

    /// `self /= rhs`: the same result as `self / rhs`.
    pub fn div_assign(&mut self, rhs: Angle<F>)
        requires
            old(self).div_req(rhs),
        ensures
            F::obeys_div_spec() ==> *final(self) == old(self).div_spec(rhs),
    {
        *self = *self / rhs;
    }

    /// `self %= rhs`: the same result as `self % rhs`.
    pub fn rem_assign(&mut self, rhs: Angle<F>)
        requires
            old(self).rem_req(rhs),
        ensures
            F::obeys_rem_spec() ==> *final(self) == old(self).rem_spec(rhs),
    {
        *self = *self % rhs;
    }

    /// `self *= k` for a plain number `k`: the same result as `self * k`.
    pub fn mul_assign_scalar(&mut self, k: F)
        requires
            old(self).mul_req(k),
        ensures
            F::obeys_mul_spec() ==> *final(self) == old(self).mul_spec(k),
    {
        *self = *self * k;
    }

    /// `self /= k` for a plain number `k`: the same result as `self / k`.
    pub fn div_assign_scalar(&mut self, k: F)
        requires
            old(self).div_req(k),
        ensures
            F::obeys_div_spec() ==> *final(self) == old(self).div_spec(k),
    {
        *self = *self / k;
    }
}

impl<F: FullFloat + num_traits::Float + num_traits::FloatConst> Angle<F> {
    /// Create an angle from degrees.
    pub fn new_degrees(degrees: F) -> (r: Angle<F>)
        requires
            ops_total::<F>(),
        ensures
            obeys_ops::<F>() ==> exists|pi: F, half_turn: F|
                r@ == radians_of_degrees(degrees, pi, half_turn),
    {
        Angle::<F>::from_degrees(degrees)
    }

    /// Create an angle from degrees: `pi * degrees / 180`.
    pub fn from_degrees(degrees: F) -> (r: Angle<F>)
        requires
            ops_total::<F>(),
        ensures
            obeys_ops::<F>() ==> exists|pi: F, half_turn: F|
                r@ == radians_of_degrees(degrees, pi, half_turn),
    {
        let half_turn: F = float_of_u32(180);
        Angle(degrees_to_radians(degrees, float_pi(), half_turn))
    }

    /// Get the value of the angle as degrees: `radians * 180 / pi`.
    pub fn as_degrees(&self) -> (r: F)
        requires
            ops_total::<F>(),
        ensures
            obeys_ops::<F>() ==> exists|pi: F, half_turn: F|
                r == degrees_of_radians(self@, pi, half_turn),
    {
        let half_turn: F = float_of_u32(180);
        let pi: F = float_pi();
        let r = radians_to_degrees(self.0, pi, half_turn);
        assert(obeys_ops::<F>() ==> r == degrees_of_radians(self@, pi, half_turn));
        r
    }

    /// Create an angle from cycles (1 cycle is a full circle).
    pub fn new_cycles(cycles: F) -> (r: Angle<F>)
        requires
            ops_total::<F>(),
        ensures
            obeys_ops::<F>() ==> exists|two: F, pi: F| r@ == radians_of_cycles(cycles, two, pi),
    {
        Angle::<F>::from_cycles(cycles)
    }

    /// Create an angle from cycles (1 cycle is a full circle): `2 * pi * cycles`.
    pub fn from_cycles(cycles: F) -> (r: Angle<F>)
        requires
            ops_total::<F>(),
        ensures
            obeys_ops::<F>() ==> exists|two: F, pi: F| r@ == radians_of_cycles(cycles, two, pi),
    {
        let two: F = float_of_u32(2);
        Angle(cycles_to_radians(cycles, two, float_pi()))
    }

    /// Get the value of the angle as a number of cycles: `radians / (2 * pi)`.
    pub fn as_cycles(&self) -> (r: F)
        requires
            ops_total::<F>(),
        ensures
            obeys_ops::<F>() ==> exists|two: F, pi: F| r == cycles_of_radians(self@, two, pi),
    {
        let two: F = float_of_u32(2);
        let pi: F = float_pi();
        let r = radians_to_cycles(self.0, two, pi);
        assert(obeys_ops::<F>() ==> r == cycles_of_radians(self@, two, pi));
        r
    }

    /// Normalize to the radian range `[-pi, pi)` (half a cycle each way), by
    /// the floored remainder, so that negative and multi-turn angles land in
    /// range too.
    pub fn normalize_around_zero(&mut self)
        requires
            ops_total::<F>(),
        ensures
            obeys_ops::<F>() ==> exists|two: F, pi: F|
                final(self)@ == wrapped_around_zero(old(self)@, full_turn(two, pi), pi),
    {
        let two: F = float_of_u32(2);
        let pi: F = float_pi();
        let turn = two * pi;
        self.0 = wrap_around_zero(self.0, turn, pi);
        assert(obeys_ops::<F>() ==> self@ == wrapped_around_zero(old(self)@, full_turn(two, pi), pi));
    }

    /// Normalize to the radian range `[0, 2 pi)` (a full circle, positive),
    /// by the floored remainder.
    pub fn normalize_as_positive(&mut self)
        requires
            ops_total::<F>(),
        ensures
            obeys_ops::<F>() ==> exists|two: F, pi: F|
                final(self)@ == wrapped_positive(old(self)@, full_turn(two, pi)),
    {
        let two: F = float_of_u32(2);
        let pi: F = float_pi();
        let turn = two * pi;
        self.0 = wrap_positive(self.0, turn);
        assert(obeys_ops::<F>() ==> self@ == wrapped_positive(old(self)@, full_turn(two, pi)));
    }

    /// The zero angle: the additive identity.
    pub fn zero() -> (r: Angle<F>) {
        Angle(float_zero())
    }

    /// Whether the angle is zero radians.
    pub fn is_zero(&self) -> bool {
        float_is_zero(&self.0)
    }

    /// The angle of one radian: the multiplicative identity of the scalar,
    /// not a full turn.
    pub fn one() -> (r: Angle<F>) {
        Angle(float_one())
    }

    /// Whether the angle is one radian.
    pub fn is_one(&self) -> bool {
        float_is_one(&self.0)
    }

    /// The angle of the most negative finite scalar.
    pub fn min_value() -> (r: Angle<F>) {
        Angle(float_min_value())
    }

    /// The angle of the largest finite scalar.
    pub fn max_value() -> (r: Angle<F>) {
        Angle(float_max_value())
    }

    /// The sum of `angles`, added from left to right onto the zero angle.
    pub fn sum(angles: &Vec<Angle<F>>) -> (r: Angle<F>)
        requires
            ops_total::<F>(),
        ensures
            obeys_ops::<F>() ==> exists|z: F| r@ == sum_from(angles@, z),
    {
        let zero = Angle::<F>::zero();
        let ghost z = zero@;
        let mut acc = zero;
        let n = angles.len();
        let mut i: usize = 0;
        while i < n
            invariant
                ops_total::<F>(),
                n == angles@.len(),
                i <= n,
                obeys_ops::<F>() ==> acc@ == sum_from(angles@.take(i as int), z),
            decreases n - i,
        {
            let a = angles[i];
            acc = acc + a;
            proof {
                let s = angles@.take(i as int + 1);
                assert(s.drop_last() =~= angles@.take(i as int));
            }
            i = i + 1;
        }
        proof {
            assert(angles@.take(n as int) =~= angles@);
        }
        acc
    }
}

impl<F: FullFloat> core::ops::Add for Angle<F> {
    type Output = Angle<F>;

    fn add(self, rhs: Angle<F>) -> (r: Angle<F>) {
        Angle(self.0 + rhs.0)
    }
}

impl<F: FullFloat> vstd::std_specs::ops::AddSpecImpl for Angle<F> {
    open spec fn obeys_add_spec() -> bool {
        F::obeys_add_spec()
    }

    open spec fn add_req(self, rhs: Angle<F>) -> bool {
        self.0.add_req(rhs.0)
    }

    open spec fn add_spec(self, rhs: Angle<F>) -> Angle<F> {
        Angle(self.0.add_spec(rhs.0))
    }
}

impl<F: FullFloat> core::ops::Sub for Angle<F> {
    type Output = Angle<F>;

    fn sub(self, rhs: Angle<F>) -> (r: Angle<F>) {
        Angle(self.0 - rhs.0)
    }
}

impl<F: FullFloat> vstd::std_specs::ops::SubSpecImpl for Angle<F> {
    open spec fn obeys_sub_spec() -> bool {
        F::obeys_sub_spec()
    }

    open spec fn sub_req(self, rhs: Angle<F>) -> bool {
        self.0.sub_req(rhs.0)
    }

    open spec fn sub_spec(self, rhs: Angle<F>) -> Angle<F> {
        Angle(self.0.sub_spec(rhs.0))
    }
}

impl<F: FullFloat> core::ops::Mul for Angle<F> {
    type Output = Angle<F>;

    fn mul(self, rhs: Angle<F>) -> (r: Angle<F>) {
        Angle(self.0 * rhs.0)
    }
}

impl<F: FullFloat> vstd::std_specs::ops::MulSpecImpl for Angle<F> {
    open spec fn obeys_mul_spec() -> bool {
        F::obeys_mul_spec()
    }

    open spec fn mul_req(self, rhs: Angle<F>) -> bool {
        self.0.mul_req(rhs.0)
    }

    open spec fn mul_spec(self, rhs: Angle<F>) -> Angle<F> {
        Angle(self.0.mul_spec(rhs.0))
    }
}

impl<F: FullFloat> core::ops::Div for Angle<F> {
    type Output = Angle<F>;

    fn div(self, rhs: Angle<F>) -> (r: Angle<F>) {
        Angle(self.0 / rhs.0)
    }
}

impl<F: FullFloat> vstd::std_specs::ops::DivSpecImpl for Angle<F> {
    open spec fn obeys_div_spec() -> bool {
        F::obeys_div_spec()
    }

    open spec fn div_req(self, rhs: Angle<F>) -> bool {
        self.0.div_req(rhs.0)
    }

    open spec fn div_spec(self, rhs: Angle<F>) -> Angle<F> {
        Angle(self.0.div_spec(rhs.0))
    }
}

impl<F: FullFloat> core::ops::Rem for Angle<F> {
    type Output = Angle<F>;

    fn rem(self, rhs: Angle<F>) -> (r: Angle<F>) {
        Angle(self.0 % rhs.0)
    }
}

impl<F: FullFloat> vstd::std_specs::ops::RemSpecImpl for Angle<F> {
    open spec fn obeys_rem_spec() -> bool {
        F::obeys_rem_spec()
    }

    open spec fn rem_req(self, rhs: Angle<F>) -> bool {
        self.0.rem_req(rhs.0)
    }

    open spec fn rem_spec(self, rhs: Angle<F>) -> Angle<F> {
        Angle(self.0.rem_spec(rhs.0))
    }
}

impl<F: FullFloat> core::ops::Mul<F> for Angle<F> {
    type Output = Angle<F>;

    fn mul(self, rhs: F) -> (r: Angle<F>) {
        Angle(self.0 * rhs)
    }
}

impl<F: FullFloat> vstd::std_specs::ops::MulSpecImpl<F> for Angle<F> {
    open spec fn obeys_mul_spec() -> bool {
        F::obeys_mul_spec()
    }

    open spec fn mul_req(self, rhs: F) -> bool {
        self.0.mul_req(rhs)
    }

    open spec fn mul_spec(self, rhs: F) -> Angle<F> {
        Angle(self.0.mul_spec(rhs))
    }
}

impl<F: FullFloat> core::ops::Div<F> for Angle<F> {
    type Output = Angle<F>;

    fn div(self, rhs: F) -> (r: Angle<F>) {
        Angle(self.0 / rhs)
    }
}

impl<F: FullFloat> vstd::std_specs::ops::DivSpecImpl<F> for Angle<F> {
    open spec fn obeys_div_spec() -> bool {
        F::obeys_div_spec()
    }

    open spec fn div_req(self, rhs: F) -> bool {
        self.0.div_req(rhs)
    }

    open spec fn div_spec(self, rhs: F) -> Angle<F> {
        Angle(self.0.div_spec(rhs))
    }
}

impl<F: FullFloat> core::ops::Neg for Angle<F> {
    type Output = Angle<F>;

    fn neg(self) -> (r: Angle<F>) {
        Angle(core::ops::Neg::neg(self.0))
    }
}

impl<F: FullFloat> vstd::std_specs::ops::NegSpecImpl for Angle<F> {
    open spec fn obeys_neg_spec() -> bool {
        F::obeys_neg_spec()
    }

    open spec fn neg_req(self) -> bool {
        self.0.neg_req()
    }

    open spec fn neg_spec(self) -> Angle<F> {
        Angle(self.0.neg_spec())
    }
}

} // verus!
