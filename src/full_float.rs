use vstd::prelude::*;
use vstd::std_specs::cmp::PartialOrdSpec;
use vstd::std_specs::ops::{AddSpec, DivSpec, MulSpec, NegSpec, RemSpec, SubSpec};

verus! {

/// The scalar behind an angle: a copyable number with the arithmetic
/// operators of `core::ops` and a partial order.
pub trait FullFloat:
    Copy +
    PartialEq +
    PartialOrd +
    core::ops::Add<Output = Self> +
    core::ops::Sub<Output = Self> +
    core::ops::Mul<Output = Self> +
    core::ops::Div<Output = Self> +
    core::ops::Rem<Output = Self> +
    core::ops::Neg<Output = Self>
{
}

impl<T> FullFloat for T where
    T: Copy + PartialEq + PartialOrd + core::ops::Add<Output = T> + core::ops::Sub<Output = T>
        + core::ops::Mul<Output = T> + core::ops::Div<Output = T> + core::ops::Rem<Output = T>
        + core::ops::Neg<Output = T>,
 {
}

/// The scalar's operators are total: none of them asks anything of its
/// operands (floating-point arithmetic signals trouble with NaN and
/// infinities, never with a panic).
pub open spec fn ops_total<F: FullFloat>() -> bool {
    &&& forall|a: F, b: F| #[trigger] a.add_req(b)
    &&& forall|a: F, b: F| #[trigger] a.sub_req(b)
    &&& forall|a: F, b: F| #[trigger] a.mul_req(b)
    &&& forall|a: F, b: F| #[trigger] a.div_req(b)
    &&& forall|a: F, b: F| #[trigger] a.rem_req(b)
}

/// The scalar's operators and order follow their spec functions
/// (`add_spec`, `partial_cmp_spec`, ...), so that results can be named.
pub open spec fn obeys_ops<F: FullFloat>() -> bool {
    &&& F::obeys_add_spec()
    &&& F::obeys_sub_spec()
    &&& F::obeys_mul_spec()
    &&& F::obeys_div_spec()
    &&& F::obeys_rem_spec()
    &&& F::obeys_neg_spec()
    &&& F::obeys_partial_cmp_spec()
}

/// `a >= b` in the scalar's partial order.
pub open spec fn ge_spec<F: FullFloat>(a: F, b: F) -> bool {
    a.partial_cmp_spec(&b) matches Some(core::cmp::Ordering::Greater | core::cmp::Ordering::Equal)
}

/// Relies on num_traits::FloatConst::PI for the number pi.
#[verifier::external_body]
pub(crate) fn float_pi<T: num_traits::FloatConst>() -> T {
    T::PI()
}

/// Relies on num_traits::NumCast::from, which for a float type gives the
/// float nearest to a small whole number.
#[verifier::external_body]
pub(crate) fn float_of_u32<T: num_traits::Float>(n: u32) -> T {
    <T as num_traits::NumCast>::from(n).unwrap()
}

/// Relies on num_traits::Zero::zero.
#[verifier::external_body]
pub(crate) fn float_zero<T: num_traits::Float>() -> T {
    T::zero()
}

/// Relies on num_traits::Zero::is_zero.
#[verifier::external_body]
pub(crate) fn float_is_zero<T: num_traits::Float>(x: &T) -> bool {
    x.is_zero()
}

/// Relies on num_traits::One::one.
#[verifier::external_body]
pub(crate) fn float_one<T: num_traits::Float>() -> T {
    T::one()
}

/// Relies on num_traits::One::is_one.
#[verifier::external_body]
pub(crate) fn float_is_one<T: num_traits::Float>(x: &T) -> bool {
    x.is_one()
}

/// Relies on num_traits::Float::min_value, the most negative finite value.
#[verifier::external_body]
pub(crate) fn float_min_value<T: num_traits::Float>() -> T {
    <T as num_traits::Float>::min_value()
}

/// Relies on num_traits::Float::max_value, the largest finite value.
#[verifier::external_body]
pub(crate) fn float_max_value<T: num_traits::Float>() -> T {
    <T as num_traits::Float>::max_value()
}

} // verus!
