use vstd::prelude::*;
use crate::angle::Angle;
use crate::full_float::{FullFloat, obeys_ops, ops_total};
use crate::units::{radians_of_degrees, degrees_of_radians};
use vstd::std_specs::convert::FromSpec;

verus! {

/// cgmath's radian-tagged scalar; its one field is public.
#[verifier::external_type_specification]
#[verifier::reject_recursive_types(S)]
pub struct ExRad<S>(cgmath::Rad<S>);

/// cgmath's degree-tagged scalar; its one field is public.
#[verifier::external_type_specification]
#[verifier::reject_recursive_types(S)]
pub struct ExDeg<S>(cgmath::Deg<S>);

impl<F> From<cgmath::Rad<F>> for Angle<F> {
    fn from(rad: cgmath::Rad<F>) -> (r: Angle<F>) {
        Angle(rad.0)
    }
}

impl<F> vstd::std_specs::convert::FromSpecImpl<cgmath::Rad<F>> for Angle<F> {
    open spec fn obeys_from_spec() -> bool {
        true
    }

    open spec fn from_spec(rad: cgmath::Rad<F>) -> Angle<F> {
        Angle(rad.0)
    }
}

impl<F> From<Angle<F>> for cgmath::Rad<F> {
    fn from(angle: Angle<F>) -> (r: cgmath::Rad<F>) {
        cgmath::Rad(angle.0)
    }
}

impl<F> vstd::std_specs::convert::FromSpecImpl<Angle<F>> for cgmath::Rad<F> {
    open spec fn obeys_from_spec() -> bool {
        true
    }

    open spec fn from_spec(angle: Angle<F>) -> cgmath::Rad<F> {
        cgmath::Rad(angle.0)
    }
}

/// An angle turned into cgmath's radians and back is the same angle, bit
/// for bit.
pub proof fn lemma_rad_round_trip<F>(a: Angle<F>)
    ensures
        <Angle<F> as FromSpec<cgmath::Rad<F>>>::from_spec(
            <cgmath::Rad<F> as FromSpec<Angle<F>>>::from_spec(a),
        ) == a,
{
}

/// cgmath's radians turned into an angle and back are the same radians.
pub proof fn lemma_angle_round_trip<F>(rad: cgmath::Rad<F>)
    ensures
        <cgmath::Rad<F> as FromSpec<Angle<F>>>::from_spec(
            <Angle<F> as FromSpec<cgmath::Rad<F>>>::from_spec(rad),
        ) == rad,
{
}

impl<F: FullFloat + num_traits::Float + num_traits::FloatConst> Angle<F> {
    /// The angle of cgmath's degrees, converted as by `from_degrees`.
    pub fn from_deg(deg: cgmath::Deg<F>) -> (r: Angle<F>)
        requires
            ops_total::<F>(),
        ensures
            obeys_ops::<F>() ==> exists|pi: F, half_turn: F|
                r@ == radians_of_degrees(deg.0, pi, half_turn),
    {
        Angle::<F>::from_degrees(deg.0)
    }

    /// The angle in cgmath's degrees, converted as by `as_degrees`.
    pub fn into_deg(self) -> (r: cgmath::Deg<F>)
        requires
            ops_total::<F>(),
        ensures
            obeys_ops::<F>() ==> exists|pi: F, half_turn: F|
                r.0 == degrees_of_radians(self@, pi, half_turn),
    {
        cgmath::Deg(self.as_degrees())
    }
}

} // verus!
