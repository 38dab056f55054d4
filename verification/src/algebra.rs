//! The scalar, vector, quaternion and matrix operations the camera is built from.
//!
//! The operations are carried out by `cgmath` and by the scalar type itself.
//! Values of these types are opaque to the verifier, and for a generic scalar
//! the outcome of an operation has no description that a contract could give.
//! Every executable function in this file is therefore a trusted declaration
//! that promises one thing only: the call returns.
//!
//! Beside each operation stands a relation that gives its outcome a name.
//! `is_product(a, b, r)`, for one, says that `r` is a value which `product`
//! returned for `a` and `b`. A relation holds of what a call returned and of
//! nothing else that the verifier knows; it does not say that the operation
//! returns the same value twice. The contracts of the camera are written over
//! these relations.

use vstd::prelude::*;
use cgmath::{BaseFloat, InnerSpace, Matrix4, Quaternion, SquareMatrix, Vector2, Vector3};

verus! {

/// `cgmath::Vector2`, carried through as an opaque value.
#[verifier::external_type_specification]
#[verifier::external_body]
#[verifier::reject_recursive_types(S)]
pub struct ExVector2<S>(cgmath::Vector2<S>);

/// `cgmath::Vector3`, carried through as an opaque value.
#[verifier::external_type_specification]
#[verifier::external_body]
#[verifier::reject_recursive_types(S)]
pub struct ExVector3<S>(cgmath::Vector3<S>);

/// `cgmath::Quaternion`, carried through as an opaque value.
#[verifier::external_type_specification]
#[verifier::external_body]
#[verifier::reject_recursive_types(S)]
pub struct ExQuaternion<S>(cgmath::Quaternion<S>);

/// `cgmath::Matrix4`, carried through as an opaque value.
#[verifier::external_type_specification]
#[verifier::external_body]
#[verifier::reject_recursive_types(S)]
pub struct ExMatrix4<S>(cgmath::Matrix4<S>);

/// `num_traits::One::one` for the scalar type. Nothing is claimed of the value.
#[verifier::external_body]
pub(crate) fn one<F: BaseFloat>() -> (r: F) {
    F::one()
}

/// `r` is a value returned by `one`.
pub(crate) open spec fn is_one<F: BaseFloat>(r: F) -> bool {
    call_ensures(one::<F>, (), r)
}

/// `num_traits::Zero::zero` for the scalar type. Nothing is claimed of the value.
#[verifier::external_body]
pub(crate) fn zero<F: BaseFloat>() -> (r: F) {
    F::zero()
}

/// `r` is a value returned by `zero`.
pub(crate) open spec fn is_zero<F: BaseFloat>(r: F) -> bool {
    call_ensures(zero::<F>, (), r)
}

/// The scalar type's own `+`. Nothing is claimed of the sum.
#[verifier::external_body]
pub(crate) fn sum<F: BaseFloat>(a: F, b: F) -> (r: F) {
    a + b
}

/// `r` is a value returned by `sum` for `a` and `b`.
pub(crate) open spec fn is_sum<F: BaseFloat>(a: F, b: F, r: F) -> bool {
    call_ensures(sum::<F>, (a, b), r)
}

/// The scalar type's own binary `-`. Nothing is claimed of the difference.
#[verifier::external_body]
pub(crate) fn difference<F: BaseFloat>(a: F, b: F) -> (r: F) {
    a - b
}

/// `r` is a value returned by `difference` for `a` and `b`.
pub(crate) open spec fn is_difference<F: BaseFloat>(a: F, b: F, r: F) -> bool {
    call_ensures(difference::<F>, (a, b), r)
}

/// The scalar type's own `*`. Nothing is claimed of the product.
#[verifier::external_body]
pub(crate) fn product<F: BaseFloat>(a: F, b: F) -> (r: F) {
    a * b
}

/// `r` is a value returned by `product` for `a` and `b`.
pub(crate) open spec fn is_product<F: BaseFloat>(a: F, b: F, r: F) -> bool {
    call_ensures(product::<F>, (a, b), r)
}

/// The scalar type's own `/`. Nothing is claimed of the quotient; a zero
/// divisor is passed on to the scalar type like any other.
#[verifier::external_body]
pub(crate) fn quotient<F: BaseFloat>(a: F, b: F) -> (r: F) {
    a / b
}

/// `r` is a value returned by `quotient` for `a` and `b`.
pub(crate) open spec fn is_quotient<F: BaseFloat>(a: F, b: F, r: F) -> bool {
    call_ensures(quotient::<F>, (a, b), r)
}

/// The scalar type's own unary `-`. Nothing is claimed of the result.
#[verifier::external_body]
pub(crate) fn negated<F: BaseFloat>(a: F) -> (r: F) {
    -a
}

/// `r` is a value returned by `negated` for `a`.
pub(crate) open spec fn is_negation<F: BaseFloat>(a: F, r: F) -> bool {
    call_ensures(negated::<F>, (a,), r)
}

/// `num_traits::Float::sqrt`. Nothing is claimed of the root.
#[verifier::external_body]
pub(crate) fn square_root<F: BaseFloat>(a: F) -> (r: F) {
    a.sqrt()
}

/// `r` is a value returned by `square_root` for `a`.
pub(crate) open spec fn is_square_root<F: BaseFloat>(a: F, r: F) -> bool {
    call_ensures(square_root::<F>, (a,), r)
}

/// `cgmath::Vector2::new`. Nothing is claimed of the vector.
#[verifier::external_body]
pub(crate) fn vector2<F: BaseFloat>(x: F, y: F) -> (r: Vector2<F>) {
    Vector2::new(x, y)
}

/// `r` is a value returned by `vector2` for `x` and `y`.
pub(crate) open spec fn is_vector2<F: BaseFloat>(x: F, y: F, r: Vector2<F>) -> bool {
    call_ensures(vector2::<F>, (x, y), r)
}

/// Reads the public fields `x` and `y` of a `cgmath::Vector2`. Nothing is
/// claimed of the pair.
#[verifier::external_body]
pub(crate) fn coordinates<F: BaseFloat>(v: &Vector2<F>) -> (r: (F, F)) {
    (v.x, v.y)
}

/// `r` is a pair returned by `coordinates` for `v`.
pub(crate) open spec fn has_coordinates<F: BaseFloat>(v: Vector2<F>, r: (F, F)) -> bool {
    call_ensures(coordinates::<F>, (&v,), r)
}

/// `cgmath::dot` on two-dimensional vectors. Nothing is claimed of the
/// product.
#[verifier::external_body]
pub(crate) fn dot<F: BaseFloat>(a: &Vector2<F>, b: &Vector2<F>) -> (r: F) {
    cgmath::dot(*a, *b)
}

/// `r` is a value returned by `dot` for `a` and `b`.
pub(crate) open spec fn is_dot<F: BaseFloat>(a: Vector2<F>, b: Vector2<F>, r: F) -> bool {
    call_ensures(dot::<F>, (&a, &b), r)
}

/// `cgmath::InnerSpace::normalize` on a two-dimensional vector. Nothing is
/// claimed of the result.
#[verifier::external_body]
pub(crate) fn normalized<F: BaseFloat>(v: &Vector2<F>) -> (r: Vector2<F>) {
    v.normalize()
}

/// `r` is a value returned by `normalized` for `v`.
pub(crate) open spec fn is_normalized<F: BaseFloat>(v: Vector2<F>, r: Vector2<F>) -> bool {
    call_ensures(normalized::<F>, (&v,), r)
}

/// `cgmath::Vector2::extend`. Nothing is claimed of the three-dimensional
/// vector.
#[verifier::external_body]
pub(crate) fn extended<F: BaseFloat>(v: &Vector2<F>, z: F) -> (r: Vector3<F>) {
    v.extend(z)
}

/// `r` is a value returned by `extended` for `v` and `z`.
pub(crate) open spec fn is_extended<F: BaseFloat>(v: Vector2<F>, z: F, r: Vector3<F>) -> bool {
    call_ensures(extended::<F>, (&v, z), r)
}

/// `cgmath::Vector3::new`. Nothing is claimed of the vector.
#[verifier::external_body]
pub(crate) fn vector3<F: BaseFloat>(x: F, y: F, z: F) -> (r: Vector3<F>) {
    Vector3::new(x, y, z)
}

/// `r` is a value returned by `vector3` for `x`, `y` and `z`.
pub(crate) open spec fn is_vector3<F: BaseFloat>(x: F, y: F, z: F, r: Vector3<F>) -> bool {
    call_ensures(vector3::<F>, (x, y, z), r)
}

/// `cgmath`'s `Vector3 * scalar`. Nothing is claimed of the scaled vector.
#[verifier::external_body]
pub(crate) fn scaled<F: BaseFloat>(v: &Vector3<F>, k: F) -> (r: Vector3<F>) {
    *v * k
}

/// `r` is a value returned by `scaled` for `v` and `k`.
pub(crate) open spec fn is_scaled<F: BaseFloat>(v: Vector3<F>, k: F, r: Vector3<F>) -> bool {
    call_ensures(scaled::<F>, (&v, k), r)
}

/// `cgmath::Quaternion::new`, scalar part first. Nothing is claimed of the
/// quaternion.
#[verifier::external_body]
pub(crate) fn quaternion<F: BaseFloat>(s: F, x: F, y: F, z: F) -> (r: Quaternion<F>) {
    Quaternion::new(s, x, y, z)
}

/// `r` is a value returned by `quaternion` for `s`, `x`, `y` and `z`.
pub(crate) open spec fn is_quaternion<F: BaseFloat>(s: F, x: F, y: F, z: F, r: Quaternion<F>) -> bool {
    call_ensures(quaternion::<F>, (s, x, y, z), r)
}

/// `cgmath`'s `Quaternion * Quaternion`. Nothing is claimed of the product.
#[verifier::external_body]
pub(crate) fn quaternion_product<F: BaseFloat>(a: &Quaternion<F>, b: &Quaternion<F>) -> (r:
    Quaternion<F>) {
    *a * *b
}

/// `r` is a value returned by `quaternion_product` for `a` and `b`.
pub(crate) open spec fn is_quaternion_product<F: BaseFloat>(a: Quaternion<F>, b: Quaternion<F>, r: Quaternion<F>) -> bool {
    call_ensures(quaternion_product::<F>, (&a, &b), r)
}

/// `cgmath::SquareMatrix::identity` for `Matrix4`. Nothing is claimed of the
/// matrix.
#[verifier::external_body]
pub(crate) fn identity_matrix<F: BaseFloat>() -> (r: Matrix4<F>) {
    Matrix4::identity()
}

/// `r` is a value returned by `identity_matrix`.
pub(crate) open spec fn is_identity_matrix<F: BaseFloat>(r: Matrix4<F>) -> bool {
    call_ensures(identity_matrix::<F>, (), r)
}

/// `cgmath::Matrix4::from_translation`. Nothing is claimed of the matrix.
#[verifier::external_body]
pub(crate) fn translation_matrix<F: BaseFloat>(v: &Vector3<F>) -> (r: Matrix4<F>) {
    Matrix4::from_translation(*v)
}

/// `r` is a value returned by `translation_matrix` for `v`.
pub(crate) open spec fn is_translation_matrix<F: BaseFloat>(v: Vector3<F>, r: Matrix4<F>) -> bool {
    call_ensures(translation_matrix::<F>, (&v,), r)
}

/// `cgmath`'s `From<Quaternion>` for `Matrix4`. Nothing is claimed of the
/// matrix.
#[verifier::external_body]
pub(crate) fn rotation_matrix<F: BaseFloat>(q: &Quaternion<F>) -> (r: Matrix4<F>) {
    Matrix4::from(*q)
}

/// `r` is a value returned by `rotation_matrix` for `q`.
pub(crate) open spec fn is_rotation_matrix<F: BaseFloat>(q: Quaternion<F>, r: Matrix4<F>) -> bool {
    call_ensures(rotation_matrix::<F>, (&q,), r)
}

/// `cgmath`'s `Matrix4 * Matrix4`. Nothing is claimed of the product.
#[verifier::external_body]
pub(crate) fn matrix_product<F: BaseFloat>(a: &Matrix4<F>, b: &Matrix4<F>) -> (r: Matrix4<F>) {
    *a * *b
}

/// `r` is a value returned by `matrix_product` for `a` and `b`.
pub(crate) open spec fn is_matrix_product<F: BaseFloat>(a: Matrix4<F>, b: Matrix4<F>, r: Matrix4<F>) -> bool {
    call_ensures(matrix_product::<F>, (&a, &b), r)
}

/// `cgmath::SquareMatrix::invert` for `Matrix4`. Nothing is claimed of the
/// outcome: which matrices are reported as singular (`None`) is left to
/// `cgmath`, and an inverse that is returned is not described.
#[verifier::external_body]
pub(crate) fn inverse<F: BaseFloat>(m: &Matrix4<F>) -> (r: Option<Matrix4<F>>) {
    m.invert()
}

/// `r` is an outcome returned by `inverse` for `m`: an inverse, or `None`.
pub(crate) open spec fn is_inverse<F: BaseFloat>(m: Matrix4<F>, r: Option<Matrix4<F>>) -> bool {
    call_ensures(inverse::<F>, (&m,), r)
}

} // verus!
