//! The transform adapter: re-expresses a 2x3 affine map between the generic
//! coefficient order and the backend's row-major order.
//!
//! The six coefficients `[a, b, c, d, e, f]` of the generic form stand for the
//! map `(x, y) -> (a*x + c*y + e, b*x + d*y + f)`. The backend takes the same
//! numbers as `m11, m12, m21, m22, m31, m32`, where `m11 = a`, `m12 = c`,
//! `m21 = b`, `m22 = d`, `m31 = e` and `m32 = f`. Converting only reorders;
//! no coefficient is computed with.

use vstd::prelude::*;

verus! {

/// An affine map in the backend's row-major form.
#[derive(Clone, Copy, Debug, PartialEq)]
pub struct RowMajor<T> {
    pub m11: T,
    pub m12: T,
    pub m21: T,
    pub m22: T,
    pub m31: T,
    pub m32: T,
}

/// The backend form of the generic coefficients `coeffs`.
pub open spec fn backend_form<T>(coeffs: Seq<T>) -> RowMajor<T>
    recommends
        coeffs.len() == 6,
{
    RowMajor {
        m11: coeffs[0],
        m12: coeffs[2],
        m21: coeffs[1],
        m22: coeffs[3],
        m31: coeffs[4],
        m32: coeffs[5],
    }
}

/// The generic coefficients of the backend form `t`.
pub open spec fn generic_form<T>(t: RowMajor<T>) -> Seq<T> {
    seq![t.m11, t.m21, t.m12, t.m22, t.m31, t.m32]
}

/// Converts generic coefficients to the backend's row-major form.
pub fn to_backend<T: Copy>(coeffs: [T; 6]) -> (t: RowMajor<T>)
    ensures
        t == backend_form(coeffs@),
{
    RowMajor {
        m11: coeffs[0],
        m12: coeffs[2],
        m21: coeffs[1],
        m22: coeffs[3],
        m31: coeffs[4],
        m32: coeffs[5],
    }
}

/// Converts the backend's row-major form to generic coefficients.
pub fn to_generic<T: Copy>(t: RowMajor<T>) -> (coeffs: [T; 6])
    ensures
        coeffs@ == generic_form(t),
{
    let coeffs = [t.m11, t.m21, t.m12, t.m22, t.m31, t.m32];
    assert(coeffs@ =~= generic_form(t));
    coeffs
}

/// Going to the backend form and back gives the six coefficients that one
/// started with.
pub proof fn lemma_generic_round_trip<T>(coeffs: Seq<T>)
    requires
        coeffs.len() == 6,
    ensures
        generic_form(backend_form(coeffs)) == coeffs,
{
    assert(generic_form(backend_form(coeffs)) =~= coeffs);
}

/// Going to the generic form and back gives the backend form that one
/// started with.
pub proof fn lemma_backend_round_trip<T>(t: RowMajor<T>)
    ensures
        backend_form(generic_form(t)) == t,
{
}

} // verus!
