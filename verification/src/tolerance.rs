//! The tolerance that bounds how far an approximation may deviate.

use vstd::prelude::*;

verus! {

/// A tolerance value: the maximum deviation, in coordinate units, that a
/// boundary approximation may have from the true geometry. Always positive.
#[derive(Clone, Copy, PartialEq, Eq, Structural, Debug)]
pub struct Tolerance {
    inner: i64,
}

/// The error returned when a tolerance value is not positive.
#[derive(Clone, Copy, PartialEq, Eq, Structural, Debug)]
pub struct InvalidTolerance {
    /// The rejected value.
    pub invalid_tolerance: i64,
}

impl Tolerance {
    /// Construct a tolerance from a scalar. Fails exactly when the scalar is
    /// not positive.
    pub fn from_scalar(scalar: i64) -> (r: Result<Tolerance, InvalidTolerance>)
        ensures
            scalar > 0 <==> r is Ok,
            r is Ok ==> r->Ok_0.value() == scalar,
            r is Err ==> r->Err_0.invalid_tolerance == scalar,
    {
        if scalar <= 0 {
            Err(InvalidTolerance { invalid_tolerance: scalar })
        } else {
            Ok(Tolerance { inner: scalar })
        }
    }

    /// The scalar value of this tolerance.
    pub fn inner(&self) -> (r: i64)
        ensures
            r == self.value(),
    {
        self.inner
    }

    /// The scalar value, in specifications.
    pub closed spec fn value(self) -> i64 {
        self.inner
    }
}

} // verus!
