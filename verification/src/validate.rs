//! Validation decisions for tabular data.
//!
//! Each check takes the plain values a frame answers for itself — its shape,
//! its column names, its height, the boolean an expression evaluated to —
//! and decides whether the frame passes, as a typed result rather than an
//! abort. The surrounding program reads those values off the frame and
//! chooses what a failure means to it.

use vstd::prelude::*;

verus! {

/// Which validation failed.
#[derive(Debug, PartialEq, Eq, Clone, Copy)]
pub enum ValidationError {
    /// The frame's shape was not the expected one.
    Shape,
    /// The frame's column names were not the expected ones.
    Columns,
    /// The frame's height broke the given bound.
    Length,
    /// The validation expression did not hold of the frame.
    Expression,
}

/// A bound a frame's height is held to.
#[derive(Debug, PartialEq, Eq, Clone, Copy)]
pub enum Comparison {
    /// The height must exceed the given value.
    GreaterThan(usize),
    /// The height must stay under the given value.
    LessThan(usize),
    /// The height must equal the given value.
    Equal(usize),
}

/// Whether a height satisfies the bound.
pub open spec fn comparison_holds(c: Comparison, height: usize) -> bool {
    match c {
        Comparison::GreaterThan(n) => height > n,
        Comparison::LessThan(n) => height < n,
        Comparison::Equal(n) => height == n,
    }
}

/// Check a frame's shape — (height, width) — against the expected one.
pub fn has_shape(actual: (usize, usize), expected: (usize, usize)) -> (r: Result<
    (),
    ValidationError,
>)
    ensures
        r is Ok <==> actual == expected,
        r is Err ==> r == Err::<(), ValidationError>(ValidationError::Shape),
{
    if actual.0 == expected.0 && actual.1 == expected.1 {
        Ok(())
    } else {
        Err(ValidationError::Shape)
    }
}

/// Check a frame's column names against the expected ones, in order.
pub fn has_cols(actual: &Vec<String>, expected: &Vec<String>) -> (r: Result<(), ValidationError>)
    ensures
        r is Ok <==> actual.deep_view() == expected.deep_view(),
        r is Err ==> r == Err::<(), ValidationError>(ValidationError::Columns),
{
    if actual.len() != expected.len() {
        proof {
            assert(actual.deep_view().len() != expected.deep_view().len());
        }
        return Err(ValidationError::Columns);
    }
    let n = actual.len();
    let mut i: usize = 0;
    while i < n
        invariant
            i <= n,
            n == actual@.len(),
            n == expected@.len(),
            forall|j: int| 0 <= j < i ==> actual@[j]@ == expected@[j]@,
        decreases n - i,
    {
        if !actual[i].eq(&expected[i]) {
            proof {
                assert(actual.deep_view()[i as int] != expected.deep_view()[i as int]);
            }
            return Err(ValidationError::Columns);
        }
        i = i + 1;
    }
    proof {
        assert(actual.deep_view() =~~= expected.deep_view());
    }
    Ok(())
}

/// Check a frame's height against a bound.
pub fn has_length(height: usize, length: &Comparison) -> (r: Result<(), ValidationError>)
    ensures
        r is Ok <==> comparison_holds(*length, height),
        r is Err ==> r == Err::<(), ValidationError>(ValidationError::Length),
{
    let ok = match length {
        Comparison::GreaterThan(n) => height > *n,
        Comparison::LessThan(n) => height < *n,
        Comparison::Equal(n) => height == *n,
    };
    if ok {
        Ok(())
    } else {
        Err(ValidationError::Length)
    }
}

/// The decision of an expression validation: the frame passes exactly when
/// the evaluated expression answered `true` for it.
pub fn validate(passed: bool) -> (r: Result<(), ValidationError>)
    ensures
        r is Ok <==> passed,
        r is Err ==> r == Err::<(), ValidationError>(ValidationError::Expression),
{
    if passed {
        Ok(())
    } else {
        Err(ValidationError::Expression)
    }
}

} // verus!
