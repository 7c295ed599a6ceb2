//! Failures of a single terminal expectation.

use vstd::prelude::*;

verus! {

/// Why one expected token could not be had.
#[derive(Debug, Copy, PartialEq, Eq)]
pub enum ExpectError<T> {
    /// The buffer ended at `failed_at`, where `could_not_consume` was expected.
    NoMoreTokens { failed_at: usize, could_not_consume: T },
    /// The token `found` at `failed_at` is not of the category of `expected`.
    ExpectedNotFound { failed_at: usize, expected: T, found: T },
}

impl<T: Clone> Clone for ExpectError<T> {
    fn clone(&self) -> (res: Self)
        ensures
            self.cloned_as(res),
    {
        match self {
            ExpectError::NoMoreTokens { failed_at, could_not_consume } => ExpectError::NoMoreTokens {
                failed_at: *failed_at,
                could_not_consume: could_not_consume.clone(),
            },
            ExpectError::ExpectedNotFound { failed_at, expected, found } => {
                ExpectError::ExpectedNotFound {
                    failed_at: *failed_at,
                    expected: expected.clone(),
                    found: found.clone(),
                }
            },
        }
    }
}

impl<T: Clone> ExpectError<T> {
    /// `copy` is a clone of this error: the same failure at the same index,
    /// each token in it a clone of the one here.
    pub open spec fn cloned_as(&self, copy: Self) -> bool {
        match (*self, copy) {
            (
                ExpectError::NoMoreTokens { failed_at: at, could_not_consume: t },
                ExpectError::NoMoreTokens { failed_at: at2, could_not_consume: t2 },
            ) => at == at2 && cloned(t, t2),
            (
                ExpectError::ExpectedNotFound { failed_at: at, expected: e, found: f },
                ExpectError::ExpectedNotFound { failed_at: at2, expected: e2, found: f2 },
            ) => at == at2 && cloned(e, e2) && cloned(f, f2),
            _ => false,
        }
    }
}

impl<T> ExpectError<T> {
    /// The index in the buffer at which the expectation failed.
    pub open spec fn index(&self) -> usize {
        match *self {
            ExpectError::NoMoreTokens { failed_at, .. } => failed_at,
            ExpectError::ExpectedNotFound { failed_at, .. } => failed_at,
        }
    }

    /// The index in the buffer at which the expectation failed.
    pub fn failed_at(&self) -> (at: usize)
        ensures
            at == self.index(),
    {
        match self {
            ExpectError::NoMoreTokens { failed_at, .. } => *failed_at,
            ExpectError::ExpectedNotFound { failed_at, .. } => *failed_at,
        }
    }
}

} // verus!
