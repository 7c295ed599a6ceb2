//! Failures of a composite parse.

use crate::error::expect_error::ExpectError;
use vstd::prelude::*;

verus! {

/// Why a node could not be built.
#[derive(Debug, PartialEq, Eq)]
pub enum ParseError<T> {
    /// A token of another category stood where a leaf was expected.
    UnexpectedToken(ExpectError<T>),
    /// The buffer ended where a leaf was expected.
    NoMoreTokens(ExpectError<T>),
    /// No alternative of a sum node could be parsed; the failure of one of them is kept inside.
    FailedToParseBranch(Box<ParseError<T>>),
}

impl<T: Clone> Clone for ParseError<T> {
    fn clone(&self) -> (res: Self)
        ensures
            self.cloned_as(res),
        decreases *self,
    {
        match self {
            ParseError::UnexpectedToken(e) => ParseError::UnexpectedToken(e.clone()),
            ParseError::NoMoreTokens(e) => ParseError::NoMoreTokens(e.clone()),
            ParseError::FailedToParseBranch(inner) => ParseError::FailedToParseBranch(
                Box::new((&**inner).clone()),
            ),
        }
    }
}

impl<T: Clone> ParseError<T> {
    /// `copy` is a clone of this error: the same shape, each expectation
    /// failure in it a clone of the one here.
    pub open spec fn cloned_as(&self, copy: Self) -> bool
        decreases *self,
    {
        match (*self, copy) {
            (ParseError::UnexpectedToken(e), ParseError::UnexpectedToken(e2)) => e.cloned_as(e2),
            (ParseError::NoMoreTokens(e), ParseError::NoMoreTokens(e2)) => e.cloned_as(e2),
            (ParseError::FailedToParseBranch(b), ParseError::FailedToParseBranch(b2)) => b.cloned_as(
                *b2,
            ),
            _ => false,
        }
    }
}

impl<T> ParseError<T> {
    /// The index in the buffer at which the failure was detected.
    pub open spec fn index(&self) -> usize
        decreases *self,
    {
        match *self {
            ParseError::UnexpectedToken(e) => e.index(),
            ParseError::NoMoreTokens(e) => e.index(),
            ParseError::FailedToParseBranch(inner) => inner.index(),
        }
    }

    /// The failure of a leaf as the failure of the node around it: a token
    /// of another category is an unexpected token; the end of the buffer
    /// stays the end of the buffer. The failure itself is kept.
    pub open spec fn of_leaf(expect_error: ExpectError<T>) -> Self {
        match expect_error {
            ExpectError::ExpectedNotFound { .. } => ParseError::UnexpectedToken(expect_error),
            ExpectError::NoMoreTokens { .. } => ParseError::NoMoreTokens(expect_error),
        }
    }

    /// The index in the buffer at which the failure was detected.
    pub fn failed_at(&self) -> (at: usize)
        ensures
            at == self.index(),
        decreases *self,
    {
        match self {
            ParseError::UnexpectedToken(e) => e.failed_at(),
            ParseError::NoMoreTokens(e) => e.failed_at(),
            ParseError::FailedToParseBranch(inner) => inner.failed_at(),
        }
    }
}

impl<T> From<ExpectError<T>> for ParseError<T> {
    /// A leaf that could not be had, as the failure of the node around it.
    fn from(expect_error: ExpectError<T>) -> (r: Self) {
        match expect_error {
            ExpectError::ExpectedNotFound { .. } => ParseError::UnexpectedToken(expect_error),
            ExpectError::NoMoreTokens { .. } => ParseError::NoMoreTokens(expect_error),
        }
    }
}

impl<T> vstd::std_specs::convert::FromSpecImpl<ExpectError<T>> for ParseError<T> {
    open spec fn obeys_from_spec() -> bool {
        true
    }

    open spec fn from_spec(expect_error: ExpectError<T>) -> Self {
        ParseError::of_leaf(expect_error)
    }
}

} // verus!
