//! The two capabilities a grammar is written with.

use crate::error::expect_error::ExpectError;
use crate::error::parse_error::ParseError;
use crate::iter::TokenIter;
use std::fmt::Debug;
use vstd::prelude::*;

verus! {

/// A terminal that can be taken off the cursor and checked against an
/// expected one.
pub trait Expectable<T>: Debug + PartialEq + Eq + Clone {
    /// Whether expecting `token` on the buffer `tokens` from `start` can end
    /// in `outcome` with the cursor at `end`. An implementation that does
    /// not say leaves every outcome open.
    open spec fn expects(
        tokens: Seq<T>,
        start: nat,
        token: T,
        outcome: Result<Self, ExpectError<T>>,
        end: nat,
    ) -> bool {
        true
    }

    /// Expects `token` at the cursor. The buffer and the savepoints stay as
    /// they are and the cursor does not move back; what comes out is one of
    /// the outcomes that `expects` admits. A failure is not rolled back
    /// here: that is the work of the attempt around the call.
    fn expect(iter: &mut TokenIter<T>, token: T) -> (r: Result<Self, ExpectError<T>>)
        requires
            old(iter).wf(),
        ensures
            final(iter).wf(),
            final(iter)@.tokens == old(iter)@.tokens,
            final(iter)@.savepoints == old(iter)@.savepoints,
            old(iter)@.position <= final(iter)@.position,
            Self::expects(old(iter)@.tokens, old(iter)@.position, token, r, final(iter)@.position),
    ;
}

/// A node that can be built from a run of tokens.
pub trait Parsable<T>: PartialEq + Sized where T: Expectable<T> {
    /// Whether parsing this node on the buffer `tokens` from `start` can
    /// end in `outcome` with the cursor at `end`. An implementation that
    /// does not say leaves every outcome open.
    open spec fn parses(tokens: Seq<T>, start: nat, outcome: Result<Self, ParseError<T>>, end: nat) -> bool {
        true
    }

    /// Parses one node at the cursor. The buffer and the savepoints stay as
    /// they are and the cursor does not move back; what comes out is one of
    /// the outcomes that `parses` admits. A failure is not rolled back
    /// here: that is the work of the attempt around the call.
    fn parse(iter: &mut TokenIter<T>) -> (r: Result<Self, ParseError<T>>)
        requires
            old(iter).wf(),
        ensures
            final(iter).wf(),
            final(iter)@.tokens == old(iter)@.tokens,
            final(iter)@.savepoints == old(iter)@.savepoints,
            old(iter)@.position <= final(iter)@.position,
            Self::parses(old(iter)@.tokens, old(iter)@.position, r, final(iter)@.position),
    ;
}

/// Whether expecting `token` inside an attempt, on `tokens` from `start`,
/// can end in `outcome` with the cursor at `end`: a success is that of the
/// expectation itself; a failure is one of its failures, with the cursor
/// back at `start`.
pub open spec fn attempt_expects<T, E: Expectable<T>>(
    tokens: Seq<T>,
    start: nat,
    token: T,
    outcome: Result<E, ExpectError<T>>,
    end: nat,
) -> bool {
    match outcome {
        Ok(_) => E::expects(tokens, start, token, outcome, end),
        Err(_) => end == start && exists|reached: nat| E::expects(tokens, start, token, outcome, reached),
    }
}

/// Whether parsing a node inside an attempt, on `tokens` from `start`, can
/// end in `outcome` with the cursor at `end`: a success is that of the parse
/// itself; a failure is one of its failures, with the cursor back at
/// `start`.
pub open spec fn attempt_parses<T: Expectable<T>, P: Parsable<T>>(
    tokens: Seq<T>,
    start: nat,
    outcome: Result<P, ParseError<T>>,
    end: nat,
) -> bool {
    match outcome {
        Ok(_) => P::parses(tokens, start, outcome, end),
        Err(_) => end == start && exists|reached: nat| P::parses(tokens, start, outcome, reached),
    }
}

/// Whether `P` has one outcome at most at every place of `tokens`: what it
/// gives there and where it leaves the cursor.
pub open spec fn determined<T: Expectable<T>, P: Parsable<T>>(tokens: Seq<T>) -> bool {
    forall|at: nat, one: Result<P, ParseError<T>>, end: nat, other: Result<P, ParseError<T>>, reached: nat|
        #[trigger] P::parses(tokens, at, one, end) && #[trigger] P::parses(tokens, at, other, reached)
            ==> one == other && end == reached
}

} // verus!
