//! Composite nodes: a product of two nodes, a sum of two alternatives, and
//! the failure of a sum of any number of them.

use crate::base_traits::{determined, Expectable, Parsable};
use crate::error::parse_error::ParseError;
use crate::iter::TokenIter;
use vstd::prelude::*;

verus! {

/// A sum node of two alternatives, tagged with the one that was parsed.
/// `Left` is declared first and is tried first.
#[derive(Debug, PartialEq, Eq)]
pub enum Either<A, B> {
    Left(A),
    Right(B),
}

/// Of the failures `first` and then `rest`, in this order, the one that was
/// detected furthest on in the buffer, and the earliest of these where
/// several were detected at one index.
pub open spec fn deepest<T>(first: ParseError<T>, rest: Seq<ParseError<T>>) -> ParseError<T>
    decreases rest.len(),
{
    if rest.len() == 0 {
        first
    } else {
        let before = deepest(first, rest.drop_last());
        if rest.last().index() > before.index() {
            rest.last()
        } else {
            before
        }
    }
}

/// The failure of a sum node whose alternatives failed with `first` and
/// then with `rest`, in the order of their declaration: it holds the
/// deepest of them.
pub open spec fn alternatives_failure<T>(first: ParseError<T>, rest: Seq<ParseError<T>>) -> ParseError<T> {
    ParseError::FailedToParseBranch(Box::new(deepest(first, rest)))
}

/// The failure of a sum node of two alternatives, which failed with
/// `first` and `second`.
pub open spec fn branch_failure<T>(first: ParseError<T>, second: ParseError<T>) -> ParseError<T> {
    alternatives_failure(first, seq![second])
}

/// The deepest of some failures is one of them, and none of them was
/// detected further on. It is another than the first only where it was
/// detected further on than the first.
pub proof fn lemma_deepest<T>(first: ParseError<T>, rest: Seq<ParseError<T>>)
    ensures
        deepest(first, rest) == first || exists|i: int|
            0 <= i < rest.len() && deepest(first, rest) == #[trigger] rest[i],
        first.index() <= deepest(first, rest).index(),
        forall|i: int| 0 <= i < rest.len() ==> (#[trigger] rest[i]).index() <= deepest(first, rest).index(),
        deepest(first, rest) != first ==> first.index() < deepest(first, rest).index(),
    decreases rest.len(),
{
    if rest.len() > 0 {
        let shorter = rest.drop_last();
        lemma_deepest(first, shorter);
        let before = deepest(first, shorter);
        if rest.last().index() > before.index() {
            assert(deepest(first, rest) == rest[rest.len() - 1]);
        } else if before != first {
            let i = choose|i: int| 0 <= i < shorter.len() && before == #[trigger] shorter[i];
            assert(deepest(first, rest) == rest[i]);
        }
        assert forall|i: int| 0 <= i < rest.len() implies (#[trigger] rest[i]).index() <= deepest(
            first,
            rest,
        ).index() by {
            if i < shorter.len() {
                assert(rest[i] == shorter[i]);
            }
        }
    }
}

/// The failure of a sum node whose alternatives failed with `first` and
/// then with `rest`, in the order of their declaration.
pub fn failed_alternatives<T>(first: ParseError<T>, rest: Vec<ParseError<T>>) -> (e: ParseError<T>)
    ensures
        e == alternatives_failure(first, rest@),
{
    let mut rest = rest;
    // `best` is 0 for `first`, and `i + 1` for the failure at `i` in `rest`.
    let mut best: usize = 0;
    let mut best_at: usize = first.failed_at();
    let mut i: usize = 0;
    while i < rest.len()
        invariant
            i <= rest@.len(),
            best <= i,
            best == 0 ==> deepest(first, rest@.take(i as int)) == first,
            best > 0 ==> deepest(first, rest@.take(i as int)) == rest@[best - 1],
            best_at == deepest(first, rest@.take(i as int)).index(),
        decreases rest@.len() - i,
    {
        let at = rest[i].failed_at();
        proof {
            let longer = rest@.take(i + 1);
            assert(longer.drop_last() =~= rest@.take(i as int));
            assert(longer.last() == rest@[i as int]);
        }
        if at > best_at {
            best = i + 1;
            best_at = at;
        }
        i = i + 1;
    }
    assert(rest@.take(i as int) =~= rest@);
    if best == 0 {
        ParseError::FailedToParseBranch(Box::new(first))
    } else {
        ParseError::FailedToParseBranch(Box::new(rest.remove(best - 1)))
    }
}

/// The failure of a sum node of two alternatives, which failed with
/// `first` and `second`.
pub fn failed_branches<T>(first: ParseError<T>, second: ParseError<T>) -> (e: ParseError<T>)
    ensures
        e == branch_failure(first, second),
        e == ParseError::FailedToParseBranch(
            Box::new(
                if second.index() > first.index() {
                    second
                } else {
                    first
                },
            ),
        ),
{
    assert(seq![second].drop_last() =~= Seq::<ParseError<T>>::empty());
    reveal_with_fuel(deepest, 2);
    if second.failed_at() > first.failed_at() {
        ParseError::FailedToParseBranch(Box::new(second))
    } else {
        ParseError::FailedToParseBranch(Box::new(first))
    }
}

impl<T, A, B> Parsable<T> for Either<A, B> where T: Expectable<T>, A: Parsable<T>, B: Parsable<T> {
    /// The first alternative that can be parsed at `start` wins: `Right`
    /// comes out only where `Left` can fail there, and the node fails,
    /// with the cursor at `start`, only where both can.
    open spec fn parses(tokens: Seq<T>, start: nat, outcome: Result<Self, ParseError<T>>, end: nat) -> bool {
        match outcome {
            Ok(Either::Left(a)) => A::parses(tokens, start, Ok(a), end),
            Ok(Either::Right(b)) => {
                &&& exists|first: ParseError<T>, reached: nat| A::parses(tokens, start, Err(first), reached)
                &&& B::parses(tokens, start, Ok(b), end)
            },
            Err(e) => {
                &&& end == start
                &&& exists|first: ParseError<T>, reached: nat, second: ParseError<T>, other: nat|
                    {
                        &&& #[trigger] A::parses(tokens, start, Err(first), reached)
                        &&& #[trigger] B::parses(tokens, start, Err(second), other)
                        &&& e == branch_failure(first, second)
                    }
            },
        }
    }

    /// Tries `A` and then `B` at the cursor, each as an attempt of its own,
    /// and hands back the first that succeeds under its tag. Where both
    /// fail, the cursor is where it stood and the failure holds the deeper
    /// of the two.
    fn parse(iter: &mut TokenIter<T>) -> (r: Result<Self, ParseError<T>>)
        ensures
            r is Err ==> final(iter)@.position == old(iter)@.position,
    {
        match iter.parse::<A>() {
            Ok(a) => Ok(Either::Left(a)),
            Err(first) => match iter.parse::<B>() {
                Ok(b) => Ok(Either::Right(b)),
                Err(second) => Err(failed_branches(first, second)),
            },
        }
    }
}

/// First match wins: where the first alternative cannot fail at `start`,
/// whatever the second would do there, every outcome of the sum node is a
/// success tagged `Left`, and it is what the first alternative gives.
pub proof fn lemma_first_match_wins<T: Expectable<T>, A: Parsable<T>, B: Parsable<T>>(
    tokens: Seq<T>,
    start: nat,
    outcome: Result<Either<A, B>, ParseError<T>>,
    end: nat,
)
    requires
        Either::<A, B>::parses(tokens, start, outcome, end),
        forall|e: ParseError<T>, reached: nat| !A::parses(tokens, start, Err(e), reached),
    ensures
        outcome is Ok,
        outcome->Ok_0 is Left,
        A::parses(tokens, start, Ok(outcome->Ok_0->Left_0), end),
{
}

/// First declared wins: where both alternatives could match at `start`,
/// and the first has one outcome at most at every place, every outcome of
/// the sum node is a success tagged `Left`.
pub proof fn lemma_first_declared_wins<T: Expectable<T>, A: Parsable<T>, B: Parsable<T>>(
    tokens: Seq<T>,
    start: nat,
    outcome: Result<Either<A, B>, ParseError<T>>,
    end: nat,
)
    requires
        Either::<A, B>::parses(tokens, start, outcome, end),
        determined::<T, A>(tokens),
        exists|a: A, reached: nat| A::parses(tokens, start, Ok(a), reached),
        exists|b: B, reached: nat| B::parses(tokens, start, Ok(b), reached),
    ensures
        outcome is Ok,
        outcome->Ok_0 is Left,
        A::parses(tokens, start, Ok(outcome->Ok_0->Left_0), end),
{
    let (a, reached) = choose|a: A, reached: nat| A::parses(tokens, start, Ok(a), reached);
    let matched: Result<A, ParseError<T>> = Ok(a);
    assert forall|e: ParseError<T>, failed_at: nat| !A::parses(tokens, start, Err(e), failed_at) by {
        let failed: Result<A, ParseError<T>> = Err(e);
        if A::parses(tokens, start, failed, failed_at) {
            assert(A::parses(tokens, start, matched, reached));
            assert(matched == failed);
        }
    }
    lemma_first_match_wins::<T, A, B>(tokens, start, outcome, end);
}

/// The second alternative is reached only over a failure of the first:
/// an outcome tagged `Right` shows that the first can fail at `start`.
pub proof fn lemma_second_needs_first_to_fail<T: Expectable<T>, A: Parsable<T>, B: Parsable<T>>(
    tokens: Seq<T>,
    start: nat,
    outcome: Result<Either<A, B>, ParseError<T>>,
    end: nat,
)
    requires
        Either::<A, B>::parses(tokens, start, outcome, end),
        outcome is Ok,
        outcome->Ok_0 is Right,
    ensures
        exists|e: ParseError<T>, reached: nat| A::parses(tokens, start, Err(e), reached),
        B::parses(tokens, start, Ok(outcome->Ok_0->Right_0), end),
{
}

impl<T, A, B> Parsable<T> for (A, B) where T: Expectable<T>, A: Parsable<T>, B: Parsable<T> {
    /// Both fields are parsed, the second from where the first ended; or
    /// the first fails; or the first is parsed and the second fails. A
    /// failure leaves the cursor where the failing field left it.
    open spec fn parses(tokens: Seq<T>, start: nat, outcome: Result<Self, ParseError<T>>, end: nat) -> bool {
        match outcome {
            Ok((a, b)) => exists|mid: nat|
                {
                    &&& #[trigger] A::parses(tokens, start, Ok(a), mid)
                    &&& B::parses(tokens, mid, Ok(b), end)
                },
            Err(e) => {
                ||| A::parses(tokens, start, Err(e), end)
                ||| exists|a: A, mid: nat|
                    {
                        &&& #[trigger] A::parses(tokens, start, Ok(a), mid)
                        &&& B::parses(tokens, mid, Err(e), end)
                    }
            },
        }
    }

    /// Parses the two fields in order. The first failure ends the parse:
    /// no half-built node comes out, and nothing that was read is given
    /// back.
    fn parse(iter: &mut TokenIter<T>) -> (r: Result<Self, ParseError<T>>) {
        let ghost tokens = iter@.tokens;
        let ghost start = iter@.position;
        let a = match A::parse(iter) {
            Ok(a) => a,
            Err(e) => {
                assert(A::parses(tokens, start, Err(e), iter@.position));
                return Err(e);
            },
        };
        let ghost mid = iter@.position;
        assert(A::parses(tokens, start, Ok(a), mid));
        let b = match B::parse(iter) {
            Ok(b) => b,
            Err(e) => {
                assert(B::parses(tokens, mid, Err(e), iter@.position));
                return Err(e);
            },
        };
        assert(B::parses(tokens, mid, Ok(b), iter@.position));
        let r = Ok((a, b));
        assert(r->Ok_0.0 == a && r->Ok_0.1 == b);
        r
    }
}

} // verus!
