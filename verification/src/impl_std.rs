//! Zero or one, and zero or more: the two capabilities on `Option` and `Vec`.

use crate::base_traits::{determined, Expectable, Parsable};
use crate::error::expect_error::ExpectError;
use crate::error::parse_error::ParseError;
use crate::iter::TokenIter;
use vstd::prelude::*;

verus! {

/// Whether the `i`-th of `items` can be parsed on `tokens` from `cuts[i]`
/// to `cuts[i + 1]`, which lies further on.
pub open spec fn parses_between<T: Expectable<T>, P: Parsable<T>>(
    tokens: Seq<T>,
    items: Seq<P>,
    cuts: Seq<nat>,
    i: int,
) -> bool {
    cuts[i] < cuts[i + 1] && P::parses(tokens, cuts[i], Ok(items[i]), cuts[i + 1])
}

/// Whether `items` can be parsed one after the other on `tokens` from
/// `start`, each of them moving the cursor forward: `cuts` holds where the
/// first begins, then where each of them ends.
pub open spec fn repeats<T: Expectable<T>, P: Parsable<T>>(
    tokens: Seq<T>,
    start: nat,
    items: Seq<P>,
    cuts: Seq<nat>,
) -> bool {
    &&& cuts.len() == items.len() + 1
    &&& cuts[0] == start
    &&& forall|i: int| 0 <= i < items.len() ==> #[trigger] parses_between::<T, P>(tokens, items, cuts, i)
}

/// Whether a run of `P` can end on `tokens` at `at`: an attempt at one more
/// can fail there, or succeed without reading anything.
pub open spec fn run_ends<T: Expectable<T>, P: Parsable<T>>(tokens: Seq<T>, at: nat) -> bool {
    ||| exists|e: ParseError<T>, reached: nat| P::parses(tokens, at, Err(e), reached)
    ||| exists|item: P| P::parses(tokens, at, Ok(item), at)
}

/// A run that is followed by one more item, which moves the cursor
/// forward, is a run with that item at its end.
pub proof fn lemma_run_grows<T: Expectable<T>, P: Parsable<T>>(
    tokens: Seq<T>,
    start: nat,
    items: Seq<P>,
    cuts: Seq<nat>,
    item: P,
    end: nat,
)
    requires
        repeats::<T, P>(tokens, start, items, cuts),
        cuts.last() < end,
        P::parses(tokens, cuts.last(), Ok(item), end),
    ensures
        repeats::<T, P>(tokens, start, items.push(item), cuts.push(end)),
{
    let longer = items.push(item);
    let ends = cuts.push(end);
    assert forall|i: int| 0 <= i < longer.len() implies #[trigger] parses_between::<T, P>(
        tokens,
        longer,
        ends,
        i,
    ) by {
        if i < items.len() {
            assert(parses_between::<T, P>(tokens, items, cuts, i));
        }
    }
}

/// Two runs of a determined `P` from one place go the same way for as long
/// as both go on.
proof fn lemma_runs_agree<T: Expectable<T>, P: Parsable<T>>(
    tokens: Seq<T>,
    start: nat,
    items: Seq<P>,
    cuts: Seq<nat>,
    others: Seq<P>,
    ends: Seq<nat>,
    k: int,
)
    requires
        determined::<T, P>(tokens),
        repeats::<T, P>(tokens, start, items, cuts),
        repeats::<T, P>(tokens, start, others, ends),
        0 <= k <= items.len(),
        k <= others.len(),
    ensures
        cuts[k] == ends[k],
        forall|i: int| 0 <= i < k ==> items[i] == others[i],
    decreases k,
{
    if k > 0 {
        lemma_runs_agree::<T, P>(tokens, start, items, cuts, others, ends, k - 1);
        assert(parses_between::<T, P>(tokens, items, cuts, k - 1));
        assert(parses_between::<T, P>(tokens, others, ends, k - 1));
        let one: Result<P, ParseError<T>> = Ok(items[k - 1]);
        let other: Result<P, ParseError<T>> = Ok(others[k - 1]);
        assert(P::parses(tokens, cuts[k - 1], one, cuts[k]));
        assert(P::parses(tokens, cuts[k - 1], other, ends[k]));
        assert(one == other);
    }
}

/// A run of a determined `P` is determined: its items, one by one, and
/// where it leaves the cursor.
pub proof fn lemma_run_is_determined<T: Expectable<T>, P: Parsable<T>>(
    tokens: Seq<T>,
    start: nat,
    one: Result<Vec<P>, ParseError<T>>,
    end: nat,
    other: Result<Vec<P>, ParseError<T>>,
    reached: nat,
)
    requires
        determined::<T, P>(tokens),
        Vec::<P>::parses(tokens, start, one, end),
        Vec::<P>::parses(tokens, start, other, reached),
    ensures
        one is Ok,
        other is Ok,
        one->Ok_0@ == other->Ok_0@,
        end == reached,
{
    let items = one->Ok_0@;
    let others = other->Ok_0@;
    let cuts = choose|cuts: Seq<nat>| #[trigger]
        repeats::<T, P>(tokens, start, items, cuts) && cuts.last() == end;
    let ends = choose|ends: Seq<nat>| #[trigger]
        repeats::<T, P>(tokens, start, others, ends) && ends.last() == reached;
    if items.len() <= others.len() {
        lemma_runs_agree::<T, P>(tokens, start, items, cuts, others, ends, items.len() as int);
        if items.len() < others.len() {
            lemma_run_goes_on::<T, P>(tokens, others, ends, items.len() as int, end);
        }
    } else {
        lemma_runs_agree::<T, P>(tokens, start, items, cuts, others, ends, others.len() as int);
        lemma_run_goes_on::<T, P>(tokens, items, cuts, others.len() as int, reached);
    }
    assert(items =~= others);
}

/// Where a run of a determined `P` has an item that begins at `at`, no run
/// of `P` ends at `at`.
proof fn lemma_run_goes_on<T: Expectable<T>, P: Parsable<T>>(
    tokens: Seq<T>,
    items: Seq<P>,
    cuts: Seq<nat>,
    k: int,
    at: nat,
)
    requires
        determined::<T, P>(tokens),
        0 <= k < items.len(),
        cuts.len() == items.len() + 1,
        parses_between::<T, P>(tokens, items, cuts, k),
        cuts[k] == at,
    ensures
        !run_ends::<T, P>(tokens, at),
{
    let went_on: Result<P, ParseError<T>> = Ok(items[k]);
    assert(P::parses(tokens, at, went_on, cuts[k + 1]));
    if exists|e: ParseError<T>, reached: nat| P::parses(tokens, at, Err(e), reached) {
        let (e, reached) = choose|e: ParseError<T>, reached: nat| P::parses(tokens, at, Err(e), reached);
        let failed: Result<P, ParseError<T>> = Err(e);
        assert(P::parses(tokens, at, failed, reached));
        assert(went_on == failed);
    }
    if exists|item: P| P::parses(tokens, at, Ok(item), at) {
        let item = choose|item: P| P::parses(tokens, at, Ok(item), at);
        let stayed: Result<P, ParseError<T>> = Ok(item);
        assert(P::parses(tokens, at, stayed, at));
        assert(cuts[k + 1] == at);
    }
}

impl<T, P> Parsable<T> for Vec<P> where T: Expectable<T>, P: Parsable<T> {
    /// A run never fails. Its items are parsed one after the other, each
    /// moving the cursor forward, and it ends at the first attempt that
    /// fails or reads nothing; that attempt leaves no trace.
    open spec fn parses(tokens: Seq<T>, start: nat, outcome: Result<Self, ParseError<T>>, end: nat) -> bool {
        &&& outcome is Ok
        &&& exists|cuts: Seq<nat>|
            {
                &&& #[trigger] repeats::<T, P>(tokens, start, outcome->Ok_0@, cuts)
                &&& cuts.last() == end
            }
        &&& run_ends::<T, P>(tokens, end)
    }

    /// Parses as many `P` as stand at the cursor, each as an attempt of its
    /// own, and hands them back in order. The run ends at the first attempt
    /// that fails or that succeeds without reading a token: the cursor stays
    /// where the last item ended, and what that attempt gave is dropped.
    fn parse(iter: &mut TokenIter<T>) -> (r: Result<Self, ParseError<T>>)
        ensures
            r is Ok,
            old(iter)@.at_end() ==> r->Ok_0@.len() == 0,
    {
        let mut results: Vec<P> = Vec::new();
        let ghost tokens = iter@.tokens;
        let ghost start = iter@.position;
        let ghost mut cuts: Seq<nat> = seq![start];
        let mut going = true;
        while going
            invariant
                iter.wf(),
                iter@.tokens == tokens,
                tokens == old(iter)@.tokens,
                iter@.savepoints == old(iter)@.savepoints,
                start == old(iter)@.position,
                start <= iter@.position,
                repeats::<T, P>(tokens, start, results@, cuts),
                cuts.last() == iter@.position,
                !going ==> run_ends::<T, P>(tokens, iter@.position),
                old(iter)@.at_end() ==> results@.len() == 0,
            decreases tokens.len() - iter@.position + (if going { 1nat } else { 0nat }),
        {
            let before = iter.position();
            match iter.parse::<P>() {
                Ok(item) => {
                    if iter.position() > before {
                        proof {
                            lemma_run_grows::<T, P>(tokens, start, results@, cuts, item, iter@.position);
                            cuts = cuts.push(iter@.position);
                        }
                        results.push(item);
                    } else {
                        going = false;
                    }
                },
                Err(_) => {
                    going = false;
                },
            }
        }
        assert(repeats::<T, P>(tokens, start, results@, cuts) && cuts.last() == iter@.position);
        let r = Ok(results);
        assert(r->Ok_0@ == results@);
        r
    }
}

impl<T, P> Parsable<T> for Option<P> where T: Expectable<T>, P: Parsable<T> {
    /// An optional node never fails: it is present with what `P` parsed, or
    /// absent, with the cursor where it began, where `P` can fail.
    open spec fn parses(tokens: Seq<T>, start: nat, outcome: Result<Self, ParseError<T>>, end: nat) -> bool {
        match outcome {
            Ok(Some(node)) => P::parses(tokens, start, Ok(node), end),
            Ok(None) => end == start && exists|e: ParseError<T>, reached: nat|
                P::parses(tokens, start, Err(e), reached),
            Err(_) => false,
        }
    }

    /// Parses one `P` as an attempt of its own. Where that fails the node
    /// is absent, the failure is dropped and the cursor is back where it
    /// stood.
    fn parse(iter: &mut TokenIter<T>) -> (r: Result<Self, ParseError<T>>)
        ensures
            r is Ok,
            r == Ok::<Self, ParseError<T>>(None) ==> final(iter)@.position == old(iter)@.position,
    {
        match iter.parse::<P>() {
            Ok(node) => Ok(Some(node)),
            Err(_) => Ok(None),
        }
    }
}

impl<T> Expectable<T> for Option<T> where T: Expectable<T> {
    /// An optional terminal never fails: it is present with what `T` read,
    /// or absent, with the cursor where it began, where `T` can fail.
    open spec fn expects(
        tokens: Seq<T>,
        start: nat,
        token: T,
        outcome: Result<Self, ExpectError<T>>,
        end: nat,
    ) -> bool {
        match outcome {
            Ok(Some(found)) => T::expects(tokens, start, token, Ok(found), end),
            Ok(None) => end == start && exists|e: ExpectError<T>, reached: nat|
                T::expects(tokens, start, token, Err(e), reached),
            Err(_) => false,
        }
    }

    /// Expects `token` as an attempt of its own. Where that fails the
    /// terminal is absent, the failure is dropped and the cursor is back
    /// where it stood.
    fn expect(iter: &mut TokenIter<T>, token: T) -> (r: Result<Self, ExpectError<T>>) {
        match iter.expect::<T>(token) {
            Ok(found) => Ok(Some(found)),
            Err(_) => Ok(None),
        }
    }
}

} // verus!
