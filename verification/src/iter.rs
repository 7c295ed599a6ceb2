//! The cursor: a position in the token buffer and a stack of savepoints.

use crate::base_traits::{attempt_expects, attempt_parses, Expectable, Parsable};
use crate::error::expect_error::ExpectError;
use crate::error::parse_error::ParseError;
use vstd::prelude::*;

verus! {

/// What a cursor is, as mathematics: the buffer it reads, how far it has
/// read, and the positions recorded by the attempts that are still open,
/// the innermost last.
#[verifier::ext_equal]
pub struct CursorState<T> {
    pub tokens: Seq<T>,
    pub position: nat,
    pub savepoints: Seq<nat>,
}

impl<T> CursorState<T> {
    /// A fresh cursor over `tokens`.
    pub open spec fn start(tokens: Seq<T>) -> Self {
        CursorState { tokens, position: 0, savepoints: Seq::empty() }
    }

    /// The position and every savepoint lie within the buffer or at its end.
    pub open spec fn valid(self) -> bool {
        &&& self.position <= self.tokens.len()
        &&& forall|i: int| 0 <= i < self.savepoints.len() ==> self.savepoints[i] <= self.tokens.len()
    }

    /// Nothing is left to read.
    pub open spec fn at_end(self) -> bool {
        self.position >= self.tokens.len()
    }

    /// The state after one token has been read.
    pub open spec fn advance(self) -> Self {
        CursorState { position: self.position + 1, ..self }
    }

    /// The state after the position has been recorded.
    pub open spec fn push_savepoint(self) -> Self {
        CursorState { savepoints: self.savepoints.push(self.position), ..self }
    }

    /// The state after the innermost savepoint has been dropped: the
    /// position stays. Without a savepoint nothing changes.
    pub open spec fn commit(self) -> Self {
        if self.savepoints.len() > 0 {
            CursorState { savepoints: self.savepoints.drop_last(), ..self }
        } else {
            self
        }
    }

    /// The state after the innermost savepoint has been dropped and the
    /// position set back to it. Without a savepoint nothing changes.
    pub open spec fn restore(self) -> Self {
        if self.savepoints.len() > 0 {
            CursorState {
                position: self.savepoints.last(),
                savepoints: self.savepoints.drop_last(),
                ..self
            }
        } else {
            self
        }
    }

    /// How an attempt ends: accepted, it commits; rejected, it restores.
    pub open spec fn settle(self, accepted: bool) -> Self {
        if accepted {
            self.commit()
        } else {
            self.restore()
        }
    }
}

/// Restore fidelity: whatever was read since a savepoint was recorded, a
/// body that leaves the savepoints as it found them and then fails leaves
/// the cursor, once the attempt is settled, at the position it had before.
pub proof fn lemma_restore_fidelity<T>(before: CursorState<T>, after_body: CursorState<T>)
    requires
        after_body.savepoints == before.push_savepoint().savepoints,
    ensures
        after_body.settle(false).position == before.position,
{
}

/// Attempt atomicity: a body that leaves the savepoints as it found them
/// leaves them, once the attempt is settled either way, as they were before
/// the attempt, no deeper and no shallower.
pub proof fn lemma_attempt_atomicity<T>(
    before: CursorState<T>,
    after_body: CursorState<T>,
    accepted: bool,
)
    requires
        after_body.savepoints == before.push_savepoint().savepoints,
    ensures
        after_body.settle(accepted).savepoints == before.savepoints,
        after_body.settle(accepted).savepoints.len() == before.savepoints.len(),
        accepted ==> after_body.settle(accepted).position == after_body.position,
{
    assert(before.savepoints.push(before.position).drop_last() =~= before.savepoints);
}

/// A cursor over a token buffer. It alone changes while a parse runs.
pub struct TokenIter<'tokens, T> {
    pub current: usize,
    pub tokens: &'tokens [T],
    size: usize,
    pub stack: Vec<usize>,
}

impl<'tokens, T> View for TokenIter<'tokens, T> {
    type V = CursorState<T>;

    closed spec fn view(&self) -> CursorState<T> {
        CursorState {
            tokens: self.tokens@,
            position: self.current as nat,
            savepoints: self.stack@.map_values(|p: usize| p as nat),
        }
    }
}

impl<'tokens, T> TokenIter<'tokens, T> {
    /// The length that the cursor holds for its buffer.
    pub closed spec fn held_length(&self) -> nat {
        self.size as nat
    }

    /// The cursor holds the true length of its buffer, and its position and
    /// savepoints lie within the buffer or at its end.
    pub open spec fn wf(&self) -> bool {
        &&& self.held_length() == self@.tokens.len()
        &&& self@.valid()
    }

    /// A cursor at the start of `tokens`, with no attempt open.
    pub fn new(tokens: &'tokens [T]) -> (iter: TokenIter<'tokens, T>)
        ensures
            iter.wf(),
            iter@ == CursorState::start(tokens@),
    {
        let iter = TokenIter { current: 0, size: tokens.len(), tokens, stack: Vec::new() };
        assert(iter@ =~= CursorState::start(tokens@));
        iter
    }

    /// How far the cursor has read.
    pub fn position(&self) -> (at: usize)
        ensures
            at == self@.position,
    {
        self.current
    }

    /// How many attempts are open.
    pub fn depth(&self) -> (open: usize)
        ensures
            open == self@.savepoints.len(),
    {
        self.stack.len()
    }

}

impl<'tokens, T: Clone> TokenIter<'tokens, T> {
    /// A copy of the token at `position`, if the buffer reaches that far.
    /// The cursor does not move.
    pub fn get(&self, position: usize) -> (token: Option<T>)
        requires
            self.wf(),
        ensures
            position < self@.tokens.len() ==> token is Some && cloned(
                self@.tokens[position as int],
                token.unwrap(),
            ),
            position >= self@.tokens.len() ==> token is None,
    {
        if position < self.size {
            Some(self.tokens[position].clone())
        } else {
            None
        }
    }

    /// Reads the token at the position and moves past it. At the end of
    /// the buffer nothing is read and the cursor stays.
    pub fn consume(&mut self) -> (token: Option<T>)
        requires
            old(self).wf(),
        ensures
            final(self).wf(),
            old(self)@.at_end() ==> token is None && final(self)@ == old(self)@,
            !old(self)@.at_end() ==> token is Some && cloned(
                old(self)@.tokens[old(self)@.position as int],
                token.unwrap(),
            ) && final(self)@ == old(self)@.advance(),
    {
        match self.get(self.current) {
            Some(element) => {
                self.current += 1;
                assert(self@ =~= old(self)@.advance());
                Some(element)
            },
            None => None,
        }
    }

}

impl<'tokens, T> TokenIter<'tokens, T> {
    /// Records the position as the innermost savepoint.
    pub fn push(&mut self)
        ensures
            old(self).wf() ==> final(self).wf(),
            final(self)@ == old(self)@.push_savepoint(),
    {
        self.stack.push(self.current);
        assert(self@ =~= old(self)@.push_savepoint());
    }

    /// Drops the innermost savepoint and keeps the position.
    pub fn clean_pop(&mut self)
        ensures
            old(self).wf() ==> final(self).wf(),
            final(self)@ == old(self)@.commit(),
    {
        self.stack.pop();
        assert(self@ =~= old(self)@.commit());
    }

    /// Drops the innermost savepoint and sets the position back to it.
    /// Returns that position, or nothing where no savepoint was left.
    pub fn pop(&mut self) -> (restored: Option<usize>)
        ensures
            old(self).wf() ==> final(self).wf(),
            final(self)@ == old(self)@.restore(),
            old(self)@.savepoints.len() == 0 ==> restored is None,
            old(self)@.savepoints.len() > 0 ==> restored is Some
                && restored.unwrap() == old(self)@.savepoints.last(),
    {
        match self.stack.pop() {
            Some(c) => {
                self.current = c;
                assert(self@ =~= old(self)@.restore());
                Some(c)
            },
            None => None,
        }
    }

    /// Runs `f` as one attempt: records the position, runs `f`, and then
    /// commits where `f` succeeded and restores where it failed. The result
    /// of `f` is handed back as it is.
    ///
    /// The cursor ends as `f` left it, settled by that result. So where `f`
    /// leaves the savepoints as it found them, the savepoints end as they
    /// were before the call, and after a failure so does the position.
    pub fn try_do<F, Q, E>(&mut self, f: F) -> (r: Result<Q, E>) where
        F: FnOnce(&mut TokenIter<'tokens, T>) -> Result<Q, E>,

        requires
            old(self).wf(),
            forall|body: &mut TokenIter<'tokens, T>|
                body.wf() && body@ == old(self)@.push_savepoint() ==> #[trigger] f.requires((body,)),
        ensures
            exists|body: &mut TokenIter<'tokens, T>|
                {
                    &&& body.wf()
                    &&& body@ == old(self)@.push_savepoint()
                    &&& #[trigger] f.ensures((body,), r)
                    &&& final(self)@ == final(body)@.settle(r is Ok)
                    &&& final(body).wf() ==> final(self).wf()
                },
            (forall|body: &mut TokenIter<'tokens, T>, outcome: Result<Q, E>| #[trigger]
                f.ensures((body,), outcome) ==> final(body)@.savepoints == body@.savepoints) ==> {
                &&& final(self)@.savepoints == old(self)@.savepoints
                &&& r is Err ==> final(self)@.position == old(self)@.position
            },
    {
        self.push();
        let result = f(self);
        proof {
            if self@.savepoints == old(self)@.push_savepoint().savepoints {
                lemma_attempt_atomicity(old(self)@, self@, result is Ok);
                lemma_restore_fidelity(old(self)@, self@);
            }
        }
        if result.is_ok() {
            self.clean_pop();
        } else {
            self.pop();
        }
        result
    }
}

impl<'tokens, T: Expectable<T>> TokenIter<'tokens, T> {
    /// Parses one node as an attempt of its own: where the parse fails, the
    /// cursor is set back to where it stood.
    pub fn parse<P>(&mut self) -> (r: Result<P, ParseError<T>>) where P: Parsable<T>
        requires
            old(self).wf(),
        ensures
            final(self).wf(),
            final(self)@.tokens == old(self)@.tokens,
            final(self)@.savepoints == old(self)@.savepoints,
            old(self)@.position <= final(self)@.position,
            r is Err ==> final(self)@.position == old(self)@.position,
            attempt_parses::<T, P>(old(self)@.tokens, old(self)@.position, r, final(self)@.position),
    {
        self.push();
        let result = P::parse(self);
        if result.is_ok() {
            self.clean_pop();
        } else {
            self.pop();
        }
        assert(self@.savepoints =~= old(self)@.savepoints);
        result
    }

    /// Expects `token` as an attempt of its own: where the expectation
    /// fails, the cursor is set back to where it stood.
    pub fn expect<E>(&mut self, token: T) -> (r: Result<E, ExpectError<T>>) where E: Expectable<T>
        requires
            old(self).wf(),
        ensures
            final(self).wf(),
            final(self)@.tokens == old(self)@.tokens,
            final(self)@.savepoints == old(self)@.savepoints,
            old(self)@.position <= final(self)@.position,
            r is Err ==> final(self)@.position == old(self)@.position,
            attempt_expects::<T, E>(
                old(self)@.tokens,
                old(self)@.position,
                token,
                r,
                final(self)@.position,
            ),
    {
        let r = self.try_do(
            |token_iter: &mut TokenIter<'tokens, T>| -> (r: Result<E, ExpectError<T>>)
                requires
                    old(token_iter).wf(),
                ensures
                    final(token_iter).wf(),
                    final(token_iter)@.tokens == old(token_iter)@.tokens,
                    final(token_iter)@.savepoints == old(token_iter)@.savepoints,
                    final(token_iter)@.position >= old(token_iter)@.position,
                    E::expects(
                        old(token_iter)@.tokens,
                        old(token_iter)@.position,
                        token,
                        r,
                        final(token_iter)@.position,
                    )
                { E::expect(token_iter, token) },
        );
        assert(self@.savepoints =~= old(self)@.savepoints);
        r
    }
}

impl<'a, T> From<&'a [T]> for TokenIter<'a, T> {
    /// A cursor at the start of `tokens`, with no attempt open.
    fn from(tokens: &'a [T]) -> (iter: Self)
        ensures
            iter.wf(),
            iter@ == CursorState::start(tokens@),
    {
        TokenIter::new(tokens)
    }
}

impl<'a, T> vstd::std_specs::convert::FromSpecImpl<&'a [T]> for TokenIter<'a, T> {
    /// A cursor holds a vector, which ghost code cannot write down: what
    /// `from` gives is stated on `from` itself.
    open spec fn obeys_from_spec() -> bool {
        false
    }

    open spec fn from_spec(tokens: &'a [T]) -> Self {
        choose|iter: Self| iter.wf() && iter@ == CursorState::start(tokens@)
    }
}

impl<'a, T> From<&'a Vec<T>> for TokenIter<'a, T> {
    /// A cursor at the start of `tokens`, with no attempt open.
    fn from(tokens: &'a Vec<T>) -> (iter: Self)
        ensures
            iter.wf(),
            iter@ == CursorState::start(tokens@),
    {
        TokenIter::new(tokens.as_slice())
    }
}

impl<'a, T> vstd::std_specs::convert::FromSpecImpl<&'a Vec<T>> for TokenIter<'a, T> {
    /// A cursor holds a vector, which ghost code cannot write down: what
    /// `from` gives is stated on `from` itself.
    open spec fn obeys_from_spec() -> bool {
        false
    }

    open spec fn from_spec(tokens: &'a Vec<T>) -> Self {
        choose|iter: Self| iter.wf() && iter@ == CursorState::start(tokens@)
    }
}

} // verus!
