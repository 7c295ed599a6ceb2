//! A node that is one stateless leaf: the keyword `int`.

use crate::base_traits::{determined, Expectable, Parsable};
use crate::error::parse_error::ParseError;
use crate::iter::TokenIter;
use crate::token::{expect_outcome, Token};
use vstd::prelude::*;

verus! {

/// The keyword `int`, as a product node with one leaf.
#[derive(Debug, PartialEq)]
pub struct KInt {
    pub kint: Token,
}

impl KInt {
    /// The node that holds `kint`.
    pub fn new(kint: Token) -> (node: Self)
        ensures
            node.kint == kint,
    {
        KInt { kint }
    }

    /// What parsing the node on `tokens` from `start` gives, and where it
    /// leaves the cursor: the token read where it is the keyword, and
    /// else the failure of the leaf as the failure of the node.
    pub open spec fn parse_outcome(tokens: Seq<Token>, start: nat) -> (
        Result<KInt, ParseError<Token>>,
        nat,
    ) {
        let (leaf, end) = expect_outcome(tokens, start, Token::KInt);
        match leaf {
            Ok(kint) => (Ok(KInt { kint }), end),
            Err(e) => (Err(ParseError::of_leaf(e)), end),
        }
    }
}

/// The keyword has one outcome at every place of every buffer.
pub proof fn lemma_keyword_is_determined(tokens: Seq<Token>)
    ensures
        determined::<Token, KInt>(tokens),
{
}

impl Parsable<Token> for KInt {
    open spec fn parses(
        tokens: Seq<Token>,
        start: nat,
        outcome: Result<Self, ParseError<Token>>,
        end: nat,
    ) -> bool {
        (outcome, end) == KInt::parse_outcome(tokens, start)
    }

    /// Expects the keyword at the cursor. The token read stays read, also
    /// where it is another one.
    fn parse(iter: &mut TokenIter<Token>) -> (r: Result<Self, ParseError<Token>>)
        ensures
            (r, final(iter)@.position) == KInt::parse_outcome(old(iter)@.tokens, old(iter)@.position),
    {
        match Token::expect(iter, Token::KInt) {
            Ok(kint) => Ok(KInt { kint }),
            Err(e) => Err(ParseError::from(e)),
        }
    }
}

} // verus!
