//! The terminal alphabet: tokens, their categories and their payloads.

use crate::base_traits::Expectable;
use crate::decimal::{decimal_u32, parse_decimal};
use crate::error::expect_error::ExpectError;
use crate::iter::TokenIter;
use vstd::prelude::*;
use vstd::string::StringSliceAdditionalSpecFns;
use vstd::utf8::{encode_utf8, is_char_boundary};

verus! {

/// The category of a token: what kind of terminal it is, whatever it carries.
#[derive(Clone, Copy, Debug, PartialEq, Eq, Structural)]
pub enum Category {
    Assign,
    Plus,
    Minus,
    Mult,
    Div,
    KInt,
    KFloat,
    KReturn,
    LiteralString,
    LiteralInt,
    Identifier,
    RCurly,
    LCurly,
    RBracket,
    LBracket,
    RParen,
    LParen,
    Comma,
    SemiColon,
    Invalid,
    Empty,
}

/// A terminal of the grammar. String literals, integer literals and
/// identifiers carry a payload; every other token is its category alone.
#[derive(Debug, PartialEq, Eq)]
pub enum Token {
    // Operations
    Assign,
    Plus,
    Minus,
    Mult,
    Div,
    // Keywords
    KInt,
    KFloat,
    KReturn,
    // Literals
    LiteralString(String),
    LiteralInt(u32),
    // Identifier
    Identifier(String),
    // Delimiters
    RCurly,
    LCurly,
    RBracket,
    LBracket,
    RParen,
    LParen,
    Comma,
    // Punctuation
    SemiColon,
    // Meta
    INVALID,
    EMPTY,
}

impl Clone for Token {
    fn clone(&self) -> (res: Self)
        ensures
            res == *self,
    {
        match self {
            Token::Assign => Token::Assign,
            Token::Plus => Token::Plus,
            Token::Minus => Token::Minus,
            Token::Mult => Token::Mult,
            Token::Div => Token::Div,
            Token::KInt => Token::KInt,
            Token::KFloat => Token::KFloat,
            Token::KReturn => Token::KReturn,
            Token::LiteralString(s) => Token::LiteralString(s.clone()),
            Token::LiteralInt(n) => Token::LiteralInt(*n),
            Token::Identifier(s) => Token::Identifier(s.clone()),
            Token::RCurly => Token::RCurly,
            Token::LCurly => Token::LCurly,
            Token::RBracket => Token::RBracket,
            Token::LBracket => Token::LBracket,
            Token::RParen => Token::RParen,
            Token::LParen => Token::LParen,
            Token::Comma => Token::Comma,
            Token::SemiColon => Token::SemiColon,
            Token::INVALID => Token::INVALID,
            Token::EMPTY => Token::EMPTY,
        }
    }
}

impl Token {
    /// The category of this token.
    pub open spec fn category_of(&self) -> Category {
        match *self {
            Token::Assign => Category::Assign,
            Token::Plus => Category::Plus,
            Token::Minus => Category::Minus,
            Token::Mult => Category::Mult,
            Token::Div => Category::Div,
            Token::KInt => Category::KInt,
            Token::KFloat => Category::KFloat,
            Token::KReturn => Category::KReturn,
            Token::LiteralString(_) => Category::LiteralString,
            Token::LiteralInt(_) => Category::LiteralInt,
            Token::Identifier(_) => Category::Identifier,
            Token::RCurly => Category::RCurly,
            Token::LCurly => Category::LCurly,
            Token::RBracket => Category::RBracket,
            Token::LBracket => Category::LBracket,
            Token::RParen => Category::RParen,
            Token::LParen => Category::LParen,
            Token::Comma => Category::Comma,
            Token::SemiColon => Category::SemiColon,
            Token::INVALID => Category::Invalid,
            Token::EMPTY => Category::Empty,
        }
    }

    /// Stateless equality: the two tokens are of one category.
    pub open spec fn same_category(&self, other: &Token) -> bool {
        self.category_of() == other.category_of()
    }

    /// The category of this token.
    #[verifier::when_used_as_spec(category_of)]
    pub fn category(&self) -> (c: Category)
        ensures
            c == self.category_of(),
    {
        match self {
            Token::Assign => Category::Assign,
            Token::Plus => Category::Plus,
            Token::Minus => Category::Minus,
            Token::Mult => Category::Mult,
            Token::Div => Category::Div,
            Token::KInt => Category::KInt,
            Token::KFloat => Category::KFloat,
            Token::KReturn => Category::KReturn,
            Token::LiteralString(_) => Category::LiteralString,
            Token::LiteralInt(_) => Category::LiteralInt,
            Token::Identifier(_) => Category::Identifier,
            Token::RCurly => Category::RCurly,
            Token::LCurly => Category::LCurly,
            Token::RBracket => Category::RBracket,
            Token::LBracket => Category::LBracket,
            Token::RParen => Category::RParen,
            Token::LParen => Category::LParen,
            Token::Comma => Category::Comma,
            Token::SemiColon => Category::SemiColon,
            Token::INVALID => Category::Invalid,
            Token::EMPTY => Category::Empty,
        }
    }

    /// Whether the lexeme `input` can be turned into a token of the
    /// category of `self`: a string literal has a first and a last
    /// character of one byte each, its quotes, which are not one and the
    /// same; an integer literal is a decimal literal of 32 bits.
    pub open spec fn accepts(&self, input: Seq<char>) -> bool {
        let bytes = encode_utf8(input);
        match *self {
            Token::LiteralString(_) => {
                &&& bytes.len() >= 2
                &&& is_char_boundary(bytes, 1)
                &&& is_char_boundary(bytes, bytes.len() - 1)
            },
            Token::LiteralInt(_) => decimal_u32(bytes) is Some,
            _ => true,
        }
    }

    /// Whether `token` is what the lexeme `input` gives as a token of the
    /// category of `self`: a string literal carries the lexeme without its
    /// first and last character, an identifier carries the lexeme, an integer
    /// literal carries the number that the lexeme writes, and any other
    /// token is `self`.
    pub open spec fn lexed_as(&self, input: Seq<char>, token: Token) -> bool {
        let bytes = encode_utf8(input);
        match *self {
            Token::LiteralString(_) => {
                &&& token is LiteralString
                &&& token->LiteralString_0@ == input.subrange(1, input.len() - 1)
            },
            Token::Identifier(_) => token is Identifier && token->Identifier_0@ == input,
            Token::LiteralInt(_) => decimal_u32(bytes) == Some(token->LiteralInt_0) && token is LiteralInt,
            _ => token == *self,
        }
    }

    /// Whether the lexeme `input` can be turned into a token of the
    /// category of `self`.
    pub fn can_lex(&self, input: &str) -> (can: bool)
        ensures
            can == self.accepts(input@),
    {
        match self {
            Token::LiteralString(_) => {
                let length = input.as_bytes().len();
                length >= 2 && input.is_char_boundary(1) && input.is_char_boundary(length - 1)
            },
            Token::LiteralInt(_) => parse_decimal(input.as_bytes()).is_some(),
            _ => true,
        }
    }

    /// Turns the lexeme `input`, which was matched as a token of the
    /// category of `self`, into the token that carries it, and gives the
    /// length of the lexeme in bytes.
    pub fn from_regex_result(&self, input: String) -> (r: (Token, usize))
        requires
            self.accepts(input@),
        ensures
            self.lexed_as(input@, r.0),
            r.0.same_category(self),
            r.1 == encode_utf8(input@).len(),
    {
        let length = input.as_str().as_bytes().len();
        let token = match self {
            Token::LiteralString(_) => {
                let (_, rest) = input.as_str().split_at(1);
                proof {
                    let bytes = encode_utf8(input@);
                    vstd::utf8::encode_utf8_valid_utf8(input@);
                    reveal_with_fuel(is_char_boundary, 2);
                    assert(vstd::utf8::pop_first_scalar(bytes) =~= bytes.subrange(1, bytes.len() as int));
                    assert(rest.spec_bytes() =~= bytes.subrange(1, bytes.len() as int));
                }
                let (text, _) = rest.split_at(length - 2);
                proof {
                    let bytes = encode_utf8(input@);
                    assert(text.spec_bytes() =~= bytes.subrange(1, bytes.len() - 1));
                    lemma_strip_ends(input@, text@);
                }
                Token::LiteralString(text.to_owned())
            },
            Token::Identifier(_) => Token::Identifier(input),
            Token::LiteralInt(_) => {
                Token::LiteralInt(parse_decimal(input.as_str().as_bytes()).unwrap())
            },
            _ => self.clone(),
        };
        (token, length)
    }

    /// Whether `self` and `other` are of one category, whatever they carry.
    pub fn stateless_equals(&self, other: &Self) -> (same: bool)
        ensures
            same == self.same_category(other),
    {
        self.category() == other.category()
    }
}

/// One byte of valid UTF-8 is one character.
proof fn lemma_one_byte_is_one_char(bytes: Seq<u8>)
    requires
        vstd::utf8::valid_utf8(bytes),
        bytes.len() == 1,
    ensures
        vstd::utf8::decode_utf8(bytes).len() == 1,
{
    reveal_with_fuel(vstd::utf8::valid_utf8, 2);
    reveal_with_fuel(vstd::utf8::decode_utf8, 2);
    assert(vstd::utf8::pop_first_scalar(bytes).len() == 0);
}

/// A lexeme whose first and last character take one byte each, without
/// its first and last byte, is the lexeme without its first and last
/// character.
pub proof fn lemma_strip_ends(input: Seq<char>, text: Seq<char>)
    requires
        encode_utf8(input).len() >= 2,
        is_char_boundary(encode_utf8(input), 1),
        is_char_boundary(encode_utf8(input), encode_utf8(input).len() - 1),
        encode_utf8(text) == encode_utf8(input).subrange(1, encode_utf8(input).len() - 1),
    ensures
        input.len() >= 2,
        text == input.subrange(1, input.len() - 1),
{
    let bytes = encode_utf8(input);
    let n = bytes.len() as int;
    vstd::utf8::encode_utf8_valid_utf8(input);
    vstd::utf8::encode_utf8_decode_utf8(input);
    vstd::utf8::encode_utf8_decode_utf8(text);
    let head = bytes.subrange(0, 1);
    let tail = bytes.subrange(1, n);
    vstd::utf8::valid_utf8_split(bytes, 1);
    vstd::utf8::decode_utf8_split(bytes, 1);
    assert(is_char_boundary(tail, n - 2)) by {
        reveal_with_fuel(is_char_boundary, 2);
        assert(vstd::utf8::pop_first_scalar(bytes) =~= tail);
    }
    let mid = tail.subrange(0, n - 2);
    let last = tail.subrange(n - 2, n - 1);
    vstd::utf8::valid_utf8_split(tail, n - 2);
    vstd::utf8::decode_utf8_split(tail, n - 2);
    assert(mid =~= bytes.subrange(1, n - 1));
    lemma_one_byte_is_one_char(head);
    lemma_one_byte_is_one_char(last);
    let first_char = vstd::utf8::decode_utf8(head);
    let last_char = vstd::utf8::decode_utf8(last);
    assert(input =~= first_char + (text + last_char));
    assert(text =~= input.subrange(1, input.len() - 1));
}

/// Stateless equality looks at the category and at nothing else: two
/// tokens are of one category exactly where they are equal, or both string
/// literals, or both integer literals, or both identifiers, whatever these
/// carry. So a payload never parts two tokens of one category, and tokens
/// of two categories are never stateless-equal.
pub proof fn lemma_stateless_equality(a: Token, b: Token)
    ensures
        a.same_category(&b) <==> {
            ||| a == b
            ||| a is LiteralString && b is LiteralString
            ||| a is LiteralInt && b is LiteralInt
            ||| a is Identifier && b is Identifier
        },
        a.category_of() != b.category_of() ==> !a.same_category(&b),
        a.same_category(&a),
        a.same_category(&b) ==> b.same_category(&a),
{
}

/// What expecting `token` on `tokens` from `start` gives, and where it
/// leaves the cursor. At the end of the buffer nothing is read. Otherwise
/// the token at `start` is read: it is handed back where it is of the
/// category of `token`, and reported as found where it is not.
pub open spec fn expect_outcome(tokens: Seq<Token>, start: nat, token: Token) -> (
    Result<Token, ExpectError<Token>>,
    nat,
) {
    if start >= tokens.len() {
        (Err(ExpectError::NoMoreTokens { failed_at: start as usize, could_not_consume: token }), start)
    } else if tokens[start as int].same_category(&token) {
        (Ok(tokens[start as int]), start + 1)
    } else {
        (
            Err(
                ExpectError::ExpectedNotFound {
                    failed_at: start as usize,
                    expected: token,
                    found: tokens[start as int],
                },
            ),
            start + 1,
        )
    }
}

impl Expectable<Token> for Token {
    open spec fn expects(
        tokens: Seq<Token>,
        start: nat,
        token: Token,
        outcome: Result<Token, ExpectError<Token>>,
        end: nat,
    ) -> bool {
        (outcome, end) == expect_outcome(tokens, start, token)
    }

    /// Reads one token and checks its category against that of `token`.
    /// The token read stays read, also where it is of another category.
    fn expect(iter: &mut TokenIter<Token>, token: Token) -> (r: Result<Token, ExpectError<Token>>)
        ensures
            (r, final(iter)@.position) == expect_outcome(
                old(iter)@.tokens,
                old(iter)@.position,
                token,
            ),
    {
        let at = iter.position();
        match iter.consume() {
            None => Err(ExpectError::NoMoreTokens { failed_at: at, could_not_consume: token }),
            Some(found) => {
                if found.stateless_equals(&token) {
                    Ok(found)
                } else {
                    Err(ExpectError::ExpectedNotFound { failed_at: at, expected: token, found })
                }
            },
        }
    }
}

} // verus!
