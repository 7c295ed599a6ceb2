use astray_core::{ExpectError, Expectable, ParseError, Token, TokenIter};

fn ident(name: &str) -> Token {
    Token::Identifier(name.to_string())
}

#[test]
fn new_cursor_stands_at_the_start() {
    let tokens = vec![Token::LParen, Token::RParen];
    let iter = TokenIter::new(tokens.as_slice());
    assert_eq!(iter.position(), 0);
    assert_eq!(iter.depth(), 0);
    assert_eq!(iter.tokens.len(), 2);
}

#[test]
fn cursor_from_a_vector() {
    let tokens = vec![Token::LParen, Token::RParen];
    let mut iter = TokenIter::from(&tokens);
    assert_eq!(iter.current, 0);
    assert_eq!(iter.consume(), Some(Token::LParen));
    assert_eq!(iter.current, 1);
}

#[test]
fn get_copies_without_moving() {
    let tokens = vec![Token::Plus, ident("a")];
    let iter = TokenIter::new(tokens.as_slice());
    assert_eq!(iter.get(0), Some(Token::Plus));
    assert_eq!(iter.get(1), Some(ident("a")));
    assert_eq!(iter.get(2), None);
    assert_eq!(iter.get(usize::MAX), None);
    assert_eq!(iter.current, 0);
}

#[test]
fn consume_reads_in_order_and_stops_at_the_end() {
    let tokens = vec![Token::Plus, Token::Minus];
    let mut iter = TokenIter::new(tokens.as_slice());
    assert_eq!(iter.consume(), Some(Token::Plus));
    assert_eq!(iter.current, 1);
    assert_eq!(iter.consume(), Some(Token::Minus));
    assert_eq!(iter.current, 2);
    assert_eq!(iter.consume(), None);
    assert_eq!(iter.current, 2);
    assert_eq!(iter.consume(), None);
    assert_eq!(iter.current, 2);
}

#[test]
fn consume_on_an_empty_buffer() {
    let tokens: Vec<Token> = vec![];
    let mut iter = TokenIter::new(tokens.as_slice());
    assert_eq!(iter.consume(), None);
    assert_eq!(iter.current, 0);
}

#[test]
fn push_records_the_position() {
    let tokens = vec![Token::Plus, Token::Minus, Token::Mult];
    let mut iter = TokenIter::new(tokens.as_slice());
    iter.push();
    iter.consume();
    iter.push();
    iter.consume();
    iter.push();
    assert_eq!(iter.stack, vec![0, 1, 2]);
    assert_eq!(iter.depth(), 3);
    assert_eq!(iter.current, 2);
}

#[test]
fn clean_pop_keeps_the_position() {
    let tokens = vec![Token::Plus, Token::Minus];
    let mut iter = TokenIter::new(tokens.as_slice());
    iter.push();
    iter.consume();
    iter.consume();
    iter.clean_pop();
    assert_eq!(iter.current, 2);
    assert!(iter.stack.is_empty());
}

#[test]
fn clean_pop_without_a_savepoint_changes_nothing() {
    let tokens = vec![Token::Plus];
    let mut iter = TokenIter::new(tokens.as_slice());
    iter.consume();
    iter.clean_pop();
    assert_eq!(iter.current, 1);
    assert!(iter.stack.is_empty());
}

#[test]
fn pop_restores_the_innermost_savepoint() {
    let tokens = vec![Token::Plus, Token::Minus, Token::Mult];
    let mut iter = TokenIter::new(tokens.as_slice());
    iter.consume();
    iter.push();
    iter.consume();
    iter.push();
    iter.consume();
    assert_eq!(iter.current, 3);
    assert_eq!(iter.pop(), Some(2));
    assert_eq!(iter.current, 2);
    assert_eq!(iter.stack, vec![1]);
    assert_eq!(iter.pop(), Some(1));
    assert_eq!(iter.current, 1);
    assert!(iter.stack.is_empty());
}

#[test]
fn pop_without_a_savepoint_changes_nothing() {
    let tokens = vec![Token::Plus];
    let mut iter = TokenIter::new(tokens.as_slice());
    iter.consume();
    assert_eq!(iter.pop(), None);
    assert_eq!(iter.current, 1);
}

#[test]
fn attempt_commits_on_success() {
    let tokens = vec![Token::LParen, Token::RParen];
    let mut iter = TokenIter::new(tokens.as_slice());
    let r = iter.try_do(|it| Token::expect(it, Token::LParen));
    assert_eq!(r, Ok(Token::LParen));
    assert_eq!(iter.current, 1);
    assert!(iter.stack.is_empty());
}

#[test]
fn attempt_restores_on_failure() {
    let tokens = vec![Token::LParen];
    let mut iter = TokenIter::new(tokens.as_slice());
    let r = iter.try_do(|it| Token::expect(it, Token::RParen));
    assert_eq!(
        r,
        Err(ExpectError::ExpectedNotFound {
            failed_at: 0,
            expected: Token::RParen,
            found: Token::LParen
        })
    );
    assert_eq!(iter.current, 0);
    assert!(iter.stack.is_empty());
}

#[test]
fn attempt_restores_from_every_position_after_any_number_of_reads() {
    let tokens = vec![Token::Plus, Token::Minus, Token::Mult, Token::Div];
    for start in 0..=tokens.len() {
        for reads in 0..=tokens.len() + 1 {
            let mut iter = TokenIter::new(tokens.as_slice());
            for _ in 0..start {
                iter.consume();
            }
            iter.push();
            let depth = iter.stack.clone();
            let r: Result<(), usize> = iter.try_do(|it| {
                for _ in 0..reads {
                    it.consume();
                }
                Err(reads)
            });
            assert_eq!(r, Err(reads));
            assert_eq!(iter.current, start);
            assert_eq!(iter.stack, depth);
        }
    }
}

#[test]
fn attempt_keeps_the_depth_either_way() {
    let tokens = vec![Token::Plus, Token::Minus];
    let mut iter = TokenIter::new(tokens.as_slice());
    iter.push();
    iter.consume();
    iter.push();
    let before = iter.stack.clone();
    let ok: Result<u8, u8> = iter.try_do(|it| {
        it.consume();
        Ok(7)
    });
    assert_eq!(ok, Ok(7));
    assert_eq!(iter.stack, before);
    assert_eq!(iter.current, 2);
    let err: Result<u8, u8> = iter.try_do(|_| Err(9));
    assert_eq!(err, Err(9));
    assert_eq!(iter.stack, before);
    assert_eq!(iter.current, 2);
}

#[test]
fn attempts_nest() {
    let tokens = vec![Token::LParen, Token::Comma, Token::RParen];
    let mut iter = TokenIter::new(tokens.as_slice());
    let r: Result<Token, ExpectError<Token>> = iter.try_do(|outer| {
        Token::expect(outer, Token::LParen)?;
        let inner = outer.try_do(|it| Token::expect(it, Token::RParen));
        assert!(inner.is_err());
        assert_eq!(outer.current, 1);
        assert_eq!(outer.stack, vec![0]);
        Token::expect(outer, Token::Comma)?;
        Token::expect(outer, Token::Comma)
    });
    assert_eq!(
        r,
        Err(ExpectError::ExpectedNotFound {
            failed_at: 2,
            expected: Token::Comma,
            found: Token::RParen
        })
    );
    assert_eq!(iter.current, 0);
    assert!(iter.stack.is_empty());
}

#[test]
fn expect_reads_a_matching_identifier_with_its_text() {
    let tokens = vec![ident("x")];
    let mut iter = TokenIter::new(tokens.as_slice());
    let r = Token::expect(&mut iter, ident(""));
    assert_eq!(r, Ok(ident("x")));
    assert_eq!(iter.current, 1);
}

#[test]
fn expect_on_an_empty_buffer_finds_no_more_tokens() {
    let tokens: Vec<Token> = vec![];
    for expected in [Token::LParen, Token::KInt, ident("a"), Token::LiteralInt(1), Token::EMPTY] {
        let mut iter = TokenIter::new(tokens.as_slice());
        let r = Token::expect(&mut iter, expected.clone());
        assert_eq!(
            r,
            Err(ExpectError::NoMoreTokens { failed_at: 0, could_not_consume: expected })
        );
        assert_eq!(iter.current, 0);
    }
}

#[test]
fn expect_at_the_end_reports_the_end_index() {
    let tokens = vec![Token::Plus, Token::Minus];
    let mut iter = TokenIter::new(tokens.as_slice());
    iter.consume();
    iter.consume();
    let r = Token::expect(&mut iter, Token::Mult);
    assert_eq!(r, Err(ExpectError::NoMoreTokens { failed_at: 2, could_not_consume: Token::Mult }));
    assert_eq!(iter.current, 2);
}

#[test]
fn a_mismatch_stays_read_outside_an_attempt() {
    let tokens = vec![Token::LParen, Token::Comma];
    let mut iter = TokenIter::new(tokens.as_slice());
    let r = Token::expect(&mut iter, Token::RParen);
    assert_eq!(
        r,
        Err(ExpectError::ExpectedNotFound {
            failed_at: 0,
            expected: Token::RParen,
            found: Token::LParen
        })
    );
    assert_eq!(iter.current, 1);
}

#[test]
fn a_mismatch_inside_an_attempt_is_rolled_back() {
    let tokens = vec![Token::LParen];
    let mut iter = TokenIter::new(tokens.as_slice());
    let r: Result<Token, ExpectError<Token>> = iter.expect(Token::RParen);
    assert_eq!(
        r,
        Err(ExpectError::ExpectedNotFound {
            failed_at: 0,
            expected: Token::RParen,
            found: Token::LParen
        })
    );
    assert_eq!(iter.current, 0);
    assert!(iter.stack.is_empty());
}

#[test]
fn attempted_expect_moves_on_success() {
    let tokens = vec![Token::LiteralInt(7), Token::SemiColon];
    let mut iter = TokenIter::new(tokens.as_slice());
    let r: Result<Token, ExpectError<Token>> = iter.expect(Token::LiteralInt(0));
    assert_eq!(r, Ok(Token::LiteralInt(7)));
    assert_eq!(iter.current, 1);
    assert!(iter.stack.is_empty());
}

#[test]
fn optional_terminal_is_present_or_absent() {
    let tokens = vec![Token::SemiColon, Token::Comma];
    let mut iter = TokenIter::new(tokens.as_slice());
    let present = <Option<Token> as Expectable<Token>>::expect(&mut iter, Token::SemiColon);
    assert_eq!(present, Ok(Some(Token::SemiColon)));
    assert_eq!(iter.current, 1);
    let absent = <Option<Token> as Expectable<Token>>::expect(&mut iter, Token::SemiColon);
    assert_eq!(absent, Ok(None));
    assert_eq!(iter.current, 1);
    assert!(iter.stack.is_empty());
    iter.consume();
    let at_end = <Option<Token> as Expectable<Token>>::expect(&mut iter, Token::SemiColon);
    assert_eq!(at_end, Ok(None));
    assert_eq!(iter.current, 2);
}

#[test]
fn expect_errors_know_their_index() {
    let end: ExpectError<Token> =
        ExpectError::NoMoreTokens { failed_at: 4, could_not_consume: Token::Plus };
    let other: ExpectError<Token> = ExpectError::ExpectedNotFound {
        failed_at: 9,
        expected: Token::Plus,
        found: Token::Minus,
    };
    assert_eq!(end.failed_at(), 4);
    assert_eq!(other.failed_at(), 9);
    assert_eq!(end.clone(), end);
    assert_eq!(other.clone(), other);
}

#[test]
fn parse_errors_come_from_expect_errors() {
    let end: ExpectError<Token> =
        ExpectError::NoMoreTokens { failed_at: 4, could_not_consume: Token::Plus };
    let other: ExpectError<Token> = ExpectError::ExpectedNotFound {
        failed_at: 9,
        expected: Token::Plus,
        found: Token::Minus,
    };
    assert_eq!(ParseError::from(end.clone()), ParseError::NoMoreTokens(end.clone()));
    assert_eq!(ParseError::from(other.clone()), ParseError::UnexpectedToken(other.clone()));
    assert_eq!(ParseError::from(end.clone()).failed_at(), 4);
    assert_eq!(ParseError::from(other.clone()).failed_at(), 9);
    let nested = ParseError::FailedToParseBranch(Box::new(ParseError::FailedToParseBranch(
        Box::new(ParseError::from(other.clone())),
    )));
    assert_eq!(nested.failed_at(), 9);
    assert_eq!(nested.clone(), nested);
}
