use astray_core::composite::{failed_alternatives, failed_branches};
use astray_core::{Either, ExpectError, Expectable, KInt, Parsable, ParseError, Token, TokenIter};

fn ident(name: &str) -> Token {
    Token::Identifier(name.to_string())
}

#[derive(Debug, PartialEq)]
struct LParen(Token);

impl Parsable<Token> for LParen {
    fn parse(iter: &mut TokenIter<Token>) -> Result<Self, ParseError<Token>> {
        Ok(LParen(Token::expect(iter, Token::LParen)?))
    }
}

#[derive(Debug, PartialEq)]
struct Comma(Token);

impl Parsable<Token> for Comma {
    fn parse(iter: &mut TokenIter<Token>) -> Result<Self, ParseError<Token>> {
        Ok(Comma(Token::expect(iter, Token::Comma)?))
    }
}

#[derive(Debug, PartialEq)]
struct Name(String);

impl Parsable<Token> for Name {
    fn parse(iter: &mut TokenIter<Token>) -> Result<Self, ParseError<Token>> {
        match Token::expect(iter, Token::Identifier(String::new()))? {
            Token::Identifier(text) => Ok(Name(text)),
            _ => unreachable!("expect hands back a token of the category asked for"),
        }
    }
}

/// Any identifier, kept whole: it matches whatever `Name` matches.
#[derive(Debug, PartialEq)]
struct Word(Token);

impl Parsable<Token> for Word {
    fn parse(iter: &mut TokenIter<Token>) -> Result<Self, ParseError<Token>> {
        Ok(Word(Token::expect(iter, Token::Identifier(String::new()))?))
    }
}

#[derive(Debug, PartialEq)]
struct Call {
    name: Token,
    open: Token,
    close: Token,
}

impl Parsable<Token> for Call {
    fn parse(iter: &mut TokenIter<Token>) -> Result<Self, ParseError<Token>> {
        let name = Token::expect(iter, Token::Identifier(String::new()))?;
        let open = Token::expect(iter, Token::LParen)?;
        let close = Token::expect(iter, Token::RParen)?;
        Ok(Call { name, open, close })
    }
}

fn unexpected(at: usize, expected: Token, found: Token) -> ParseError<Token> {
    ParseError::UnexpectedToken(ExpectError::ExpectedNotFound { failed_at: at, expected, found })
}

fn no_more(at: usize, expected: Token) -> ParseError<Token> {
    ParseError::NoMoreTokens(ExpectError::NoMoreTokens { failed_at: at, could_not_consume: expected })
}

#[test]
fn leaf_reads_an_identifier() {
    let tokens = vec![ident("x")];
    let mut iter = TokenIter::new(tokens.as_slice());
    assert_eq!(Name::parse(&mut iter), Ok(Name("x".to_string())));
    assert_eq!(iter.current, 1);
}

#[test]
fn sum_takes_the_second_variant_after_the_first_fails() {
    let tokens = vec![Token::Comma];
    let mut iter = TokenIter::new(tokens.as_slice());
    let first = iter.parse::<LParen>();
    assert_eq!(first, Err(unexpected(0, Token::LParen, Token::Comma)));
    assert_eq!(iter.current, 0);

    let r = <Either<LParen, Comma>>::parse(&mut iter);
    assert_eq!(r, Ok(Either::Right(Comma(Token::Comma))));
    assert_eq!(iter.current, 1);
    assert!(iter.stack.is_empty());
}

#[test]
fn sum_takes_the_first_variant_that_matches() {
    let tokens = vec![Token::LParen, Token::Comma];
    let mut iter = TokenIter::new(tokens.as_slice());
    let r = <Either<LParen, Comma>>::parse(&mut iter);
    assert_eq!(r, Ok(Either::Left(LParen(Token::LParen))));
    assert_eq!(iter.current, 1);
}

#[test]
fn first_declared_wins_where_both_match() {
    let tokens = vec![ident("both")];
    let mut iter = TokenIter::new(tokens.as_slice());
    let r = <Either<Name, Word>>::parse(&mut iter);
    assert_eq!(r, Ok(Either::Left(Name("both".to_string()))));
    assert_eq!(iter.current, 1);

    let mut iter = TokenIter::new(tokens.as_slice());
    let r = <Either<Word, Name>>::parse(&mut iter);
    assert_eq!(r, Ok(Either::Left(Word(ident("both")))));
    assert_eq!(iter.current, 1);
}

#[test]
fn sum_fails_where_every_variant_fails_and_stays() {
    let tokens = vec![Token::Plus, Token::SemiColon];
    let mut iter = TokenIter::new(tokens.as_slice());
    iter.consume();
    let r = <Either<LParen, Comma>>::parse(&mut iter);
    assert_eq!(
        r,
        Err(ParseError::FailedToParseBranch(Box::new(unexpected(
            1,
            Token::LParen,
            Token::SemiColon
        ))))
    );
    assert_eq!(iter.current, 1);
    assert!(iter.stack.is_empty());
}

#[test]
fn sum_failure_holds_the_deeper_failure() {
    // The call fails at its third token; the comma fails at the first.
    let tokens = vec![ident("f"), Token::LParen, Token::Comma];
    let mut iter = TokenIter::new(tokens.as_slice());
    let r = <Either<Comma, Call>>::parse(&mut iter);
    assert_eq!(
        r,
        Err(ParseError::FailedToParseBranch(Box::new(unexpected(
            2,
            Token::RParen,
            Token::Comma
        ))))
    );
    assert_eq!(r.unwrap_err().failed_at(), 2);
    assert_eq!(iter.current, 0);

    let mut iter = TokenIter::new(tokens.as_slice());
    let r = <Either<Call, Comma>>::parse(&mut iter);
    assert_eq!(
        r,
        Err(ParseError::FailedToParseBranch(Box::new(unexpected(
            2,
            Token::RParen,
            Token::Comma
        ))))
    );
    assert_eq!(iter.current, 0);
}

#[test]
fn sums_nest() {
    let tokens = vec![Token::KInt];
    let mut iter = TokenIter::new(tokens.as_slice());
    let r = <Either<LParen, Either<Comma, KInt>>>::parse(&mut iter);
    assert_eq!(r, Ok(Either::Right(Either::Right(KInt::new(Token::KInt)))));
    assert_eq!(iter.current, 1);

    let tokens = vec![Token::Div];
    let mut iter = TokenIter::new(tokens.as_slice());
    let r = <Either<LParen, Either<Comma, KInt>>>::parse(&mut iter);
    assert_eq!(
        r,
        Err(ParseError::FailedToParseBranch(Box::new(unexpected(
            0,
            Token::LParen,
            Token::Div
        ))))
    );
    assert_eq!(iter.current, 0);
}

#[test]
fn product_parses_its_fields_in_order() {
    let tokens = vec![ident("f"), Token::LParen, Token::RParen];
    let mut iter = TokenIter::new(tokens.as_slice());
    let r = iter.parse::<Call>();
    assert_eq!(r, Ok(Call { name: ident("f"), open: Token::LParen, close: Token::RParen }));
    assert_eq!(iter.current, 3);
    assert!(iter.stack.is_empty());
}

#[test]
fn product_fails_at_the_missing_field_and_the_attempt_restores() {
    let tokens = vec![Token::Plus, ident("f"), Token::LParen];
    let mut iter = TokenIter::new(tokens.as_slice());
    iter.consume();
    let r = iter.parse::<Call>();
    assert_eq!(r, Err(no_more(3, Token::RParen)));
    assert_eq!(r.unwrap_err().failed_at(), 3);
    assert_eq!(iter.current, 1);
    assert!(iter.stack.is_empty());

    let tokens = vec![ident("f"), Token::LParen];
    let mut iter = TokenIter::new(tokens.as_slice());
    let r = iter.parse::<Call>();
    assert_eq!(r, Err(no_more(2, Token::RParen)));
    assert_eq!(iter.current, 0);
}

#[test]
fn product_does_not_roll_back_by_itself() {
    let tokens = vec![ident("f"), Token::LParen];
    let mut iter = TokenIter::new(tokens.as_slice());
    let r = Call::parse(&mut iter);
    assert_eq!(r, Err(no_more(2, Token::RParen)));
    assert_eq!(iter.current, 2);
}

#[test]
fn pair_parses_both_or_fails_at_the_first_failure() {
    let tokens = vec![Token::LParen, Token::Comma, Token::Comma];
    let mut iter = TokenIter::new(tokens.as_slice());
    let r = <(LParen, Comma)>::parse(&mut iter);
    assert_eq!(r, Ok((LParen(Token::LParen), Comma(Token::Comma))));
    assert_eq!(iter.current, 2);

    let mut iter = TokenIter::new(tokens.as_slice());
    let r = <(Comma, LParen)>::parse(&mut iter);
    assert_eq!(r, Err(unexpected(0, Token::Comma, Token::LParen)));
    assert_eq!(iter.current, 1);

    let mut iter = TokenIter::new(tokens.as_slice());
    let r = <(LParen, LParen)>::parse(&mut iter);
    assert_eq!(r, Err(unexpected(1, Token::LParen, Token::Comma)));
    assert_eq!(iter.current, 2);

    let mut iter = TokenIter::new(tokens.as_slice());
    let r = <(LParen, (Comma, Comma))>::parse(&mut iter);
    assert_eq!(r, Ok((LParen(Token::LParen), (Comma(Token::Comma), Comma(Token::Comma)))));
    assert_eq!(iter.current, 3);
}

#[test]
fn run_collects_until_the_first_failure() {
    let tokens = vec![Token::Comma, Token::Comma, Token::Comma, Token::LParen, Token::Comma];
    let mut iter = TokenIter::new(tokens.as_slice());
    let r = <Vec<Comma>>::parse(&mut iter);
    assert_eq!(r, Ok(vec![Comma(Token::Comma), Comma(Token::Comma), Comma(Token::Comma)]));
    assert_eq!(iter.current, 3);
    assert!(iter.stack.is_empty());
}

#[test]
fn run_never_fails() {
    let empty: Vec<Token> = vec![];
    let mut iter = TokenIter::new(empty.as_slice());
    assert_eq!(<Vec<Comma>>::parse(&mut iter), Ok(vec![]));
    assert_eq!(<Vec<Call>>::parse(&mut iter), Ok(vec![]));
    assert_eq!(<Vec<Option<Comma>>>::parse(&mut iter), Ok(vec![]));
    assert_eq!(<Vec<Vec<Comma>>>::parse(&mut iter), Ok(vec![]));
    assert_eq!(iter.current, 0);

    let tokens = vec![Token::LParen, Token::Comma];
    let mut iter = TokenIter::new(tokens.as_slice());
    assert_eq!(<Vec<Comma>>::parse(&mut iter), Ok(vec![]));
    assert_eq!(iter.current, 0);
}

#[test]
fn run_restores_the_attempt_that_ends_it() {
    let tokens = vec![ident("f"), Token::LParen, Token::RParen, ident("g"), Token::LParen, Token::Comma];
    let mut iter = TokenIter::new(tokens.as_slice());
    let r = <Vec<Call>>::parse(&mut iter);
    assert_eq!(r, Ok(vec![Call { name: ident("f"), open: Token::LParen, close: Token::RParen }]));
    assert_eq!(iter.current, 3);
}

#[test]
fn run_ends_where_an_item_reads_nothing() {
    let tokens = vec![Token::Comma, Token::Comma, Token::LParen];
    let mut iter = TokenIter::new(tokens.as_slice());
    let r = <Vec<Option<Comma>>>::parse(&mut iter);
    assert_eq!(r, Ok(vec![Some(Comma(Token::Comma)), Some(Comma(Token::Comma))]));
    assert_eq!(iter.current, 2);

    let mut iter = TokenIter::new(tokens.as_slice());
    let r = <Vec<Vec<Comma>>>::parse(&mut iter);
    assert_eq!(r, Ok(vec![vec![Comma(Token::Comma), Comma(Token::Comma)]]));
    assert_eq!(iter.current, 2);
}

#[test]
fn run_to_the_end_of_the_buffer() {
    let tokens = vec![Token::Comma, Token::Comma];
    let mut iter = TokenIter::new(tokens.as_slice());
    let r = <Vec<Comma>>::parse(&mut iter);
    assert_eq!(r, Ok(vec![Comma(Token::Comma), Comma(Token::Comma)]));
    assert_eq!(iter.current, 2);
}

#[test]
fn optional_node_is_present_or_absent() {
    let tokens = vec![ident("f"), Token::LParen, Token::RParen, ident("g"), Token::LParen];
    let mut iter = TokenIter::new(tokens.as_slice());
    let r = <Option<Call>>::parse(&mut iter);
    assert_eq!(r, Ok(Some(Call { name: ident("f"), open: Token::LParen, close: Token::RParen })));
    assert_eq!(iter.current, 3);
    let r = <Option<Call>>::parse(&mut iter);
    assert_eq!(r, Ok(None));
    assert_eq!(iter.current, 3);
    assert!(iter.stack.is_empty());
}

#[test]
fn keyword_node() {
    let tokens = vec![Token::KInt];
    let mut iter = TokenIter::new(tokens.as_slice());
    let result = KInt::parse(&mut iter);
    assert!(result.unwrap().kint == Token::KInt);
    assert_eq!(iter.current, 1);

    let tokens = vec![Token::KFloat];
    let mut iter = TokenIter::new(tokens.as_slice());
    assert_eq!(KInt::parse(&mut iter), Err(unexpected(0, Token::KInt, Token::KFloat)));
    assert_eq!(iter.current, 1);

    let tokens: Vec<Token> = vec![];
    let mut iter = TokenIter::new(tokens.as_slice());
    assert_eq!(KInt::parse(&mut iter), Err(no_more(0, Token::KInt)));
    assert_eq!(iter.current, 0);
    assert_eq!(KInt::new(Token::KInt), KInt { kint: Token::KInt });
}

#[test]
fn the_deepest_failure_is_kept() {
    let a = no_more(3, Token::Plus);
    let b = unexpected(5, Token::Plus, Token::Minus);
    let c = unexpected(5, Token::Mult, Token::Div);
    let d = no_more(1, Token::Comma);
    let kept = |e: ParseError<Token>| ParseError::FailedToParseBranch(Box::new(e));
    assert_eq!(failed_alternatives(a.clone(), vec![]), kept(a.clone()));
    assert_eq!(failed_alternatives(a.clone(), vec![b.clone()]), kept(b.clone()));
    assert_eq!(failed_alternatives(b.clone(), vec![a.clone()]), kept(b.clone()));
    assert_eq!(failed_alternatives(b.clone(), vec![c.clone()]), kept(b.clone()));
    assert_eq!(failed_alternatives(c.clone(), vec![b.clone()]), kept(c.clone()));
    assert_eq!(
        failed_alternatives(d.clone(), vec![a.clone(), c.clone(), b.clone(), d.clone()]),
        kept(c.clone())
    );
    assert_eq!(
        failed_alternatives(d.clone(), vec![d.clone(), d.clone()]),
        kept(d.clone())
    );
    assert_eq!(failed_branches(a.clone(), b.clone()), kept(b.clone()));
    assert_eq!(failed_branches(b.clone(), a.clone()), kept(b.clone()));
    assert_eq!(failed_branches(b.clone(), c.clone()), kept(b.clone()));
    assert_eq!(failed_branches(a.clone(), b.clone()).failed_at(), 5);
}
