//! A recursive-descent parsing engine over a finite token buffer, with
//! speculative attempts that roll the cursor back when they fail.
//!
//! A grammar is written with two capabilities. [`Expectable`] takes one
//! terminal off the cursor and checks it against an expected one;
//! [`Parsable`] builds one node from a run of tokens. Both work on a
//! [`TokenIter`], the cursor, whose savepoints make an attempt reversible.
//!
//! [`impl_std`] and [`composite`] put nodes together: zero or one, zero or
//! more, one after the other, one or the other. [`node_lib`] writes the
//! parser of a node from its declaration.

pub mod base_traits;
pub mod composite;
pub mod decimal;
pub mod error;
pub mod impl_std;
pub mod iter;
pub mod node_lib;
pub mod stateless_leaf;
pub mod token;
pub mod value;

pub use base_traits::{Expectable, Parsable};
pub use composite::Either;
pub use error::expect_error::ExpectError;
pub use error::parse_error::ParseError;
pub use iter::TokenIter;
pub use stateless_leaf::KInt;
pub use token::{Category, Token};
pub use value::{IdentifierValue, LiteralIntValue, LiteralStringValue};
