//! What can go wrong: a terminal that is not there, and a node that cannot be built.

pub mod expect_error;
pub mod parse_error;
