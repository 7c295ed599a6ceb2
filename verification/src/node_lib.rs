//! From the description of a node to the text of the functions that parse
//! it. A product node parses its fields in the order of their declaration;
//! a sum node tries its variants in that order, each as an attempt of its
//! own, and the first that succeeds wins.

pub mod branch;
pub mod derive;
pub mod node;
pub mod shape;
pub mod terminality;
pub mod text;
