//! The payloads of the tokens that carry one, each as a type of its own.

use vstd::prelude::*;

verus! {

/// The text of a string literal.
#[derive(PartialEq, Debug)]
pub struct LiteralStringValue {
    value: String,
}

impl View for LiteralStringValue {
    type V = Seq<char>;

    closed spec fn view(&self) -> Seq<char> {
        self.value@
    }
}

impl From<String> for LiteralStringValue {
    fn from(s: String) -> (r: Self)
        ensures
            r@ == s@,
    {
        LiteralStringValue { value: s }
    }
}

impl vstd::std_specs::convert::FromSpecImpl<String> for LiteralStringValue {
    open spec fn obeys_from_spec() -> bool {
        true
    }

    closed spec fn from_spec(s: String) -> Self {
        LiteralStringValue { value: s }
    }
}

impl Clone for LiteralStringValue {
    fn clone(&self) -> (copy: Self)
        ensures
            copy@ == self@,
    {
        LiteralStringValue { value: self.value.clone() }
    }
}

impl Default for LiteralStringValue {
    fn default() -> (r: Self)
        ensures
            r@ == Seq::<char>::empty(),
    {
        LiteralStringValue { value: String::new() }
    }
}

/// The digits of an integer literal, as they were written.
#[derive(PartialEq, Debug)]
pub struct LiteralIntValue {
    value: String,
}

impl View for LiteralIntValue {
    type V = Seq<char>;

    closed spec fn view(&self) -> Seq<char> {
        self.value@
    }
}

impl From<String> for LiteralIntValue {
    fn from(s: String) -> (r: Self)
        ensures
            r@ == s@,
    {
        LiteralIntValue { value: s }
    }
}

impl vstd::std_specs::convert::FromSpecImpl<String> for LiteralIntValue {
    open spec fn obeys_from_spec() -> bool {
        true
    }

    closed spec fn from_spec(s: String) -> Self {
        LiteralIntValue { value: s }
    }
}

impl Clone for LiteralIntValue {
    fn clone(&self) -> (copy: Self)
        ensures
            copy@ == self@,
    {
        LiteralIntValue { value: self.value.clone() }
    }
}

impl Default for LiteralIntValue {
    fn default() -> (r: Self)
        ensures
            r@ == Seq::<char>::empty(),
    {
        LiteralIntValue { value: String::new() }
    }
}

/// The name that an identifier spells.
#[derive(PartialEq, Debug)]
pub struct IdentifierValue {
    value: String,
}

impl View for IdentifierValue {
    type V = Seq<char>;

    closed spec fn view(&self) -> Seq<char> {
        self.value@
    }
}

impl From<String> for IdentifierValue {
    fn from(s: String) -> (r: Self)
        ensures
            r@ == s@,
    {
        IdentifierValue { value: s }
    }
}

impl vstd::std_specs::convert::FromSpecImpl<String> for IdentifierValue {
    open spec fn obeys_from_spec() -> bool {
        true
    }

    closed spec fn from_spec(s: String) -> Self {
        IdentifierValue { value: s }
    }
}

impl Clone for IdentifierValue {
    fn clone(&self) -> (copy: Self)
        ensures
            copy@ == self@,
    {
        IdentifierValue { value: self.value.clone() }
    }
}

impl Default for IdentifierValue {
    fn default() -> (r: Self)
        ensures
            r@ == Seq::<char>::empty(),
    {
        IdentifierValue { value: String::new() }
    }
}

} // verus!
