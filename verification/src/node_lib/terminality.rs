//! What a branch of a node is: one token, or another node.

use vstd::prelude::*;
use vstd::string::StringExecFns;

verus! {

/// What stands at a branch of a node.
#[derive(Debug, PartialEq, Eq)]
pub enum BranchTerminality {
    /// Another node, of the type with this text.
    Reference(String),
    /// One token, of the category of the token that the path `source` names.
    StatelessLeaf { source: String },
}

/// What stands at a branch of a node, as mathematics.
pub enum Terminality {
    Reference(Seq<char>),
    StatelessLeaf { source: Seq<char> },
}

impl View for BranchTerminality {
    type V = Terminality;

    open spec fn view(&self) -> Terminality {
        match *self {
            BranchTerminality::Reference(ty) => Terminality::Reference(ty@),
            BranchTerminality::StatelessLeaf { source } => Terminality::StatelessLeaf { source: source@ },
        }
    }
}

impl Clone for BranchTerminality {
    fn clone(&self) -> (copy: Self)
        ensures
            copy@ == self@,
    {
        match self {
            BranchTerminality::Reference(ty) => BranchTerminality::Reference(ty.clone()),
            BranchTerminality::StatelessLeaf { source } => BranchTerminality::StatelessLeaf {
                source: source.clone(),
            },
        }
    }
}

impl Terminality {
    /// The text of the call that consumes the branch in a product node. It
    /// follows the type that is called: a leaf expects its token, a
    /// reference parses its node.
    pub open spec fn conjunct_call(self) -> Seq<char> {
        match self {
            Terminality::StatelessLeaf { source } => "::expect(iter, "@ + source + ")"@,
            Terminality::Reference(_) => "::parse(iter)"@,
        }
    }

    /// The text of the call that consumes the branch in a sum node: the
    /// call of a product node, with what it gives tagged as the variant
    /// `branch_ident` of `node_name`.
    pub open spec fn disjunct_call(self, node_name: Seq<char>, branch_ident: Seq<char>) -> Seq<char> {
        self.conjunct_call() + ".map(|v| "@ + node_name + "::"@ + branch_ident + "(v))"@
    }

    /// The text of the capability that the branch's type is called
    /// through.
    pub open spec fn capability(self) -> Seq<char> {
        match self {
            Terminality::StatelessLeaf { .. } => "::astray_core::Expectable"@,
            Terminality::Reference(_) => "::astray_core::Parsable"@,
        }
    }
}

impl BranchTerminality {
    /// The call that consumes the branch in a product node.
    pub fn as_conjunct_fn_call(&self) -> (call: String)
        ensures
            call@ == self@.conjunct_call(),
    {
        match self {
            BranchTerminality::StatelessLeaf { source } => {
                let mut call = String::from_str("::expect(iter, ");
                call.append(source.as_str());
                call.append(")");
                call
            },
            BranchTerminality::Reference(_) => String::from_str("::parse(iter)"),
        }
    }

    /// The call that consumes the branch in a sum node, with what it gives
    /// tagged as the variant `branch_ident` of `node_name`.
    pub fn as_disjunct_fn_call(&self, node_name: &str, branch_ident: &str) -> (call: String)
        ensures
            call@ == self@.disjunct_call(node_name@, branch_ident@),
    {
        let mut call = self.as_conjunct_fn_call();
        call.append(".map(|v| ");
        call.append(node_name);
        call.append("::");
        call.append(branch_ident);
        call.append("(v))");
        call
    }

    /// The capability that the branch's type is called through.
    pub fn as_capability(&self) -> (name: String)
        ensures
            name@ == self@.capability(),
    {
        match self {
            BranchTerminality::StatelessLeaf { .. } => String::from_str("::astray_core::Expectable"),
            BranchTerminality::Reference(_) => String::from_str("::astray_core::Parsable"),
        }
    }
}

} // verus!
