//! The whole of what a node's declaration expands to.

use crate::node_lib::branch::BranchModel;
use crate::node_lib::node::{Node, NodeModel, NodeType};
use crate::node_lib::shape::{DeriveInput, Unsupported, Variant};
use vstd::prelude::*;
use vstd::string::StringExecFns;

verus! {

impl NodeModel {
    /// The text of what the node expands to: its parser, as its
    /// implementation of the parsing capability, and, for a product node,
    /// its constructor.
    pub open spec fn expansion(self) -> Seq<char> {
        "impl ::astray_core::Parsable<"@ + self.consumable_token + "> for "@ + self.ident + " { "@
            + self.parse_fn() + " } impl "@ + self.ident + " { "@ + (match self.node_type {
            NodeType::ProductNode => self.new_fn(),
            NodeType::SumNode => Seq::empty(),
        }) + " }"@
    }
}

/// As many branches come out as variants go in.
pub proof fn lemma_one_branch_for_each_variant(variants: Seq<Variant>)
    ensures
        BranchModel::of_variants(variants) is Ok ==> BranchModel::of_variants(variants)->Ok_0.len()
            == variants.len(),
    decreases variants.len(),
{
    if variants.len() > 0 {
        lemma_one_branch_for_each_variant(variants.drop_last());
    }
}

/// A node that a declaration describes can be given a parser.
pub proof fn lemma_described_node_is_parsable(input: DeriveInput)
    ensures
        NodeModel::of_derive_input(input) is Ok ==> NodeModel::of_derive_input(input)->Ok_0.parsable(),
{
    match input.data {
        crate::node_lib::shape::Data::Enum(variants) => {
            lemma_one_branch_for_each_variant(variants@);
        },
        _ => {},
    }
}

impl Node {
    /// What the node expands to.
    pub fn to_expansion(&self) -> (text: String)
        requires
            self@.parsable(),
        ensures
            text@ == self@.expansion(),
    {
        let parse_fn = self.to_parse_fn();
        let new_fn = match self.node_type {
            NodeType::ProductNode => self.to_newfn(),
            NodeType::SumNode => String::new(),
        };
        let mut text = String::from_str("impl ::astray_core::Parsable<");
        text.append(self.consumable_token.as_str());
        text.append("> for ");
        text.append(self.ident.as_str());
        text.append(" { ");
        text.append(parse_fn.as_str());
        text.append(" } impl ");
        text.append(self.ident.as_str());
        text.append(" { ");
        text.append(new_fn.as_str());
        text.append(" }");
        text
    }
}

/// What the declaration `input` expands to, or why it describes no node.
pub fn try_ast_node(input: DeriveInput) -> (text: Result<String, Unsupported>)
    ensures
        text is Ok ==> NodeModel::of_derive_input(input) is Ok && text->Ok_0@ == NodeModel::of_derive_input(
            input,
        )->Ok_0.expansion(),
        text is Err ==> NodeModel::of_derive_input(input) == Err::<NodeModel, Unsupported>(text->Err_0),
{
    proof {
        lemma_described_node_is_parsable(input);
    }
    match Node::try_from_derive_input(input) {
        Ok(node) => Ok(node.to_expansion()),
        Err(e) => Err(e),
    }
}

/// What the declaration `input`, which describes a node, expands to.
pub fn ast_node(input: DeriveInput) -> (text: String)
    requires
        NodeModel::of_derive_input(input) is Ok,
    ensures
        text@ == NodeModel::of_derive_input(input)->Ok_0.expansion(),
{
    try_ast_node(input).unwrap()
}

} // verus!
