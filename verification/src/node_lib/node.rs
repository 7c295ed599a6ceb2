//! A node of the grammar, and the text of its parser.

use crate::node_lib::branch::{models_of, Branch, BranchModel};
use crate::node_lib::shape::{consumable_token, token_of, Data, DeriveInput, Item, Unsupported};
use crate::node_lib::text::{join, join_texts, texts_of};
use vstd::prelude::*;
use vstd::string::StringExecFns;

verus! {

/// The two kinds of composite nodes.
#[derive(Debug, Clone, Copy, PartialEq, Eq, Structural)]
pub enum NodeType {
    /// Every branch, in order.
    ProductNode,
    /// The first branch that can be parsed.
    SumNode,
}

/// A node of the grammar: its kind, its name, its branches in the order
/// of their declaration, and the text of the type of the tokens it is
/// parsed from.
#[derive(Debug, PartialEq, Eq)]
pub struct Node {
    pub node_type: NodeType,
    pub ident: String,
    pub branches: Vec<Branch>,
    pub consumable_token: String,
}

/// A node of the grammar, as mathematics.
pub struct NodeModel {
    pub node_type: NodeType,
    pub ident: Seq<char>,
    pub branches: Seq<BranchModel>,
    pub consumable_token: Seq<char>,
}

impl View for Node {
    type V = NodeModel;

    open spec fn view(&self) -> NodeModel {
        NodeModel {
            node_type: self.node_type,
            ident: self.ident@,
            branches: models_of(self.branches@),
            consumable_token: self.consumable_token@,
        }
    }
}

impl NodeModel {
    /// The node that a declaration with the name `ident` and the content
    /// `data` describes, over the tokens `token`. A struct describes a
    /// product node of its fields, an enum a sum node of its variants.
    pub open spec fn of_data(ident: Seq<char>, data: Data, token: Seq<char>) -> Result<
        NodeModel,
        Unsupported,
    > {
        match data {
            Data::Struct(fields) => match BranchModel::of_struct(fields) {
                Ok(branches) => Ok(
                    NodeModel {
                        node_type: NodeType::ProductNode,
                        ident,
                        branches,
                        consumable_token: token,
                    },
                ),
                Err(e) => Err(e),
            },
            Data::Enum(variants) => if variants@.len() == 0 {
                Err(Unsupported::EnumWithoutVariant)
            } else {
                match BranchModel::of_variants(variants@) {
                    Ok(branches) => Ok(
                        NodeModel {
                            node_type: NodeType::SumNode,
                            ident,
                            branches,
                            consumable_token: token,
                        },
                    ),
                    Err(e) => Err(e),
                }
            },
            Data::Union => Err(Unsupported::Union),
        }
    }

    /// The node that the declaration `input` describes. The tokens it is
    /// parsed from are those that its `token` attribute names.
    pub open spec fn of_derive_input(input: DeriveInput) -> Result<NodeModel, Unsupported> {
        match token_of(input.attrs@) {
            Err(e) => Err(e),
            Ok(token) => Self::of_data(input.ident@, input.data, token),
        }
    }

    /// The node that the item `item` describes, over the tokens `token`.
    pub open spec fn of_item(item: Item, token: Seq<char>) -> Result<NodeModel, Unsupported> {
        match item {
            Item::Enum { ident, variants } => Self::of_data(ident@, Data::Enum(variants), token),
            Item::Struct { ident, fields } => Self::of_data(ident@, Data::Struct(fields), token),
            Item::Other => Err(Unsupported::NoStructOrEnum),
        }
    }

    /// The statements that consume the branches, in the order of the
    /// branches.
    pub open spec fn consumption_statements(self) -> Seq<Seq<char>> {
        self.branches.map_values(
            |branch: BranchModel|
                branch.consumption_statement(self.ident, self.node_type, self.consumable_token),
        )
    }

    /// The names of the branches, in their order.
    pub open spec fn branch_idents(self) -> Seq<Seq<char>> {
        self.branches.map_values(|branch: BranchModel| branch.ident)
    }

    /// The names of the variables that hold the failures of the branches,
    /// in the order of the branches.
    pub open spec fn err_variables(self) -> Seq<Seq<char>> {
        self.branches.map_values(|branch: BranchModel| branch.err_variable())
    }

    /// The parameters of the constructor: each branch's name and type, in
    /// the order of the branches.
    pub open spec fn parameters(self) -> Seq<Seq<char>> {
        self.branches.map_values(|branch: BranchModel| branch.ident + ": "@ + branch.ty)
    }

    /// How the parser ends, once every statement has run. A product node
    /// is built from its fields, in their order. A sum node fails with the
    /// failures of all its variants, in their order.
    pub open spec fn conclusion(self) -> Seq<char> {
        match self.node_type {
            NodeType::ProductNode => "return Ok("@ + self.ident + " { "@ + join(
                self.branch_idents(),
                ", "@,
            ) + " });"@,
            NodeType::SumNode => "return Err(::astray_core::composite::failed_alternatives("@
                + self.err_variables()[0] + ", vec!["@ + join(self.err_variables().skip(1), ", "@)
                + "]));"@,
        }
    }

    /// The text of the parser of the node: its statements in the order of
    /// the branches, then its conclusion.
    pub open spec fn parse_fn(self) -> Seq<char> {
        "fn parse(iter: &mut ::astray_core::TokenIter<"@ + self.consumable_token + ">) -> Result<"@
            + self.ident + ", ::astray_core::ParseError<"@ + self.consumable_token + ">> { "@ + join(
            self.consumption_statements(),
            " "@,
        ) + " "@ + self.conclusion() + " }"@
    }

    /// The text of the constructor of the node, which takes the branches
    /// in their order.
    pub open spec fn new_fn(self) -> Seq<char> {
        "fn new("@ + join(self.parameters(), ", "@) + ") -> Self { "@ + self.ident + " { "@ + join(
            self.branch_idents(),
            ", "@,
        ) + " } }"@
    }

    /// Whether a parser can be written for the node: a sum node has a
    /// variant.
    pub open spec fn parsable(self) -> bool {
        self.node_type == NodeType::SumNode ==> self.branches.len() > 0
    }
}

impl Node {
    /// The node that a declaration with the name `ident` and the content
    /// `data` describes, over the tokens `token`; or why it describes
    /// none.
    pub fn try_from_data(ident: String, data: Data, token: String) -> (node: Result<Node, Unsupported>)
        ensures
            node is Ok ==> NodeModel::of_data(ident@, data, token@) == Ok::<NodeModel, Unsupported>(
                node->Ok_0@,
            ),
            node is Err ==> NodeModel::of_data(ident@, data, token@) == Err::<NodeModel, Unsupported>(
                node->Err_0,
            ),
    {
        match &data {
            Data::Struct(fields) => {
                match fields.into_branches() {
                    Ok(branches) => Ok(
                        Node { node_type: NodeType::ProductNode, ident, branches, consumable_token: token },
                    ),
                    Err(e) => Err(e),
                }
            },
            Data::Enum(variants) => {
                if variants.len() == 0 {
                    return Err(Unsupported::EnumWithoutVariant);
                }
                match Branch::from_variants(variants) {
                    Ok(branches) => Ok(
                        Node { node_type: NodeType::SumNode, ident, branches, consumable_token: token },
                    ),
                    Err(e) => Err(e),
                }
            },
            Data::Union => Err(Unsupported::Union),
        }
    }

    /// The node that the declaration `derive_input` describes, or why it
    /// describes none.
    pub fn try_from_derive_input(derive_input: DeriveInput) -> (node: Result<Node, Unsupported>)
        ensures
            node is Ok ==> NodeModel::of_derive_input(derive_input) == Ok::<NodeModel, Unsupported>(
                node->Ok_0@,
            ),
            node is Err ==> NodeModel::of_derive_input(derive_input) == Err::<NodeModel, Unsupported>(
                node->Err_0,
            ),
    {
        let token = match consumable_token(&derive_input.attrs) {
            Ok(token) => token,
            Err(e) => {
                return Err(e);
            },
        };
        Node::try_from_data(derive_input.ident, derive_input.data, token)
    }

    /// The node that the declaration `derive_input` describes.
    pub fn from_derive_input(derive_input: DeriveInput) -> (node: Node)
        requires
            NodeModel::of_derive_input(derive_input) is Ok,
        ensures
            NodeModel::of_derive_input(derive_input) == Ok::<NodeModel, Unsupported>(node@),
    {
        Node::try_from_derive_input(derive_input).unwrap()
    }

    /// The node that the item `item` describes, over the tokens
    /// `consumable_token`; or why it describes none.
    pub fn try_from_item(item: Item, consumable_token: String) -> (node: Result<Node, Unsupported>)
        ensures
            node is Ok ==> NodeModel::of_item(item, consumable_token@) == Ok::<NodeModel, Unsupported>(
                node->Ok_0@,
            ),
            node is Err ==> NodeModel::of_item(item, consumable_token@) == Err::<NodeModel, Unsupported>(
                node->Err_0,
            ),
    {
        match item {
            Item::Enum { ident, variants } => Node::try_from_data(
                ident,
                Data::Enum(variants),
                consumable_token,
            ),
            Item::Struct { ident, fields } => Node::try_from_data(
                ident,
                Data::Struct(fields),
                consumable_token,
            ),
            Item::Other => Err(Unsupported::NoStructOrEnum),
        }
    }

    /// The node that the item `item` describes, over the tokens
    /// `consumable_token`.
    pub fn from_item(item: Item, consumable_token: String) -> (node: Node)
        requires
            NodeModel::of_item(item, consumable_token@) is Ok,
        ensures
            NodeModel::of_item(item, consumable_token@) == Ok::<NodeModel, Unsupported>(node@),
    {
        Node::try_from_item(item, consumable_token).unwrap()
    }

    /// The statements that consume the branches, and the names of the
    /// branches, both in the order of the branches.
    pub fn to_consumption_statements(&self) -> (r: (Vec<String>, Vec<String>))
        ensures
            r.0@.len() == self.branches@.len(),
            r.1@.len() == self.branches@.len(),
            texts_of(r.0@) == self@.consumption_statements(),
            texts_of(r.1@) == self@.branch_idents(),
    {
        let mut statements: Vec<String> = Vec::new();
        let mut idents: Vec<String> = Vec::new();
        let mut i: usize = 0;
        while i < self.branches.len()
            invariant
                i <= self.branches@.len(),
                statements@.len() == i,
                idents@.len() == i,
                forall|k: int|
                    0 <= k < i ==> (#[trigger] statements@[k])@ == self.branches@[k]@.consumption_statement(
                        self.ident@,
                        self.node_type,
                        self.consumable_token@,
                    ),
                forall|k: int| 0 <= k < i ==> (#[trigger] idents@[k])@ == self.branches@[k].ident@,
            decreases self.branches@.len() - i,
        {
            let branch = &self.branches[i];
            statements.push(
                branch.to_consumption_statement(
                    self.ident.as_str(),
                    &self.node_type,
                    self.consumable_token.as_str(),
                ),
            );
            idents.push(branch.ident.clone());
            i = i + 1;
        }
        assert(texts_of(statements@) =~= self@.consumption_statements());
        assert(texts_of(idents@) =~= self@.branch_idents());
        (statements, idents)
    }

    /// The names of the variables that hold the failures of the branches,
    /// in the order of the branches.
    pub fn to_err_variables(&self) -> (names: Vec<String>)
        ensures
            names@.len() == self.branches@.len(),
            texts_of(names@) == self@.err_variables(),
    {
        let mut names: Vec<String> = Vec::new();
        let mut i: usize = 0;
        while i < self.branches.len()
            invariant
                i <= self.branches@.len(),
                names@.len() == i,
                forall|k: int| 0 <= k < i ==> (#[trigger] names@[k])@ == self.branches@[k]@.err_variable(),
            decreases self.branches@.len() - i,
        {
            names.push(self.branches[i].as_err_variable());
            i = i + 1;
        }
        assert(texts_of(names@) =~= self@.err_variables());
        names
    }

    /// The parser of the node.
    pub fn to_parse_fn(&self) -> (text: String)
        requires
            self@.parsable(),
        ensures
            text@ == self@.parse_fn(),
    {
        let (statements, idents) = self.to_consumption_statements();
        let conclusion = match self.node_type {
            NodeType::ProductNode => {
                let fields = join_texts(&idents, 0, ", ");
                assert(texts_of(idents@).skip(0) =~= texts_of(idents@));
                let mut conclusion = String::from_str("return Ok(");
                conclusion.append(self.ident.as_str());
                conclusion.append(" { ");
                conclusion.append(fields.as_str());
                conclusion.append(" });");
                conclusion
            },
            NodeType::SumNode => {
                let failures = self.to_err_variables();
                let others = join_texts(&failures, 1, ", ");
                assert(failures@[0]@ == self@.err_variables()[0]);
                let mut conclusion = String::from_str(
                    "return Err(::astray_core::composite::failed_alternatives(",
                );
                conclusion.append(failures[0].as_str());
                conclusion.append(", vec![");
                conclusion.append(others.as_str());
                conclusion.append("]));");
                conclusion
            },
        };
        let body = join_texts(&statements, 0, " ");
        assert(texts_of(statements@).skip(0) =~= texts_of(statements@));
        let mut text = String::from_str("fn parse(iter: &mut ::astray_core::TokenIter<");
        text.append(self.consumable_token.as_str());
        text.append(">) -> Result<");
        text.append(self.ident.as_str());
        text.append(", ::astray_core::ParseError<");
        text.append(self.consumable_token.as_str());
        text.append(">> { ");
        text.append(body.as_str());
        text.append(" ");
        text.append(conclusion.as_str());
        text.append(" }");
        text
    }

    /// The constructor of the node.
    pub fn to_newfn(&self) -> (text: String)
        ensures
            text@ == self@.new_fn(),
    {
        let mut parameters: Vec<String> = Vec::new();
        let mut idents: Vec<String> = Vec::new();
        let mut i: usize = 0;
        while i < self.branches.len()
            invariant
                i <= self.branches@.len(),
                parameters@.len() == i,
                idents@.len() == i,
                forall|k: int|
                    0 <= k < i ==> (#[trigger] parameters@[k])@ == self.branches@[k].ident@ + ": "@
                        + self.branches@[k].ty@,
                forall|k: int| 0 <= k < i ==> (#[trigger] idents@[k])@ == self.branches@[k].ident@,
            decreases self.branches@.len() - i,
        {
            let branch = &self.branches[i];
            let mut parameter = branch.ident.clone();
            parameter.append(": ");
            parameter.append(branch.ty.as_str());
            parameters.push(parameter);
            idents.push(branch.ident.clone());
            i = i + 1;
        }
        assert(texts_of(parameters@) =~= self@.parameters());
        assert(texts_of(idents@) =~= self@.branch_idents());
        let arguments = join_texts(&parameters, 0, ", ");
        let fields = join_texts(&idents, 0, ", ");
        assert(texts_of(parameters@).skip(0) =~= texts_of(parameters@));
        assert(texts_of(idents@).skip(0) =~= texts_of(idents@));
        let mut text = String::from_str("fn new(");
        text.append(arguments.as_str());
        text.append(") -> Self { ");
        text.append(self.ident.as_str());
        text.append(" { ");
        text.append(fields.as_str());
        text.append(" } }");
        text
    }
}

} // verus!
