//! One branch of a node: a field of a product, or a variant of a sum.

use crate::node_lib::node::NodeType;
use crate::node_lib::shape::{
    terminality_of, Field, Fields, HasType, IntoBranchTerminality, Unsupported, Variant,
};
use crate::node_lib::terminality::{BranchTerminality, Terminality};
use convert_case::{Case, Casing};
use vstd::prelude::*;
use vstd::string::StringExecFns;

verus! {

/// A branch of a node: its name, what stands at it, and the text of its
/// type.
#[derive(Debug, PartialEq, Eq)]
pub struct Branch {
    pub ident: String,
    pub terminality: BranchTerminality,
    pub ty: String,
}

/// A branch of a node, as mathematics.
pub struct BranchModel {
    pub ident: Seq<char>,
    pub terminality: Terminality,
    pub ty: Seq<char>,
}

impl View for Branch {
    type V = BranchModel;

    open spec fn view(&self) -> BranchModel {
        BranchModel { ident: self.ident@, terminality: self.terminality@, ty: self.ty@ }
    }
}

impl Clone for Branch {
    fn clone(&self) -> (copy: Self)
        ensures
            copy@ == self@,
    {
        Branch {
            ident: self.ident.clone(),
            terminality: self.terminality.clone(),
            ty: self.ty.clone(),
        }
    }
}

/// The name `text` in snake case, as `convert_case` writes it.
pub uninterp spec fn snake_case_of(text: Seq<char>) -> Seq<char>;

/// `Casing::to_case` of `convert_case`, with `Case::Snake`: the words of
/// `text` in lower case with `_` between them. The contract gives what
/// comes back its name, and says no more of it.
#[verifier::external_body]
fn to_snake_case(text: &str) -> (snake: String)
    ensures
        snake@ == snake_case_of(text@),
{
    text.to_case(Case::Snake)
}

impl BranchModel {
    /// The branch that the field `field` of a struct describes: it has the
    /// field's name and type.
    pub open spec fn of_field(field: Field) -> Result<BranchModel, Unsupported> {
        match field.ident {
            None => Err(Unsupported::FieldsWithoutNames),
            Some(ident) => match terminality_of(field.attrs@, field.type_text()) {
                Ok(terminality) => Ok(BranchModel { ident: ident@, terminality, ty: field.ty@ }),
                Err(e) => Err(e),
            },
        }
    }

    /// The branch that the variant `variant` of an enum describes: it has
    /// the variant's name, and the type of the first field of its tuple.
    pub open spec fn of_variant(variant: Variant) -> Result<BranchModel, Unsupported> {
        match variant.type_text() {
            Err(e) => Err(e),
            Ok(ty) => match terminality_of(variant.attrs@, Ok(ty)) {
                Ok(terminality) => Ok(BranchModel { ident: variant.ident@, terminality, ty }),
                Err(e) => Err(e),
            },
        }
    }

    /// The branches that the fields `fields` describe, in their order; or
    /// why the first of them that describes none does not.
    pub open spec fn of_fields(fields: Seq<Field>) -> Result<Seq<BranchModel>, Unsupported>
        decreases fields.len(),
    {
        if fields.len() == 0 {
            Ok(Seq::empty())
        } else {
            match Self::of_fields(fields.drop_last()) {
                Err(e) => Err(e),
                Ok(before) => match Self::of_field(fields.last()) {
                    Ok(branch) => Ok(before.push(branch)),
                    Err(e) => Err(e),
                },
            }
        }
    }

    /// The branches that the variants `variants` describe, in their order;
    /// or why the first of them that describes none does not.
    pub open spec fn of_variants(variants: Seq<Variant>) -> Result<Seq<BranchModel>, Unsupported>
        decreases variants.len(),
    {
        if variants.len() == 0 {
            Ok(Seq::empty())
        } else {
            match Self::of_variants(variants.drop_last()) {
                Err(e) => Err(e),
                Ok(before) => match Self::of_variant(variants.last()) {
                    Ok(branch) => Ok(before.push(branch)),
                    Err(e) => Err(e),
                },
            }
        }
    }

    /// The branches that the fields of a struct describe: the fields have
    /// names.
    pub open spec fn of_struct(fields: Fields) -> Result<Seq<BranchModel>, Unsupported> {
        match fields {
            Fields::Named(named) => Self::of_fields(named@),
            _ => Err(Unsupported::FieldsWithoutNames),
        }
    }

    /// The name of the variable that holds the failure of this branch, for
    /// the name `snake` of the branch in snake case. The underscore in
    /// front keeps a compiler from warning where the variable is not read.
    pub open spec fn err_variable_named(snake: Seq<char>) -> Seq<char> {
        "_"@ + snake + "_err"@
    }

    /// The name of the variable that holds the failure of this branch.
    pub open spec fn err_variable(self) -> Seq<char> {
        Self::err_variable_named(snake_case_of(self.ident))
    }

    /// The text of what is called to consume the branch: its type, as an
    /// implementation of its capability for the tokens `token`.
    pub open spec fn callee(self, token: Seq<char>) -> Seq<char> {
        "<"@ + self.ty + " as "@ + self.terminality.capability() + "<"@ + token + ">>"@
    }

    /// The text of the statement that consumes the branch in the parser of
    /// the node `node_name` over the tokens `token`.
    ///
    /// In a product node the branch is consumed and bound to its name, and
    /// a failure ends the parser. In a sum node the branch is consumed as
    /// an attempt of its own: a success ends the parser with the variant,
    /// and a failure is bound to the branch's failure variable.
    pub open spec fn consumption_statement(
        self,
        node_name: Seq<char>,
        node_type: NodeType,
        token: Seq<char>,
    ) -> Seq<char> {
        match node_type {
            NodeType::SumNode => "let "@ + self.err_variable() + ": ::astray_core::ParseError<"@ + token
                + "> = match iter.try_do(|iter| "@ + self.callee(token)
                + self.terminality.disjunct_call(node_name, self.ident)
                + ") { Ok(node) => return Ok(node), Err(e) => ::astray_core::ParseError::from(e) };"@,
            NodeType::ProductNode => "let "@ + self.ident + " = "@ + self.callee(token)
                + self.terminality.conjunct_call() + "?;"@,
        }
    }
}

/// Where the first `k` fields describe no branches, neither do all of
/// them, for the same reason.
pub proof fn lemma_fields_fail_early(fields: Seq<Field>, k: int)
    requires
        0 <= k <= fields.len(),
        BranchModel::of_fields(fields.take(k)) is Err,
    ensures
        BranchModel::of_fields(fields) == BranchModel::of_fields(fields.take(k)),
    decreases fields.len() - k,
{
    if k == fields.len() {
        assert(fields.take(k) =~= fields);
    } else {
        assert(fields.take(k + 1).drop_last() =~= fields.take(k));
        lemma_fields_fail_early(fields, k + 1);
    }
}

/// Where the first `k` variants describe no branches, neither do all of
/// them, for the same reason.
pub proof fn lemma_variants_fail_early(variants: Seq<Variant>, k: int)
    requires
        0 <= k <= variants.len(),
        BranchModel::of_variants(variants.take(k)) is Err,
    ensures
        BranchModel::of_variants(variants) == BranchModel::of_variants(variants.take(k)),
    decreases variants.len() - k,
{
    if k == variants.len() {
        assert(variants.take(k) =~= variants);
    } else {
        assert(variants.take(k + 1).drop_last() =~= variants.take(k));
        lemma_variants_fail_early(variants, k + 1);
    }
}

/// The name of the variable that holds the failure of a branch whose name
/// in snake case is `snake`.
pub fn err_variable_named(snake: &str) -> (name: String)
    ensures
        name@ == BranchModel::err_variable_named(snake@),
{
    let mut name = String::from_str("_");
    name.append(snake);
    name.append("_err");
    name
}

impl Fields {
    /// The branches that the fields of a struct describe, in their order:
    /// the fields have names.
    pub fn into_branches(&self) -> (branches: Result<Vec<Branch>, Unsupported>)
        ensures
            branches is Ok ==> BranchModel::of_struct(*self) == Ok::<Seq<BranchModel>, Unsupported>(
                models_of(branches->Ok_0@),
            ),
            branches is Err ==> BranchModel::of_struct(*self) == Err::<Seq<BranchModel>, Unsupported>(
                branches->Err_0,
            ),
    {
        match self {
            Fields::Named(named) => Branch::from_fields(named),
            _ => Err(Unsupported::FieldsWithoutNames),
        }
    }
}

/// The views of `branches`.
pub open spec fn models_of(branches: Seq<Branch>) -> Seq<BranchModel> {
    branches.map_values(|branch: Branch| branch@)
}

impl Branch {
    /// The branch that the field `field` of a struct describes.
    pub fn from_field(field: &Field) -> (branch: Result<Branch, Unsupported>)
        ensures
            branch is Ok ==> BranchModel::of_field(*field) == Ok::<BranchModel, Unsupported>(
                branch->Ok_0@,
            ),
            branch is Err ==> BranchModel::of_field(*field) == Err::<BranchModel, Unsupported>(
                branch->Err_0,
            ),
    {
        let ident = match &field.ident {
            None => {
                return Err(Unsupported::FieldsWithoutNames);
            },
            Some(ident) => ident.clone(),
        };
        match field.as_branch_terminality() {
            Ok(terminality) => Ok(Branch { ident, terminality, ty: field.ty.clone() }),
            Err(e) => Err(e),
        }
    }

    /// The branch that the variant `variant` of an enum describes.
    pub fn from_variant(variant: &Variant) -> (branch: Result<Branch, Unsupported>)
        ensures
            branch is Ok ==> BranchModel::of_variant(*variant) == Ok::<BranchModel, Unsupported>(
                branch->Ok_0@,
            ),
            branch is Err ==> BranchModel::of_variant(*variant) == Err::<BranchModel, Unsupported>(
                branch->Err_0,
            ),
    {
        let ty = match variant.get_type() {
            Ok(ty) => ty,
            Err(e) => {
                return Err(e);
            },
        };
        match variant.as_branch_terminality() {
            Ok(terminality) => Ok(Branch { ident: variant.ident.clone(), terminality, ty }),
            Err(e) => Err(e),
        }
    }

    /// The branches that the variants `variants` describe, in their order.
    pub fn from_variants(variants: &Vec<Variant>) -> (branches: Result<Vec<Branch>, Unsupported>)
        ensures
            branches is Ok ==> BranchModel::of_variants(variants@) == Ok::<
                Seq<BranchModel>,
                Unsupported,
            >(models_of(branches->Ok_0@)),
            branches is Err ==> BranchModel::of_variants(variants@) == Err::<
                Seq<BranchModel>,
                Unsupported,
            >(branches->Err_0),
    {
        let mut branches: Vec<Branch> = Vec::new();
        let mut i: usize = 0;
        assert(variants@.take(0) =~= Seq::<Variant>::empty());
        assert(models_of(branches@) =~= Seq::<BranchModel>::empty());
        while i < variants.len()
            invariant
                i <= variants@.len(),
                BranchModel::of_variants(variants@.take(i as int)) == Ok::<Seq<BranchModel>, Unsupported>(
                    models_of(branches@),
                ),
            decreases variants@.len() - i,
        {
            let ghost longer = variants@.take(i + 1);
            assert(longer.drop_last() =~= variants@.take(i as int));
            assert(longer.last() == variants@[i as int]);
            match Branch::from_variant(&variants[i]) {
                Ok(branch) => {
                    assert(models_of(branches@.push(branch)) =~= models_of(branches@).push(branch@));
                    branches.push(branch);
                },
                Err(e) => {
                    proof {
                        lemma_variants_fail_early(variants@, i + 1);
                    }
                    return Err(e);
                },
            }
            i = i + 1;
        }
        assert(variants@.take(i as int) =~= variants@);
        Ok(branches)
    }

    /// The branches that the named fields `fields` describe, in their
    /// order.
    pub fn from_fields(fields: &Vec<Field>) -> (branches: Result<Vec<Branch>, Unsupported>)
        ensures
            branches is Ok ==> BranchModel::of_fields(fields@) == Ok::<Seq<BranchModel>, Unsupported>(
                models_of(branches->Ok_0@),
            ),
            branches is Err ==> BranchModel::of_fields(fields@) == Err::<Seq<BranchModel>, Unsupported>(
                branches->Err_0,
            ),
    {
        let mut branches: Vec<Branch> = Vec::new();
        let mut i: usize = 0;
        assert(fields@.take(0) =~= Seq::<Field>::empty());
        assert(models_of(branches@) =~= Seq::<BranchModel>::empty());
        while i < fields.len()
            invariant
                i <= fields@.len(),
                BranchModel::of_fields(fields@.take(i as int)) == Ok::<Seq<BranchModel>, Unsupported>(
                    models_of(branches@),
                ),
            decreases fields@.len() - i,
        {
            let ghost longer = fields@.take(i + 1);
            assert(longer.drop_last() =~= fields@.take(i as int));
            assert(longer.last() == fields@[i as int]);
            match Branch::from_field(&fields[i]) {
                Ok(branch) => {
                    assert(models_of(branches@.push(branch)) =~= models_of(branches@).push(branch@));
                    branches.push(branch);
                },
                Err(e) => {
                    proof {
                        lemma_fields_fail_early(fields@, i + 1);
                    }
                    return Err(e);
                },
            }
            i = i + 1;
        }
        assert(fields@.take(i as int) =~= fields@);
        Ok(branches)
    }

    /// The name of the variable that holds the failure of this branch.
    pub fn as_err_variable(&self) -> (name: String)
        ensures
            name@ == self@.err_variable(),
    {
        let snake = to_snake_case(self.ident.as_str());
        err_variable_named(snake.as_str())
    }

    /// What is called to consume the branch.
    pub fn as_callee(&self, token: &str) -> (callee: String)
        ensures
            callee@ == self@.callee(token@),
    {
        let capability = self.terminality.as_capability();
        let mut callee = String::from_str("<");
        callee.append(self.ty.as_str());
        callee.append(" as ");
        callee.append(capability.as_str());
        callee.append("<");
        callee.append(token);
        callee.append(">>");
        callee
    }

    /// The statement that consumes the branch in the parser of the node
    /// `node_name` over the tokens `token`.
    pub fn to_consumption_statement(&self, node_name: &str, node_type: &NodeType, token: &str) -> (statement:
        String)
        ensures
            statement@ == self@.consumption_statement(node_name@, *node_type, token@),
    {
        let callee = self.as_callee(token);
        match node_type {
            NodeType::SumNode => {
                let failure = self.as_err_variable();
                let call = self.terminality.as_disjunct_fn_call(node_name, self.ident.as_str());
                let mut statement = String::from_str("let ");
                statement.append(failure.as_str());
                statement.append(": ::astray_core::ParseError<");
                statement.append(token);
                statement.append("> = match iter.try_do(|iter| ");
                statement.append(callee.as_str());
                statement.append(call.as_str());
                statement.append(
                    ") { Ok(node) => return Ok(node), Err(e) => ::astray_core::ParseError::from(e) };",
                );
                statement
            },
            NodeType::ProductNode => {
                let call = self.terminality.as_conjunct_fn_call();
                let mut statement = String::from_str("let ");
                statement.append(self.ident.as_str());
                statement.append(" = ");
                statement.append(callee.as_str());
                statement.append(call.as_str());
                statement.append("?;");
                statement
            },
        }
    }
}

} // verus!
