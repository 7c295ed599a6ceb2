//! The declaration that a node is described by, as plain values, and how
//! its attributes are read.

use crate::node_lib::terminality::{BranchTerminality, Terminality};
use vstd::prelude::*;
use vstd::string::StringExecFns;

verus! {

/// Why a declaration describes no node.
#[derive(Debug, Clone, Copy, PartialEq, Eq, Structural)]
pub enum Unsupported {
    /// The declaration has no `token` attribute.
    MissingToken,
    /// The `token` attribute holds no type.
    TokenIsNoType,
    /// The declaration is a union.
    Union,
    /// The declaration is neither a struct nor an enum.
    NoStructOrEnum,
    /// A struct's fields have no names.
    FieldsWithoutNames,
    /// An enum has no variant.
    EnumWithoutVariant,
    /// A variant holds nothing.
    VariantWithoutField,
    /// A variant is no tuple.
    VariantIsNoTuple,
    /// A `stateless_leaf` attribute holds no path.
    LeafIsNoPath,
}

/// What stands between the parentheses of an attribute.
#[derive(Debug, PartialEq, Eq)]
pub enum Argument {
    /// A path, with this text.
    Path(String),
    /// A type that is no path, with this text.
    Type(String),
    /// Anything else, or nothing.
    Other,
}

/// An attribute: the first segment of its path, and its argument.
#[derive(Debug, PartialEq, Eq)]
pub struct Attribute {
    pub name: String,
    pub argument: Argument,
}

/// A field of a struct or of a variant: its attributes, its name where it
/// has one, and the text of its type.
#[derive(Debug, PartialEq, Eq)]
pub struct Field {
    pub attrs: Vec<Attribute>,
    pub ident: Option<String>,
    pub ty: String,
}

/// The fields of a struct or of a variant.
#[derive(Debug, PartialEq, Eq)]
pub enum Fields {
    Named(Vec<Field>),
    Unnamed(Vec<Field>),
    Unit,
}

/// A variant of an enum.
#[derive(Debug, PartialEq, Eq)]
pub struct Variant {
    pub attrs: Vec<Attribute>,
    pub ident: String,
    pub fields: Fields,
}

/// What a declaration declares.
#[derive(Debug, PartialEq, Eq)]
pub enum Data {
    Struct(Fields),
    Enum(Vec<Variant>),
    Union,
}

/// A declaration with its attributes, as a derive receives it.
#[derive(Debug, PartialEq, Eq)]
pub struct DeriveInput {
    pub attrs: Vec<Attribute>,
    pub ident: String,
    pub data: Data,
}

/// A declaration, as an item of a file.
#[derive(Debug, PartialEq, Eq)]
pub enum Item {
    Enum { ident: String, variants: Vec<Variant> },
    Struct { ident: String, fields: Fields },
    Other,
}

/// The index of the first of `attrs`, from `from` on, that is named `name`.
pub open spec fn first_named(attrs: Seq<Attribute>, name: Seq<char>, from: int) -> Option<int>
    decreases attrs.len() - from,
{
    if from < 0 || from >= attrs.len() {
        None
    } else if attrs[from].name@ == name {
        Some(from)
    } else {
        first_named(attrs, name, from + 1)
    }
}

/// The type that the `token` attribute of `attrs` names: the argument of
/// the first attribute of that name.
pub open spec fn token_of(attrs: Seq<Attribute>) -> Result<Seq<char>, Unsupported> {
    match first_named(attrs, "token"@, 0) {
        None => Err(Unsupported::MissingToken),
        Some(i) => match attrs[i].argument {
            Argument::Path(ty) => Ok(ty@),
            Argument::Type(ty) => Ok(ty@),
            Argument::Other => Err(Unsupported::TokenIsNoType),
        },
    }
}

/// What stands at a branch with the attributes `attrs` and the type `ty`:
/// the token that the first `stateless_leaf` attribute names, or, without
/// such an attribute, a node of the type `ty`.
pub open spec fn terminality_of(attrs: Seq<Attribute>, ty: Result<Seq<char>, Unsupported>) -> Result<
    Terminality,
    Unsupported,
> {
    match first_named(attrs, "stateless_leaf"@, 0) {
        None => match ty {
            Ok(ty) => Ok(Terminality::Reference(ty)),
            Err(e) => Err(e),
        },
        Some(i) => match attrs[i].argument {
            Argument::Path(source) => Ok(Terminality::StatelessLeaf { source: source@ }),
            _ => Err(Unsupported::LeafIsNoPath),
        },
    }
}

/// The index of the first of `attrs` that is named `name`.
pub fn find_attribute(attrs: &Vec<Attribute>, name: &str) -> (found: Option<usize>)
    ensures
        found is Some ==> found.unwrap() < attrs@.len() && first_named(attrs@, name@, 0) == Some(
            found.unwrap() as int,
        ),
        found is None ==> first_named(attrs@, name@, 0) is None,
{
    let wanted = String::from_str(name);
    let mut i: usize = 0;
    while i < attrs.len()
        invariant
            i <= attrs@.len(),
            wanted@ == name@,
            first_named(attrs@, name@, 0) == first_named(attrs@, name@, i as int),
        decreases attrs@.len() - i,
    {
        if attrs[i].name == wanted {
            return Some(i);
        }
        i = i + 1;
    }
    None
}

/// The type that the `token` attribute of `attrs` names.
pub fn consumable_token(attrs: &Vec<Attribute>) -> (token: Result<String, Unsupported>)
    ensures
        token is Ok ==> token_of(attrs@) == Ok::<Seq<char>, Unsupported>(token->Ok_0@),
        token is Err ==> token_of(attrs@) == Err::<Seq<char>, Unsupported>(token->Err_0),
{
    match find_attribute(attrs, "token") {
        None => Err(Unsupported::MissingToken),
        Some(i) => match &attrs[i].argument {
            Argument::Path(ty) => Ok(ty.clone()),
            Argument::Type(ty) => Ok(ty.clone()),
            Argument::Other => Err(Unsupported::TokenIsNoType),
        },
    }
}

/// Something that carries attributes.
pub trait HasAttributes {
    /// The attributes, in their order.
    spec fn attributes(&self) -> Seq<Attribute>;

    /// The attributes, in their order.
    fn get_attrs(&self) -> (attrs: &Vec<Attribute>)
        ensures
            attrs@ == self.attributes(),
    ;
}

/// Something that has the type of a branch.
pub trait HasType {
    /// The text of the type, where there is one.
    spec fn type_text(&self) -> Result<Seq<char>, Unsupported>;

    /// The text of the type, where there is one.
    fn get_type(&self) -> (ty: Result<String, Unsupported>)
        ensures
            ty is Ok ==> self.type_text() == Ok::<Seq<char>, Unsupported>(ty->Ok_0@),
            ty is Err ==> self.type_text() == Err::<Seq<char>, Unsupported>(ty->Err_0),
    ;
}

/// Something that is a branch of a node.
pub trait IntoBranchTerminality: HasAttributes + HasType + Sized {
    /// What stands at the branch: the token that its first
    /// `stateless_leaf` attribute names, or, without such an attribute, a
    /// node of its type.
    fn as_branch_terminality(&self) -> (terminality: Result<BranchTerminality, Unsupported>)
        ensures
            terminality is Ok ==> terminality_of(self.attributes(), self.type_text()) == Ok::<
                Terminality,
                Unsupported,
            >(terminality->Ok_0@),
            terminality is Err ==> terminality_of(self.attributes(), self.type_text()) == Err::<
                Terminality,
                Unsupported,
            >(terminality->Err_0),
    {
        let attrs = self.get_attrs();
        match find_attribute(attrs, "stateless_leaf") {
            None => match self.get_type() {
                Ok(ty) => Ok(BranchTerminality::Reference(ty)),
                Err(e) => Err(e),
            },
            Some(i) => match &attrs[i].argument {
                Argument::Path(source) => Ok(BranchTerminality::StatelessLeaf { source: source.clone() }),
                _ => Err(Unsupported::LeafIsNoPath),
            },
        }
    }
}

impl HasAttributes for Field {
    open spec fn attributes(&self) -> Seq<Attribute> {
        self.attrs@
    }

    fn get_attrs(&self) -> (attrs: &Vec<Attribute>) {
        &self.attrs
    }
}

impl HasAttributes for Variant {
    open spec fn attributes(&self) -> Seq<Attribute> {
        self.attrs@
    }

    fn get_attrs(&self) -> (attrs: &Vec<Attribute>) {
        &self.attrs
    }
}

impl HasType for Field {
    open spec fn type_text(&self) -> Result<Seq<char>, Unsupported> {
        Ok(self.ty@)
    }

    fn get_type(&self) -> (ty: Result<String, Unsupported>) {
        Ok(self.ty.clone())
    }
}

impl HasType for Variant {
    /// The type of a variant is that of the first field of its tuple.
    open spec fn type_text(&self) -> Result<Seq<char>, Unsupported> {
        match self.fields {
            Fields::Unnamed(fields) => if fields@.len() > 0 {
                Ok(fields@[0].ty@)
            } else {
                Err(Unsupported::VariantWithoutField)
            },
            _ => Err(Unsupported::VariantIsNoTuple),
        }
    }

    fn get_type(&self) -> (ty: Result<String, Unsupported>) {
        match &self.fields {
            Fields::Unnamed(fields) => if fields.len() > 0 {
                Ok(fields[0].ty.clone())
            } else {
                Err(Unsupported::VariantWithoutField)
            },
            _ => Err(Unsupported::VariantIsNoTuple),
        }
    }
}

impl IntoBranchTerminality for Field {

}

impl IntoBranchTerminality for Variant {

}

} // verus!
