//! Declarations as the syntax parser hands them over: plain names, type
//! texts and shapes, before any metadata is derived from them.
use vstd::prelude::*;

verus! {

/// An outer attribute. `list` holds the comma-separated paths of a
/// list-shaped attribute (`#[derive(A, B)]`), and is `None` where the
/// attribute has no such list.
#[derive(Clone, Debug)]
pub struct AttrDecl {
    pub path: String,
    pub list: Option<Vec<String>>,
}

/// One field of a struct or variant; `name` is `None` for a tuple field.
#[derive(Clone, Debug)]
pub struct FieldDecl {
    pub name: Option<String>,
    pub ty: String,
}

/// The shape of a variant's fields.
#[derive(Clone, Debug)]
pub enum FieldsDecl {
    Unit,
    Unnamed(Vec<String>),
    Named(Vec<FieldDecl>),
}

/// One variant of a declared enum.
#[derive(Clone, Debug)]
pub struct VariantDecl {
    pub name: String,
    pub fields: FieldsDecl,
}

/// A declared enum (a state description).
#[derive(Clone, Debug)]
pub struct EnumDecl {
    pub name: String,
    pub vis: String,
    pub generics: String,
    pub generic_params: Vec<String>,
    pub attrs: Vec<AttrDecl>,
    pub variants: Vec<VariantDecl>,
}

/// A declared struct (a machine description).
#[derive(Clone, Debug)]
pub struct StructDecl {
    pub name: String,
    pub vis: String,
    pub generics: String,
    pub generic_params: Vec<String>,
    pub attrs: Vec<AttrDecl>,
    pub fields: Vec<FieldDecl>,
}

/// The receiver of a method.
#[derive(Clone, Debug)]
pub enum Receiver {
    /// `self`
    Value,
    /// `mut self`
    MutValue,
    /// `&self`
    Ref,
    /// `&mut self`
    RefMut,
    /// No receiver: the first parameter is an ordinary one.
    Missing,
}

/// A type as far as return shapes are concerned: a path whose last segment
/// is `ident` with the generic arguments `args`, or any other type (or
/// generic argument). `text` is the type as written, without spaces.
#[derive(Debug)]
pub enum TypeDecl {
    Path { ident: String, args: Vec<TypeDecl>, text: String },
    Other { text: String },
}

/// A method of an `impl` block.
#[derive(Debug)]
pub struct MethodDecl {
    pub name: String,
    pub receiver: Receiver,
    /// The types of the parameters after the receiver, as written.
    pub params: Vec<String>,
    pub output: Option<TypeDecl>,
    pub is_async: bool,
    /// Whether the body calls `get_data_mut`, which clones the machine.
    pub calls_data_mut: bool,
}

/// An `impl` block: its self type and its methods.
#[derive(Debug)]
pub struct ImplDecl {
    pub self_ty: TypeDecl,
    pub methods: Vec<MethodDecl>,
}

} // verus!
