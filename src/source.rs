//! The parsed Rust source that the generator reads: the top-level items of
//! one file, as the Rust parser delivers them, held as plain values.
use vstd::prelude::*;

verus! {

/// A parsed Rust source file: its top-level items in order.
#[derive(Debug)]
pub struct SourceFile {
    pub items: Vec<SourceItem>,
}

/// A top-level item of a Rust source file.
#[derive(Debug)]
pub enum SourceItem {
    Struct(ItemStruct),
    Enum(ItemEnum),
    Impl(ItemImpl),
    /// Any other kind of item, which the generator ignores.
    Other,
}

/// A struct declaration.
#[derive(Debug)]
pub struct ItemStruct {
    pub ident: String,
    pub fields: SourceFields,
}

/// The fields of a struct or of an enum variant.
#[derive(Debug)]
pub enum SourceFields {
    /// Fields with names: `{ a: A, b: B }`.
    Named(Vec<NamedField>),
    /// Positional fields: `(A, B)`.
    Unnamed(Vec<SourceType>),
    /// No fields at all.
    Unit,
}

/// A field with a name.
#[derive(Debug)]
pub struct NamedField {
    pub ident: String,
    pub ty: SourceType,
}

/// An enum declaration.
#[derive(Debug)]
pub struct ItemEnum {
    pub ident: String,
    pub variants: Vec<SourceVariant>,
}

/// A variant of an enum.
#[derive(Debug)]
pub struct SourceVariant {
    pub ident: String,
    pub fields: SourceFields,
}

/// An `impl` block; `trait_path` is the implemented trait, if any.
#[derive(Debug)]
pub struct ItemImpl {
    pub trait_path: Option<SourcePath>,
    pub self_ty: SourceType,
}

/// A path such as `std::vec::Vec<u8>`.
#[derive(Debug)]
pub struct SourcePath {
    pub segments: Vec<PathSegment>,
}

/// One segment of a path, with the arguments that follow it.
#[derive(Debug)]
pub struct PathSegment {
    pub ident: String,
    pub arguments: PathArguments,
}

/// The arguments of a path segment.
#[derive(Debug)]
pub enum PathArguments {
    /// No arguments.
    Bare,
    /// `<A, B>`
    AngleBracketed(Vec<GenericArgument>),
    /// `(A, B) -> C`
    Parenthesized,
}

/// An argument between angle brackets.
#[derive(Debug)]
pub enum GenericArgument {
    Type(SourceType),
    /// A lifetime, a constant, a binding or a constraint.
    Other,
}

/// A type written in Rust source.
#[derive(Debug)]
pub enum SourceType {
    /// A path to a type; `qualified` is set for a `<T as Trait>::Name` form.
    Path { qualified: bool, path: SourcePath },
    /// Any other form of type.
    Other(TypeForm),
}

/// The forms of Rust types that have no Elm counterpart here.
#[derive(Debug, Clone, Copy, PartialEq, Eq)]
pub enum TypeForm {
    Array,
    BareFn,
    Group,
    ImplTrait,
    Infer,
    Macro,
    Never,
    Paren,
    Ptr,
    Reference,
    Slice,
    TraitObject,
    Tuple,
    Verbatim,
    /// A path of the form `<T as Trait>::Name`.
    QualifiedPath,
    /// A path with more than one segment, such as `std::string::String`.
    LongPath,
    /// Generic arguments on any type but a `Vec` of one type.
    GenericArguments,
}

} // verus!
