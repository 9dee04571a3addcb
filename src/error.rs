//! The ways in which generating Elm code from Rust declarations can fail.
use vstd::prelude::*;

use crate::identifier::Identifier;
use crate::source::TypeForm;

verus! {

/// The mathematical form of a failure.
pub enum Failure {
    UnnamedStructsNotSupported,
    UnsupportedType(TypeForm),
    ExportNotFound(Seq<char>),
    EmptyTraitPath,
}

/// Why no Elm module could be generated. Every failure ends the whole run.
#[derive(Debug)]
pub enum TypeGenError {
    /// A struct with positional fields, or without fields.
    UnnamedStructsNotSupported,
    /// A field whose type has no Elm counterpart.
    UnsupportedType(TypeForm),
    /// A type marked for export that no struct or enum of the file declares.
    ExportNotFound(Identifier),
    /// An implemented trait whose path has no segment.
    EmptyTraitPath,
}

impl View for TypeGenError {
    type V = Failure;

    open spec fn view(&self) -> Failure {
        match self {
            TypeGenError::UnnamedStructsNotSupported => Failure::UnnamedStructsNotSupported,
            TypeGenError::UnsupportedType(form) => Failure::UnsupportedType(*form),
            TypeGenError::ExportNotFound(name) => Failure::ExportNotFound(name@),
            TypeGenError::EmptyTraitPath => Failure::EmptyTraitPath,
        }
    }
}

} // verus!
