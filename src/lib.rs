//! Generates Elm type definitions together with JSON encoders and decoders
//! from Rust structs and enums that are marked for export.
//!
//! The Rust side arrives as a [`SourceFile`], the top-level items of one
//! parsed file. [`RustFile::parse`] finds the records, the custom types and
//! the types marked with [`ElmExport`]; an [`ElmFile`] built from the
//! exported ones renders the Elm module. The module `wire` states the JSON
//! that the generated encoders write and the generated decoders read.

pub mod elm;
pub mod elm_file;
pub mod error;
pub mod export;
pub mod extract;
pub mod identifier;
pub mod laws;
pub mod record;
pub mod source;
pub mod text;
pub mod union;
pub mod wire;

pub use elm::ElmType;
pub use elm_file::ElmFile;
pub use error::TypeGenError;
pub use export::{ElmExport, RustFile};
pub use identifier::{Identifier, LetterCase};
pub use record::ElmStruct;
pub use source::{
    GenericArgument, ItemEnum, ItemImpl, ItemStruct, NamedField, PathArguments, PathSegment,
    SourceFields, SourceFile, SourceItem, SourcePath, SourceType, SourceVariant, TypeForm,
};
pub use union::{ElmEnum, ElmEnumVariant};
