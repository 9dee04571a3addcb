//! The Elm types that a Rust field type can become, and how each one is
//! referred to in generated Elm code.
use vstd::prelude::*;

use crate::identifier::Identifier;
use crate::text::same_text;

verus! {

/// The mathematical form of an Elm type: the closed set of types that the
/// generator can express.
pub enum TargetType {
    Int,
    String,
    List(Box<TargetType>),
    Named(Seq<char>),
}

/// The Elm text that names the type `t`.
pub open spec fn type_ref_of(t: TargetType) -> Seq<char>
    decreases t,
{
    match t {
        TargetType::Int => "Int"@,
        TargetType::String => "String"@,
        TargetType::List(inner) => "List ("@ + type_ref_of(*inner) + ")"@,
        TargetType::Named(n) => n,
    }
}

/// The Elm text of the JSON decoder for the type `t`.
pub open spec fn decoder_ref_of(t: TargetType) -> Seq<char>
    decreases t,
{
    match t {
        TargetType::Int => "Json.Decode.int"@,
        TargetType::String => "Json.Decode.string"@,
        TargetType::List(inner) => "Json.Decode.list ("@ + decoder_ref_of(*inner) + ")"@,
        TargetType::Named(n) => "decode"@ + n,
    }
}

/// The Elm text of the JSON encoder for the type `t`.
pub open spec fn encoder_ref_of(t: TargetType) -> Seq<char>
    decreases t,
{
    match t {
        TargetType::Int => "Json.Encode.int"@,
        TargetType::String => "Json.Encode.string"@,
        TargetType::List(inner) => "Json.Encode.list ("@ + encoder_ref_of(*inner) + ")"@,
        TargetType::Named(n) => "encode"@ + n,
    }
}

/// The Rust integer type names, all of which become an Elm `Int`.
pub open spec fn is_int_name(n: Seq<char>) -> bool {
    ||| n == "u8"@
    ||| n == "u16"@
    ||| n == "u32"@
    ||| n == "u64"@
    ||| n == "usize"@
    ||| n == "i8"@
    ||| n == "i16"@
    ||| n == "i32"@
    ||| n == "i64"@
    ||| n == "isize"@
}

/// The Elm type for a Rust type written as the bare name `n`.
pub open spec fn primitive_type(n: Seq<char>) -> TargetType {
    if is_int_name(n) {
        TargetType::Int
    } else if n == "String"@ {
        TargetType::String
    } else {
        TargetType::Named(n)
    }
}

/// An Elm type. Named types refer to another exported declaration by name.
#[derive(Debug)]
pub enum ElmType {
    Int,
    String,
    List(Box<ElmType>),
    NamedType(Identifier),
}

/// The mathematical form of an Elm type.
pub open spec fn target_of(t: ElmType) -> TargetType
    decreases t,
{
    match t {
        ElmType::Int => TargetType::Int,
        ElmType::String => TargetType::String,
        ElmType::List(inner) => TargetType::List(Box::new(target_of(*inner))),
        ElmType::NamedType(n) => TargetType::Named(n@),
    }
}

impl View for ElmType {
    type V = TargetType;

    open spec fn view(&self) -> TargetType {
        target_of(*self)
    }
}

impl Clone for ElmType {
    fn clone(&self) -> (r: ElmType)
        ensures
            r == *self,
    {
        self.duplicate()
    }
}

impl ElmType {
    /// A copy of this type.
    pub fn duplicate(&self) -> (r: ElmType)
        ensures
            r == *self,
        decreases self,
    {
        match self {
            ElmType::Int => ElmType::Int,
            ElmType::String => ElmType::String,
            ElmType::List(t) => ElmType::List(Box::new(t.duplicate())),
            ElmType::NamedType(name) => ElmType::NamedType(Identifier(name.0.clone())),
        }
    }

    /// The Elm text that names this type.
    pub fn type_ref(&self) -> (r: String)
        ensures
            r@ == type_ref_of(self@),
        decreases self,
    {
        match self {
            ElmType::Int => "Int".to_owned(),
            ElmType::String => "String".to_owned(),
            ElmType::List(t) => {
                let mut r = "List (".to_owned();
                r.append(t.type_ref().as_str());
                r.append(")");
                r
            },
            ElmType::NamedType(name) => name.0.clone(),
        }
    }

    /// The Elm text of the JSON decoder for this type.
    pub fn decoder_ref(&self) -> (r: String)
        ensures
            r@ == decoder_ref_of(self@),
        decreases self,
    {
        match self {
            ElmType::Int => "Json.Decode.int".to_owned(),
            ElmType::String => "Json.Decode.string".to_owned(),
            ElmType::List(t) => {
                let mut r = "Json.Decode.list (".to_owned();
                r.append(t.decoder_ref().as_str());
                r.append(")");
                r
            },
            ElmType::NamedType(name) => {
                let mut r = "decode".to_owned();
                r.append(name.0.as_str());
                r
            },
        }
    }

    /// The Elm text of the JSON encoder for this type.
    pub fn encoder_ref(&self) -> (r: String)
        ensures
            r@ == encoder_ref_of(self@),
        decreases self,
    {
        match self {
            ElmType::Int => "Json.Encode.int".to_owned(),
            ElmType::String => "Json.Encode.string".to_owned(),
            ElmType::List(t) => {
                let mut r = "Json.Encode.list (".to_owned();
                r.append(t.encoder_ref().as_str());
                r.append(")");
                r
            },
            ElmType::NamedType(name) => {
                let mut r = "encode".to_owned();
                r.append(name.0.as_str());
                r
            },
        }
    }

    /// The Elm type for a Rust type written as a bare name: the integer
    /// types become `Int`, `String` stays `String`, and any other name refers
    /// to a declaration of that name.
    pub fn from_identifier(identifier: Identifier) -> (r: ElmType)
        ensures
            r@ == primitive_type(identifier@),
    {
        let n = &identifier.0;
        let is_int = same_text(n, "u8") || same_text(n, "u16") || same_text(n, "u32")
            || same_text(n, "u64") || same_text(n, "usize") || same_text(n, "i8")
            || same_text(n, "i16") || same_text(n, "i32") || same_text(n, "i64")
            || same_text(n, "isize");
        if is_int {
            ElmType::Int
        } else if same_text(n, "String") {
            ElmType::String
        } else {
            ElmType::NamedType(identifier)
        }
    }
}

} // verus!
