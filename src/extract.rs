//! Reads the declarations of a parsed Rust file: the Elm type of each field,
//! and the records and custom types that the file declares.
use vstd::prelude::*;

use crate::elm::{primitive_type, ElmType, TargetType};
use crate::error::{Failure, TypeGenError};
use crate::identifier::Identifier;
use crate::record::{ElmStruct, RecordDecl};
use crate::source::{
    GenericArgument, ItemStruct, NamedField, PathArguments, SourceFields, SourceFile, SourceItem,
    SourcePath, SourceType, SourceVariant, ItemEnum, TypeForm,
};
use crate::text::same_text;
use crate::union::{ElmEnum, ElmEnumVariant, UnionDecl, VariantDecl};

verus! {

/// The Elm type of a Rust field type, or the form that has no Elm
/// counterpart. A bare name goes through the primitive mapping, and a
/// `Vec` of one type becomes a list of that type's Elm type.
pub open spec fn resolve_type(ty: SourceType) -> Result<TargetType, TypeForm>
    decreases ty,
{
    match ty {
        SourceType::Other(form) => Err(form),
        SourceType::Path { qualified, path } => {
            if qualified {
                Err(TypeForm::QualifiedPath)
            } else if path.segments@.len() != 1 {
                Err(TypeForm::LongPath)
            } else {
                let seg = path.segments@[0];
                match seg.arguments {
                    PathArguments::Bare => Ok(primitive_type(seg.ident@)),
                    PathArguments::AngleBracketed(args) => {
                        if seg.ident@ == "Vec"@ && args@.len() == 1 && args@[0] is Type {
                            match resolve_type(args@[0]->Type_0) {
                                Ok(t) => Ok(TargetType::List(Box::new(t))),
                                Err(e) => Err(e),
                            }
                        } else {
                            Err(TypeForm::GenericArguments)
                        }
                    },
                    PathArguments::Parenthesized => Err(TypeForm::GenericArguments),
                }
            }
        },
    }
}

/// The single segment of a path of one segment.
pub open spec fn simple_name(path: SourcePath) -> Option<Seq<char>> {
    if path.segments@.len() == 1 {
        Some(path.segments@[0].ident@)
    } else {
        None
    }
}

/// The name of a path's last segment.
pub open spec fn last_name(path: SourcePath) -> Result<Seq<char>, Failure> {
    if path.segments@.len() == 0 {
        Err(Failure::EmptyTraitPath)
    } else {
        Ok(path.segments@.last().ident@)
    }
}

/// The name of a path that consists of one segment.
pub fn simple_path(path: &SourcePath) -> (r: Option<Identifier>)
    ensures
        r matches Some(id) ==> simple_name(*path) == Some(id@),
        r is None ==> simple_name(*path) is None,
{
    if path.segments.len() != 1 {
        return None;
    }
    Some(Identifier(path.segments[0].ident.clone()))
}

/// The name of the last segment of a path.
pub fn last_path(path: &SourcePath) -> (r: Result<Identifier, TypeGenError>)
    ensures
        r matches Ok(id) ==> last_name(*path) == Ok::<Seq<char>, Failure>(id@),
        r matches Err(e) ==> last_name(*path) == Err::<Seq<char>, Failure>(e@),
{
    let n = path.segments.len();
    if n == 0 {
        return Err(TypeGenError::EmptyTraitPath);
    }
    Ok(Identifier(path.segments[n - 1].ident.clone()))
}

/// The Elm type of a Rust field type.
pub fn elm_type_from_type(ty: &SourceType) -> (r: Result<ElmType, TypeGenError>)
    ensures
        r matches Ok(t) ==> resolve_type(*ty) == Ok::<TargetType, TypeForm>(t@),
        r matches Err(e) ==> resolve_type(*ty) matches Err(form) && e@ == Failure::UnsupportedType(
            form,
        ),
    decreases ty,
{
    match ty {
        SourceType::Other(form) => Err(TypeGenError::UnsupportedType(*form)),
        SourceType::Path { qualified, path } => {
            if *qualified {
                return Err(TypeGenError::UnsupportedType(TypeForm::QualifiedPath));
            }
            if path.segments.len() != 1 {
                return Err(TypeGenError::UnsupportedType(TypeForm::LongPath));
            }
            let seg = &path.segments[0];
            match &seg.arguments {
                PathArguments::Bare => Ok(ElmType::from_identifier(Identifier(seg.ident.clone()))),
                PathArguments::AngleBracketed(args) => {
                    if same_text(&seg.ident, "Vec") && args.len() == 1 {
                        if let GenericArgument::Type(inner) = &args[0] {
                            return match elm_type_from_type(inner) {
                                Ok(t) => Ok(ElmType::List(Box::new(t))),
                                Err(e) => Err(e),
                            };
                        }
                    }
                    Err(TypeGenError::UnsupportedType(TypeForm::GenericArguments))
                },
                PathArguments::Parenthesized => Err(
                    TypeGenError::UnsupportedType(TypeForm::GenericArguments),
                ),
            }
        },
    }
}

/// The Elm fields of the first `n` named fields, or the failure at the
/// first field whose type has no Elm counterpart.
pub open spec fn resolve_named_fields(fields: Seq<NamedField>, n: nat) -> Result<
    Seq<(Seq<char>, TargetType)>,
    Failure,
>
    decreases n,
{
    if n == 0 {
        Ok(Seq::empty())
    } else {
        match resolve_named_fields(fields, (n - 1) as nat) {
            Err(e) => Err(e),
            Ok(prev) => match resolve_type(fields[n - 1].ty) {
                Ok(t) => Ok(prev.push((fields[n - 1].ident@, t))),
                Err(form) => Err(Failure::UnsupportedType(form)),
            },
        }
    }
}

/// The Elm record for a struct declaration. Only structs with at least one
/// named field are records.
pub open spec fn record_of(s: ItemStruct) -> Result<RecordDecl, Failure> {
    match s.fields {
        SourceFields::Named(fields) => {
            if fields@.len() == 0 {
                Err(Failure::UnnamedStructsNotSupported)
            } else {
                match resolve_named_fields(fields@, fields@.len()) {
                    Ok(fs) => Ok(RecordDecl { name: s.ident@, fields: fs }),
                    Err(e) => Err(e),
                }
            }
        },
        _ => Err(Failure::UnnamedStructsNotSupported),
    }
}

/// The types of the fields of an enum variant, in order.
pub open spec fn field_types(fields: SourceFields) -> Seq<SourceType> {
    match fields {
        SourceFields::Named(fs) => fs@.map_values(|f: NamedField| f.ty),
        SourceFields::Unnamed(ts) => ts@,
        SourceFields::Unit => Seq::empty(),
    }
}

/// The Elm types of the first `n` types, or the failure at the first type
/// that has no Elm counterpart.
pub open spec fn resolve_types(types: Seq<SourceType>, n: nat) -> Result<Seq<TargetType>, Failure>
    decreases n,
{
    if n == 0 {
        Ok(Seq::empty())
    } else {
        match resolve_types(types, (n - 1) as nat) {
            Err(e) => Err(e),
            Ok(prev) => match resolve_type(types[n - 1]) {
                Ok(t) => Ok(prev.push(t)),
                Err(form) => Err(Failure::UnsupportedType(form)),
            },
        }
    }
}

/// The Elm variant for an enum variant.
pub open spec fn variant_of(v: SourceVariant) -> Result<VariantDecl, Failure> {
    let types = field_types(v.fields);
    match resolve_types(types, types.len()) {
        Ok(ts) => Ok(VariantDecl { name: v.ident@, fields: ts }),
        Err(e) => Err(e),
    }
}

/// The Elm variants of the first `n` variants.
pub open spec fn variants_of(variants: Seq<SourceVariant>, n: nat) -> Result<
    Seq<VariantDecl>,
    Failure,
>
    decreases n,
{
    if n == 0 {
        Ok(Seq::empty())
    } else {
        match variants_of(variants, (n - 1) as nat) {
            Err(e) => Err(e),
            Ok(prev) => match variant_of(variants[n - 1]) {
                Ok(v) => Ok(prev.push(v)),
                Err(e) => Err(e),
            },
        }
    }
}

/// The Elm custom type for an enum declaration.
pub open spec fn union_of(e: ItemEnum) -> Result<UnionDecl, Failure> {
    match variants_of(e.variants@, e.variants@.len()) {
        Ok(vs) => Ok(UnionDecl { name: e.ident@, variants: vs }),
        Err(f) => Err(f),
    }
}

/// The records declared by the first `n` items, in order, or the failure at
/// the first struct that cannot be a record.
pub open spec fn records_of(items: Seq<SourceItem>, n: nat) -> Result<Seq<RecordDecl>, Failure>
    decreases n,
{
    if n == 0 {
        Ok(Seq::empty())
    } else {
        match records_of(items, (n - 1) as nat) {
            Err(e) => Err(e),
            Ok(prev) => match items[n - 1] {
                SourceItem::Struct(s) => match record_of(s) {
                    Ok(r) => Ok(prev.push(r)),
                    Err(e) => Err(e),
                },
                _ => Ok(prev),
            },
        }
    }
}

/// The custom types declared by the first `n` items, in order, or the
/// failure at the first enum that cannot be a custom type.
pub open spec fn unions_of(items: Seq<SourceItem>, n: nat) -> Result<Seq<UnionDecl>, Failure>
    decreases n,
{
    if n == 0 {
        Ok(Seq::empty())
    } else {
        match unions_of(items, (n - 1) as nat) {
            Err(e) => Err(e),
            Ok(prev) => match items[n - 1] {
                SourceItem::Enum(e) => match union_of(e) {
                    Ok(u) => Ok(prev.push(u)),
                    Err(f) => Err(f),
                },
                _ => Ok(prev),
            },
        }
    }
}

proof fn lemma_named_fields_failed(fields: Seq<NamedField>, k: nat, n: nat)
    requires
        k <= n,
        resolve_named_fields(fields, k) is Err,
    ensures
        resolve_named_fields(fields, n) == resolve_named_fields(fields, k),
    decreases n - k,
{
    if n > k {
        lemma_named_fields_failed(fields, k, (n - 1) as nat);
    }
}

proof fn lemma_types_failed(types: Seq<SourceType>, k: nat, n: nat)
    requires
        k <= n,
        resolve_types(types, k) is Err,
    ensures
        resolve_types(types, n) == resolve_types(types, k),
    decreases n - k,
{
    if n > k {
        lemma_types_failed(types, k, (n - 1) as nat);
    }
}

proof fn lemma_variants_failed(variants: Seq<SourceVariant>, k: nat, n: nat)
    requires
        k <= n,
        variants_of(variants, k) is Err,
    ensures
        variants_of(variants, n) == variants_of(variants, k),
    decreases n - k,
{
    if n > k {
        lemma_variants_failed(variants, k, (n - 1) as nat);
    }
}

proof fn lemma_records_failed(items: Seq<SourceItem>, k: nat, n: nat)
    requires
        k <= n,
        records_of(items, k) is Err,
    ensures
        records_of(items, n) == records_of(items, k),
    decreases n - k,
{
    if n > k {
        lemma_records_failed(items, k, (n - 1) as nat);
    }
}

proof fn lemma_unions_failed(items: Seq<SourceItem>, k: nat, n: nat)
    requires
        k <= n,
        unions_of(items, k) is Err,
    ensures
        unions_of(items, n) == unions_of(items, k),
    decreases n - k,
{
    if n > k {
        lemma_unions_failed(items, k, (n - 1) as nat);
    }
}

/// The Elm record named `identifier` with the given named fields.
pub fn extract_elm_struct(identifier: Identifier, fields: &Vec<NamedField>) -> (r: Result<
    ElmStruct,
    TypeGenError,
>)
    ensures
        r matches Ok(s) ==> s@.name == identifier@ && resolve_named_fields(
            fields@,
            fields@.len(),
        ) == Ok::<Seq<(Seq<char>, TargetType)>, Failure>(s@.fields),
        r matches Err(e) ==> resolve_named_fields(fields@, fields@.len()) == Err::<
            Seq<(Seq<char>, TargetType)>,
            Failure,
        >(e@),
{
    let mut result = ElmStruct { name: identifier, fields: Vec::new() };
    assert(result@.fields =~= Seq::empty());
    let n = fields.len();
    let mut i: usize = 0;
    while i < n
        invariant
            n == fields@.len(),
            i <= n,
            result@.name == identifier@,
            resolve_named_fields(fields@, i as nat) == Ok::<
                Seq<(Seq<char>, TargetType)>,
                Failure,
            >(result@.fields),
        decreases n - i,
    {
        let field = &fields[i];
        match elm_type_from_type(&field.ty) {
            Ok(ty) => {
                let ghost prev = result@.fields;
                result.fields.push((Identifier(field.ident.clone()), ty));
                assert(result@.fields =~= prev.push((field.ident@, ty@)));
            },
            Err(e) => {
                proof {
                    lemma_named_fields_failed(fields@, (i + 1) as nat, n as nat);
                }
                return Err(e);
            },
        }
        i = i + 1;
    }
    Ok(result)
}

/// The number of fields of a struct or enum variant.
fn field_count(fields: &SourceFields) -> (n: usize)
    ensures
        n == field_types(*fields).len(),
{
    match fields {
        SourceFields::Named(fs) => fs.len(),
        SourceFields::Unnamed(ts) => ts.len(),
        SourceFields::Unit => 0,
    }
}

/// The type of the `i`-th field of a struct or enum variant.
fn field_type_at(fields: &SourceFields, i: usize) -> (t: &SourceType)
    requires
        i < field_types(*fields).len(),
    ensures
        *t == field_types(*fields)[i as int],
{
    match fields {
        SourceFields::Named(fs) => &fs[i].ty,
        SourceFields::Unnamed(ts) => &ts[i],
        SourceFields::Unit => unreached(),
    }
}

/// The Elm variant for an enum variant.
fn extract_variant(variant: &SourceVariant) -> (r: Result<ElmEnumVariant, TypeGenError>)
    ensures
        r matches Ok(v) ==> variant_of(*variant) == Ok::<VariantDecl, Failure>(v@),
        r matches Err(e) ==> variant_of(*variant) == Err::<VariantDecl, Failure>(e@),
{
    let ghost types = field_types(variant.fields);
    let mut fields: Vec<ElmType> = Vec::new();
    assert(fields@.map_values(|t: ElmType| t@) =~= Seq::empty());
    let n = field_count(&variant.fields);
    let mut i: usize = 0;
    while i < n
        invariant
            n == types.len(),
            types == field_types(variant.fields),
            i <= n,
            resolve_types(types, i as nat) == Ok::<Seq<TargetType>, Failure>(
                fields@.map_values(|t: ElmType| t@),
            ),
        decreases n - i,
    {
        match elm_type_from_type(field_type_at(&variant.fields, i)) {
            Ok(ty) => {
                let ghost prev = fields@.map_values(|t: ElmType| t@);
                fields.push(ty);
                assert(fields@.map_values(|t: ElmType| t@) =~= prev.push(ty@));
            },
            Err(e) => {
                proof {
                    lemma_types_failed(types, (i + 1) as nat, n as nat);
                }
                return Err(e);
            },
        }
        i = i + 1;
    }
    Ok(ElmEnumVariant { name: Identifier(variant.ident.clone()), fields })
}

/// The Elm custom type for an enum declaration.
fn extract_elm_enum(item: &ItemEnum) -> (r: Result<ElmEnum, TypeGenError>)
    ensures
        r matches Ok(u) ==> union_of(*item) == Ok::<UnionDecl, Failure>(u@),
        r matches Err(e) ==> union_of(*item) == Err::<UnionDecl, Failure>(e@),
{
    let mut variants: Vec<ElmEnumVariant> = Vec::new();
    assert(variants@.map_values(|v: ElmEnumVariant| v@) =~= Seq::empty());
    let n = item.variants.len();
    let mut i: usize = 0;
    while i < n
        invariant
            n == item.variants@.len(),
            i <= n,
            variants_of(item.variants@, i as nat) == Ok::<Seq<VariantDecl>, Failure>(
                variants@.map_values(|v: ElmEnumVariant| v@),
            ),
        decreases n - i,
    {
        match extract_variant(&item.variants[i]) {
            Ok(v) => {
                let ghost prev = variants@.map_values(|v: ElmEnumVariant| v@);
                variants.push(v);
                assert(variants@.map_values(|v: ElmEnumVariant| v@) =~= prev.push(v@));
            },
            Err(e) => {
                proof {
                    lemma_variants_failed(item.variants@, (i + 1) as nat, n as nat);
                }
                return Err(e);
            },
        }
        i = i + 1;
    }
    Ok(ElmEnum { name: Identifier(item.ident.clone()), variants })
}

/// The records of all structs declared in the file, in order.
pub fn find_all_structs(ast: &SourceFile) -> (r: Result<Vec<ElmStruct>, TypeGenError>)
    ensures
        r matches Ok(v) ==> records_of(ast.items@, ast.items@.len()) == Ok::<
            Seq<RecordDecl>,
            Failure,
        >(v@.map_values(|s: ElmStruct| s@)),
        r matches Err(e) ==> records_of(ast.items@, ast.items@.len()) == Err::<
            Seq<RecordDecl>,
            Failure,
        >(e@),
{
    let ghost items = ast.items@;
    let mut result: Vec<ElmStruct> = Vec::new();
    assert(result@.map_values(|s: ElmStruct| s@) =~= Seq::empty());
    let n = ast.items.len();
    let mut i: usize = 0;
    while i < n
        invariant
            n == items.len(),
            items == ast.items@,
            i <= n,
            records_of(items, i as nat) == Ok::<Seq<RecordDecl>, Failure>(
                result@.map_values(|s: ElmStruct| s@),
            ),
        decreases n - i,
    {
        if let SourceItem::Struct(item) = &ast.items[i] {
            let extracted = match &item.fields {
                SourceFields::Named(fields) => {
                    if fields.len() == 0 {
                        Err(TypeGenError::UnnamedStructsNotSupported)
                    } else {
                        extract_elm_struct(Identifier(item.ident.clone()), fields)
                    }
                },
                _ => Err(TypeGenError::UnnamedStructsNotSupported),
            };
            match extracted {
                Ok(s) => {
                    let ghost prev = result@.map_values(|s: ElmStruct| s@);
                    assert(record_of(*item) == Ok::<RecordDecl, Failure>(s@));
                    result.push(s);
                    assert(result@.map_values(|s: ElmStruct| s@) =~= prev.push(s@));
                },
                Err(e) => {
                    assert(record_of(*item) == Err::<RecordDecl, Failure>(e@));
                    proof {
                        lemma_records_failed(items, (i + 1) as nat, n as nat);
                    }
                    return Err(e);
                },
            }
        }
        i = i + 1;
    }
    Ok(result)
}

/// The custom types of all enums declared in the file, in order.
pub fn find_all_enums(ast: &SourceFile) -> (r: Result<Vec<ElmEnum>, TypeGenError>)
    ensures
        r matches Ok(v) ==> unions_of(ast.items@, ast.items@.len()) == Ok::<
            Seq<UnionDecl>,
            Failure,
        >(v@.map_values(|u: ElmEnum| u@)),
        r matches Err(e) ==> unions_of(ast.items@, ast.items@.len()) == Err::<
            Seq<UnionDecl>,
            Failure,
        >(e@),
{
    let ghost items = ast.items@;
    let mut result: Vec<ElmEnum> = Vec::new();
    assert(result@.map_values(|u: ElmEnum| u@) =~= Seq::empty());
    let n = ast.items.len();
    let mut i: usize = 0;
    while i < n
        invariant
            n == items.len(),
            items == ast.items@,
            i <= n,
            unions_of(items, i as nat) == Ok::<Seq<UnionDecl>, Failure>(
                result@.map_values(|u: ElmEnum| u@),
            ),
        decreases n - i,
    {
        if let SourceItem::Enum(item) = &ast.items[i] {
            match extract_elm_enum(item) {
                Ok(u) => {
                    let ghost prev = result@.map_values(|u: ElmEnum| u@);
                    result.push(u);
                    assert(result@.map_values(|u: ElmEnum| u@) =~= prev.push(u@));
                },
                Err(e) => {
                    proof {
                        lemma_unions_failed(items, (i + 1) as nat, n as nat);
                    }
                    return Err(e);
                },
            }
        }
        i = i + 1;
    }
    Ok(result)
}

} // verus!
