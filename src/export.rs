//! Finds the types marked for export with the `ElmExport` trait and
//! resolves each against the records and custom types that the file
//! declares.
//!
//! Only the marked types are exported. A type that an exported declaration
//! merely refers to is referred to by name in the generated code, and must
//! carry its own mark to be defined there.
use vstd::prelude::*;

use crate::error::{Failure, TypeGenError};
use crate::extract::{
    find_all_enums, find_all_structs, last_name, last_path, records_of, simple_path, unions_of,
};
use crate::identifier::Identifier;
use crate::record::{ElmStruct, RecordDecl};
use crate::source::{PathArguments, SourceFile, SourceItem, SourceType};
use crate::text::same_text;
use crate::union::{ElmEnum, UnionDecl};

verus! {

/// The name of the trait that marks a type for export.
pub open spec fn marker_name() -> Seq<char> {
    "ElmExport"@
}

/// Marker trait for exported types.
pub trait ElmExport {}

/// The name of a type written as one bare segment, such as `Person`.
pub open spec fn marked_type(ty: SourceType) -> Option<Seq<char>> {
    match ty {
        SourceType::Path { qualified, path } => {
            if !qualified && path.segments@.len() == 1 && path.segments@[0].arguments is Bare {
                Some(path.segments@[0].ident@)
            } else {
                None
            }
        },
        _ => None,
    }
}

/// The export root that an item declares: the type of an implementation of
/// the marker trait, when that type is a bare name.
pub open spec fn export_root(item: SourceItem) -> Result<Option<Seq<char>>, Failure> {
    match item {
        SourceItem::Impl(imp) => match imp.trait_path {
            Some(path) => match last_name(path) {
                Err(e) => Err(e),
                Ok(t) => if t == marker_name() {
                    Ok(marked_type(imp.self_ty))
                } else {
                    Ok(None)
                },
            },
            None => Ok(None),
        },
        _ => Ok(None),
    }
}

/// The export roots of the first `n` items, in order of appearance.
pub open spec fn roots_of(items: Seq<SourceItem>, n: nat) -> Result<Seq<Seq<char>>, Failure>
    decreases n,
{
    if n == 0 {
        Ok(Seq::empty())
    } else {
        match roots_of(items, (n - 1) as nat) {
            Err(e) => Err(e),
            Ok(prev) => match export_root(items[n - 1]) {
                Err(e) => Err(e),
                Ok(Some(root)) => Ok(prev.push(root)),
                Ok(None) => Ok(prev),
            },
        }
    }
}

/// The first of the first `n` records that is named `name`.
pub open spec fn find_record(records: Seq<RecordDecl>, name: Seq<char>, n: nat) -> Option<
    RecordDecl,
>
    decreases n,
{
    if n == 0 {
        None
    } else {
        match find_record(records, name, (n - 1) as nat) {
            Some(r) => Some(r),
            None => if records[n - 1].name == name {
                Some(records[n - 1])
            } else {
                None
            },
        }
    }
}

/// The first of the first `n` custom types that is named `name`.
pub open spec fn find_union(unions: Seq<UnionDecl>, name: Seq<char>, n: nat) -> Option<UnionDecl>
    decreases n,
{
    if n == 0 {
        None
    } else {
        match find_union(unions, name, (n - 1) as nat) {
            Some(u) => Some(u),
            None => if unions[n - 1].name == name {
                Some(unions[n - 1])
            } else {
                None
            },
        }
    }
}

/// The records and the custom types exported by the first `n` roots, each
/// in the order of the roots. A root is looked up among the records first,
/// then among the custom types; a root found in neither is a failure.
pub open spec fn resolve_exports(
    roots: Seq<Seq<char>>,
    records: Seq<RecordDecl>,
    unions: Seq<UnionDecl>,
    n: nat,
) -> Result<(Seq<RecordDecl>, Seq<UnionDecl>), Failure>
    decreases n,
{
    if n == 0 {
        Ok((Seq::empty(), Seq::empty()))
    } else {
        match resolve_exports(roots, records, unions, (n - 1) as nat) {
            Err(e) => Err(e),
            Ok(prev) => match find_record(records, roots[n - 1], records.len()) {
                Some(r) => Ok((prev.0.push(r), prev.1)),
                None => match find_union(unions, roots[n - 1], unions.len()) {
                    Some(u) => Ok((prev.0, prev.1.push(u))),
                    None => Err(Failure::ExportNotFound(roots[n - 1])),
                },
            },
        }
    }
}

/// The mathematical form of what a Rust file declares for export.
pub struct FileDecls {
    pub roots: Seq<Seq<char>>,
    pub records: Seq<RecordDecl>,
    pub unions: Seq<UnionDecl>,
    pub export_records: Seq<RecordDecl>,
    pub export_unions: Seq<UnionDecl>,
}

/// What a Rust file declares for export, or the first failure met: in the
/// export marks, then in the structs, then in the enums, then in resolving
/// the marked types.
pub open spec fn file_decls(f: SourceFile) -> Result<FileDecls, Failure> {
    let items = f.items@;
    match roots_of(items, items.len()) {
        Err(e) => Err(e),
        Ok(roots) => match records_of(items, items.len()) {
            Err(e) => Err(e),
            Ok(records) => match unions_of(items, items.len()) {
                Err(e) => Err(e),
                Ok(unions) => match resolve_exports(roots, records, unions, roots.len()) {
                    Err(e) => Err(e),
                    Ok(exports) => Ok(
                        FileDecls {
                            roots,
                            records,
                            unions,
                            export_records: exports.0,
                            export_unions: exports.1,
                        },
                    ),
                },
            },
        },
    }
}

/// The declarations of a Rust file and the ones among them that are
/// exported.
#[derive(Debug)]
pub struct RustFile {
    /// The types marked for export, in order of appearance.
    pub main_export_types: Vec<Identifier>,
    /// All structs of the file.
    pub all_structs: Vec<ElmStruct>,
    /// The structs marked for export, in the order of the marks.
    pub export_structs: Vec<ElmStruct>,
    /// All enums of the file.
    pub all_enums: Vec<ElmEnum>,
    /// The enums marked for export, in the order of the marks.
    pub export_enums: Vec<ElmEnum>,
}

impl View for RustFile {
    type V = FileDecls;

    open spec fn view(&self) -> FileDecls {
        FileDecls {
            roots: self.main_export_types@.map_values(|i: Identifier| i@),
            records: self.all_structs@.map_values(|s: ElmStruct| s@),
            unions: self.all_enums@.map_values(|u: ElmEnum| u@),
            export_records: self.export_structs@.map_values(|s: ElmStruct| s@),
            export_unions: self.export_enums@.map_values(|u: ElmEnum| u@),
        }
    }
}

proof fn lemma_roots_failed(items: Seq<SourceItem>, k: nat, n: nat)
    requires
        k <= n,
        roots_of(items, k) is Err,
    ensures
        roots_of(items, n) == roots_of(items, k),
    decreases n - k,
{
    if n > k {
        lemma_roots_failed(items, k, (n - 1) as nat);
    }
}

proof fn lemma_record_found(records: Seq<RecordDecl>, name: Seq<char>, k: nat, n: nat)
    requires
        k <= n,
        find_record(records, name, k) is Some,
    ensures
        find_record(records, name, n) == find_record(records, name, k),
    decreases n - k,
{
    if n > k {
        lemma_record_found(records, name, k, (n - 1) as nat);
    }
}

proof fn lemma_union_found(unions: Seq<UnionDecl>, name: Seq<char>, k: nat, n: nat)
    requires
        k <= n,
        find_union(unions, name, k) is Some,
    ensures
        find_union(unions, name, n) == find_union(unions, name, k),
    decreases n - k,
{
    if n > k {
        lemma_union_found(unions, name, k, (n - 1) as nat);
    }
}

proof fn lemma_exports_failed(
    roots: Seq<Seq<char>>,
    records: Seq<RecordDecl>,
    unions: Seq<UnionDecl>,
    k: nat,
    n: nat,
)
    requires
        k <= n,
        resolve_exports(roots, records, unions, k) is Err,
    ensures
        resolve_exports(roots, records, unions, n) == resolve_exports(roots, records, unions, k),
    decreases n - k,
{
    if n > k {
        lemma_exports_failed(roots, records, unions, k, (n - 1) as nat);
    }
}

/// The type that an item marks for export, if it marks one.
fn export_root_of(item: &SourceItem) -> (r: Result<Option<Identifier>, TypeGenError>)
    ensures
        r matches Ok(Some(id)) ==> export_root(*item) == Ok::<Option<Seq<char>>, Failure>(
            Some(id@),
        ),
        r matches Ok(None) ==> export_root(*item) == Ok::<Option<Seq<char>>, Failure>(None),
        r matches Err(e) ==> export_root(*item) == Err::<Option<Seq<char>>, Failure>(e@),
{
    if let SourceItem::Impl(item_impl) = item {
        if let Some(trait_path) = &item_impl.trait_path {
            let trait_ident = match last_path(trait_path) {
                Ok(id) => id,
                Err(e) => return Err(e),
            };
            if same_text(&trait_ident.0, "ElmExport") {
                if let SourceType::Path { qualified, path } = &item_impl.self_ty {
                    if !*qualified {
                        if let Some(name) = simple_path(path) {
                            if let PathArguments::Bare = &path.segments[0].arguments {
                                return Ok(Some(name));
                            }
                        }
                    }
                }
            }
        }
    }
    Ok(None)
}

/// The types marked for export in the file, in order of appearance.
pub fn discover_export_types(ast: &SourceFile) -> (r: Result<Vec<Identifier>, TypeGenError>)
    ensures
        r matches Ok(v) ==> roots_of(ast.items@, ast.items@.len()) == Ok::<
            Seq<Seq<char>>,
            Failure,
        >(v@.map_values(|i: Identifier| i@)),
        r matches Err(e) ==> roots_of(ast.items@, ast.items@.len()) == Err::<
            Seq<Seq<char>>,
            Failure,
        >(e@),
{
    let ghost items = ast.items@;
    let mut result: Vec<Identifier> = Vec::new();
    assert(result@.map_values(|i: Identifier| i@) =~= Seq::empty());
    let n = ast.items.len();
    let mut i: usize = 0;
    while i < n
        invariant
            n == items.len(),
            items == ast.items@,
            i <= n,
            roots_of(items, i as nat) == Ok::<Seq<Seq<char>>, Failure>(
                result@.map_values(|i: Identifier| i@),
            ),
        decreases n - i,
    {
        match export_root_of(&ast.items[i]) {
            Ok(Some(id)) => {
                let ghost prev = result@.map_values(|i: Identifier| i@);
                result.push(id);
                assert(result@.map_values(|i: Identifier| i@) =~= prev.push(id@));
            },
            Ok(None) => {},
            Err(e) => {
                proof {
                    lemma_roots_failed(items, (i + 1) as nat, n as nat);
                }
                return Err(e);
            },
        }
        i = i + 1;
    }
    Ok(result)
}

/// The position of the first record named `name`.
fn lookup_struct(structs: &Vec<ElmStruct>, name: &Identifier) -> (r: Option<usize>)
    ensures
        r matches Some(k) ==> k < structs@.len() && find_record(
            structs@.map_values(|s: ElmStruct| s@),
            name@,
            structs@.len(),
        ) == Some(structs@[k as int]@),
        r is None ==> find_record(
            structs@.map_values(|s: ElmStruct| s@),
            name@,
            structs@.len(),
        ) is None,
{
    let ghost records = structs@.map_values(|s: ElmStruct| s@);
    let n = structs.len();
    let mut i: usize = 0;
    while i < n
        invariant
            n == structs@.len(),
            records == structs@.map_values(|s: ElmStruct| s@),
            i <= n,
            find_record(records, name@, i as nat) is None,
        decreases n - i,
    {
        if structs[i].name.0 == name.0 {
            proof {
                lemma_record_found(records, name@, (i + 1) as nat, n as nat);
            }
            return Some(i);
        }
        i = i + 1;
    }
    None
}

/// The position of the first custom type named `name`.
fn lookup_enum(enums: &Vec<ElmEnum>, name: &Identifier) -> (r: Option<usize>)
    ensures
        r matches Some(k) ==> k < enums@.len() && find_union(
            enums@.map_values(|u: ElmEnum| u@),
            name@,
            enums@.len(),
        ) == Some(enums@[k as int]@),
        r is None ==> find_union(enums@.map_values(|u: ElmEnum| u@), name@, enums@.len()) is None,
{
    let ghost unions = enums@.map_values(|u: ElmEnum| u@);
    let n = enums.len();
    let mut i: usize = 0;
    while i < n
        invariant
            n == enums@.len(),
            unions == enums@.map_values(|u: ElmEnum| u@),
            i <= n,
            find_union(unions, name@, i as nat) is None,
        decreases n - i,
    {
        if enums[i].name.0 == name.0 {
            proof {
                lemma_union_found(unions, name@, (i + 1) as nat, n as nat);
            }
            return Some(i);
        }
        i = i + 1;
    }
    None
}

impl RustFile {
    /// Reads the declarations of a parsed Rust file and resolves the types
    /// marked for export.
    pub fn parse(ast: &SourceFile) -> (r: Result<RustFile, TypeGenError>)
        ensures
            r matches Ok(f) ==> file_decls(*ast) == Ok::<FileDecls, Failure>(f@),
            r matches Err(e) ==> file_decls(*ast) == Err::<FileDecls, Failure>(e@),
    {
        let main_export_types = match discover_export_types(ast) {
            Ok(v) => v,
            Err(e) => return Err(e),
        };
        let all_structs = match find_all_structs(ast) {
            Ok(v) => v,
            Err(e) => return Err(e),
        };
        let all_enums = match find_all_enums(ast) {
            Ok(v) => v,
            Err(e) => return Err(e),
        };
        let ghost roots = main_export_types@.map_values(|i: Identifier| i@);
        let ghost records = all_structs@.map_values(|s: ElmStruct| s@);
        let ghost unions = all_enums@.map_values(|u: ElmEnum| u@);
        let mut export_structs: Vec<ElmStruct> = Vec::new();
        let mut export_enums: Vec<ElmEnum> = Vec::new();
        assert(export_structs@.map_values(|s: ElmStruct| s@) =~= Seq::empty());
        assert(export_enums@.map_values(|u: ElmEnum| u@) =~= Seq::empty());
        let n = main_export_types.len();
        let mut i: usize = 0;
        while i < n
            invariant
                n == main_export_types@.len(),
                roots == main_export_types@.map_values(|i: Identifier| i@),
                records == all_structs@.map_values(|s: ElmStruct| s@),
                unions == all_enums@.map_values(|u: ElmEnum| u@),
                roots_of(ast.items@, ast.items@.len()) == Ok::<Seq<Seq<char>>, Failure>(roots),
                records_of(ast.items@, ast.items@.len()) == Ok::<Seq<RecordDecl>, Failure>(
                    records,
                ),
                unions_of(ast.items@, ast.items@.len()) == Ok::<Seq<UnionDecl>, Failure>(unions),
                i <= n,
                resolve_exports(roots, records, unions, i as nat) == Ok::<
                    (Seq<RecordDecl>, Seq<UnionDecl>),
                    Failure,
                >(
                    (
                        export_structs@.map_values(|s: ElmStruct| s@),
                        export_enums@.map_values(|u: ElmEnum| u@),
                    ),
                ),
            decreases n - i,
        {
            let identifier = &main_export_types[i];
            match lookup_struct(&all_structs, identifier) {
                Some(k) => {
                    let ghost prev = export_structs@.map_values(|s: ElmStruct| s@);
                    export_structs.push(all_structs[k].duplicate());
                    assert(export_structs@.map_values(|s: ElmStruct| s@) =~= prev.push(
                        records[k as int],
                    ));
                },
                None => match lookup_enum(&all_enums, identifier) {
                    Some(k) => {
                        let ghost prev = export_enums@.map_values(|u: ElmEnum| u@);
                        export_enums.push(all_enums[k].duplicate());
                        assert(export_enums@.map_values(|u: ElmEnum| u@) =~= prev.push(
                            unions[k as int],
                        ));
                    },
                    None => {
                        let e = TypeGenError::ExportNotFound(Identifier(identifier.0.clone()));
                        assert(roots[i as int] == identifier@);
                        assert(resolve_exports(roots, records, unions, (i + 1) as nat) == Err::<
                            (Seq<RecordDecl>, Seq<UnionDecl>),
                            Failure,
                        >(e@));
                        proof {
                            lemma_exports_failed(roots, records, unions, (i + 1) as nat, n as nat);
                        }
                        return Err(e);
                    },
                },
            }
            i = i + 1;
        }
        let r = RustFile { main_export_types, all_structs, export_structs, all_enums, export_enums };
        Ok(r)
    }
}

} // verus!
