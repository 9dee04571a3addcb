//! Properties of the type mapping and of export resolution, stated over the
//! mathematical forms that the functions' contracts use.
use vstd::prelude::*;

use crate::elm::{is_int_name, primitive_type, TargetType};
use crate::error::Failure;
use crate::export::{
    file_decls, find_record, find_union, resolve_exports, roots_of, FileDecls,
};
use crate::extract::{records_of, unions_of};
use crate::record::RecordDecl;
use crate::source::SourceFile;
use crate::union::UnionDecl;

verus! {

/// Every Rust integer type name maps to `Int`, the name `String` maps to
/// `String`, and any other bare name maps to a reference to the type of
/// that name.
pub proof fn lemma_primitive_mapping(name: Seq<char>)
    ensures
        is_int_name(name) ==> primitive_type(name) == TargetType::Int,
        name == "String"@ ==> primitive_type(name) == TargetType::String,
        !is_int_name(name) && name != "String"@ ==> primitive_type(name) == TargetType::Named(
            name,
        ),
{
    reveal_strlit("String");
    reveal_strlit("u8");
    reveal_strlit("u16");
    reveal_strlit("u32");
    reveal_strlit("u64");
    reveal_strlit("usize");
    reveal_strlit("i8");
    reveal_strlit("i16");
    reveal_strlit("i32");
    reveal_strlit("i64");
    reveal_strlit("isize");
    if name == "String"@ {
        assert(name.len() == 6);
        assert(!is_int_name(name));
    }
}

/// The record that a root names, if it names one.
pub open spec fn record_lookup(records: Seq<RecordDecl>) -> spec_fn(Seq<char>) -> Option<
    RecordDecl,
> {
    |name: Seq<char>| find_record(records, name, records.len())
}

/// The custom type that a root names, if it names no record.
pub open spec fn union_lookup(records: Seq<RecordDecl>, unions: Seq<UnionDecl>) -> spec_fn(
    Seq<char>,
) -> Option<UnionDecl> {
    |name: Seq<char>|
        if find_record(records, name, records.len()) is Some {
            None
        } else {
            find_union(unions, name, unions.len())
        }
}

proof fn lemma_exports_of_prefix(
    roots: Seq<Seq<char>>,
    records: Seq<RecordDecl>,
    unions: Seq<UnionDecl>,
    n: nat,
)
    requires
        n <= roots.len(),
        forall|i: int|
            0 <= i < roots.len() ==> find_record(records, roots[i], records.len()) is Some
                || find_union(unions, roots[i], unions.len()) is Some,
    ensures
        resolve_exports(roots, records, unions, n) == Ok::<
            (Seq<RecordDecl>, Seq<UnionDecl>),
            Failure,
        >(
            (
                roots.take(n as int).filter_map(record_lookup(records)),
                roots.take(n as int).filter_map(union_lookup(records, unions)),
            ),
        ),
    decreases n,
{
    if n == 0 {
        assert(roots.take(0) =~= Seq::empty());
    } else {
        lemma_exports_of_prefix(roots, records, unions, (n - 1) as nat);
        roots.lemma_filter_map_take_succ(record_lookup(records), n - 1);
        roots.lemma_filter_map_take_succ(union_lookup(records, unions), n - 1);
        let prev = resolve_exports(roots, records, unions, (n - 1) as nat)->Ok_0;
        let name = roots[n - 1];
        match find_record(records, name, records.len()) {
            Some(r) => {
                assert(roots.take(n as int).filter_map(record_lookup(records)) =~= prev.0.push(
                    r,
                ));
                assert(roots.take(n as int).filter_map(union_lookup(records, unions))
                    =~= prev.1);
            },
            None => {
                let u = find_union(unions, name, unions.len())->Some_0;
                assert(roots.take(n as int).filter_map(record_lookup(records)) =~= prev.0);
                assert(roots.take(n as int).filter_map(union_lookup(records, unions))
                    =~= prev.1.push(u));
            },
        }
    }
}

/// Export resolution keeps the order of the roots: when every root names a
/// declaration, the exported records are those of the roots that name a
/// record, in the order of the roots, and the exported custom types are
/// those of the other roots, in the order of the roots.
pub proof fn lemma_exports_keep_root_order(
    roots: Seq<Seq<char>>,
    records: Seq<RecordDecl>,
    unions: Seq<UnionDecl>,
)
    requires
        forall|i: int|
            0 <= i < roots.len() ==> find_record(records, roots[i], records.len()) is Some
                || find_union(unions, roots[i], unions.len()) is Some,
    ensures
        resolve_exports(roots, records, unions, roots.len()) == Ok::<
            (Seq<RecordDecl>, Seq<UnionDecl>),
            Failure,
        >(
            (
                roots.filter_map(record_lookup(records)),
                roots.filter_map(union_lookup(records, unions)),
            ),
        ),
{
    lemma_exports_of_prefix(roots, records, unions, roots.len());
    assert(roots.take(roots.len() as int) =~= roots);
}

proof fn lemma_failure_persists(
    roots: Seq<Seq<char>>,
    records: Seq<RecordDecl>,
    unions: Seq<UnionDecl>,
    k: nat,
    n: nat,
)
    requires
        k <= n,
        resolve_exports(roots, records, unions, k) is Err,
    ensures
        resolve_exports(roots, records, unions, n) is Err,
    decreases n - k,
{
    if n > k {
        lemma_failure_persists(roots, records, unions, k, (n - 1) as nat);
    }
}

/// A root that names neither a record nor a custom type makes export
/// resolution fail.
pub proof fn lemma_missing_root_fails(
    roots: Seq<Seq<char>>,
    records: Seq<RecordDecl>,
    unions: Seq<UnionDecl>,
    i: int,
)
    requires
        0 <= i < roots.len(),
        find_record(records, roots[i], records.len()) is None,
        find_union(unions, roots[i], unions.len()) is None,
    ensures
        resolve_exports(roots, records, unions, roots.len()) is Err,
{
    assert(resolve_exports(roots, records, unions, (i + 1) as nat) is Err);
    lemma_failure_persists(roots, records, unions, (i + 1) as nat, roots.len());
}

/// A file that marks for export a type that none of its structs and enums
/// declares yields no declarations to generate from.
pub proof fn lemma_unresolved_export_aborts(f: SourceFile, i: int)
    requires
        roots_of(f.items@, f.items@.len()) matches Ok(roots) && 0 <= i < roots.len() && (
        records_of(f.items@, f.items@.len()) matches Ok(records) ==> find_record(
            records,
            roots[i],
            records.len(),
        ) is None) && (unions_of(f.items@, f.items@.len()) matches Ok(unions) ==> find_union(
            unions,
            roots[i],
            unions.len(),
        ) is None),
    ensures
        file_decls(f) is Err,
{
    let items = f.items@;
    let roots = roots_of(items, items.len())->Ok_0;
    if records_of(items, items.len()) is Ok && unions_of(items, items.len()) is Ok {
        let records = records_of(items, items.len())->Ok_0;
        let unions = unions_of(items, items.len())->Ok_0;
        lemma_missing_root_fails(roots, records, unions, i);
    }
}

} // verus!
