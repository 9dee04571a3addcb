//! The JSON wire format of the generated code: the JSON that the generated
//! encoders write for an Elm value, and the Elm value that the generated
//! decoders read from a JSON value, within one generated module.
use vstd::prelude::*;

use crate::elm::TargetType;
use crate::elm_file::ModuleDecl;
use crate::export::{find_record, find_union};
use crate::record::RecordDecl;
use crate::union::{UnionDecl, VariantDecl};

verus! {

/// A JSON value.
pub enum Json {
    Int(int),
    Str(Seq<char>),
    Array(Seq<Json>),
    Object(Seq<(Seq<char>, Json)>),
}

/// The JSON that a record's encoder writes, given the JSON of its fields:
/// an object with one entry per field, keyed by the field's name.
pub open spec fn record_json(r: RecordDecl, fields: Seq<Json>) -> Json {
    Json::Object(Seq::new(r.fields.len(), |i: int| (r.fields[i].0, fields[i])))
}

/// The JSON that a custom type's encoder writes for a value of the variant
/// `v`, given the JSON of its fields.
pub open spec fn variant_json(v: VariantDecl, fields: Seq<Json>) -> Json {
    if v.fields.len() == 0 {
        Json::Str(v.name)
    } else if v.fields.len() == 1 {
        Json::Object(seq![(v.name, fields[0])])
    } else {
        Json::Object(seq![(v.name, Json::Array(fields))])
    }
}

/// A value of a generated Elm type: an integer, a string, a list, a record
/// (its field values in declaration order) or a value of a custom type (the
/// position of its variant and the variant's field values).
pub enum ElmValue {
    Int(int),
    Str(Seq<char>),
    List(Seq<ElmValue>),
    Record(Seq<ElmValue>),
    Variant(int, Seq<ElmValue>),
}

/// The record that the name `n` refers to in the module `m`.
pub open spec fn named_record(m: ModuleDecl, n: Seq<char>) -> Option<RecordDecl> {
    find_record(m.records, n, m.records.len())
}

/// The custom type that the name `n` refers to in the module `m`, when no
/// record has that name.
pub open spec fn named_union(m: ModuleDecl, n: Seq<char>) -> Option<UnionDecl> {
    if named_record(m, n) is Some {
        None
    } else {
        find_union(m.unions, n, m.unions.len())
    }
}

/// The name that a named type refers to.
pub open spec fn name_of(t: TargetType) -> Seq<char> {
    match t {
        TargetType::Named(n) => n,
        _ => Seq::empty(),
    }
}

/// The types of a record's fields, in order.
pub open spec fn field_types_of(r: RecordDecl) -> Seq<TargetType> {
    r.fields.map_values(|f: (Seq<char>, TargetType)| f.1)
}

/// The types of the elements of a list of `n` elements of type `t`.
pub open spec fn element_types(t: TargetType, n: nat) -> Seq<TargetType> {
    Seq::new(n, |i: int| t)
}

/// The type of a list's elements.
pub open spec fn element_type(t: TargetType) -> TargetType {
    match t {
        TargetType::List(inner) => *inner,
        _ => t,
    }
}

/// Whether `v` is a value of the type `t` in the module `m`. A named type
/// must name a record or a custom type of the module.
pub open spec fn has_type(m: ModuleDecl, t: TargetType, v: ElmValue) -> bool
    decreases v,
{
    match t {
        TargetType::Int => v is Int,
        TargetType::String => v is Str,
        TargetType::List(inner) => match v {
            ElmValue::List(items) => forall|i: int|
                0 <= i < items.len() ==> has_type(m, *inner, #[trigger] items[i]),
            _ => false,
        },
        TargetType::Named(n) => match named_record(m, n) {
            Some(r) => match v {
                ElmValue::Record(fs) => fs.len() == r.fields.len() && forall|i: int|
                    0 <= i < fs.len() ==> has_type(m, r.fields[i].1, #[trigger] fs[i]),
                _ => false,
            },
            None => match named_union(m, n) {
                Some(u) => match v {
                    ElmValue::Variant(k, fs) => 0 <= k < u.variants.len() && fs.len()
                        == u.variants[k].fields.len() && forall|i: int|
                        0 <= i < fs.len() ==> has_type(
                            m,
                            u.variants[k].fields[i],
                            #[trigger] fs[i],
                        ),
                    _ => false,
                },
                None => false,
            },
        },
    }
}

/// The JSON that the generated encoder of the type `t` writes for `v`.
pub open spec fn encode(m: ModuleDecl, t: TargetType, v: ElmValue) -> Json
    decreases v, 1nat,
{
    match v {
        ElmValue::Int(i) => Json::Int(i),
        ElmValue::Str(s) => Json::Str(s),
        ElmValue::List(items) => Json::Array(
            encode_all(m, element_types(element_type(t), items.len()), items, items.len()),
        ),
        ElmValue::Record(fs) => {
            let r = named_record(m, name_of(t))->Some_0;
            record_json(r, encode_all(m, field_types_of(r), fs, fs.len()))
        },
        ElmValue::Variant(k, fs) => {
            let var = named_union(m, name_of(t))->Some_0.variants[k];
            variant_json(var, encode_all(m, var.fields, fs, fs.len()))
        },
    }
}

/// The JSON of the first `n` values, each encoded with its type.
pub open spec fn encode_all(m: ModuleDecl, ts: Seq<TargetType>, vs: Seq<ElmValue>, n: nat) -> Seq<
    Json,
>
    decreases vs, n,
{
    if n == 0 || n > vs.len() {
        Seq::empty()
    } else {
        encode_all(m, ts, vs, (n - 1) as nat).push(encode(m, ts[n - 1], vs[n - 1]))
    }
}

/// The variant of a custom type that a value of that type holds.
pub open spec fn variant_decl_of(m: ModuleDecl, t: TargetType, v: ElmValue) -> VariantDecl {
    named_union(m, name_of(t))->Some_0.variants[v->Variant_0]
}

/// A value of a variant without fields is encoded as the JSON string of the
/// variant's name; one of a variant with one field as an object whose only
/// key is the variant's name and whose value is the encoded field; one of a
/// variant with `N` fields, `N` at least two, as an object whose only key is
/// the variant's name and whose value is the array of the `N` encoded
/// fields.
pub proof fn lemma_variant_encoding_by_arity(m: ModuleDecl, t: TargetType, v: ElmValue)
    requires
        has_type(m, t, v),
        v is Variant,
    ensures
        ({
            let var = variant_decl_of(m, t, v);
            let fs = v->Variant_1;
            &&& var.fields.len() == 0 ==> encode(m, t, v) == Json::Str(var.name)
            &&& var.fields.len() == 1 ==> encode(m, t, v) == Json::Object(
                seq![(var.name, encode(m, var.fields[0], fs[0]))],
            )
            &&& var.fields.len() >= 2 ==> encode(m, t, v) == Json::Object(
                seq![(var.name, Json::Array(encode_all(m, var.fields, fs, fs.len())))],
            ) && encode_all(m, var.fields, fs, fs.len()).len() == var.fields.len() && forall|
                i: int,
            |
                0 <= i < var.fields.len() ==> #[trigger] encode_all(m, var.fields, fs, fs.len())[i]
                    == encode(m, var.fields[i], fs[i])
        }),
{
    let var = variant_decl_of(m, t, v);
    let fs = v->Variant_1;
    lemma_encode_all(m, var.fields, fs, fs.len());
    if var.fields.len() == 1 {
        assert(encode_all(m, var.fields, fs, fs.len())[0] == encode(m, var.fields[0], fs[0]));
    }
}

/// The position of the first of the first `n` entries whose key is `key`,
/// or -1.
pub open spec fn key_position(entries: Seq<(Seq<char>, Json)>, key: Seq<char>, n: nat) -> int
    decreases n,
{
    if n == 0 {
        -1
    } else {
        let p = key_position(entries, key, (n - 1) as nat);
        if p >= 0 {
            p
        } else if entries[n - 1].0 == key {
            n - 1
        } else {
            -1
        }
    }
}

/// The value that the generated decoder of the type `t` reads from `j`,
/// or nothing when it fails. A custom type's decoder tries its variants in
/// declaration order and takes the first that succeeds.
pub open spec fn decode(m: ModuleDecl, t: TargetType, j: Json) -> Option<ElmValue>
    decreases j, 2nat,
{
    match t {
        TargetType::Int => match j {
            Json::Int(i) => Some(ElmValue::Int(i)),
            _ => None,
        },
        TargetType::String => match j {
            Json::Str(s) => Some(ElmValue::Str(s)),
            _ => None,
        },
        TargetType::List(inner) => match j {
            Json::Array(items) => match decode_all(
                m,
                element_types(*inner, items.len()),
                items,
                items.len(),
            ) {
                Some(vs) => Some(ElmValue::List(vs)),
                None => None,
            },
            _ => None,
        },
        TargetType::Named(n) => match named_record(m, n) {
            Some(r) => match j {
                Json::Object(entries) => match decode_fields(m, r.fields, entries, r.fields.len()) {
                    Some(vs) => Some(ElmValue::Record(vs)),
                    None => None,
                },
                _ => None,
            },
            None => match named_union(m, n) {
                Some(u) => first_success(variant_attempts(m, u, j)),
                None => None,
            },
        },
    }
}

/// What the decoder dedicated to each variant of `u` reads from `j`, in
/// declaration order.
pub open spec fn variant_attempts(m: ModuleDecl, u: UnionDecl, j: Json) -> Seq<Option<ElmValue>>
    decreases j, 1nat,
{
    Seq::new(u.variants.len(), |k: int| decode_variant(m, u.variants[k], k, j))
}

/// The first of the attempts that succeeded.
pub open spec fn first_success(attempts: Seq<Option<ElmValue>>) -> Option<ElmValue>
    decreases attempts.len(),
{
    if attempts.len() == 0 {
        None
    } else {
        match attempts[0] {
            Some(v) => Some(v),
            None => first_success(attempts.drop_first()),
        }
    }
}

proof fn lemma_first_success(attempts: Seq<Option<ElmValue>>, pos: int)
    requires
        0 <= pos < attempts.len(),
        attempts[pos] is Some,
        forall|k: int| 0 <= k < pos ==> attempts[k] is None,
    ensures
        first_success(attempts) == attempts[pos],
    decreases pos,
{
    if pos > 0 {
        let rest = attempts.drop_first();
        assert forall|k: int| 0 <= k < pos - 1 implies rest[k] is None by {
            assert(rest[k] == attempts[k + 1]);
        }
        lemma_first_success(rest, pos - 1);
    }
}

/// The values that the first `n` items decode to, each with its type.
pub open spec fn decode_all(m: ModuleDecl, ts: Seq<TargetType>, items: Seq<Json>, n: nat) -> Option<
    Seq<ElmValue>,
>
    decreases items, n,
{
    if n == 0 {
        Some(Seq::empty())
    } else if n > items.len() {
        None
    } else {
        match decode_all(m, ts, items, (n - 1) as nat) {
            Some(prev) => match decode(m, ts[n - 1], items[n - 1]) {
                Some(v) => Some(prev.push(v)),
                None => None,
            },
            None => None,
        }
    }
}

/// The values of the first `n` fields of a record that a record decoder
/// reads from an object's entries, each under the field's name.
pub open spec fn decode_fields(
    m: ModuleDecl,
    fields: Seq<(Seq<char>, TargetType)>,
    entries: Seq<(Seq<char>, Json)>,
    n: nat,
) -> Option<Seq<ElmValue>>
    decreases entries, n,
{
    if n == 0 {
        Some(Seq::empty())
    } else {
        match decode_fields(m, fields, entries, (n - 1) as nat) {
            Some(prev) => {
                let p = key_position(entries, fields[n - 1].0, entries.len());
                if 0 <= p < entries.len() {
                    match decode(m, fields[n - 1].1, entries[p].1) {
                        Some(v) => Some(prev.push(v)),
                        None => None,
                    }
                } else {
                    None
                }
            },
            None => None,
        }
    }
}

/// The value that the decoder dedicated to the variant `var`, at position
/// `k` of its custom type, reads from `j`.
pub open spec fn decode_variant(m: ModuleDecl, var: VariantDecl, k: int, j: Json) -> Option<
    ElmValue,
>
    decreases j, 0nat,
{
    if var.fields.len() == 0 {
        if j == Json::Str(var.name) {
            Some(ElmValue::Variant(k, Seq::empty()))
        } else {
            None
        }
    } else {
        match j {
            Json::Object(entries) => {
                let p = key_position(entries, var.name, entries.len());
                if 0 <= p < entries.len() {
                    if var.fields.len() == 1 {
                        match decode(m, var.fields[0], entries[p].1) {
                            Some(v) => Some(ElmValue::Variant(k, seq![v])),
                            None => None,
                        }
                    } else {
                        match entries[p].1 {
                            Json::Array(items) => {
                                if items.len() >= var.fields.len() {
                                    match decode_all(m, var.fields, items, var.fields.len()) {
                                        Some(vs) => Some(ElmValue::Variant(k, vs)),
                                        None => None,
                                    }
                                } else {
                                    None
                                }
                            },
                            _ => None,
                        }
                    }
                } else {
                    None
                }
            },
            _ => None,
        }
    }
}

/// Whether the fields of a record have distinct names.
pub open spec fn distinct_field_names(r: RecordDecl) -> bool {
    forall|a: int, b: int|
        0 <= a < r.fields.len() && 0 <= b < r.fields.len() && a != b ==> r.fields[a].0
            != r.fields[b].0
}

/// Whether the variants of a custom type have distinct names.
pub open spec fn distinct_variant_names(u: UnionDecl) -> bool {
    forall|a: int, b: int|
        0 <= a < u.variants.len() && 0 <= b < u.variants.len() && a != b ==> u.variants[a].name
            != u.variants[b].name
}

/// Whether every record of the module has distinct field names and every
/// custom type distinct variant names, as Rust demands of the declarations
/// they come from.
pub open spec fn distinct_names(m: ModuleDecl) -> bool {
    &&& forall|i: int| 0 <= i < m.records.len() ==> distinct_field_names(#[trigger] m.records[i])
    &&& forall|i: int| 0 <= i < m.unions.len() ==> distinct_variant_names(#[trigger] m.unions[i])
}

proof fn lemma_found_record_is_listed(records: Seq<RecordDecl>, name: Seq<char>, n: nat)
    requires
        n <= records.len(),
        find_record(records, name, n) is Some,
    ensures
        exists|i: int| 0 <= i < n && records[i] == find_record(records, name, n)->Some_0,
    decreases n,
{
    if find_record(records, name, (n - 1) as nat) is Some {
        lemma_found_record_is_listed(records, name, (n - 1) as nat);
    } else {
        assert(records[n - 1] == find_record(records, name, n)->Some_0);
    }
}

proof fn lemma_found_union_is_listed(unions: Seq<UnionDecl>, name: Seq<char>, n: nat)
    requires
        n <= unions.len(),
        find_union(unions, name, n) is Some,
    ensures
        exists|i: int| 0 <= i < n && unions[i] == find_union(unions, name, n)->Some_0,
    decreases n,
{
    if find_union(unions, name, (n - 1) as nat) is Some {
        lemma_found_union_is_listed(unions, name, (n - 1) as nat);
    } else {
        assert(unions[n - 1] == find_union(unions, name, n)->Some_0);
    }
}

proof fn lemma_key_position(entries: Seq<(Seq<char>, Json)>, key: Seq<char>, i: int, n: nat)
    requires
        0 <= i < entries.len(),
        n <= entries.len(),
        entries[i].0 == key,
        forall|k: int| 0 <= k < i ==> entries[k].0 != key,
    ensures
        key_position(entries, key, n) == if n <= i {
            -1
        } else {
            i
        },
    decreases n,
{
    if n > 0 {
        lemma_key_position(entries, key, i, (n - 1) as nat);
    }
}

proof fn lemma_encode_all(m: ModuleDecl, ts: Seq<TargetType>, vs: Seq<ElmValue>, n: nat)
    requires
        n <= vs.len(),
    ensures
        encode_all(m, ts, vs, n).len() == n,
        forall|i: int| 0 <= i < n ==> #[trigger] encode_all(m, ts, vs, n)[i] == encode(m, ts[i], vs[i]),
    decreases n,
{
    if n > 0 {
        lemma_encode_all(m, ts, vs, (n - 1) as nat);
    }
}

proof fn lemma_round_trip_all(m: ModuleDecl, ts: Seq<TargetType>, vs: Seq<ElmValue>, n: nat)
    requires
        distinct_names(m),
        n <= vs.len(),
        n <= ts.len(),
        forall|i: int| 0 <= i < vs.len() && i < ts.len() ==> has_type(m, ts[i], #[trigger] vs[i]),
    ensures
        decode_all(m, ts, encode_all(m, ts, vs, vs.len()), n) == Some(vs.take(n as int)),
    decreases vs, n,
{
    let items = encode_all(m, ts, vs, vs.len());
    lemma_encode_all(m, ts, vs, vs.len());
    if n == 0 {
        assert(vs.take(0) =~= Seq::empty());
    } else {
        lemma_round_trip_all(m, ts, vs, (n - 1) as nat);
        lemma_round_trip(m, ts[n - 1], vs[n - 1]);
        assert(items[n - 1] == encode(m, ts[n - 1], vs[n - 1]));
        assert(vs.take(n - 1).push(vs[n - 1]) =~= vs.take(n as int));
    }
}

proof fn lemma_round_trip_fields(m: ModuleDecl, r: RecordDecl, fs: Seq<ElmValue>, n: nat)
    requires
        distinct_names(m),
        distinct_field_names(r),
        fs.len() == r.fields.len(),
        n <= fs.len(),
        forall|i: int| 0 <= i < fs.len() ==> has_type(m, r.fields[i].1, #[trigger] fs[i]),
    ensures
        decode_fields(
            m,
            r.fields,
            record_json(r, encode_all(m, field_types_of(r), fs, fs.len()))->Object_0,
            n,
        ) == Some(fs.take(n as int)),
    decreases fs, n,
{
    let es = encode_all(m, field_types_of(r), fs, fs.len());
    let entries = record_json(r, es)->Object_0;
    lemma_encode_all(m, field_types_of(r), fs, fs.len());
    if n == 0 {
        assert(fs.take(0) =~= Seq::empty());
    } else {
        lemma_round_trip_fields(m, r, fs, (n - 1) as nat);
        let i = n - 1;
        assert(entries[i] == (r.fields[i].0, es[i]));
        assert forall|k: int| 0 <= k < i implies entries[k].0 != r.fields[i].0 by {
            assert(entries[k] == (r.fields[k].0, es[k]));
        }
        lemma_key_position(entries, r.fields[i].0, i, entries.len());
        assert(field_types_of(r)[i] == r.fields[i].1);
        lemma_round_trip(m, r.fields[i].1, fs[i]);
        assert(fs.take(i).push(fs[i]) =~= fs.take(n as int));
    }
}

proof fn lemma_other_variant_fails(
    m: ModuleDecl,
    var: VariantDecl,
    other: VariantDecl,
    k: int,
    fields: Seq<Json>,
)
    requires
        var.name != other.name,
    ensures
        decode_variant(m, other, k, variant_json(var, fields)) is None,
{
    let j = variant_json(var, fields);
    if other.fields.len() != 0 && var.fields.len() != 0 {
        let entries = j->Object_0;
        assert(key_position(entries, other.name, 0) == -1);
        assert(key_position(entries, other.name, 1) == -1);
    }
}

proof fn lemma_round_trip_list(m: ModuleDecl, t: TargetType, v: ElmValue)
    requires
        distinct_names(m),
        t is List,
        has_type(m, t, v),
    ensures
        decode(m, t, encode(m, t, v)) == Some(v),
    decreases v, 0nat,
{
    let inner = *(t->List_0);
    let items = v->List_0;
    let ts = element_types(inner, items.len());
    lemma_encode_all(m, ts, items, items.len());
    lemma_round_trip_all(m, ts, items, items.len());
    assert(items.take(items.len() as int) =~= items);
}

proof fn lemma_round_trip_record(m: ModuleDecl, t: TargetType, v: ElmValue)
    requires
        distinct_names(m),
        t is Named,
        named_record(m, t->Named_0) is Some,
        has_type(m, t, v),
    ensures
        decode(m, t, encode(m, t, v)) == Some(v),
    decreases v, 0nat,
{
    let n = t->Named_0;
    let r = named_record(m, n)->Some_0;
    let fs = v->Record_0;
    lemma_found_record_is_listed(m.records, n, m.records.len());
    lemma_round_trip_fields(m, r, fs, fs.len());
    assert(fs.take(fs.len() as int) =~= fs);
}

proof fn lemma_round_trip_variant(m: ModuleDecl, t: TargetType, v: ElmValue)
    requires
        distinct_names(m),
        t is Named,
        named_record(m, t->Named_0) is None,
        has_type(m, t, v),
    ensures
        decode(m, t, encode(m, t, v)) == Some(v),
    decreases v, 0nat,
{
    let n = t->Named_0;
    let u = named_union(m, n)->Some_0;
    let pos = v->Variant_0;
    let fs = v->Variant_1;
    let var = u.variants[pos];
    lemma_found_union_is_listed(m.unions, n, m.unions.len());
    assert(distinct_variant_names(u));
    let es = encode_all(m, var.fields, fs, fs.len());
    let j = variant_json(var, es);
    assert(encode(m, t, v) == j);
    lemma_encode_all(m, var.fields, fs, fs.len());
    if var.fields.len() == 0 {
        assert(fs =~= Seq::empty());
    } else if var.fields.len() == 1 {
        let entries = j->Object_0;
        assert(key_position(entries, var.name, 0) == -1);
        assert(key_position(entries, var.name, 1) == 0);
        lemma_round_trip(m, var.fields[0], fs[0]);
        assert(seq![fs[0]] =~= fs);
    } else {
        let entries = j->Object_0;
        assert(key_position(entries, var.name, 0) == -1);
        assert(key_position(entries, var.name, 1) == 0);
        lemma_round_trip_all(m, var.fields, fs, var.fields.len());
        assert(fs.take(fs.len() as int) =~= fs);
    }
    assert(decode_variant(m, var, pos, j) == Some(v));
    let attempts = variant_attempts(m, u, j);
    assert forall|k2: int| 0 <= k2 < pos implies #[trigger] attempts[k2] is None by {
        lemma_other_variant_fails(m, var, u.variants[k2], k2, es);
    }
    lemma_first_success(attempts, pos);
    assert(decode(m, t, j) == decode_variant(m, u.variants[pos], pos, j));
}

/// Decoding the JSON that the generated encoder of a type writes for a
/// value of that type gives the value back, in a module whose records have
/// distinct field names and whose custom types have distinct variant names.
pub proof fn lemma_round_trip(m: ModuleDecl, t: TargetType, v: ElmValue)
    requires
        distinct_names(m),
        has_type(m, t, v),
    ensures
        decode(m, t, encode(m, t, v)) == Some(v),
    decreases v, 1nat,
{
    match t {
        TargetType::Int => {},
        TargetType::String => {},
        TargetType::List(_) => lemma_round_trip_list(m, t, v),
        TargetType::Named(n) => {
            if named_record(m, n) is Some {
                lemma_round_trip_record(m, t, v);
            } else {
                lemma_round_trip_variant(m, t, v);
            }
        },
    }
}

} // verus!
