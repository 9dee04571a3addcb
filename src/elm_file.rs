//! A whole generated Elm module: a fixed header followed by the definitions,
//! encoders and decoders of every exported record and custom type.
use vstd::prelude::*;

use crate::record::{record_decoder_def, record_encoder_def, record_type_def, ElmStruct, RecordDecl};
use crate::text::lower_of;
use crate::union::{union_decoder_def, union_encoder_def, union_type_def, ElmEnum, UnionDecl};

verus! {

/// The mathematical form of an Elm module: its name, then the records and
/// the custom types it defines, in order.
pub struct ModuleDecl {
    pub name: Seq<char>,
    pub records: Seq<RecordDecl>,
    pub unions: Seq<UnionDecl>,
}

/// An Elm module to generate.
#[derive(Debug)]
pub struct ElmFile {
    pub name: String,
    pub structs: Vec<ElmStruct>,
    pub enums: Vec<ElmEnum>,
}

impl View for ElmFile {
    type V = ModuleDecl;

    open spec fn view(&self) -> ModuleDecl {
        ModuleDecl {
            name: self.name@,
            records: self.structs@.map_values(|s: ElmStruct| s@),
            unions: self.enums@.map_values(|e: ElmEnum| e@),
        }
    }
}

/// The module line and the three imports that open every generated module.
pub open spec fn module_header(name: Seq<char>) -> Seq<char> {
    "module "@ + name + " exposing (..)\n\n\n"@ + "import Json.Decode\n"@ + "import Json.Encode\n"@
        + "import Json.Decode.Pipeline\n"@
}

/// The type alias, encoder and decoder of a record, each preceded by a
/// blank line.
#[verifier::opaque]
pub open spec fn record_block(r: RecordDecl) -> Seq<char> {
    "\n"@ + record_type_def(r) + "\n"@ + record_encoder_def(r, lower_of(r.name)) + "\n"@
        + record_decoder_def(r)
}

/// The blocks of the first `n` records.
pub open spec fn record_blocks(records: Seq<RecordDecl>, n: nat) -> Seq<char>
    decreases n,
{
    if n == 0 {
        Seq::empty()
    } else {
        record_blocks(records, (n - 1) as nat) + record_block(records[n - 1])
    }
}

/// The type definition, encoder and decoders of a custom type, each
/// preceded by a blank line.
#[verifier::opaque]
pub open spec fn union_block(u: UnionDecl) -> Seq<char> {
    "\n"@ + union_type_def(u) + "\n"@ + union_encoder_def(u, lower_of(u.name)) + "\n"@
        + union_decoder_def(u)
}

/// The blocks of the first `n` custom types.
pub open spec fn union_blocks(unions: Seq<UnionDecl>, n: nat) -> Seq<char>
    decreases n,
{
    if n == 0 {
        Seq::empty()
    } else {
        union_blocks(unions, (n - 1) as nat) + union_block(unions[n - 1])
    }
}

/// The text of a generated Elm module: the header, then every record's
/// block, then every custom type's block.
pub open spec fn module_text(m: ModuleDecl) -> Seq<char> {
    module_header(m.name) + record_blocks(m.records, m.records.len()) + union_blocks(
        m.unions,
        m.unions.len(),
    )
}

/// The block of text that a record contributes to the module.
fn struct_block(s: &ElmStruct) -> (r: String)
    ensures
        r@ == record_block(s@),
{
    let mut block = "\n".to_owned();
    block.append(s.type_def().as_str());
    block.append("\n");
    block.append(s.encoder_def().as_str());
    block.append("\n");
    block.append(s.decoder_def().as_str());
    proof {
        reveal(record_block);
    }
    assert(block@ =~= record_block(s@));
    block
}

/// The block of text that a custom type contributes to the module.
fn enum_block(u: &ElmEnum) -> (r: String)
    ensures
        r@ == union_block(u@),
{
    let mut block = "\n".to_owned();
    block.append(u.type_def().as_str());
    block.append("\n");
    block.append(u.encoder_def().as_str());
    block.append("\n");
    block.append(u.decoder_def().as_str());
    proof {
        reveal(union_block);
    }
    assert(block@ =~= union_block(u@));
    block
}

impl ElmFile {
    /// The text of the Elm module.
    pub fn generate_file_content(&self) -> (r: String)
        ensures
            r@ == module_text(self@),
    {
        let ghost m = self@;
        let mut result = "module ".to_owned();
        result.append(self.name.as_str());
        result.append(" exposing (..)\n\n\n");
        result.append("import Json.Decode\n");
        result.append("import Json.Encode\n");
        result.append("import Json.Decode.Pipeline\n");
        let ghost head = result@;
        assert(head =~= module_header(m.name));
        let n = self.structs.len();
        let mut i: usize = 0;
        while i < n
            invariant
                n == self.structs@.len(),
                m == self@,
                i <= n,
                result@ == head + record_blocks(m.records, i as nat),
            decreases n - i,
        {
            result.append(struct_block(&self.structs[i]).as_str());
            assert(result@ =~= head + record_blocks(m.records, (i + 1) as nat));
            i = i + 1;
        }
        let ghost middle = result@;
        let e = self.enums.len();
        let mut k: usize = 0;
        while k < e
            invariant
                e == self.enums@.len(),
                m == self@,
                k <= e,
                result@ == middle + union_blocks(m.unions, k as nat),
            decreases e - k,
        {
            result.append(enum_block(&self.enums[k]).as_str());
            assert(result@ =~= middle + union_blocks(m.unions, (k + 1) as nat));
            k = k + 1;
        }
        assert(result@ =~= module_text(m));
        result
    }
}

} // verus!
