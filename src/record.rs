//! Elm records generated from Rust structs with named fields: the type
//! alias, the JSON encoder and the JSON decoder pipeline.
use vstd::prelude::*;

use crate::elm::{decoder_ref_of, encoder_ref_of, type_ref_of, ElmType, TargetType};
use crate::identifier::Identifier;
use crate::text::{lower_of, lowercase};

verus! {

/// The mathematical form of a record: its name and its fields in
/// declaration order.
pub struct RecordDecl {
    pub name: Seq<char>,
    pub fields: Seq<(Seq<char>, TargetType)>,
}

/// An Elm record type generated from a Rust struct.
#[derive(Debug)]
pub struct ElmStruct {
    pub name: Identifier,
    pub fields: Vec<(Identifier, ElmType)>,
}

impl View for ElmStruct {
    type V = RecordDecl;

    open spec fn view(&self) -> RecordDecl {
        RecordDecl {
            name: self.name@,
            fields: self.fields@.map_values(|f: (Identifier, ElmType)| (f.0@, f.1@)),
        }
    }
}

/// The `i`-th field line of a record's type alias.
pub open spec fn record_type_line(fields: Seq<(Seq<char>, TargetType)>, i: int) -> Seq<char> {
    (if i == 0 {
        "    { "@
    } else {
        "    , "@
    }) + fields[i].0 + " : "@ + type_ref_of(fields[i].1) + "\n"@
}

/// The first `n` field lines of a record's type alias.
pub open spec fn record_type_lines(fields: Seq<(Seq<char>, TargetType)>, n: nat) -> Seq<char>
    decreases n,
{
    if n == 0 {
        Seq::empty()
    } else {
        record_type_lines(fields, (n - 1) as nat) + record_type_line(fields, n - 1)
    }
}

/// The Elm type alias of a record, for instance
/// `type alias Person =\n    { age : Int\n    , surname : String\n    }\n`.
pub open spec fn record_type_def(r: RecordDecl) -> Seq<char> {
    "type alias "@ + r.name + " =\n"@ + record_type_lines(r.fields, r.fields.len()) + "    }\n"@
}

/// The `i`-th step of a record decoder's pipeline: the JSON key named after
/// the field is required and decoded with the field type's decoder.
pub open spec fn record_decoder_line(fields: Seq<(Seq<char>, TargetType)>, i: int) -> Seq<char> {
    "        |> Json.Decode.Pipeline.required \""@ + fields[i].0 + "\" "@ + decoder_ref_of(
        fields[i].1,
    ) + "\n"@
}

/// The first `n` steps of a record decoder's pipeline.
pub open spec fn record_decoder_lines(fields: Seq<(Seq<char>, TargetType)>, n: nat) -> Seq<char>
    decreases n,
{
    if n == 0 {
        Seq::empty()
    } else {
        record_decoder_lines(fields, (n - 1) as nat) + record_decoder_line(fields, n - 1)
    }
}

/// The Elm JSON decoder of a record: a pipeline that starts from the
/// record's constructor and takes one step per field.
pub open spec fn record_decoder_def(r: RecordDecl) -> Seq<char> {
    "decode"@ + r.name + " : Json.Decode.Decoder "@ + r.name + "\n"@ + "decode"@ + r.name
        + " =\n"@ + "    Json.Decode.succeed "@ + r.name + "\n"@ + record_decoder_lines(
        r.fields,
        r.fields.len(),
    )
}

/// The `i`-th key/value pair of a record encoder, where `this` names the
/// encoded value.
pub open spec fn record_encoder_line(
    fields: Seq<(Seq<char>, TargetType)>,
    this: Seq<char>,
    i: int,
) -> Seq<char> {
    (if i == 0 {
        "        [ "@
    } else {
        "        , "@
    }) + "( \""@ + fields[i].0 + "\", "@ + encoder_ref_of(fields[i].1) + " "@ + this + "."@
        + fields[i].0 + " )\n"@
}

/// The first `n` key/value pairs of a record encoder.
pub open spec fn record_encoder_lines(
    fields: Seq<(Seq<char>, TargetType)>,
    this: Seq<char>,
    n: nat,
) -> Seq<char>
    decreases n,
{
    if n == 0 {
        Seq::empty()
    } else {
        record_encoder_lines(fields, this, (n - 1) as nat) + record_encoder_line(
            fields,
            this,
            n - 1,
        )
    }
}

/// The Elm JSON encoder of a record, whose argument is named `this`: an
/// object with one key per field, in declaration order.
pub open spec fn record_encoder_def(r: RecordDecl, this: Seq<char>) -> Seq<char> {
    "encode"@ + r.name + " : "@ + r.name + " -> Json.Encode.Value\n"@ + "encode"@ + r.name + " "@
        + this + " =\n"@ + "    Json.Encode.object\n"@ + record_encoder_lines(
        r.fields,
        this,
        r.fields.len(),
    ) + "        ]\n"@
}

impl ElmStruct {
    /// The Elm name of the record type.
    pub fn type_ref(&self) -> (r: String)
        ensures
            r@ == self@.name,
    {
        self.name.0.clone()
    }

    /// The Elm type alias of the record.
    pub fn type_def(&self) -> (r: String)
        ensures
            r@ == record_type_def(self@),
    {
        let ghost fields = self@.fields;
        let mut output = "type alias ".to_owned();
        output.append(self.name.0.as_str());
        output.append(" =\n");
        let ghost head = output@;
        let n = self.fields.len();
        let mut i: usize = 0;
        while i < n
            invariant
                n == self.fields@.len(),
                fields == self@.fields,
                head == "type alias "@ + self@.name + " =\n"@,
                i <= n,
                output@ == head + record_type_lines(fields, i as nat),
            decreases n - i,
        {
            let field = &self.fields[i].0;
            let ty = &self.fields[i].1;
            if i == 0 {
                output.append("    { ");
            } else {
                output.append("    , ");
            }
            output.append(field.0.as_str());
            output.append(" : ");
            output.append(ty.type_ref().as_str());
            output.append("\n");
            assert(output@ =~= head + record_type_lines(fields, (i + 1) as nat));
            i = i + 1;
        }
        output.append("    }\n");
        output
    }

    /// The name of the record's Elm decoder.
    pub fn decoder_ref(&self) -> (r: String)
        ensures
            r@ == "decode"@ + self@.name,
    {
        let mut r = "decode".to_owned();
        r.append(self.name.0.as_str());
        r
    }

    /// The Elm JSON decoder of the record.
    pub fn decoder_def(&self) -> (r: String)
        ensures
            r@ == record_decoder_def(self@),
    {
        let ghost fields = self@.fields;
        let name = self.name.0.as_str();
        let mut output = "decode".to_owned();
        output.append(name);
        output.append(" : Json.Decode.Decoder ");
        output.append(name);
        output.append("\n");
        output.append("decode");
        output.append(name);
        output.append(" =\n");
        output.append("    Json.Decode.succeed ");
        output.append(name);
        output.append("\n");
        let ghost head = output@;
        let n = self.fields.len();
        let mut i: usize = 0;
        while i < n
            invariant
                n == self.fields@.len(),
                fields == self@.fields,
                head =~= "decode"@ + self@.name + " : Json.Decode.Decoder "@ + self@.name + "\n"@
                    + "decode"@ + self@.name + " =\n"@ + "    Json.Decode.succeed "@ + self@.name
                    + "\n"@,
                i <= n,
                output@ == head + record_decoder_lines(fields, i as nat),
            decreases n - i,
        {
            let field = &self.fields[i].0;
            let ty = &self.fields[i].1;
            output.append("        |> Json.Decode.Pipeline.required \"");
            output.append(field.0.as_str());
            output.append("\" ");
            output.append(ty.decoder_ref().as_str());
            output.append("\n");
            assert(output@ =~= head + record_decoder_lines(fields, (i + 1) as nat));
            i = i + 1;
        }
        output
    }

    /// The name of the record's Elm encoder.
    pub fn encoder_ref(&self) -> (r: String)
        ensures
            r@ == "encode"@ + self@.name,
    {
        let mut r = "encode".to_owned();
        r.append(self.name.0.as_str());
        r
    }

    /// The Elm JSON encoder of the record; its argument is named after the
    /// record, in lower case.
    pub fn encoder_def(&self) -> (r: String)
        ensures
            r@ == record_encoder_def(self@, lower_of(self@.name)),
    {
        let this = lowercase(self.name.0.as_str());
        self.encoder_def_for(this.as_str())
    }

    /// The Elm JSON encoder of the record, with its argument named `this`.
    pub fn encoder_def_for(&self, this: &str) -> (r: String)
        ensures
            r@ == record_encoder_def(self@, this@),
    {
        let ghost fields = self@.fields;
        let name = self.name.0.as_str();
        let mut output = "encode".to_owned();
        output.append(name);
        output.append(" : ");
        output.append(name);
        output.append(" -> Json.Encode.Value\n");
        output.append("encode");
        output.append(name);
        output.append(" ");
        output.append(this);
        output.append(" =\n");
        output.append("    Json.Encode.object\n");
        let ghost head = output@;
        let n = self.fields.len();
        let mut i: usize = 0;
        while i < n
            invariant
                n == self.fields@.len(),
                fields == self@.fields,
                head =~= "encode"@ + self@.name + " : "@ + self@.name + " -> Json.Encode.Value\n"@
                    + "encode"@ + self@.name + " "@ + this@ + " =\n"@ + "    Json.Encode.object\n"@,
                i <= n,
                output@ == head + record_encoder_lines(fields, this@, i as nat),
            decreases n - i,
        {
            let field = &self.fields[i].0;
            let ty = &self.fields[i].1;
            if i == 0 {
                output.append("        [ ");
            } else {
                output.append("        , ");
            }
            output.append("( \"");
            output.append(field.0.as_str());
            output.append("\", ");
            output.append(ty.encoder_ref().as_str());
            output.append(" ");
            output.append(this);
            output.append(".");
            output.append(field.0.as_str());
            output.append(" )\n");
            assert(output@ =~= head + record_encoder_lines(fields, this@, (i + 1) as nat));
            i = i + 1;
        }
        output.append("        ]\n");
        output
    }
}

impl ElmStruct {
    /// A copy of this record.
    pub fn duplicate(&self) -> (r: ElmStruct)
        ensures
            r@ == self@,
    {
        let mut fields: Vec<(Identifier, ElmType)> = Vec::new();
        let n = self.fields.len();
        let mut i: usize = 0;
        while i < n
            invariant
                n == self.fields@.len(),
                i <= n,
                fields@.len() == i,
                forall|k: int|
                    0 <= k < i ==> #[trigger] fields@[k].0 == self.fields@[k].0 && fields@[k].1
                        == self.fields@[k].1,
            decreases n - i,
        {
            let field = &self.fields[i];
            fields.push((Identifier(field.0.0.clone()), field.1.duplicate()));
            i = i + 1;
        }
        let r = ElmStruct { name: Identifier(self.name.0.clone()), fields };
        assert(r@.fields =~= self@.fields);
        r
    }
}

impl Clone for ElmStruct {
    fn clone(&self) -> (r: ElmStruct)
        ensures
            r@ == self@,
    {
        self.duplicate()
    }
}

} // verus!
