//! Elm custom types generated from Rust enums: the type definition, the JSON
//! encoder and the JSON decoders.
//!
//! A variant is encoded according to its number of fields: a variant without
//! fields becomes the JSON string of its name, a variant with one field an
//! object whose only key is the variant's name, and a variant with more
//! fields an object whose only key is the variant's name and whose value is
//! the array of the encoded fields.
use vstd::prelude::*;

use crate::elm::{decoder_ref_of, encoder_ref_of, type_ref_of, ElmType, TargetType};
use crate::identifier::Identifier;
use crate::text::{decimal_of, lower_of, lowercase, push_decimal};

verus! {

/// The mathematical form of an enum variant: its name and the types of its
/// positional fields.
pub struct VariantDecl {
    pub name: Seq<char>,
    pub fields: Seq<TargetType>,
}

/// The mathematical form of an enum: its name and its variants in
/// declaration order.
pub struct UnionDecl {
    pub name: Seq<char>,
    pub variants: Seq<VariantDecl>,
}

/// A variant of an Elm custom type.
#[derive(Debug)]
pub struct ElmEnumVariant {
    pub name: Identifier,
    pub fields: Vec<ElmType>,
}

/// An Elm custom type generated from a Rust enum.
#[derive(Debug)]
pub struct ElmEnum {
    pub name: Identifier,
    pub variants: Vec<ElmEnumVariant>,
}

impl View for ElmEnumVariant {
    type V = VariantDecl;

    open spec fn view(&self) -> VariantDecl {
        VariantDecl { name: self.name@, fields: self.fields@.map_values(|t: ElmType| t@) }
    }
}

impl View for ElmEnum {
    type V = UnionDecl;

    open spec fn view(&self) -> UnionDecl {
        UnionDecl {
            name: self.name@,
            variants: self.variants@.map_values(|v: ElmEnumVariant| v@),
        }
    }
}

/// The type references of the first `n` fields, each preceded by a space.
pub open spec fn field_type_refs(fields: Seq<TargetType>, n: nat) -> Seq<char>
    decreases n,
{
    if n == 0 {
        Seq::empty()
    } else {
        field_type_refs(fields, (n - 1) as nat) + " "@ + type_ref_of(fields[n - 1])
    }
}

/// The line of the `i`-th variant in the custom type's definition.
pub open spec fn union_type_line(variants: Seq<VariantDecl>, i: int) -> Seq<char> {
    (if i == 0 {
        "    = "@
    } else {
        "    | "@
    }) + variants[i].name + field_type_refs(variants[i].fields, variants[i].fields.len())
        + "\n"@
}

/// The lines of the first `n` variants in the custom type's definition.
pub open spec fn union_type_lines(variants: Seq<VariantDecl>, n: nat) -> Seq<char>
    decreases n,
{
    if n == 0 {
        Seq::empty()
    } else {
        union_type_lines(variants, (n - 1) as nat) + union_type_line(variants, n - 1)
    }
}

/// The Elm definition of a custom type, one line per variant.
pub open spec fn union_type_def(u: UnionDecl) -> Seq<char> {
    "type "@ + u.name + "\n"@ + union_type_lines(u.variants, u.variants.len())
}

/// The pattern variables `x0 x1 ...` of the first `n` fields, each followed
/// by a space.
pub open spec fn pattern_vars(n: nat) -> Seq<char>
    decreases n,
{
    if n == 0 {
        Seq::empty()
    } else {
        pattern_vars((n - 1) as nat) + "x"@ + decimal_of((n - 1) as nat) + " "@
    }
}

/// The `k`-th element of the JSON array built for a variant with several
/// fields.
pub open spec fn array_item_line(fields: Seq<TargetType>, k: int) -> Seq<char> {
    (if k == 0 {
        "                        [ "@
    } else {
        "                        , "@
    }) + encoder_ref_of(fields[k]) + " x"@ + decimal_of(k as nat) + "\n"@
}

/// The first `n` elements of the JSON array built for a variant with several
/// fields.
pub open spec fn array_item_lines(fields: Seq<TargetType>, n: nat) -> Seq<char>
    decreases n,
{
    if n == 0 {
        Seq::empty()
    } else {
        array_item_lines(fields, (n - 1) as nat) + array_item_line(fields, n - 1)
    }
}

/// The branch of the custom type's encoder that handles the variant `v`.
pub open spec fn variant_encoder_branch(v: VariantDecl) -> Seq<char> {
    if v.fields.len() == 0 {
        "        "@ + v.name + " ->\n"@ + "            Json.Encode.string \""@ + v.name + "\"\n\n"@
    } else if v.fields.len() == 1 {
        "        "@ + v.name + " x ->\n"@ + "            Json.Encode.object\n"@
            + "                [ ( \""@ + v.name + "\", "@ + encoder_ref_of(v.fields[0])
            + " x )\n"@ + "                ]\n\n"@
    } else {
        "        "@ + v.name + " "@ + pattern_vars(v.fields.len()) + "->\n"@
            + "            Json.Encode.object\n"@ + "                [ ( \""@ + v.name + "\"\n"@
            + "                  , Json.Encode.list (\\v -> v)\n"@ + array_item_lines(
            v.fields,
            v.fields.len(),
        ) + "                        ]\n"@ + "                  )\n"@ + "                ]\n\n"@
    }
}

/// The encoder branches of the first `n` variants.
pub open spec fn variant_encoder_branches(variants: Seq<VariantDecl>, n: nat) -> Seq<char>
    decreases n,
{
    if n == 0 {
        Seq::empty()
    } else {
        variant_encoder_branches(variants, (n - 1) as nat) + variant_encoder_branch(
            variants[n - 1],
        )
    }
}

/// The Elm JSON encoder of a custom type, whose argument is named `this`.
pub open spec fn union_encoder_def(u: UnionDecl, this: Seq<char>) -> Seq<char> {
    "encode"@ + u.name + " : "@ + u.name + " -> Json.Encode.Value\n"@ + "encode"@ + u.name + " "@
        + this + " =\n"@ + "    case "@ + this + " of\n"@ + variant_encoder_branches(
        u.variants,
        u.variants.len(),
    )
}

/// The `i`-th entry of the list of variant decoders that the custom type's
/// decoder tries in order.
pub open spec fn one_of_line(name: Seq<char>, variants: Seq<VariantDecl>, i: int) -> Seq<char> {
    (if i == 0 {
        "        [ "@
    } else {
        "        , "@
    }) + "decode"@ + name + variants[i].name + "\n"@
}

/// The first `n` entries of the list of variant decoders.
pub open spec fn one_of_lines(name: Seq<char>, variants: Seq<VariantDecl>, n: nat) -> Seq<char>
    decreases n,
{
    if n == 0 {
        Seq::empty()
    } else {
        one_of_lines(name, variants, (n - 1) as nat) + one_of_line(name, variants, n - 1)
    }
}

/// The pipeline step that decodes the `k`-th field of a variant with several
/// fields from the array under the variant's key.
pub open spec fn index_step(v: VariantDecl, k: int) -> Seq<char> {
    "        |> Json.Decode.Pipeline.custom \n"@ + "            (Json.Decode.field \""@ + v.name
        + "\" (Json.Decode.index "@ + decimal_of(k as nat) + " "@ + decoder_ref_of(v.fields[k])
        + "))\n"@
}

/// The pipeline steps for the first `n` fields of a variant with several
/// fields.
pub open spec fn index_steps(v: VariantDecl, n: nat) -> Seq<char>
    decreases n,
{
    if n == 0 {
        Seq::empty()
    } else {
        index_steps(v, (n - 1) as nat) + index_step(v, n - 1)
    }
}

/// The body of the decoder dedicated to the variant `v`.
pub open spec fn variant_decoder_body(v: VariantDecl) -> Seq<char> {
    if v.fields.len() == 0 {
        "    Json.Decode.andThen\n"@ + "        (\\str ->\n"@ + "            case str of\n"@
            + "                \""@ + v.name + "\" ->\n"@ + "                    Json.Decode.succeed "@
            + v.name + "\n\n"@ + "                _ ->\n"@
            + "                    Json.Decode.fail \"Expected variant "@ + v.name + "\"\n"@
            + "        )\n"@ + "        Json.Decode.string\n"@
    } else if v.fields.len() == 1 {
        "    Json.Decode.succeed "@ + v.name + "\n"@
            + "        |> Json.Decode.Pipeline.required \""@ + v.name + "\" "@ + decoder_ref_of(
            v.fields[0],
        ) + "\n"@
    } else {
        "    Json.Decode.succeed "@ + v.name + "\n"@ + index_steps(v, v.fields.len())
    }
}

/// The decoder dedicated to the variant `v` of the custom type `name`,
/// preceded by two blank lines.
pub open spec fn variant_decoder(name: Seq<char>, v: VariantDecl) -> Seq<char> {
    "\n\n"@ + "decode"@ + name + v.name + " : Json.Decode.Decoder "@ + name + "\n"@ + "decode"@
        + name + v.name + " =\n"@ + variant_decoder_body(v)
}

/// The dedicated decoders of the first `n` variants.
pub open spec fn variant_decoders(name: Seq<char>, variants: Seq<VariantDecl>, n: nat) -> Seq<
    char,
>
    decreases n,
{
    if n == 0 {
        Seq::empty()
    } else {
        variant_decoders(name, variants, (n - 1) as nat) + variant_decoder(name, variants[n - 1])
    }
}

/// The Elm JSON decoders of a custom type: one that tries the variants'
/// decoders in declaration order, followed by the decoder of each variant.
pub open spec fn union_decoder_def(u: UnionDecl) -> Seq<char> {
    "decode"@ + u.name + " : Json.Decode.Decoder "@ + u.name + "\n"@ + "decode"@ + u.name
        + " =\n"@ + "    Json.Decode.oneOf\n"@ + one_of_lines(u.name, u.variants, u.variants.len())
        + "        ]\n"@ + variant_decoders(u.name, u.variants, u.variants.len())
}

} // verus!

verus! {

impl ElmEnumVariant {
    /// Appends the type references of the variant's fields, each preceded
    /// by a space.
    fn push_field_type_refs(&self, output: &mut String)
        ensures
            final(output)@ == old(output)@ + field_type_refs(self@.fields, self@.fields.len()),
    {
        let ghost start = output@;
        let ghost fields = self@.fields;
        let n = self.fields.len();
        let mut j: usize = 0;
        while j < n
            invariant
                n == self.fields@.len(),
                fields == self@.fields,
                j <= n,
                output@ == start + field_type_refs(fields, j as nat),
            decreases n - j,
        {
            output.append(" ");
            output.append(self.fields[j].type_ref().as_str());
            assert(output@ =~= start + field_type_refs(fields, (j + 1) as nat));
            j = j + 1;
        }
    }

    /// The branch of the custom type's encoder that handles this variant.
    fn encoder_branch(&self) -> (r: String)
        ensures
            r@ == variant_encoder_branch(self@),
    {
        let ghost v = self@;
        let name = self.name.0.as_str();
        let n = self.fields.len();
        let mut output = "        ".to_owned();
        output.append(name);
        if n == 0 {
            output.append(" ->\n");
            output.append("            Json.Encode.string \"");
            output.append(name);
            output.append("\"\n\n");
            assert(output@ =~= variant_encoder_branch(v));
        } else if n == 1 {
            output.append(" x ->\n");
            output.append("            Json.Encode.object\n");
            output.append("                [ ( \"");
            output.append(name);
            output.append("\", ");
            output.append(self.fields[0].encoder_ref().as_str());
            output.append(" x )\n");
            output.append("                ]\n\n");
            assert(output@ =~= variant_encoder_branch(v));
        } else {
            output.append(" ");
            let ghost head = output@;
            let mut i: usize = 0;
            while i < n
                invariant
                    n == self.fields@.len(),
                    i <= n,
                    output@ == head + pattern_vars(i as nat),
                decreases n - i,
            {
                output.append("x");
                push_decimal(&mut output, i);
                output.append(" ");
                assert(output@ =~= head + pattern_vars((i + 1) as nat));
                i = i + 1;
            }
            output.append("->\n");
            output.append("            Json.Encode.object\n");
            output.append("                [ ( \"");
            output.append(name);
            output.append("\"\n");
            output.append("                  , Json.Encode.list (\\v -> v)\n");
            let ghost middle = output@;
            let mut k: usize = 0;
            while k < n
                invariant
                    n == self.fields@.len(),
                    v == self@,
                    k <= n,
                    output@ == middle + array_item_lines(v.fields, k as nat),
                decreases n - k,
            {
                if k == 0 {
                    output.append("                        [ ");
                } else {
                    output.append("                        , ");
                }
                output.append(self.fields[k].encoder_ref().as_str());
                output.append(" x");
                push_decimal(&mut output, k);
                output.append("\n");
                assert(output@ =~= middle + array_item_lines(v.fields, (k + 1) as nat));
                k = k + 1;
            }
            output.append("                        ]\n");
            output.append("                  )\n");
            output.append("                ]\n\n");
            assert(output@ =~= variant_encoder_branch(v));
        }
        output
    }

    /// The decoder dedicated to this variant of the custom type `union_name`.
    fn decoder_def(&self, union_name: &str) -> (r: String)
        ensures
            r@ == variant_decoder(union_name@, self@),
    {
        let ghost v = self@;
        let name = self.name.0.as_str();
        let n = self.fields.len();
        let mut output = "\n\n".to_owned();
        output.append("decode");
        output.append(union_name);
        output.append(name);
        output.append(" : Json.Decode.Decoder ");
        output.append(union_name);
        output.append("\n");
        output.append("decode");
        output.append(union_name);
        output.append(name);
        output.append(" =\n");
        let ghost head = output@;
        assert(head =~= "\n\n"@ + "decode"@ + union_name@ + v.name + " : Json.Decode.Decoder "@
            + union_name@ + "\n"@ + "decode"@ + union_name@ + v.name + " =\n"@);
        if n == 0 {
            output.append("    Json.Decode.andThen\n");
            output.append("        (\\str ->\n");
            output.append("            case str of\n");
            output.append("                \"");
            output.append(name);
            output.append("\" ->\n");
            output.append("                    Json.Decode.succeed ");
            output.append(name);
            output.append("\n\n");
            output.append("                _ ->\n");
            output.append("                    Json.Decode.fail \"Expected variant ");
            output.append(name);
            output.append("\"\n");
            output.append("        )\n");
            output.append("        Json.Decode.string\n");
        } else if n == 1 {
            output.append("    Json.Decode.succeed ");
            output.append(name);
            output.append("\n");
            output.append("        |> Json.Decode.Pipeline.required \"");
            output.append(name);
            output.append("\" ");
            output.append(self.fields[0].decoder_ref().as_str());
            output.append("\n");
        } else {
            output.append("    Json.Decode.succeed ");
            output.append(name);
            output.append("\n");
            let ghost start = output@;
            let mut k: usize = 0;
            while k < n
                invariant
                    n == self.fields@.len(),
                    v == self@,
                    name@ == v.name,
                    k <= n,
                    output@ == start + index_steps(v, k as nat),
                decreases n - k,
            {
                output.append("        |> Json.Decode.Pipeline.custom \n");
                output.append("            (Json.Decode.field \"");
                output.append(name);
                output.append("\" (Json.Decode.index ");
                push_decimal(&mut output, k);
                output.append(" ");
                output.append(self.fields[k].decoder_ref().as_str());
                output.append("))\n");
                assert(output@ =~= start + index_steps(v, (k + 1) as nat));
                k = k + 1;
            }
        }
        assert(output@ =~= head + variant_decoder_body(v));
        output
    }
}

impl ElmEnum {
    /// The Elm definition of the custom type.
    pub fn type_def(&self) -> (r: String)
        ensures
            r@ == union_type_def(self@),
    {
        let ghost variants = self@.variants;
        let mut output = "type ".to_owned();
        output.append(self.name.0.as_str());
        output.append("\n");
        let ghost head = output@;
        let n = self.variants.len();
        let mut i: usize = 0;
        while i < n
            invariant
                n == self.variants@.len(),
                variants == self@.variants,
                head == "type "@ + self@.name + "\n"@,
                i <= n,
                output@ == head + union_type_lines(variants, i as nat),
            decreases n - i,
        {
            let variant = &self.variants[i];
            if i == 0 {
                output.append("    = ");
            } else {
                output.append("    | ");
            }
            output.append(variant.name.0.as_str());
            variant.push_field_type_refs(&mut output);
            output.append("\n");
            assert(output@ =~= head + union_type_lines(variants, (i + 1) as nat));
            i = i + 1;
        }
        output
    }

    /// The Elm JSON encoder of the custom type; its argument is named after
    /// the type, in lower case.
    pub fn encoder_def(&self) -> (r: String)
        ensures
            r@ == union_encoder_def(self@, lower_of(self@.name)),
    {
        let this = lowercase(self.name.0.as_str());
        self.encoder_def_for(this.as_str())
    }

    /// The Elm JSON encoder of the custom type, with its argument named
    /// `this`.
    pub fn encoder_def_for(&self, this: &str) -> (r: String)
        ensures
            r@ == union_encoder_def(self@, this@),
    {
        let ghost variants = self@.variants;
        let name = self.name.0.as_str();
        let mut output = "encode".to_owned();
        output.append(name);
        output.append(" : ");
        output.append(name);
        output.append(" -> Json.Encode.Value\n");
        output.append("encode");
        output.append(name);
        output.append(" ");
        output.append(this);
        output.append(" =\n");
        output.append("    case ");
        output.append(this);
        output.append(" of\n");
        let ghost head = output@;
        let n = self.variants.len();
        let mut i: usize = 0;
        while i < n
            invariant
                n == self.variants@.len(),
                variants == self@.variants,
                i <= n,
                output@ == head + variant_encoder_branches(variants, i as nat),
            decreases n - i,
        {
            output.append(self.variants[i].encoder_branch().as_str());
            assert(output@ =~= head + variant_encoder_branches(variants, (i + 1) as nat));
            i = i + 1;
        }
        assert(output@ =~= union_encoder_def(self@, this@));
        output
    }

    /// The Elm JSON decoders of the custom type: the decoder that tries each
    /// variant in declaration order, then the decoder of each variant.
    pub fn decoder_def(&self) -> (r: String)
        ensures
            r@ == union_decoder_def(self@),
    {
        let ghost variants = self@.variants;
        let name = self.name.0.as_str();
        let mut output = "decode".to_owned();
        output.append(name);
        output.append(" : Json.Decode.Decoder ");
        output.append(name);
        output.append("\n");
        output.append("decode");
        output.append(name);
        output.append(" =\n");
        output.append("    Json.Decode.oneOf\n");
        let ghost head = output@;
        let n = self.variants.len();
        let mut i: usize = 0;
        while i < n
            invariant
                n == self.variants@.len(),
                variants == self@.variants,
                name@ == self@.name,
                i <= n,
                output@ == head + one_of_lines(name@, variants, i as nat),
            decreases n - i,
        {
            if i == 0 {
                output.append("        [ ");
            } else {
                output.append("        , ");
            }
            output.append("decode");
            output.append(name);
            output.append(self.variants[i].name.0.as_str());
            output.append("\n");
            assert(output@ =~= head + one_of_lines(name@, variants, (i + 1) as nat));
            i = i + 1;
        }
        output.append("        ]\n");
        let ghost middle = output@;
        let mut k: usize = 0;
        while k < n
            invariant
                n == self.variants@.len(),
                variants == self@.variants,
                name@ == self@.name,
                k <= n,
                output@ == middle + variant_decoders(name@, variants, k as nat),
            decreases n - k,
        {
            output.append(self.variants[k].decoder_def(name).as_str());
            assert(output@ =~= middle + variant_decoders(name@, variants, (k + 1) as nat));
            k = k + 1;
        }
        assert(output@ =~= union_decoder_def(self@));
        output
    }
}

impl ElmEnumVariant {
    /// A copy of this variant.
    pub fn duplicate(&self) -> (r: ElmEnumVariant)
        ensures
            r@ == self@,
    {
        let mut fields: Vec<ElmType> = Vec::new();
        let n = self.fields.len();
        let mut i: usize = 0;
        while i < n
            invariant
                n == self.fields@.len(),
                i <= n,
                fields@.len() == i,
                forall|k: int| 0 <= k < i ==> #[trigger] fields@[k] == self.fields@[k],
            decreases n - i,
        {
            fields.push(self.fields[i].duplicate());
            i = i + 1;
        }
        let r = ElmEnumVariant { name: Identifier(self.name.0.clone()), fields };
        assert(r@.fields =~= self@.fields);
        r
    }
}

impl ElmEnum {
    /// A copy of this custom type.
    pub fn duplicate(&self) -> (r: ElmEnum)
        ensures
            r@ == self@,
    {
        let mut variants: Vec<ElmEnumVariant> = Vec::new();
        let n = self.variants.len();
        let mut i: usize = 0;
        while i < n
            invariant
                n == self.variants@.len(),
                i <= n,
                variants@.len() == i,
                forall|k: int| 0 <= k < i ==> #[trigger] variants@[k]@ == self.variants@[k]@,
            decreases n - i,
        {
            variants.push(self.variants[i].duplicate());
            i = i + 1;
        }
        let r = ElmEnum { name: Identifier(self.name.0.clone()), variants };
        assert(r@.variants =~= self@.variants);
        r
    }
}

impl Clone for ElmEnumVariant {
    fn clone(&self) -> (r: ElmEnumVariant)
        ensures
            r@ == self@,
    {
        self.duplicate()
    }
}

impl Clone for ElmEnum {
    fn clone(&self) -> (r: ElmEnum)
        ensures
            r@ == self@,
    {
        self.duplicate()
    }
}

} // verus!
