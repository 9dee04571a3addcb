use rust_elm_typegen::{ElmEnum, ElmEnumVariant, ElmType, Identifier};

fn variant(name: &str, fields: Vec<ElmType>) -> ElmEnumVariant {
    ElmEnumVariant {
        name: Identifier::new(name),
        fields,
    }
}

fn message() -> ElmEnum {
    ElmEnum {
        name: Identifier::new("Message"),
        variants: vec![
            variant("Hello", vec![ElmType::String]),
            variant("Compare", vec![ElmType::Int, ElmType::Int]),
            variant("Goodbye", vec![]),
        ],
    }
}

#[test]
fn union_type_definition() {
    assert_eq!(
        message().type_def(),
        "type Message
    = Hello String
    | Compare Int Int
    | Goodbye
"
    );
}

#[test]
fn union_encoder_by_arity() {
    assert_eq!(
        message().encoder_def(),
        "encodeMessage : Message -> Json.Encode.Value
encodeMessage message =
    case message of
        Hello x ->
            Json.Encode.object
                [ ( \"Hello\", Json.Encode.string x )
                ]

        Compare x0 x1 ->
            Json.Encode.object
                [ ( \"Compare\"
                  , Json.Encode.list (\\v -> v)
                        [ Json.Encode.int x0
                        , Json.Encode.int x1
                        ]
                  )
                ]

        Goodbye ->
            Json.Encode.string \"Goodbye\"

"
    );
}

#[test]
fn union_decoders_in_declaration_order() {
    assert_eq!(
        message().decoder_def(),
        "decodeMessage : Json.Decode.Decoder Message
decodeMessage =
    Json.Decode.oneOf
        [ decodeMessageHello
        , decodeMessageCompare
        , decodeMessageGoodbye
        ]


decodeMessageHello : Json.Decode.Decoder Message
decodeMessageHello =
    Json.Decode.succeed Hello
        |> Json.Decode.Pipeline.required \"Hello\" Json.Decode.string


decodeMessageCompare : Json.Decode.Decoder Message
decodeMessageCompare =
    Json.Decode.succeed Compare
        |> Json.Decode.Pipeline.custom 
            (Json.Decode.field \"Compare\" (Json.Decode.index 0 Json.Decode.int))
        |> Json.Decode.Pipeline.custom 
            (Json.Decode.field \"Compare\" (Json.Decode.index 1 Json.Decode.int))


decodeMessageGoodbye : Json.Decode.Decoder Message
decodeMessageGoodbye =
    Json.Decode.andThen
        (\\str ->
            case str of
                \"Goodbye\" ->
                    Json.Decode.succeed Goodbye

                _ ->
                    Json.Decode.fail \"Expected variant Goodbye\"
        )
        Json.Decode.string
"
    );
}

#[test]
fn union_encoder_with_given_argument_name() {
    let u = ElmEnum {
        name: Identifier::new("Flag"),
        variants: vec![variant("On", vec![]), variant("Off", vec![])],
    };
    assert_eq!(
        u.encoder_def_for("f"),
        "encodeFlag : Flag -> Json.Encode.Value
encodeFlag f =
    case f of
        On ->
            Json.Encode.string \"On\"

        Off ->
            Json.Encode.string \"Off\"

"
    );
}

#[test]
fn union_with_many_fields_numbers_them() {
    let fields: Vec<ElmType> = (0..12).map(|_| ElmType::Int).collect();
    let u = ElmEnum {
        name: Identifier::new("Wide"),
        variants: vec![variant("W", fields)],
    };
    let encoder = u.encoder_def();
    assert!(encoder.contains("        W x0 x1 x2 x3 x4 x5 x6 x7 x8 x9 x10 x11 ->\n"));
    assert!(encoder.contains("                        , Json.Encode.int x11\n"));
    let decoder = u.decoder_def();
    assert!(decoder.contains("(Json.Decode.field \"W\" (Json.Decode.index 10 Json.Decode.int))\n"));
    assert!(decoder.contains("(Json.Decode.field \"W\" (Json.Decode.index 11 Json.Decode.int))\n"));
    assert_eq!(decoder.matches("Json.Decode.Pipeline.custom \n").count(), 12);
}

#[test]
fn duplicate_keeps_the_union() {
    let u = message();
    let copy = u.duplicate();
    assert_eq!(copy.type_def(), u.type_def());
    assert_eq!(copy.decoder_def(), u.decoder_def());
    assert_eq!(u.variants[1].duplicate().fields.len(), 2);
}

#[test]
fn clone_keeps_the_union() {
    let u = message();
    assert_eq!(u.clone().encoder_def(), u.encoder_def());
    assert_eq!(u.variants[0].clone().fields.len(), 1);
}
