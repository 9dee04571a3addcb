use rust_elm_typegen::{
    ElmFile, GenericArgument, Identifier, ItemEnum, ItemImpl, ItemStruct, NamedField,
    PathArguments, PathSegment, RustFile, SourceFields, SourceFile, SourceItem, SourcePath,
    SourceType, SourceVariant, TypeForm, TypeGenError,
};

fn path(segments: &[&str]) -> SourcePath {
    SourcePath {
        segments: segments
            .iter()
            .map(|s| PathSegment {
                ident: s.to_string(),
                arguments: PathArguments::Bare,
            })
            .collect(),
    }
}

fn ty(name: &str) -> SourceType {
    SourceType::Path {
        qualified: false,
        path: path(&[name]),
    }
}

fn generic(name: &str, args: Vec<SourceType>) -> SourceType {
    SourceType::Path {
        qualified: false,
        path: SourcePath {
            segments: vec![PathSegment {
                ident: name.to_string(),
                arguments: PathArguments::AngleBracketed(
                    args.into_iter().map(GenericArgument::Type).collect(),
                ),
            }],
        },
    }
}

fn record(name: &str, fields: Vec<(&str, SourceType)>) -> SourceItem {
    SourceItem::Struct(ItemStruct {
        ident: name.to_string(),
        fields: SourceFields::Named(
            fields
                .into_iter()
                .map(|(n, t)| NamedField {
                    ident: n.to_string(),
                    ty: t,
                })
                .collect(),
        ),
    })
}

fn tuple_variant(name: &str, types: Vec<SourceType>) -> SourceVariant {
    SourceVariant {
        ident: name.to_string(),
        fields: if types.is_empty() {
            SourceFields::Unit
        } else {
            SourceFields::Unnamed(types)
        },
    }
}

fn union(name: &str, variants: Vec<SourceVariant>) -> SourceItem {
    SourceItem::Enum(ItemEnum {
        ident: name.to_string(),
        variants,
    })
}

fn implementation(trait_path: &[&str], self_ty: SourceType) -> SourceItem {
    SourceItem::Impl(ItemImpl {
        trait_path: Some(path(trait_path)),
        self_ty,
    })
}

fn export(name: &str) -> SourceItem {
    implementation(&["ElmExport"], ty(name))
}

fn module(name: &str, file: RustFile) -> String {
    ElmFile {
        name: name.to_string(),
        structs: file.export_structs,
        enums: file.export_enums,
    }
    .generate_file_content()
}

const HEADER: &str = "import Json.Decode
import Json.Encode
import Json.Decode.Pipeline
";

#[test]
fn test_person_file() {
    let ast = SourceFile {
        items: vec![
            record("Person", vec![("age", ty("u32")), ("surname", ty("String"))]),
            export("Person"),
            record("Animal", vec![("age", ty("u32")), ("pet_name", ty("String"))]),
            implementation(&["std", "fmt", "Display"], ty("Animal")),
            SourceItem::Impl(ItemImpl {
                trait_path: None,
                self_ty: ty("Animal"),
            }),
        ],
    };
    let file = RustFile::parse(&ast).unwrap();
    assert_eq!(file.main_export_types, vec![Identifier::new("Person")]);
    assert_eq!(file.all_structs.len(), 2);
    assert_eq!(file.export_structs.len(), 1);
    assert_eq!(
        file.export_structs[0].type_def(),
        "type alias Person =\n    { age : Int\n    , surname : String\n    }\n"
    );
    let expected = format!(
        "module Person exposing (..)\n\n\n{}
type alias Person =
    {{ age : Int
    , surname : String
    }}

encodePerson : Person -> Json.Encode.Value
encodePerson person =
    Json.Encode.object
        [ ( \"age\", Json.Encode.int person.age )
        , ( \"surname\", Json.Encode.string person.surname )
        ]

decodePerson : Json.Decode.Decoder Person
decodePerson =
    Json.Decode.succeed Person
        |> Json.Decode.Pipeline.required \"age\" Json.Decode.int
        |> Json.Decode.Pipeline.required \"surname\" Json.Decode.string
",
        HEADER
    );
    assert_eq!(module("Person", file), expected);
}

#[test]
fn test_message_file() {
    let ast = SourceFile {
        items: vec![
            union(
                "RemoteMessage",
                vec![
                    tuple_variant("Hello", vec![ty("String")]),
                    tuple_variant("Compare", vec![ty("u32"), ty("u32")]),
                    tuple_variant("Juggle", vec![ty("u32"), ty("String"), ty("String")]),
                    tuple_variant("Goodbye", vec![]),
                ],
            ),
            export("RemoteMessage"),
        ],
    };
    let file = RustFile::parse(&ast).unwrap();
    assert!(file.export_structs.is_empty());
    let expected = format!(
        "module Message exposing (..)\n\n\n{}
type RemoteMessage
    = Hello String
    | Compare Int Int
    | Juggle Int String String
    | Goodbye

encodeRemoteMessage : RemoteMessage -> Json.Encode.Value
encodeRemoteMessage remotemessage =
    case remotemessage of
        Hello x ->
            Json.Encode.object
                [ ( \"Hello\", Json.Encode.string x )
                ]

        Compare x0 x1 ->
            Json.Encode.object
                [ ( \"Compare\"
                  , Json.Encode.list (\\v -> v)
                        [ Json.Encode.int x0
                        , Json.Encode.int x1
                        ]
                  )
                ]

        Juggle x0 x1 x2 ->
            Json.Encode.object
                [ ( \"Juggle\"
                  , Json.Encode.list (\\v -> v)
                        [ Json.Encode.int x0
                        , Json.Encode.string x1
                        , Json.Encode.string x2
                        ]
                  )
                ]

        Goodbye ->
            Json.Encode.string \"Goodbye\"


decodeRemoteMessage : Json.Decode.Decoder RemoteMessage
decodeRemoteMessage =
    Json.Decode.oneOf
        [ decodeRemoteMessageHello
        , decodeRemoteMessageCompare
        , decodeRemoteMessageJuggle
        , decodeRemoteMessageGoodbye
        ]


decodeRemoteMessageHello : Json.Decode.Decoder RemoteMessage
decodeRemoteMessageHello =
    Json.Decode.succeed Hello
        |> Json.Decode.Pipeline.required \"Hello\" Json.Decode.string


decodeRemoteMessageCompare : Json.Decode.Decoder RemoteMessage
decodeRemoteMessageCompare =
    Json.Decode.succeed Compare
        |> Json.Decode.Pipeline.custom 
            (Json.Decode.field \"Compare\" (Json.Decode.index 0 Json.Decode.int))
        |> Json.Decode.Pipeline.custom 
            (Json.Decode.field \"Compare\" (Json.Decode.index 1 Json.Decode.int))


decodeRemoteMessageJuggle : Json.Decode.Decoder RemoteMessage
decodeRemoteMessageJuggle =
    Json.Decode.succeed Juggle
        |> Json.Decode.Pipeline.custom 
            (Json.Decode.field \"Juggle\" (Json.Decode.index 0 Json.Decode.int))
        |> Json.Decode.Pipeline.custom 
            (Json.Decode.field \"Juggle\" (Json.Decode.index 1 Json.Decode.string))
        |> Json.Decode.Pipeline.custom 
            (Json.Decode.field \"Juggle\" (Json.Decode.index 2 Json.Decode.string))


decodeRemoteMessageGoodbye : Json.Decode.Decoder RemoteMessage
decodeRemoteMessageGoodbye =
    Json.Decode.andThen
        (\\str ->
            case str of
                \"Goodbye\" ->
                    Json.Decode.succeed Goodbye

                _ ->
                    Json.Decode.fail \"Expected variant Goodbye\"
        )
        Json.Decode.string
",
        HEADER
    );
    assert_eq!(module("Message", file), expected);
}

#[test]
fn test_various_primitives() {
    let names = ["u8", "u16", "u32", "u64", "usize", "i8", "i16", "i32", "i64", "isize"];
    let fields: Vec<(&str, SourceType)> = ["a", "b", "c", "d", "e", "f", "g", "h", "i", "j"]
        .iter()
        .zip(names.iter())
        .map(|(f, t)| (*f, ty(t)))
        .collect();
    let ast = SourceFile {
        items: vec![record("Primitives", fields), export("Primitives")],
    };
    let file = RustFile::parse(&ast).unwrap();
    let type_def = file.export_structs[0].type_def();
    assert_eq!(
        type_def,
        "type alias Primitives =
    { a : Int
    , b : Int
    , c : Int
    , d : Int
    , e : Int
    , f : Int
    , g : Int
    , h : Int
    , i : Int
    , j : Int
    }
"
    );
    let text = module("Message", file);
    assert!(text.starts_with("module Message exposing (..)\n\n\n"));
    assert_eq!(text.matches("Json.Decode.Pipeline.required").count(), 10);
}

#[test]
fn test_named_type_reference() {
    let ast = SourceFile {
        items: vec![
            record(
                "WeatherData",
                vec![
                    ("position", ty("Coordinate")),
                    ("temperature", ty("u64")),
                    ("humidity", ty("u64")),
                ],
            ),
            record("Coordinate", vec![("latitude", ty("u64")), ("longitude", ty("u64"))]),
            union(
                "MixedData",
                vec![
                    tuple_variant("GoodData", vec![ty("WeatherData")]),
                    tuple_variant("BadData", vec![ty("Coordinate")]),
                ],
            ),
            export("WeatherData"),
            export("Coordinate"),
            export("MixedData"),
        ],
    };
    let file = RustFile::parse(&ast).unwrap();
    let text = module("Message", file);
    assert!(text.contains("    { position : Coordinate\n"));
    assert!(text.contains("        [ ( \"position\", encodeCoordinate weatherdata.position )\n"));
    assert!(text.contains("|> Json.Decode.Pipeline.required \"position\" decodeCoordinate\n"));
    assert!(text.contains("    = GoodData WeatherData\n    | BadData Coordinate\n"));
    assert!(text.contains("                [ ( \"GoodData\", encodeWeatherData x )\n"));
    let weather = text.find("type alias WeatherData =").unwrap();
    let coordinate = text.find("type alias Coordinate =").unwrap();
    let mixed = text.find("type MixedData").unwrap();
    assert!(weather < coordinate && coordinate < mixed);
}

#[test]
fn vectors_become_lists() {
    let ast = SourceFile {
        items: vec![
            record("Card", vec![("suit", ty("String")), ("value", ty("u64"))]),
            union(
                "Action",
                vec![
                    tuple_variant("PlayCard", vec![ty("Card")]),
                    tuple_variant("DiscardCards", vec![generic("Vec", vec![ty("Card")])]),
                    tuple_variant("Surrender", vec![]),
                ],
            ),
            record(
                "GameState",
                vec![
                    ("deck", generic("Vec", vec![ty("Card")])),
                    ("discard_pile", generic("Vec", vec![ty("Card")])),
                    ("replay_history", generic("Vec", vec![ty("Action")])),
                    ("scores", generic("Vec", vec![generic("Vec", vec![ty("u8")])])),
                ],
            ),
            export("Card"),
            export("Action"),
            export("GameState"),
        ],
    };
    let file = RustFile::parse(&ast).unwrap();
    assert_eq!(file.export_structs.len(), 2);
    assert_eq!(file.export_enums.len(), 1);
    assert_eq!(
        file.export_structs[1].type_def(),
        "type alias GameState =
    { deck : List (Card)
    , discard_pile : List (Card)
    , replay_history : List (Action)
    , scores : List (List (Int))
    }
"
    );
    let text = module("Game", file);
    assert!(text.contains("    | DiscardCards List (Card)\n"));
    assert!(text.contains(
        "        [ ( \"deck\", Json.Encode.list (encodeCard) gamestate.deck )\n"
    ));
    assert!(text.contains(
        "|> Json.Decode.Pipeline.required \"replay_history\" Json.Decode.list (decodeAction)\n"
    ));
    assert!(text.contains("Json.Decode.list (Json.Decode.list (Json.Decode.int))"));
}

#[test]
fn export_order_follows_the_marks() {
    let ast = SourceFile {
        items: vec![
            record("C", vec![("c", ty("u8"))]),
            union("B", vec![tuple_variant("Only", vec![])]),
            record("A", vec![("a", ty("String"))]),
            export("A"),
            export("B"),
            export("C"),
        ],
    };
    let file = RustFile::parse(&ast).unwrap();
    let names: Vec<String> = file.export_structs.iter().map(|s| s.type_ref()).collect();
    assert_eq!(names, vec!["A".to_string(), "C".to_string()]);
    assert_eq!(file.export_enums.len(), 1);
    assert_eq!(file.export_enums[0].name, Identifier::new("B"));
    assert_eq!(
        file.main_export_types,
        vec![Identifier::new("A"), Identifier::new("B"), Identifier::new("C")]
    );
    let all: Vec<String> = file.all_structs.iter().map(|s| s.type_ref()).collect();
    assert_eq!(all, vec!["C".to_string(), "A".to_string()]);
}

#[test]
fn unresolved_export_root_fails() {
    let ast = SourceFile {
        items: vec![
            record("Person", vec![("age", ty("u32"))]),
            export("Person"),
            export("Ghost"),
        ],
    };
    match RustFile::parse(&ast) {
        Err(TypeGenError::ExportNotFound(name)) => assert_eq!(name, Identifier::new("Ghost")),
        other => panic!("unexpected result {:?}", other),
    }
}

#[test]
fn reference_field_fails() {
    let ast = SourceFile {
        items: vec![
            record(
                "Borrowed",
                vec![("name", SourceType::Other(TypeForm::Reference))],
            ),
            export("Borrowed"),
        ],
    };
    assert!(matches!(
        RustFile::parse(&ast),
        Err(TypeGenError::UnsupportedType(TypeForm::Reference))
    ));
}

#[test]
fn pointer_in_a_variant_fails() {
    let ast = SourceFile {
        items: vec![
            union(
                "Raw",
                vec![tuple_variant("P", vec![ty("u8"), SourceType::Other(TypeForm::Ptr)])],
            ),
            export("Raw"),
        ],
    };
    assert!(matches!(
        RustFile::parse(&ast),
        Err(TypeGenError::UnsupportedType(TypeForm::Ptr))
    ));
}

#[test]
fn tuple_struct_fails() {
    let ast = SourceFile {
        items: vec![SourceItem::Struct(ItemStruct {
            ident: "Pair".to_string(),
            fields: SourceFields::Unnamed(vec![ty("u8"), ty("u8")]),
        })],
    };
    assert!(matches!(
        RustFile::parse(&ast),
        Err(TypeGenError::UnnamedStructsNotSupported)
    ));
}

#[test]
fn unit_and_empty_structs_fail() {
    let unit = SourceFile {
        items: vec![SourceItem::Struct(ItemStruct {
            ident: "Marker".to_string(),
            fields: SourceFields::Unit,
        })],
    };
    assert!(matches!(
        RustFile::parse(&unit),
        Err(TypeGenError::UnnamedStructsNotSupported)
    ));
    let empty = SourceFile {
        items: vec![record("Empty", vec![])],
    };
    assert!(matches!(
        RustFile::parse(&empty),
        Err(TypeGenError::UnnamedStructsNotSupported)
    ));
}

#[test]
fn unsupported_paths_fail() {
    let long = SourceFile {
        items: vec![record("S", vec![("s", SourceType::Path {
            qualified: false,
            path: path(&["std", "string", "String"]),
        })])],
    };
    assert!(matches!(
        RustFile::parse(&long),
        Err(TypeGenError::UnsupportedType(TypeForm::LongPath))
    ));
    let qualified = SourceFile {
        items: vec![record("S", vec![("s", SourceType::Path {
            qualified: true,
            path: path(&["Item"]),
        })])],
    };
    assert!(matches!(
        RustFile::parse(&qualified),
        Err(TypeGenError::UnsupportedType(TypeForm::QualifiedPath))
    ));
    let option = SourceFile {
        items: vec![record("S", vec![("s", generic("Option", vec![ty("u8")]))])],
    };
    assert!(matches!(
        RustFile::parse(&option),
        Err(TypeGenError::UnsupportedType(TypeForm::GenericArguments))
    ));
    let two = SourceFile {
        items: vec![record("S", vec![("s", generic("Vec", vec![ty("u8"), ty("u8")]))])],
    };
    assert!(matches!(
        RustFile::parse(&two),
        Err(TypeGenError::UnsupportedType(TypeForm::GenericArguments))
    ));
}

#[test]
fn empty_trait_path_fails() {
    let ast = SourceFile {
        items: vec![implementation(&[], ty("Person"))],
    };
    assert!(matches!(
        RustFile::parse(&ast),
        Err(TypeGenError::EmptyTraitPath)
    ));
}

#[test]
fn marks_need_a_bare_type_name() {
    let ast = SourceFile {
        items: vec![
            record("Person", vec![("age", ty("u32"))]),
            implementation(&["ElmExport"], SourceType::Path {
                qualified: false,
                path: path(&["other", "Person"]),
            }),
            implementation(&["ElmExport"], SourceType::Other(TypeForm::Reference)),
            implementation(&["crate", "ElmExport"], ty("Person")),
        ],
    };
    let file = RustFile::parse(&ast).unwrap();
    assert_eq!(file.main_export_types, vec![Identifier::new("Person")]);
    assert_eq!(file.export_structs.len(), 1);
}

#[test]
fn variant_with_named_fields_uses_their_types_in_order() {
    let ast = SourceFile {
        items: vec![
            union(
                "Shape",
                vec![SourceVariant {
                    ident: "Rect".to_string(),
                    fields: SourceFields::Named(vec![
                        NamedField {
                            ident: "w".to_string(),
                            ty: ty("u32"),
                        },
                        NamedField {
                            ident: "label".to_string(),
                            ty: ty("String"),
                        },
                    ]),
                }],
            ),
            export("Shape"),
        ],
    };
    let file = RustFile::parse(&ast).unwrap();
    assert_eq!(file.export_enums[0].type_def(), "type Shape\n    = Rect Int String\n");
}

#[test]
fn first_failure_wins() {
    let ast = SourceFile {
        items: vec![
            record("Bad", vec![("r", SourceType::Other(TypeForm::Slice))]),
            SourceItem::Struct(ItemStruct {
                ident: "Unit".to_string(),
                fields: SourceFields::Unit,
            }),
            export("Missing"),
        ],
    };
    assert!(matches!(
        RustFile::parse(&ast),
        Err(TypeGenError::UnsupportedType(TypeForm::Slice))
    ));
}

#[test]
fn empty_file_gives_the_header_alone() {
    let file = RustFile::parse(&SourceFile { items: vec![] }).unwrap();
    assert_eq!(
        module("Empty", file),
        format!("module Empty exposing (..)\n\n\n{}", HEADER)
    );
}
