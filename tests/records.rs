use rust_elm_typegen::{ElmStruct, ElmType, Identifier};

fn person() -> ElmStruct {
    ElmStruct {
        name: Identifier("Person".to_string()),
        fields: vec![
            (Identifier("age".to_string()), ElmType::Int),
            (Identifier("surname".to_string()), ElmType::String),
        ],
    }
}

fn check_struct() {
    let ty = person();
    assert_eq!(ty.type_ref(), "Person");
    assert_eq!(
        ty.type_def(),
        "type alias Person =\n    { age : Int\n    , surname : String\n    }\n"
    );
    assert_eq!(ty.decoder_ref(), "decodePerson");
    assert_eq!(
        ty.decoder_def(),
        "decodePerson : Json.Decode.Decoder Person
decodePerson =
    Json.Decode.succeed Person
        |> Json.Decode.Pipeline.required \"age\" Json.Decode.int
        |> Json.Decode.Pipeline.required \"surname\" Json.Decode.string
"
    );
    assert_eq!(ty.encoder_ref(), "encodePerson");
    assert_eq!(
        ty.encoder_def(),
        "encodePerson : Person -> Json.Encode.Value
encodePerson person =
    Json.Encode.object
        [ ( \"age\", Json.Encode.int person.age )
        , ( \"surname\", Json.Encode.string person.surname )
        ]
"
    );
}

#[test]
fn lib_test_struct() {
    check_struct();
}

#[test]
fn main_test_struct() {
    check_struct();
}

#[test]
fn record_encoder_with_given_argument_name() {
    let ty = person();
    assert_eq!(
        ty.encoder_def_for("p"),
        "encodePerson : Person -> Json.Encode.Value
encodePerson p =
    Json.Encode.object
        [ ( \"age\", Json.Encode.int p.age )
        , ( \"surname\", Json.Encode.string p.surname )
        ]
"
    );
}

#[test]
fn record_encoder_argument_is_lower_case() {
    let ty = ElmStruct {
        name: Identifier::new("WeatherData"),
        fields: vec![(
            Identifier::new("position"),
            ElmType::NamedType(Identifier::new("Coordinate")),
        )],
    };
    assert_eq!(
        ty.encoder_def(),
        "encodeWeatherData : WeatherData -> Json.Encode.Value
encodeWeatherData weatherdata =
    Json.Encode.object
        [ ( \"position\", encodeCoordinate weatherdata.position )
        ]
"
    );
    assert_eq!(
        ty.decoder_def(),
        "decodeWeatherData : Json.Decode.Decoder WeatherData
decodeWeatherData =
    Json.Decode.succeed WeatherData
        |> Json.Decode.Pipeline.required \"position\" decodeCoordinate
"
    );
}

#[test]
fn record_with_a_list_of_records() {
    let ty = ElmStruct {
        name: Identifier::new("GameState"),
        fields: vec![(
            Identifier::new("deck"),
            ElmType::List(Box::new(ElmType::NamedType(Identifier::new("Card")))),
        )],
    };
    assert_eq!(
        ty.type_def(),
        "type alias GameState =\n    { deck : List (Card)\n    }\n"
    );
    assert!(ty
        .decoder_def()
        .contains("required \"deck\" Json.Decode.list (decodeCard)\n"));
    assert!(ty
        .encoder_def()
        .contains("( \"deck\", Json.Encode.list (encodeCard) gamestate.deck )\n"));
}

#[test]
fn duplicate_keeps_the_record() {
    let ty = person();
    let copy = ty.duplicate();
    assert_eq!(copy.type_def(), ty.type_def());
    assert_eq!(copy.encoder_def(), ty.encoder_def());
}

#[test]
fn clone_keeps_the_record() {
    let ty = person();
    assert_eq!(ty.clone().decoder_def(), ty.decoder_def());
    assert_eq!(ty.fields[1].1.clone().type_ref(), "String");
}
