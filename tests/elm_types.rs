use rust_elm_typegen::{ElmType, Identifier};

fn check_basic_export() {
    let ty = ElmType::Int;
    assert_eq!(ty.type_ref(), "Int");
    assert_eq!(ty.decoder_ref(), "Json.Decode.int");
    assert_eq!(ty.encoder_ref(), "Json.Encode.int");
    let ty = ElmType::List(Box::new(ElmType::Int));
    assert_eq!(ty.type_ref(), "List (Int)");
    assert_eq!(ty.decoder_ref(), "Json.Decode.list (Json.Decode.int)");
    assert_eq!(ty.encoder_ref(), "Json.Encode.list (Json.Encode.int)");
    let ty = ElmType::List(Box::new(ElmType::List(Box::new(ElmType::Int))));
    assert_eq!(ty.type_ref(), "List (List (Int))");
    assert_eq!(
        ty.decoder_ref(),
        "Json.Decode.list (Json.Decode.list (Json.Decode.int))"
    );
    assert_eq!(
        ty.encoder_ref(),
        "Json.Encode.list (Json.Encode.list (Json.Encode.int))"
    );
    let ty = ElmType::String;
    assert_eq!(ty.type_ref(), "String");
    assert_eq!(ty.decoder_ref(), "Json.Decode.string");
    assert_eq!(ty.encoder_ref(), "Json.Encode.string");
}

#[test]
fn lib_basic_export() {
    check_basic_export();
}

#[test]
fn main_basic_export() {
    check_basic_export();
}

#[test]
fn list_of_named_type_references() {
    let ty = ElmType::List(Box::new(ElmType::NamedType(Identifier::new("Coordinate"))));
    assert_eq!(ty.type_ref(), "List (Coordinate)");
    assert_eq!(ty.decoder_ref(), "Json.Decode.list (decodeCoordinate)");
    assert_eq!(ty.encoder_ref(), "Json.Encode.list (encodeCoordinate)");
}

#[test]
fn primitive_mapping_table() {
    for name in [
        "u8", "u16", "u32", "u64", "usize", "i8", "i16", "i32", "i64", "isize",
    ] {
        let ty = ElmType::from_identifier(Identifier::new(name));
        assert!(matches!(ty, ElmType::Int), "{} should map to Int", name);
    }
    assert!(matches!(
        ElmType::from_identifier(Identifier::new("String")),
        ElmType::String
    ));
    for name in ["u128", "bool", "str", "Person", "string"] {
        match ElmType::from_identifier(Identifier::new(name)) {
            ElmType::NamedType(id) => assert_eq!(id, Identifier::new(name)),
            other => panic!("{} mapped to {:?}", name, other),
        }
    }
}

#[test]
fn duplicate_keeps_the_type() {
    let ty = ElmType::List(Box::new(ElmType::NamedType(Identifier::new("Card"))));
    assert_eq!(ty.duplicate().type_ref(), "List (Card)");
}
