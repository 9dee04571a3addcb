use rust_elm_typegen::{Identifier, LetterCase};

#[test]
fn test_camel_case() {
    let identifier = Identifier("snake_case".to_string());
    assert_eq!(identifier.camel_case(LetterCase::UpperCase), "SnakeCase");
    assert_eq!(identifier.camel_case(LetterCase::LowerCase), "snakeCase");
}

#[test]
fn camel_case_drops_every_underscore() {
    let identifier = Identifier::new("a__b_c_");
    assert_eq!(identifier.camel_case(LetterCase::LowerCase), "aBC");
    assert_eq!(identifier.camel_case(LetterCase::UpperCase), "ABC");
}

#[test]
fn camel_case_keeps_other_characters() {
    let identifier = Identifier::new("x_9_é_Y");
    assert_eq!(identifier.camel_case(LetterCase::LowerCase), "x9éY");
    assert_eq!(Identifier::new("").camel_case(LetterCase::UpperCase), "");
}
