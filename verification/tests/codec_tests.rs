use goatstore::codec::{breed_to_str, gender_to_str, str_to_breed, str_to_gender, Breed, Gender};
use goatstore::errors::AppError;

#[test]
fn decode_breed_known_labels() {
    assert_eq!(str_to_breed("Beetal").unwrap(), Breed::Beetal);
    assert_eq!(str_to_breed("Jamunapari").unwrap(), Breed::Jamunapari);
    assert_eq!(str_to_breed("Barbari").unwrap(), Breed::Barbari);
    assert_eq!(str_to_breed("Sirohi").unwrap(), Breed::Sirohi);
    assert_eq!(str_to_breed("Osmanabadi").unwrap(), Breed::Osmanabadi);
    assert_eq!(str_to_breed("BlackBengal").unwrap(), Breed::BlackBengal);
    assert_eq!(str_to_breed("Kutchi").unwrap(), Breed::Kutchi);
    assert_eq!(str_to_breed("Kaghani").unwrap(), Breed::Kaghani);
    assert_eq!(str_to_breed("Chegu").unwrap(), Breed::Chegu);
    assert_eq!(str_to_breed("Jakhrana").unwrap(), Breed::Jakhrana);
}

#[test]
fn decode_breed_unknown_becomes_other_verbatim() {
    assert_eq!(
        str_to_breed("Saanen").unwrap(),
        Breed::Other("Saanen".to_string())
    );
    assert_eq!(str_to_breed("").unwrap(), Breed::Other(String::new()));
    // case-sensitive: a case variant of a known label is unknown
    assert_eq!(
        str_to_breed("beetal").unwrap(),
        Breed::Other("beetal".to_string())
    );
}

#[test]
fn encode_breed_round_trip() {
    for label in [
        "Beetal",
        "Jamunapari",
        "Barbari",
        "Sirohi",
        "Osmanabadi",
        "BlackBengal",
        "Kutchi",
        "Kaghani",
        "Chegu",
        "Jakhrana",
        "Totally Unknown",
    ] {
        let decoded = str_to_breed(label).unwrap();
        assert_eq!(breed_to_str(&decoded), label);
        // decode(encode(decode(b))) == decode(b)
        let again = str_to_breed(breed_to_str(&decoded)).unwrap();
        assert_eq!(again, decoded);
    }
}

#[test]
fn decode_gender_accepts_exactly_the_two_canonical_strings() {
    assert_eq!(str_to_gender("Male").unwrap(), Gender::Male);
    assert_eq!(str_to_gender("Female").unwrap(), Gender::Female);
    for bad in ["male", "female", "MALE", "FEMALE", "", "Malee", " Male", "Female "] {
        match str_to_gender(bad) {
            Err(AppError::ParseError(p)) => {
                assert_eq!(p.input, bad);
                assert_eq!(p.target_enum, "Gender");
            }
            _ => panic!("gender text {:?} must be rejected with a parse error", bad),
        }
    }
}

#[test]
fn encode_gender_round_trip() {
    assert_eq!(gender_to_str(&Gender::Male), "Male");
    assert_eq!(gender_to_str(&Gender::Female), "Female");
    assert_eq!(
        str_to_gender(gender_to_str(&Gender::Male)).unwrap(),
        Gender::Male
    );
    assert_eq!(
        str_to_gender(gender_to_str(&Gender::Female)).unwrap(),
        Gender::Female
    );
}

#[test]
fn parse_enum_error_carries_input_and_target() {
    let e = goatstore::errors::ParseEnumError::new("Whatever", "Gender");
    assert_eq!(e.input, "Whatever");
    assert_eq!(e.target_enum, "Gender");
}
