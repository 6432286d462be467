use clean_backend::id::{generate, validate};
use clean_backend::user::entity::Id;

#[test]
fn generated_values_carry_the_random_tag() {
    for _ in 0..16 {
        assert!(validate(generate()));
    }
}

#[test]
fn round_trip_of_a_generated_identifier() {
    let id = Id::generate();
    let text = id.to_string();
    let back = Id::from_string(&text).expect("canonical text must parse");
    assert_eq!(back, id);
    assert_eq!(back.inner_value(), id.inner_value());
    assert!(validate(id.inner_value()));
}

#[test]
fn encoding_is_the_hyphenated_lowercase_hexadecimal_form() {
    let id = Id::new(0x00112233445566778899aabbccddeeff_u128);
    assert_eq!(id.to_string(), "00112233-4455-6677-8899-aabbccddeeff");
    let id = Id::new(0);
    assert_eq!(id.to_string(), "00000000-0000-0000-0000-000000000000");
    let id = Id::new(u128::MAX);
    assert_eq!(id.to_string(), "ffffffff-ffff-ffff-ffff-ffffffffffff");
}

#[test]
fn parsing_inverts_encoding() {
    let id = Id::from_string("00112233-4455-6677-8899-aabbccddeeff").unwrap();
    assert_eq!(id.inner_value(), 0x00112233445566778899aabbccddeeff_u128);
}

#[test]
fn parsing_accepts_uppercase_digits() {
    let id = Id::from_string("00112233-4455-6677-8899-AABBCCDDEEFF").unwrap();
    assert_eq!(id.inner_value(), 0x00112233445566778899aabbccddeeff_u128);
}

#[test]
fn malformed_text_is_rejected() {
    // Too short, too long, empty.
    assert!(Id::from_string("").is_err());
    assert!(Id::from_string("0011").is_err());
    assert!(Id::from_string("00112233-4455-6677-8899-aabbccddeef").is_err());
    assert!(Id::from_string("00112233-4455-6677-8899-aabbccddeeff0").is_err());
    // Missing separators, even with a plausible length.
    assert!(Id::from_string("00112233445566778899aabbccddeeff").is_err());
    assert!(Id::from_string("001122334455667788990aabbccddeeff000").is_err());
    // Separators in the wrong places.
    assert!(Id::from_string("0011223-34455-6677-8899-aabbccddeeff").is_err());
    assert!(Id::from_string("-0112233-4455-6677-8899-aabbccddeeff").is_err());
    // Characters outside the hexadecimal set.
    assert!(Id::from_string("g0112233-4455-6677-8899-aabbccddeeff").is_err());
    assert!(Id::from_string("00112233-4455-6677-8899-aabbccddeefz").is_err());
    assert!(Id::from_string("00112233-4455-6677-8899-aabbccddee f").is_err());
}

#[test]
fn variant_validity_is_independent_of_the_text_round_trip() {
    // Version nibble 1 instead of 4: not of the randomly generated kind.
    let raw = 1_u128 << 76;
    assert!(!validate(raw));
    let id = Id::new(raw);
    let text = id.to_string();
    let back = Id::from_string(&text).expect("canonical text must parse");
    assert_eq!(back.inner_value(), raw);

    // The all-zero value has version nibble 0.
    assert!(!validate(0));
    let text = Id::new(0).to_string();
    assert_eq!(Id::from_string(&text).unwrap().inner_value(), 0);

    // A value with the random tag passes.
    let tagged = 0x4_u128 << 76;
    assert!(validate(tagged));
}
