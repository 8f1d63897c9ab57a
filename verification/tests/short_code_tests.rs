use shorty::domain::short_code::{
    encode_base62, random_base62_code, validate_custom_code, ShortCodeError, BASE62_ALPHABET,
};
use shorty::infrastructure::code::base62_generator::Base62CodeGenerator;


fn decode(s: &str) -> u128 {
    s.bytes().fold(0u128, |acc, b| {
        acc * 62 + BASE62_ALPHABET.iter().position(|&x| x == b).unwrap() as u128
    })
}

#[test]
fn encodes_unsigned_integer_to_base62() {
    assert_eq!(encode_base62(0), "0");
    assert_eq!(encode_base62(1), "1");
    assert_eq!(encode_base62(9), "9");
    assert_eq!(encode_base62(10), "a");
    assert_eq!(encode_base62(35), "z");
    assert_eq!(encode_base62(36), "A");
    assert_eq!(encode_base62(61), "Z");
    assert_eq!(encode_base62(62), "10");
    assert_eq!(encode_base62(3843), "ZZ");
    assert_eq!(encode_base62(3844), "100");
}

#[test]
fn random_code_uses_only_base62_characters() {
    let code = random_base62_code(32);

    assert_eq!(code.len(), 32);
    assert!(code.bytes().all(|byte| BASE62_ALPHABET.contains(&byte)));
}

#[test]
fn validates_custom_codes() {
    assert!(validate_custom_code("gabriel_123").is_ok());
    assert!(validate_custom_code("my-link").is_ok());
    assert_eq!(
        validate_custom_code("ab"),
        Err(ShortCodeError::InvalidLength { min: 3, max: 64 })
    );
    assert_eq!(
        validate_custom_code("bad/code"),
        Err(ShortCodeError::InvalidCharacters)
    );
    assert_eq!(validate_custom_code("urls"), Err(ShortCodeError::Reserved));
}

#[test]
fn base62_roundtrips_and_is_canonical() {
    for v in [0u128, 1, 61, 62, 63, 3843, 3844, 238327, 1_000_000_007, u64::MAX as u128, u128::MAX] {
        let s = encode_base62(v);
        assert_eq!(decode(&s), v);
        assert!(s.bytes().all(|b| BASE62_ALPHABET.contains(&b)));
        if v > 0 {
            assert!(!s.starts_with('0'));
        }
    }
    assert_eq!(encode_base62(u128::MAX).len(), 22);
}

#[test]
fn base62_distinct_values_have_distinct_codes() {
    let a = encode_base62(12345);
    let b = encode_base62(12346);
    assert_ne!(a, b);
}

#[test]
fn random_code_of_length_zero_is_empty() {
    assert_eq!(random_base62_code(0), "");
}

#[test]
fn generator_makes_codes_of_its_length() {
    let generator = Base62CodeGenerator::new(7);
    let code = generator.generate();
    assert_eq!(code.len(), 7);
    assert!(code.bytes().all(|b| BASE62_ALPHABET.contains(&b)));
}

#[test]
fn custom_code_length_bounds() {
    assert!(validate_custom_code("abc").is_ok());
    assert!(validate_custom_code(&"a".repeat(64)).is_ok());
    assert_eq!(
        validate_custom_code(&"a".repeat(65)),
        Err(ShortCodeError::InvalidLength { min: 3, max: 64 })
    );
    assert_eq!(
        validate_custom_code(""),
        Err(ShortCodeError::InvalidLength { min: 3, max: 64 })
    );
}

#[test]
fn custom_code_length_counts_bytes() {
    // two characters, four bytes: long enough, but not ASCII
    assert_eq!(validate_custom_code("éé"), Err(ShortCodeError::InvalidCharacters));
    // one character of two bytes is too short
    assert_eq!(
        validate_custom_code("é"),
        Err(ShortCodeError::InvalidLength { min: 3, max: 64 })
    );
}

#[test]
fn reserved_codes_ignore_case() {
    assert_eq!(validate_custom_code("HEALTH"), Err(ShortCodeError::Reserved));
    assert_eq!(validate_custom_code("Metrics"), Err(ShortCodeError::Reserved));
    assert_eq!(validate_custom_code("uRlS"), Err(ShortCodeError::Reserved));
    assert!(validate_custom_code("urlsx").is_ok());
    assert!(validate_custom_code("health-check").is_ok());
}

#[test]
fn short_code_error_messages() {
    assert_eq!(
        ShortCodeError::InvalidLength { min: 3, max: 64 }.message(),
        "short code must be between 3 and 64 characters"
    );
    assert_eq!(
        ShortCodeError::InvalidLength { min: 0, max: 1234567 }.message(),
        "short code must be between 0 and 1234567 characters"
    );
    assert_eq!(
        ShortCodeError::InvalidCharacters.message(),
        "short code can only contain letters, numbers, hyphen, and underscore"
    );
    assert_eq!(ShortCodeError::Reserved.message(), "short code is reserved");
}

#[test]
fn canonical_strings_are_encodings() {
    for s in ["0", "1", "Z", "10", "zZ", "abc1234", "Zzzzzzzz"] {
        assert_eq!(encode_base62(decode(s)), s);
    }
}

#[test]
fn alphabet_is_in_digit_order() {
    assert_eq!(
        &BASE62_ALPHABET[..],
        b"0123456789abcdefghijklmnopqrstuvwxyzABCDEFGHIJKLMNOPQRSTUVWXYZ"
    );
    for d in 0..62u128 {
        assert_eq!(encode_base62(d).as_bytes(), &BASE62_ALPHABET[d as usize..d as usize + 1]);
    }
}

#[test]
fn encoding_keeps_the_order_of_numbers() {
    let precedes = |x: &str, y: &str| {
        x.len() < y.len()
            || (x.len() == y.len()
                && x.bytes().zip(y.bytes()).find(|(a, b)| a != b).map_or(false, |(a, b)| {
                    let pos = |c: u8| BASE62_ALPHABET.iter().position(|&x| x == c).unwrap();
                    pos(a) < pos(b)
                }))
    };
    let values = [0u128, 1, 9, 10, 35, 36, 61, 62, 100, 3843, 3844, 999_999, u128::MAX - 1, u128::MAX];
    for i in 0..values.len() {
        for j in i + 1..values.len() {
            assert!(precedes(&encode_base62(values[i]), &encode_base62(values[j])));
            assert!(!precedes(&encode_base62(values[j]), &encode_base62(values[i])));
        }
    }
}
