use vectum_lib::detail::normalize_min_age;
use vectum_lib::detail::AgeValue;
use vectum_lib::errors::Failure;
use vectum_lib::text::parse_u64;
use vectum_lib::text::u64_to_string;

#[test]
fn quoted_and_plain_numbers_normalize_alike() {
    assert_eq!(normalize_min_age(&AgeValue::Text("18".to_string())), Ok(Some(18)));
    assert_eq!(normalize_min_age(&AgeValue::Number(18)), Ok(Some(18)));
}

#[test]
fn null_normalizes_to_none() {
    assert_eq!(normalize_min_age(&AgeValue::Missing), Ok(None));
}

#[test]
fn non_numeric_text_is_a_decode_failure() {
    assert_eq!(
        normalize_min_age(&AgeValue::Text("abc".to_string())),
        Err(Failure::DecodeFailure)
    );
    assert_eq!(normalize_min_age(&AgeValue::Malformed), Err(Failure::DecodeFailure));
}

#[test]
fn numeral_parsing_matches_std() {
    let cases = [
        "18",
        "+7",
        "0",
        "007",
        "18446744073709551615",
        "18446744073709551616",
        "99999999999999999999999",
        "",
        "+",
        "++1",
        "1a",
        "-3",
        " 4",
        "4 ",
    ];
    for s in cases {
        assert_eq!(parse_u64(s), s.parse::<u64>().ok(), "case {:?}", s);
    }
}

#[test]
fn numeral_writing_round_trips() {
    for n in [0u64, 7, 10, 42, 264710, 848450, u64::MAX] {
        let s = u64_to_string(n);
        assert_eq!(s, n.to_string());
        assert_eq!(parse_u64(&s), Some(n));
    }
}
