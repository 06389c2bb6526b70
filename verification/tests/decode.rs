use vectum_lib::detail::collect_successes;
use vectum_lib::detail::decode_detail;
use vectum_lib::detail::AgeValue;
use vectum_lib::detail::DetailPayload;
use vectum_lib::detail::Metacritic;
use vectum_lib::detail::RawDetail;
use vectum_lib::detail::RawMetacritic;
use vectum_lib::detail::SourceField;
use vectum_lib::detail::SteamGame;
use vectum_lib::errors::Failure;

fn minimal_raw(name: &str) -> RawDetail {
    RawDetail {
        name: SourceField::Given(name.to_string()),
        appid: SourceField::Missing,
        required_age: AgeValue::Missing,
        is_free: SourceField::Missing,
        detailed_description: SourceField::Missing,
        about_the_game: SourceField::Missing,
        short_description: SourceField::Missing,
        website: SourceField::Missing,
        metacritic: SourceField::Missing,
    }
}

fn minimal_game(name: &str) -> SteamGame {
    SteamGame {
        name: name.to_string(),
        appid: None,
        required_age: None,
        is_free: None,
        detailed_description: None,
        about_the_game: None,
        short_description: None,
        website: None,
        metacritic: None,
    }
}

#[test]
fn failed_lookup_carries_the_exact_id() {
    let p = DetailPayload { success: false, data: None };
    assert_eq!(decode_detail(p, 33), Err(Failure::LookupFailure(33)));
    let p2 = DetailPayload { success: false, data: Some(minimal_raw("some dlc")) };
    assert_eq!(decode_detail(p2, 848450), Err(Failure::LookupFailure(848450)));
}

#[test]
fn successful_payload_decodes_to_a_record() {
    let mut raw = minimal_raw("Subnautica");
    raw.appid = SourceField::Given(264710);
    raw.required_age = AgeValue::Text("18".to_string());
    raw.is_free = SourceField::Given(false);
    raw.metacritic = SourceField::Given(RawMetacritic {
        score: SourceField::Given(87),
        url: SourceField::Given("https://example.org/subnautica".to_string()),
    });
    let p = DetailPayload { success: true, data: Some(raw) };
    let g = decode_detail(p, 264710).unwrap();
    assert_eq!(g.name, "Subnautica");
    assert_eq!(g.appid, Some(264710));
    assert_eq!(g.required_age, Some(18));
    assert_eq!(g.is_free, Some(false));
    assert_eq!(
        g.metacritic,
        Some(Metacritic { score: Some(87), url: Some("https://example.org/subnautica".to_string()) })
    );
}

#[test]
fn missing_name_is_a_decode_failure() {
    let mut raw = minimal_raw("x");
    raw.name = SourceField::Missing;
    let p = DetailPayload { success: true, data: Some(raw) };
    assert_eq!(decode_detail(p, 5), Err(Failure::DecodeFailure));
}

#[test]
fn missing_data_object_is_a_decode_failure() {
    let p = DetailPayload { success: true, data: None };
    assert_eq!(decode_detail(p, 5), Err(Failure::DecodeFailure));
}

#[test]
fn out_of_range_score_is_a_decode_failure() {
    let mut raw = minimal_raw("x");
    raw.metacritic = SourceField::Given(RawMetacritic {
        score: SourceField::Given(300),
        url: SourceField::Missing,
    });
    let p = DetailPayload { success: true, data: Some(raw) };
    assert_eq!(decode_detail(p, 5), Err(Failure::DecodeFailure));
}

#[test]
fn bad_typed_field_is_a_decode_failure() {
    let mut raw = minimal_raw("x");
    raw.is_free = SourceField::Bad;
    let p = DetailPayload { success: true, data: Some(raw) };
    assert_eq!(decode_detail(p, 5), Err(Failure::DecodeFailure));
}

#[test]
fn absent_metacritic_decodes_to_none() {
    let p = DetailPayload { success: true, data: Some(minimal_raw("no rating here")) };
    let g = decode_detail(p, 848450).unwrap();
    assert_eq!(g.metacritic.is_none(), true);
}

#[test]
fn batch_keeps_survivors_in_order() {
    let outcomes = vec![
        Ok(minimal_game("First")),
        Err(Failure::LookupFailure(2)),
        Ok(minimal_game("Third")),
    ];
    let got = collect_successes(&outcomes);
    assert_eq!(got.len(), 2);
    assert_eq!(got[0].name, "First");
    assert_eq!(got[1].name, "Third");
}

#[test]
fn batch_of_only_failures_is_empty() {
    let outcomes = vec![
        Err::<SteamGame, Failure>(Failure::LookupFailure(1)),
        Err(Failure::DecodeFailure),
    ];
    assert_eq!(collect_successes(&outcomes).len(), 0);
}
