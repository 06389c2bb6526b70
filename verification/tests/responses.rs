use vectum_lib::catalog::find_by_name_substring;
use vectum_lib::errors::Error;
use vectum_lib::errors::Failure;
use vectum_lib::errors::SteamError;
use vectum_lib::json::decode_catalog_response;
use vectum_lib::json::decode_detail_response;
use vectum_lib::json::resolve_details;

const CATALOG_BODY: &str = r#"{"applist":{"apps":[{"appid":264710,"name":"Subnautica"},{"appid":271590,"name":"Grand Theft Auto V"}]}}"#;

#[test]
fn catalog_body_decodes_in_source_order() {
    let apps = decode_catalog_response(CATALOG_BODY).unwrap();
    assert_eq!(apps.len(), 2);
    assert_eq!(apps[0].appid, 264710);
    assert_eq!(apps[0].name, "Subnautica");
    assert_eq!(apps[1].appid, 271590);
    assert_eq!(apps[1].name, "Grand Theft Auto V");
}

#[test]
fn catalog_keeps_a_literal_zero_id() {
    let body = r#"{"applist":{"apps":[{"appid":0,"name":"zero"}]}}"#;
    let apps = decode_catalog_response(body).unwrap();
    assert_eq!(apps[0].appid, 0);
}

#[test]
fn catalog_without_applist_key_is_a_decode_failure() {
    let r = decode_catalog_response(r#"{"apps":[{"appid":1,"name":"x"}]}"#);
    assert_eq!(r.unwrap_err(), Failure::DecodeFailure);
}

#[test]
fn malformed_catalog_json_is_a_decode_failure() {
    assert_eq!(decode_catalog_response("not json").unwrap_err(), Failure::DecodeFailure);
}

#[test]
fn one_bad_entry_fails_the_whole_catalog() {
    let body = r#"{"applist":{"apps":[{"appid":1,"name":"ok"},{"appid":"2","name":"bad"}]}}"#;
    assert_eq!(decode_catalog_response(body).unwrap_err(), Failure::DecodeFailure);
    let missing = r#"{"applist":{"apps":[{"appid":1,"name":"ok"},{"name":"no id"}]}}"#;
    assert_eq!(decode_catalog_response(missing).unwrap_err(), Failure::DecodeFailure);
}

#[test]
fn detail_success_false_is_a_lookup_failure() {
    let body = r#"{"33":{"success":false}}"#;
    assert_eq!(decode_detail_response(body, 33).unwrap_err(), Failure::LookupFailure(33));
}

#[test]
fn detail_under_another_key_is_a_lookup_failure() {
    let body = r#"{"34":{"success":true,"data":{"name":"x"}}}"#;
    assert_eq!(decode_detail_response(body, 33).unwrap_err(), Failure::LookupFailure(33));
}

#[test]
fn detail_success_true_decodes_the_data() {
    let body = r#"{"264710":{"success":true,"data":{"name":"Subnautica","steam_appid":264710,"required_age":"18","is_free":false,"website":null,"metacritic":{"score":87,"url":"https://example.org/subnautica"}}}}"#;
    let g = decode_detail_response(body, 264710).unwrap();
    assert_eq!(g.name, "Subnautica");
    assert_eq!(g.appid, Some(264710));
    assert_eq!(g.required_age, Some(18));
    assert_eq!(g.is_free, Some(false));
    assert_eq!(g.website, None);
    let m = g.metacritic.unwrap();
    assert_eq!(m.score, Some(87));
    assert_eq!(m.url, Some("https://example.org/subnautica".to_string()));
}

#[test]
fn detail_numeric_age_decodes_too() {
    let body = r#"{"10":{"success":true,"data":{"name":"HL","required_age":18}}}"#;
    assert_eq!(decode_detail_response(body, 10).unwrap().required_age, Some(18));
}

#[test]
fn detail_bad_age_is_a_decode_failure() {
    let body = r#"{"10":{"success":true,"data":{"name":"HL","required_age":"abc"}}}"#;
    assert_eq!(decode_detail_response(body, 10).unwrap_err(), Failure::DecodeFailure);
    let body2 = r#"{"10":{"success":true,"data":{"name":"HL","required_age":true}}}"#;
    assert_eq!(decode_detail_response(body2, 10).unwrap_err(), Failure::DecodeFailure);
}

#[test]
fn search_scenario_returns_one_record() {
    let catalog = decode_catalog_response(CATALOG_BODY).unwrap();
    let ids = find_by_name_substring(&catalog, "Subnautica");
    assert_eq!(ids, vec![264710]);
    let responses = vec![(
        264710u64,
        r#"{"264710":{"success":true,"data":{"name":"Subnautica"}}}"#.to_string(),
    )];
    let games = resolve_details(&responses);
    assert_eq!(games.len(), 1);
    assert_eq!(games[0].name, "Subnautica");
}

#[test]
fn batch_with_one_failed_lookup_keeps_two_in_order() {
    let responses = vec![
        (1u64, r#"{"1":{"success":true,"data":{"name":"First"}}}"#.to_string()),
        (2u64, r#"{"2":{"success":false}}"#.to_string()),
        (3u64, r#"{"3":{"success":true,"data":{"name":"Third"}}}"#.to_string()),
    ];
    let games = resolve_details(&responses);
    assert_eq!(games.len(), 2);
    assert_eq!(games[0].name, "First");
    assert_eq!(games[1].name, "Third");
}

#[test]
fn error_messages_are_kept() {
    let e = Error::new("Couldn't find app with id 33");
    assert_eq!(e.description, "Couldn't find app with id 33");
    let s = SteamError::new("lookup failed");
    assert_eq!(s.details(), "lookup failed");
}
