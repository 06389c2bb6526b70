use vectum_lib::catalog::find_by_name_substring;
use vectum_lib::catalog::App;
use vectum_lib::catalog::Applist;
use vectum_lib::catalog::AppListResponse;
use vectum_lib::catalog::Platforms;
use vectum_lib::catalog::SteamApp;
use vectum_lib::text::contains_substring;

fn entry(appid: u64, name: &str) -> SteamApp {
    SteamApp { appid, name: name.to_string() }
}

#[test]
fn empty_query_returns_every_entry() {
    let catalog = vec![entry(10, "Half-Life"), entry(20, "Portal"), entry(30, "Dota 2")];
    assert_eq!(find_by_name_substring(&catalog, ""), vec![10, 20, 30]);
}

#[test]
fn search_is_case_sensitive() {
    let catalog = vec![entry(70, "Half-Life")];
    assert_eq!(find_by_name_substring(&catalog, "half-life"), Vec::<u64>::new());
    assert_eq!(find_by_name_substring(&catalog, "Half-Life"), vec![70]);
}

#[test]
fn search_filters_by_substring() {
    let catalog = vec![entry(264710, "Subnautica"), entry(271590, "Grand Theft Auto V")];
    assert_eq!(find_by_name_substring(&catalog, "Subnautica"), vec![264710]);
    assert_eq!(find_by_name_substring(&catalog, "Theft"), vec![271590]);
    assert_eq!(find_by_name_substring(&catalog, "a"), vec![264710, 271590]);
    assert_eq!(find_by_name_substring(&catalog, "Portal"), Vec::<u64>::new());
}

#[test]
fn search_keeps_duplicates_in_order() {
    let catalog = vec![entry(1, "Portal"), entry(2, "Portal 2"), entry(1, "Portal")];
    assert_eq!(find_by_name_substring(&catalog, "Portal"), vec![1, 2, 1]);
}

#[test]
fn substring_containment_is_literal() {
    assert!(contains_substring("Grand Theft Auto V", "Theft"));
    assert!(contains_substring("Grand Theft Auto V", ""));
    assert!(contains_substring("abc", "abc"));
    assert!(!contains_substring("abc", "abcd"));
    assert!(!contains_substring("abc", "B"));
    assert!(contains_substring("", ""));
    assert!(!contains_substring("", "a"));
}

#[test]
fn app_list_response_shape_holds_entries() {
    let resp = AppListResponse {
        applist: Applist { apps: vec![App { appid: 10, name: "Half-Life".to_string() }] },
    };
    assert_eq!(resp.applist.apps.len(), 1);
    assert_eq!(resp.applist.apps[0], App { appid: 10, name: "Half-Life".to_string() });
    assert_eq!(AppListResponse::default().applist.apps.len(), 0);
    let p = Platforms::Linux;
    assert!(matches!(p, Platforms::Linux));
}
