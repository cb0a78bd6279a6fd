use gamels::catalog::Catalog;
use gamels::fetcher::{catalog_from_document, catalog_from_response, read_app_entry};
use gamels::json::Json;
use gamels::steam_games::AppIdCacheError;

fn text(characters: &str) -> Json {
    Json::Text(characters.to_string())
}

fn object(members: Vec<(&str, Json)>) -> Json {
    Json::Object(members.into_iter().map(|(name, value)| (name.to_string(), value)).collect())
}

fn app(appid: u64, name: &str) -> Json {
    object(vec![("appid", Json::Number(Some(appid))), ("name", text(name))])
}

fn document(apps: Vec<Json>) -> Json {
    object(vec![("applist", object(vec![("apps", Json::Array(apps))]))])
}

fn catalog_of(entries: &[(u64, &str)]) -> Catalog {
    let mut catalog = Catalog::new();
    for (appid, title) in entries {
        catalog.insert(*appid, title.to_string());
    }
    catalog
}

#[test]
fn an_item_gives_its_id_and_title() {
    assert_eq!(
        read_app_entry(&app(440, "Team Fortress 2")),
        Some((440, "Team Fortress 2".to_string()))
    );
    assert_eq!(read_app_entry(&app(0, "")), Some((0, String::new())));
    assert_eq!(read_app_entry(&app(u64::MAX, "last")), Some((u64::MAX, "last".to_string())));
}

#[test]
fn an_item_may_hold_more_than_is_read() {
    let item = object(vec![
        ("last_modified", Json::Number(Some(1))),
        ("name", text("Dota 2")),
        ("price", Json::Null),
        ("appid", Json::Number(Some(570))),
    ]);
    assert_eq!(read_app_entry(&item), Some((570, "Dota 2".to_string())));
}

#[test]
fn an_item_without_id_or_title_gives_nothing() {
    assert_eq!(read_app_entry(&object(vec![("name", text("Dota 2"))])), None);
    assert_eq!(read_app_entry(&object(vec![("appid", Json::Number(Some(570)))])), None);
    assert_eq!(read_app_entry(&object(vec![])), None);
    assert_eq!(read_app_entry(&Json::Null), None);
    assert_eq!(read_app_entry(&Json::Array(vec![Json::Number(Some(570)), text("Dota 2")])), None);
}

#[test]
fn an_item_with_a_wrong_type_gives_nothing() {
    assert_eq!(
        read_app_entry(&object(vec![("appid", text("570")), ("name", text("Dota 2"))])),
        None
    );
    assert_eq!(
        read_app_entry(&object(vec![("appid", Json::Number(None)), ("name", text("Dota 2"))])),
        None
    );
    assert_eq!(
        read_app_entry(&object(vec![
            ("appid", Json::Number(Some(570))),
            ("name", Json::Number(Some(2)))
        ])),
        None
    );
    assert_eq!(
        read_app_entry(&object(vec![("appid", Json::Number(Some(570))), ("name", Json::Null)])),
        None
    );
}

#[test]
fn a_document_gives_its_catalog() {
    let given = document(vec![app(440, "Team Fortress 2"), app(570, "Dota 2")]);
    assert_eq!(
        catalog_from_document(&given),
        Some(catalog_of(&[(440, "Team Fortress 2"), (570, "Dota 2")]))
    );
}

#[test]
fn an_empty_list_gives_the_empty_catalog() {
    assert_eq!(catalog_from_document(&document(vec![])), Some(Catalog::new()));
}

#[test]
fn an_empty_name_is_retained() {
    let built = catalog_from_document(&document(vec![app(5, ""), app(6, "six")]))
        .expect("the document gives a catalog");
    assert_eq!(built.get(5), Some(String::new()));
    assert_eq!(built.len(), 2);
}

#[test]
fn the_later_of_two_items_with_one_id_stands() {
    let built = catalog_from_document(&document(vec![
        app(5, "first"),
        app(6, "six"),
        app(5, "second"),
    ]))
    .expect("the document gives a catalog");
    assert_eq!(built.get(5), Some("second".to_string()));
    assert_eq!(built.get(6), Some("six".to_string()));
    assert_eq!(built.len(), 2);
}

#[test]
fn one_bad_item_spoils_the_list() {
    let bad_last = document(vec![app(440, "Team Fortress 2"), object(vec![("appid", Json::Number(Some(570)))])]);
    assert_eq!(catalog_from_document(&bad_last), None);
    let bad_first = document(vec![Json::Null, app(440, "Team Fortress 2")]);
    assert_eq!(catalog_from_document(&bad_first), None);
    let bad_middle = document(vec![app(1, "one"), app_with_text_id(), app(3, "three")]);
    assert_eq!(catalog_from_document(&bad_middle), None);
}

fn app_with_text_id() -> Json {
    object(vec![("appid", text("2")), ("name", text("two"))])
}

#[test]
fn a_document_without_the_list_gives_nothing() {
    assert_eq!(catalog_from_document(&object(vec![])), None);
    assert_eq!(catalog_from_document(&Json::Null), None);
    assert_eq!(catalog_from_document(&Json::Array(vec![])), None);
    assert_eq!(catalog_from_document(&object(vec![("applist", object(vec![]))])), None);
    assert_eq!(catalog_from_document(&object(vec![("applist", Json::Array(vec![]))])), None);
    assert_eq!(catalog_from_document(&object(vec![("apps", Json::Array(vec![]))])), None);
    assert_eq!(
        catalog_from_document(&object(vec![("applist", object(vec![("apps", object(vec![]))]))])),
        None
    );
    assert_eq!(
        catalog_from_document(&object(vec![("applist", object(vec![("apps", Json::Null)]))])),
        None
    );
}

#[test]
fn a_successful_answer_gives_its_catalog() {
    let body = br#"{"applist":{"apps":[{"appid":440,"name":"Team Fortress 2"},{"appid":570,"name":"Dota 2"}]}}"#;
    assert_eq!(
        catalog_from_response(200, body),
        Ok(catalog_of(&[(440, "Team Fortress 2"), (570, "Dota 2")]))
    );
}

#[test]
fn every_status_from_200_to_299_is_a_success() {
    let body = br#"{"applist":{"apps":[]}}"#;
    for status in 200..300 {
        assert_eq!(catalog_from_response(status, body), Ok(Catalog::new()));
    }
}

#[test]
fn every_other_status_fails_the_fetch() {
    let body = br#"{"applist":{"apps":[{"appid":440,"name":"Team Fortress 2"}]}}"#;
    for status in [0, 100, 199, 300, 301, 304, 400, 403, 404, 429, 500, 502, 503, 599, u16::MAX] {
        assert_eq!(catalog_from_response(status, body), Err(AppIdCacheError::ReqwestError));
    }
}

#[test]
fn a_body_that_is_no_json_fails_the_fetch() {
    assert_eq!(catalog_from_response(200, b""), Err(AppIdCacheError::ReqwestError));
    assert_eq!(
        catalog_from_response(200, b"<html>Bad Gateway</html>"),
        Err(AppIdCacheError::ReqwestError)
    );
    assert_eq!(
        catalog_from_response(200, br#"{"applist":{"apps":["#),
        Err(AppIdCacheError::ReqwestError)
    );
    assert_eq!(
        catalog_from_response(200, &[0xff, 0xfe, 0xfd]),
        Err(AppIdCacheError::ReqwestError)
    );
}

#[test]
fn a_body_of_another_shape_fails_the_fetch() {
    for body in [
        &br#"{}"#[..],
        &br#"[]"#[..],
        &br#"null"#[..],
        &br#"{"applist":{}}"#[..],
        &br#"{"applist":[]}"#[..],
        &br#"{"applist":{"apps":{}}}"#[..],
        &br#"{"applist":{"apps":"none"}}"#[..],
        &br#"{"apps":[]}"#[..],
        &br#"{"applist":{"apps":[{"appid":440}]}}"#[..],
        &br#"{"applist":{"apps":[{"name":"Team Fortress 2"}]}}"#[..],
        &br#"{"applist":{"apps":[{"appid":"440","name":"Team Fortress 2"}]}}"#[..],
        &br#"{"applist":{"apps":[{"appid":-440,"name":"Team Fortress 2"}]}}"#[..],
        &br#"{"applist":{"apps":[{"appid":440.5,"name":"Team Fortress 2"}]}}"#[..],
        &br#"{"applist":{"apps":[{"appid":440,"name":null}]}}"#[..],
        &br#"{"applist":{"apps":[{"appid":440,"name":2}]}}"#[..],
        &br#"{"applist":{"apps":[{"appid":440,"name":"Team Fortress 2"},7]}}"#[..],
    ] {
        assert_eq!(catalog_from_response(200, body), Err(AppIdCacheError::ReqwestError));
    }
}

#[test]
fn an_answer_may_hold_more_than_is_read() {
    let body = br#"{"ignored":true,"applist":{"count":1,"apps":[{"appid":730,"name":"Counter-Strike 2","last_modified":1}]}}"#;
    assert_eq!(catalog_from_response(200, body), Ok(catalog_of(&[(730, "Counter-Strike 2")])));
}

#[test]
fn titles_of_an_answer_are_unescaped() {
    let body = r#"{"applist":{"apps":[{"appid":1,"name":"a\"b\\cé"},{"appid":2,"name":""}]}}"#;
    let built = catalog_from_response(200, body.as_bytes()).expect("the answer gives a catalog");
    assert_eq!(built.get(1), Some("a\"b\\c\u{e9}".to_string()));
    assert_eq!(built.get(2), Some(String::new()));
}

#[test]
fn a_repeated_id_in_an_answer_keeps_the_later_title() {
    let body = br#"{"applist":{"apps":[{"appid":1,"name":"old"},{"appid":1,"name":"new"}]}}"#;
    let built = catalog_from_response(200, body).expect("the answer gives a catalog");
    assert_eq!(built.len(), 1);
    assert_eq!(built.get(1), Some("new".to_string()));
}
