use lunchbot::json::{collect_strings, Json};
use lunchbot::scrape::{menu_html_in_state, menu_page_status, state_json_in_page};

fn to_json(v: serde_json::Value) -> Json {
    match v {
        serde_json::Value::Null => Json::Null,
        serde_json::Value::Bool(b) => Json::Bool(b),
        serde_json::Value::Number(n) => Json::Number(n.to_string()),
        serde_json::Value::String(s) => Json::Str(s),
        serde_json::Value::Array(a) => Json::Array(a.into_iter().map(to_json).collect()),
        serde_json::Value::Object(m) => Json::Object(m.into_iter().map(|(k, v)| (k, to_json(v))).collect()),
    }
}

fn parse(text: &str) -> Result<Json, String> {
    serde_json::from_str::<serde_json::Value>(text).map(to_json).map_err(|e| e.to_string())
}

const PAGE: &str = r#"<html><script>var hint = "Mandag Tirsdag Fredag"; window.__STATE__ = "{\"title\":\"Meny\",\"body\":\"<p>Mandag: fisk</p><p>Tirsdag: suppe</p><p>Onsdag: pasta</p><p>Torsdag: taco</p><p>Fredag: pizza</p>\",\"short\":\"Mandag Tirsdag Onsdag Torsdag Fredag\"}";</script></html>"#;

#[test]
fn finds_the_menu_in_a_page() {
    let state = state_json_in_page(PAGE).unwrap();
    assert!(state.starts_with("{\"title\":\"Meny\""));
    let html = menu_html_in_state(parse(&state)).unwrap();
    assert_eq!(
        html,
        "<p>Mandag: fisk</p><p>Tirsdag: suppe</p><p>Onsdag: pasta</p><p>Torsdag: taco</p><p>Fredag: pizza</p>"
    );
}

#[test]
fn longest_literal_wins_and_the_last_of_equals() {
    let page = r#"x = "Mandag Tirsdag Onsdag Torsdag Fredag A"; y = "Mandag Tirsdag Onsdag Torsdag Fredag B"; z = "Mandag Onsdag Torsdag Fredag, lang tekst uten tirsdag";"#;
    assert_eq!(state_json_in_page(page).unwrap(), "Mandag Tirsdag Onsdag Torsdag Fredag B");
    let page2 = r#""Mandag Tirsdag Onsdag Torsdag Fredag, lengre" "Mandag Tirsdag Onsdag Torsdag Fredag""#;
    assert_eq!(state_json_in_page(page2).unwrap(), "Mandag Tirsdag Onsdag Torsdag Fredag, lengre");
}

#[test]
fn state_literal_must_name_all_five_weekdays() {
    let page = r#"a="Mandag Tirsdag Fredag Mandag Tirsdag Fredag Mandag Tirsdag Fredag"; b="{\"a\":\"Mandag Tirsdag Onsdag Torsdag Fredag\"}""#;
    let state = state_json_in_page(page).unwrap();
    assert_eq!(state, "{\"a\":\"Mandag Tirsdag Onsdag Torsdag Fredag\"}");
    assert_eq!(menu_html_in_state(parse(&state)).unwrap(), "Mandag Tirsdag Onsdag Torsdag Fredag".to_string());
}

#[test]
fn literal_length_is_measured_in_bytes() {
    // Four characters of two bytes each outweigh six one-byte characters.
    let page = "\"Mandag Tirsdag Onsdag Torsdag Fredag \u{e6}\u{f8}\u{e5}\u{e6}\" \"Mandag Tirsdag Onsdag Torsdag Fredag abcdef\"";
    assert_eq!(state_json_in_page(page).unwrap(), "Mandag Tirsdag Onsdag Torsdag Fredag \u{e6}\u{f8}\u{e5}\u{e6}");
}

#[test]
fn page_without_state_literal() {
    let page = "<html>\"Mandag Tirsdag Fredag\" men ingen onsdag eller torsdag</html>";
    assert_eq!(
        state_json_in_page(page).unwrap_err(),
        format!(
            "could not find a JSON string containing weekday markers in page ({} bytes); the menu encoding may have changed",
            page.len()
        )
    );
    assert_eq!(
        state_json_in_page("").unwrap_err(),
        "could not find a JSON string containing weekday markers in page (0 bytes); the menu encoding may have changed"
    );
}

#[test]
fn state_literal_that_does_not_decode() {
    let page = r#"s = "Mandag Tirsdag Onsdag Torsdag Fredag \q";"#;
    let err = state_json_in_page(page).unwrap_err();
    assert!(err.starts_with("decode outer JSON string literal: "), "{err}");
    assert_eq!(err, format!("decode outer JSON string literal: {}", serde_json::from_str::<String>("\"Mandag Tirsdag Onsdag Torsdag Fredag \\q\"").unwrap_err()));
}

#[test]
fn decoding_unescapes_the_literal() {
    let page = r#"s = "Mandag\nTirsdag\tOnsdag Torsdag Fredag \"sitat\" \u00e6";"#;
    assert_eq!(state_json_in_page(page).unwrap(), "Mandag\nTirsdag\tOnsdag Torsdag Fredag \"sitat\" \u{e6}");
}

#[test]
fn first_longest_menu_string_is_chosen() {
    let state = Json::Object(vec![
        ("a".to_string(), Json::Str("Mandag Tirsdag Onsdag Torsdag Fredag 1".to_string())),
        (
            "b".to_string(),
            Json::Array(vec![
                Json::Number("3".to_string()),
                Json::Str("Mandag Tirsdag Onsdag Torsdag Fredag 2".to_string()),
                Json::Str("Mandag Tirsdag Fredag, much longer but not all five days".to_string()),
            ]),
        ),
    ]);
    assert_eq!(menu_html_in_state(Ok(state)).unwrap(), "Mandag Tirsdag Onsdag Torsdag Fredag 1");
}

#[test]
fn state_without_menu() {
    let state = Json::Array(vec![Json::Str("Mandag Tirsdag Onsdag Torsdag".to_string()), Json::Null, Json::Bool(true)]);
    assert_eq!(
        menu_html_in_state(Ok(state)).unwrap_err(),
        "no string in SPA state contains all five weekday markers"
    );
}

#[test]
fn state_that_does_not_parse() {
    assert_eq!(
        menu_html_in_state(Err("expected value at line 1 column 1".to_string())).unwrap_err(),
        "parse SPA state JSON: expected value at line 1 column 1"
    );
    let err = menu_html_in_state(parse("{nope")).unwrap_err();
    assert!(err.starts_with("parse SPA state JSON: "));
}

#[test]
fn strings_are_collected_in_document_order() {
    let doc = parse(r#"{"b":["x",{"k":"y"},null,2],"a":"z"}"#).unwrap();
    let mut out = vec!["before".to_string()];
    collect_strings(&doc, &mut out);
    // serde_json lists object members by name.
    assert_eq!(out, vec!["before", "z", "x", "y"]);
}

#[test]
fn page_status() {
    assert!(menu_page_status(200).is_ok());
    assert!(menu_page_status(299).is_ok());
    assert_eq!(menu_page_status(404).unwrap_err(), "non-2xx (404) from tullin.munu.shop/meny");
    assert_eq!(menu_page_status(300).unwrap_err(), "non-2xx (300) from tullin.munu.shop/meny");
    assert_eq!(menu_page_status(199).unwrap_err(), "non-2xx (199) from tullin.munu.shop/meny");
}
