use base64::Engine;
use lunchbot::gemini::{
    classify_menu_image, classify_menu_text, first_candidate_parts, menu_image_prompt, menu_text_from_parts,
    menu_text_prompt, pick_style_prompt, style_prompt, Candidate, CandidateContent, Gemini, GeminiResponse,
    InlineData, ResponsePart, IMAGE_MODEL, STYLE_COUNT, TEXT_MODEL,
};
use lunchbot::json::quoted;
use lunchbot::retry::Outcome;

fn gemini() -> Gemini<'static> {
    Gemini { api_key: "KEY", cf_account_id: "acct", cf_ai_gateway_token: "gw" }
}

fn text_part(t: &str) -> ResponsePart {
    ResponsePart { text: Some(t.to_string()), inline_data: None }
}

fn data_part(d: &str) -> ResponsePart {
    ResponsePart { text: None, inline_data: Some(InlineData { mime_type: "image/png".to_string(), data: d.to_string() }) }
}

fn response(parts: Vec<ResponsePart>) -> GeminiResponse {
    GeminiResponse { candidates: vec![Candidate { content: CandidateContent { parts } }] }
}

fn headers(h: &[(String, String)]) -> Vec<(&str, &str)> {
    h.iter().map(|(a, b)| (a.as_str(), b.as_str())).collect()
}

#[test]
fn quoting_escapes_strings() {
    assert_eq!(quoted("plain"), "\"plain\"");
    assert_eq!(quoted("a\"b\n\\"), "\"a\\\"b\\n\\\\\"");
    assert_eq!(quoted("\u{2022} fisk"), "\"\u{2022} fisk\"");
    assert_eq!(quoted("\u{1}\u{8}\u{c}\r\t\u{1f} \u{7f}"), "\"\\u0001\\b\\f\\r\\t\\u001f \u{7f}\"");
    for s in ["a\u{0}b", "\"\\/", "\u{1b}[0m", "Mandag \u{e6}"] {
        assert_eq!(quoted(s), serde_json::to_string(s).unwrap());
    }
}

#[test]
fn text_request() {
    let req = gemini().menu_text_request("Mandag", "<p>meny</p>");
    assert_eq!(
        req.url,
        "https://gateway.ai.cloudflare.com/v1/acct/default/google-ai-studio/v1beta/models/gemini-2.5-flash:generateContent"
    );
    assert_eq!(
        headers(&req.headers),
        vec![("Content-Type", "application/json"), ("x-goog-api-key", "KEY"), ("cf-aig-authorization", "Bearer gw")]
    );
    let prompt = menu_text_prompt("Mandag", "<p>meny</p>");
    assert_eq!(req.body, format!("{{\"contents\":[{{\"parts\":[{{\"text\":{}}}]}}]}}", serde_json::to_string(&prompt).unwrap()));
    let v: serde_json::Value = serde_json::from_str(&req.body).unwrap();
    assert_eq!(v["contents"][0]["parts"][0]["text"], prompt.as_str());
}

#[test]
fn image_request() {
    let req = gemini().menu_image_request("*Dagens*\n\u{2022} Fisk", "Clean studio");
    assert!(req.url.ends_with("/models/gemini-2.5-flash-image:generateContent"));
    let prompt = menu_image_prompt("*Dagens*\n\u{2022} Fisk", "Clean studio");
    assert_eq!(
        req.body,
        format!(
            "{{\"contents\":[{{\"parts\":[{{\"text\":{}}}]}}],\"generationConfig\":{{\"responseModalities\":[\"TEXT\",\"IMAGE\"]}}}}",
            serde_json::to_string(&prompt).unwrap()
        )
    );
    assert_eq!(TEXT_MODEL, "gemini-2.5-flash");
    assert_eq!(IMAGE_MODEL, "gemini-2.5-flash-image");
}

#[test]
fn prompts() {
    let p = menu_text_prompt("Onsdag", "HTML");
    assert!(p.starts_with("Today is Onsdag. The text below is a very loosely structured Norwegian HTML menu.\n\nToday's menu generally consists of three parts: today's dish (\"Dagens\"), the vegetarian option"));
    assert!(p.contains("starting with `\u{2022} ` describing the dish. No headers, no commentary, no surrounding prose. Fix obvious typos.\n\nMenu HTML:\nHTML"));
    assert!(p.ends_with("Menu HTML:\nHTML"));
    let q = menu_image_prompt("MENY", "STIL");
    assert_eq!(
        q,
        "Create an illustrative image depicting ONLY the food of today's lunch menu. The image must contain no text, no labels, no menu boards, no chalkboards, and no signage of any kind \u{2014} pure food imagery. Style: STIL\n\nToday's menu:\nMENY"
    );
}

#[test]
fn styles() {
    assert!(style_prompt(0).starts_with("Vibrant overhead food photography"));
    assert!(style_prompt(4).starts_with("Moody, dramatic close-up"));
    let all: Vec<&str> = (0..STYLE_COUNT).map(style_prompt).collect();
    for _ in 0..20 {
        assert!(all.contains(&pick_style_prompt()));
    }
}

#[test]
fn first_candidate() {
    let parts = first_candidate_parts(Ok(response(vec![text_part("a"), text_part("b")])), "BODY").unwrap();
    assert_eq!(parts.len(), 2);
    assert_eq!(
        first_candidate_parts(Ok(GeminiResponse { candidates: vec![] }), "BODY").err().unwrap(),
        "Gemini response had no candidates: BODY"
    );
    assert_eq!(
        first_candidate_parts(Err("EOF while parsing".to_string()), "BODY").err().unwrap(),
        "parse Gemini JSON response: EOF while parsing"
    );
}

#[test]
fn menu_text_is_trimmed_lines() {
    let parts = vec![text_part("  *Dagens*  \n"), data_part("AAAA"), text_part("   "), text_part("\u{2022} Fisk\n")];
    assert_eq!(menu_text_from_parts(&parts), "*Dagens*\n\u{2022} Fisk");
    assert_eq!(menu_text_from_parts(&vec![]), "");
}

#[test]
fn classify_text_statuses() {
    assert!(matches!(classify_menu_text(429, "slow", Err("x".to_string())), Outcome::Retry));
    assert!(matches!(classify_menu_text(503, "down", Err("x".to_string())), Outcome::Retry));
    match classify_menu_text(400, "bad", Err("x".to_string())) {
        Outcome::Fatal(m) => assert_eq!(m, "Gemini returned 400: bad"),
        _ => panic!("expected a fatal outcome"),
    }
    match classify_menu_text(200, "{}", Ok(response(vec![text_part(" "), data_part("AA==")]))) {
        Outcome::Fatal(m) => assert_eq!(m, "Gemini returned no menu text: {}"),
        _ => panic!("expected a fatal outcome"),
    }
    match classify_menu_text(200, "{}", Err("bad json".to_string())) {
        Outcome::Fatal(m) => assert_eq!(m, "parse Gemini JSON response: bad json"),
        _ => panic!("expected a fatal outcome"),
    }
    match classify_menu_text(200, "{}", Ok(response(vec![text_part("*Suppe*"), text_part(" \u{2022} Gulrot ")]))) {
        Outcome::Done(t) => assert_eq!(t, "*Suppe*\n\u{2022} Gulrot"),
        _ => panic!("expected menu text"),
    }
}

#[test]
fn classify_image() {
    match classify_menu_image(200, "{}", Ok(response(vec![text_part("her"), data_part("aGVsbG8="), data_part("d29ybGQ=")]))) {
        Outcome::Done(png) => assert_eq!(png, b"hello".to_vec()),
        _ => panic!("expected bytes"),
    }
    assert!(matches!(classify_menu_image(200, "{}", Ok(response(vec![text_part("only text")]))), Outcome::Retry));
    match classify_menu_image(200, "{}", Ok(response(vec![data_part("not base64!")]))) {
        Outcome::Fatal(m) => {
            let e = base64::engine::general_purpose::STANDARD.decode("not base64!").unwrap_err();
            assert_eq!(m, format!("base64-decode Gemini image bytes: {e}"));
        }
        _ => panic!("expected a fatal outcome"),
    }
    match classify_menu_image(200, "B", Ok(GeminiResponse { candidates: vec![] })) {
        Outcome::Fatal(m) => assert_eq!(m, "Gemini response had no candidates: B"),
        _ => panic!("expected a fatal outcome"),
    }
    assert!(matches!(classify_menu_image(500, "", Err(String::new())), Outcome::Retry));
    match classify_menu_image(301, "moved", Err(String::new())) {
        Outcome::Fatal(m) => assert_eq!(m, "Gemini returned 301: moved"),
        _ => panic!("expected a fatal outcome"),
    }
}
