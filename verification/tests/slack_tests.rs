use lunchbot::config::Config;
use lunchbot::r2::{image_key, public_url, IMAGE_CONTENT_TYPE};
use lunchbot::slack::{post_image_request, post_outcome, thread_reply_request, title, PostResponse, POST_MESSAGE};

#[test]
fn post_body_matches_the_message_layout() {
    let req = post_image_request("xoxb-1", "C123", "https://img.example/menu-2024-05-06.png", "Mandag", "2024-05-06");
    assert_eq!(req.url, POST_MESSAGE);
    assert_eq!(req.url, "https://slack.com/api/chat.postMessage");
    let hs: Vec<(&str, &str)> = req.headers.iter().map(|(a, b)| (a.as_str(), b.as_str())).collect();
    assert_eq!(hs, vec![("Authorization", "Bearer xoxb-1"), ("Content-Type", "application/json")]);
    assert_eq!(
        req.body,
        "{\"channel\":\"C123\",\"text\":\"Dagens meny \u{2014} Mandag 2024-05-06\",\"blocks\":[{\"text\":{\"text\":\"*Dagens meny* \u{2014} Mandag 2024-05-06\",\"type\":\"mrkdwn\"},\"type\":\"section\"},{\"alt_text\":\"Dagens meny\",\"image_url\":\"https://img.example/menu-2024-05-06.png\",\"type\":\"image\"}]}"
    );
    // The same text as serde_json writes for the message.
    let expected: serde_json::Value = serde_json::from_str(
        r#"{
            "channel": "C123",
            "text": "Dagens meny — Mandag 2024-05-06",
            "blocks": [
                {"type": "section", "text": {"type": "mrkdwn", "text": "*Dagens meny* — Mandag 2024-05-06"}},
                {"type": "image", "image_url": "https://img.example/menu-2024-05-06.png", "alt_text": "Dagens meny"}
            ]
        }"#,
    )
    .unwrap();
    assert_eq!(serde_json::to_string(&expected).unwrap().len(), req.body.len());
    let got: serde_json::Value = serde_json::from_str(&req.body).unwrap();
    assert_eq!(got, expected);
}

#[test]
fn post_body_escapes_values() {
    let req = post_image_request("t", "C\"1", "u", "Mandag", "d");
    assert!(req.body.starts_with("{\"channel\":\"C\\\"1\","));
}

#[test]
fn titles() {
    assert_eq!(title("Fredag", "2024-05-10"), "Dagens meny \u{2014} Fredag 2024-05-10");
}

#[test]
fn thread_reply_body() {
    let req = thread_reply_request("t", "C1", "1715.0001", "Style prompt:\n```x```");
    assert_eq!(req.body, "{\"channel\":\"C1\",\"text\":\"Style prompt:\\n```x```\",\"thread_ts\":\"1715.0001\"}");
}

fn reply(ok: bool, error: Option<&str>, ts: Option<&str>) -> PostResponse {
    PostResponse { ok, error: error.map(str::to_string), ts: ts.map(str::to_string) }
}

#[test]
fn slack_answers() {
    assert_eq!(post_outcome(200, "{}", Ok(reply(true, None, Some("171.5")))).unwrap(), "171.5");
    assert_eq!(post_outcome(200, "{}", Ok(reply(true, None, None))).unwrap(), "");
    assert_eq!(
        post_outcome(200, "{}", Ok(reply(false, Some("channel_not_found"), None))).unwrap_err(),
        "slack chat.postMessage failed: channel_not_found"
    );
    assert_eq!(post_outcome(200, "{}", Ok(reply(false, None, None))).unwrap_err(), "slack chat.postMessage failed: unknown");
    assert_eq!(
        post_outcome(502, "Bad Gateway", Ok(reply(true, None, Some("1")))).unwrap_err(),
        "non-2xx (502) from chat.postMessage: Bad Gateway"
    );
    assert_eq!(
        post_outcome(200, "nope", Err("expected ident at line 1 column 2".to_string())).unwrap_err(),
        "parse Slack response: expected ident at line 1 column 2"
    );
}

#[test]
fn storage_names() {
    assert_eq!(image_key("2024-05-06"), "menu-2024-05-06.png");
    assert_eq!(public_url("https://pub.r2.dev", "menu-2024-05-06.png"), "https://pub.r2.dev/menu-2024-05-06.png");
    assert_eq!(IMAGE_CONTENT_TYPE, "image/png");
}

#[test]
fn config_drops_trailing_slashes() {
    let cfg = Config::from_values(
        "g".to_string(),
        "a".to_string(),
        "t".to_string(),
        "s".to_string(),
        "c".to_string(),
        "https://pub.r2.dev///",
    );
    assert_eq!(cfg.r2_public_url_base, "https://pub.r2.dev");
    assert_eq!(cfg.gemini_api_key, "g");
    assert_eq!(cfg.slack_channel_id, "c");
    let plain = Config::from_values(String::new(), String::new(), String::new(), String::new(), String::new(), "x/y");
    assert_eq!(plain.r2_public_url_base, "x/y");
    let only = Config::from_values(String::new(), String::new(), String::new(), String::new(), String::new(), "//");
    assert_eq!(only.r2_public_url_base, "");
}
