//! Posting the picture to Slack with `chat.postMessage`, and reading
//! Slack's answer.

use vstd::prelude::*;
use vstd::string::*;

use crate::http::{bearer, bearer_value, header, header_views, HttpPost};
use crate::json::{json_quoted, quoted};
use crate::text::{decimal, decimal_string};

verus! {

broadcast use vstd::string::group_string_axioms;

pub const POST_MESSAGE: &'static str = "https://slack.com/api/chat.postMessage";

/// Slack's answer to `chat.postMessage`, as serde reads it.
pub struct PostResponse {
    pub ok: bool,
    pub error: Option<String>,
    pub ts: Option<String>,
}

/// The plain-text title of the day's post.
pub open spec fn title_text(day_no: Seq<char>, date_iso: Seq<char>) -> Seq<char> {
    "Dagens meny \u{2014} "@ + day_no + " "@ + date_iso
}

/// The mrkdwn heading of the day's post.
pub open spec fn heading_text(day_no: Seq<char>, date_iso: Seq<char>) -> Seq<char> {
    "*Dagens meny* \u{2014} "@ + day_no + " "@ + date_iso
}

/// The JSON body of the day's post: the channel, the title as fallback
/// text, and two blocks, a heading section and the picture.
pub open spec fn post_body_text(
    channel: Seq<char>,
    image_url: Seq<char>,
    day_no: Seq<char>,
    date_iso: Seq<char>,
) -> Seq<char> {
    "{\"channel\":"@ + json_quoted(channel) + ",\"text\":"@ + json_quoted(title_text(day_no, date_iso))
        + ",\"blocks\":[{\"text\":{\"text\":"@ + json_quoted(heading_text(day_no, date_iso))
        + ",\"type\":\"mrkdwn\"},\"type\":\"section\"},{\"alt_text\":\"Dagens meny\",\"image_url\":"@
        + json_quoted(image_url) + ",\"type\":\"image\"}]}"@
}

/// The JSON body of a reply in a message's thread.
pub open spec fn reply_body_text(channel: Seq<char>, thread_ts: Seq<char>, text: Seq<char>) -> Seq<char> {
    "{\"channel\":"@ + json_quoted(channel) + ",\"text\":"@ + json_quoted(text) + ",\"thread_ts\":"@
        + json_quoted(thread_ts) + "}"@
}

/// The headers of a `chat.postMessage` request, in order.
pub open spec fn post_header_text(bot_token: Seq<char>) -> Seq<(Seq<char>, Seq<char>)> {
    seq![("Authorization"@, bearer(bot_token)), ("Content-Type"@, "application/json"@)]
}

pub open spec fn post_status_message(status: nat, text: Seq<char>) -> Seq<char> {
    "non-2xx ("@ + decimal(status) + ") from chat.postMessage: "@ + text
}

pub open spec fn response_parse_prefix() -> Seq<char> {
    "parse Slack response: "@
}

pub open spec fn refused_message(error: Option<String>) -> Seq<char> {
    "slack chat.postMessage failed: "@ + match error {
        Some(e) => e@,
        None => "unknown"@,
    }
}

/// The title of the day's post.
pub fn title(day_no: &str, date_iso: &str) -> (res: String)
    ensures
        res@ == title_text(day_no@, date_iso@),
{
    let mut t = String::from_str("Dagens meny \u{2014} ");
    t.append(day_no);
    t.append(" ");
    t.append(date_iso);
    t
}

fn post_headers(bot_token: &str) -> (res: Vec<(String, String)>)
    ensures
        header_views(res@) == post_header_text(bot_token@),
{
    let mut headers: Vec<(String, String)> = Vec::new();
    headers.push(header("Authorization", bearer_value(bot_token).as_str()));
    headers.push(header("Content-Type", "application/json"));
    assert(header_views(headers@) =~= post_header_text(bot_token@));
    headers
}

/// The `chat.postMessage` request that posts the day's picture.
pub fn post_image_request(
    bot_token: &str,
    channel: &str,
    image_url: &str,
    day_no: &str,
    date_iso: &str,
) -> (res: HttpPost)
    ensures
        res.url@ == POST_MESSAGE@,
        header_views(res.headers@) == post_header_text(bot_token@),
        res.body@ == post_body_text(channel@, image_url@, day_no@, date_iso@),
{
    let t = title(day_no, date_iso);
    let mut heading = String::from_str("*Dagens meny* \u{2014} ");
    heading.append(day_no);
    heading.append(" ");
    heading.append(date_iso);
    let mut body = String::from_str("{\"channel\":");
    body.append(quoted(channel).as_str());
    body.append(",\"text\":");
    body.append(quoted(t.as_str()).as_str());
    body.append(",\"blocks\":[{\"text\":{\"text\":");
    body.append(quoted(heading.as_str()).as_str());
    body.append(",\"type\":\"mrkdwn\"},\"type\":\"section\"},{\"alt_text\":\"Dagens meny\",\"image_url\":");
    body.append(quoted(image_url).as_str());
    body.append(",\"type\":\"image\"}]}");
    assert(body@ =~= post_body_text(channel@, image_url@, day_no@, date_iso@));
    HttpPost { url: String::from_str(POST_MESSAGE), headers: post_headers(bot_token), body }
}

/// The `chat.postMessage` request that answers in a message's thread.
pub fn thread_reply_request(bot_token: &str, channel: &str, thread_ts: &str, text: &str) -> (res:
    HttpPost)
    ensures
        res.url@ == POST_MESSAGE@,
        header_views(res.headers@) == post_header_text(bot_token@),
        res.body@ == reply_body_text(channel@, thread_ts@, text@),
{
    let mut body = String::from_str("{\"channel\":");
    body.append(quoted(channel).as_str());
    body.append(",\"text\":");
    body.append(quoted(text).as_str());
    body.append(",\"thread_ts\":");
    body.append(quoted(thread_ts).as_str());
    body.append("}");
    assert(body@ =~= reply_body_text(channel@, thread_ts@, text@));
    HttpPost { url: String::from_str(POST_MESSAGE), headers: post_headers(bot_token), body }
}

/// The posted message's timestamp, or why posting failed: a status outside
/// `200..300`, an answer that does not read, or an answer that is not ok.
/// A message without a timestamp gives the empty one. `parsed` is serde's
/// reading of `text`, or its error message.
pub fn post_outcome(status: u16, text: &str, parsed: Result<PostResponse, String>) -> (res: Result<
    String,
    String,
>)
    ensures
        !(200 <= status < 300) ==> (res matches Err(m) && m@ == post_status_message(status as nat, text@)),
        200 <= status < 300 ==> match parsed {
            Err(e) => res matches Err(m) && m@ == response_parse_prefix() + e@,
            Ok(r) => if !r.ok {
                res matches Err(m) && m@ == refused_message(r.error)
            } else {
                res matches Ok(ts) && ts@ == match r.ts {
                    Some(t) => t@,
                    None => Seq::<char>::empty(),
                }
            },
        },
{
    if !(200 <= status && status < 300) {
        let mut m = String::from_str("non-2xx (");
        m.append(decimal_string(status as u64).as_str());
        m.append(") from chat.postMessage: ");
        m.append(text);
        return Err(m);
    }
    let r = match parsed {
        Err(e) => {
            let mut m = String::from_str("parse Slack response: ");
            m.append(e.as_str());
            return Err(m);
        },
        Ok(r) => r,
    };
    if !r.ok {
        let mut m = String::from_str("slack chat.postMessage failed: ");
        match &r.error {
            Some(e) => m.append(e.as_str()),
            None => m.append("unknown"),
        }
        return Err(m);
    }
    match r.ts {
        Some(t) => Ok(t),
        None => Ok(String::new()),
    }
}

} // verus!
