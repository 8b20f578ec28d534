//! Talking to Gemini through the Cloudflare AI gateway: the prompts, the
//! requests, and how each response is classified. One call writes the menu
//! as Slack text; a second call draws it in a randomly chosen style.

use base64::Engine;
use vstd::prelude::*;
use vstd::string::*;
use vstd::string::to_string_from_display_ensures;

use crate::http::{bearer, bearer_value, header, header_views, HttpPost};
use crate::json::{json_quoted, quoted};
use crate::retry::Outcome;
use crate::text::{contains_seq, decimal, decimal_string, ends_with, join, join_lines, starts_with, trim, trim_str};

verus! {

broadcast use vstd::string::group_string_axioms;

pub const GATEWAY_BASE: &'static str = "https://gateway.ai.cloudflare.com/v1";

pub const TEXT_MODEL: &'static str = "gemini-2.5-flash";

pub const IMAGE_MODEL: &'static str = "gemini-2.5-flash-image";

pub const STYLE_PHOTO: &'static str = "Vibrant overhead food photography of the dishes plated on a wooden table in natural daylight, realistic textures, shallow depth of field.";

pub const STYLE_OIL: &'static str = "Warm, painterly oil-painting depiction of the dishes arranged on rustic ceramic plates, soft brushstrokes, gallery-art feel.";

pub const STYLE_STUDIO: &'static str = "Clean studio food photography of each dish individually plated on white ceramic, soft shadows, food-magazine quality.";

pub const STYLE_CARTOON: &'static str = "Cheerful hand-drawn cartoon illustration of the dishes with bright flat colors, bold outlines, and a playful storybook vibe.";

pub const STYLE_MOODY: &'static str = "Moody, dramatic close-up of the dishes against a dark background, rich textures, glossy highlights, fine-dining plating.";

/// How many illustration styles there are to choose from.
pub const STYLE_COUNT: usize = 5;

/// The instructions between the day's name and the page in the menu-text
/// prompt.
pub const MENU_TEXT_INSTRUCTIONS: &'static str = " The text below is a very loosely structured Norwegian HTML menu.\n\n\
    Today's menu generally consists of three parts: today's dish (\"Dagens\"), the \
    vegetarian option (\"Vegetar dagens\"), and a soup (\"Suppe\"). If a part is missing \
    from the source, omit it rather than inventing one.\n\n\
    Produce a clean Norwegian summary of today's dishes only, formatted as Slack mrkdwn. \
    For each part that is present, write the part name in bold on its own line \
    (`*Dagens*`, `*Vegetar dagens*`, `*Suppe*`) followed by a bullet line starting \
    with `\u{2022} ` describing the dish. No headers, no commentary, no surrounding prose. \
    Fix obvious typos.\n\n";

/// The opening of the image prompt, before the style.
pub const IMAGE_INSTRUCTIONS: &'static str = "Create an illustrative image depicting ONLY the food of today's lunch menu. \
    The image must contain no text, no labels, no menu boards, no chalkboards, and no \
    signage of any kind \u{2014} pure food imagery. ";

// ---------------------------------------------------------------------------
// Types
// ---------------------------------------------------------------------------

/// The credentials for the gateway and the model behind it.
pub struct Gemini<'a> {
    pub api_key: &'a str,
    pub cf_account_id: &'a str,
    pub cf_ai_gateway_token: &'a str,
}

/// The picture of the day's menu, with the style it was drawn in and the
/// menu text it shows.
pub struct GeneratedImage {
    pub png: Vec<u8>,
    pub style_prompt: &'static str,
    pub menu_text: String,
}

/// Asks the model for more than text.
pub struct GenerationConfig {
    pub response_modalities: Vec<&'static str>,
}

/// Inline data in a response part: a MIME type and base64-encoded bytes.
pub struct InlineData {
    pub mime_type: String,
    pub data: String,
}

/// One part of a candidate's content: text, inline data, both or neither.
pub struct ResponsePart {
    pub text: Option<String>,
    pub inline_data: Option<InlineData>,
}

pub struct CandidateContent {
    pub parts: Vec<ResponsePart>,
}

pub struct Candidate {
    pub content: CandidateContent,
}

/// A `generateContent` response, as serde reads it.
pub struct GeminiResponse {
    pub candidates: Vec<Candidate>,
}

// ---------------------------------------------------------------------------
// Models
// ---------------------------------------------------------------------------

/// The style with index `i`.
pub open spec fn style_text(i: int) -> Seq<char> {
    if i == 0 {
        STYLE_PHOTO@
    } else if i == 1 {
        STYLE_OIL@
    } else if i == 2 {
        STYLE_STUDIO@
    } else if i == 3 {
        STYLE_CARTOON@
    } else {
        STYLE_MOODY@
    }
}

/// One of the illustration styles.
pub open spec fn is_style(s: Seq<char>) -> bool {
    exists|i: int| 0 <= i < STYLE_COUNT && #[trigger] style_text(i) == s
}

pub open spec fn menu_text_prompt_text(day_no: Seq<char>, menu_html: Seq<char>) -> Seq<char> {
    "Today is "@ + day_no + "."@ + MENU_TEXT_INSTRUCTIONS@ + "Menu HTML:\n"@ + menu_html
}

pub open spec fn menu_image_prompt_text(menu_text: Seq<char>, style: Seq<char>) -> Seq<char> {
    IMAGE_INSTRUCTIONS@ + "Style: "@ + style + "\n\n"@ + "Today's menu:\n"@ + menu_text
}

/// The gateway's `generateContent` URL for an account and a model.
pub open spec fn gateway_url_text(account: Seq<char>, model: Seq<char>) -> Seq<char> {
    GATEWAY_BASE@ + "/"@ + account + "/default/google-ai-studio/v1beta/models/"@ + model
        + ":generateContent"@
}

/// The JSON body of a `generateContent` request: one content with one text
/// part, and, where modalities are asked for, a generation config.
pub open spec fn request_body_text(prompt: Seq<char>, modalities: Option<Seq<Seq<char>>>) -> Seq<char> {
    "{\"contents\":[{\"parts\":[{\"text\":"@ + json_quoted(prompt) + "}]}]"@ + match modalities {
        None => Seq::empty(),
        Some(ms) => ",\"generationConfig\":{\"responseModalities\":["@ + join(
            ms.map_values(|m: Seq<char>| json_quoted(m)),
            ","@,
        ) + "]}"@,
    } + "}"@
}

/// The headers of a gateway request, in order.
pub open spec fn request_header_text(api_key: Seq<char>, gateway_token: Seq<char>) -> Seq<(Seq<char>, Seq<char>)> {
    seq![
        ("Content-Type"@, "application/json"@),
        ("x-goog-api-key"@, api_key),
        ("cf-aig-authorization"@, bearer(gateway_token)),
    ]
}

/// The lines of menu text in a candidate's parts: each text part, trimmed,
/// where something is left of it.
pub open spec fn menu_lines(parts: Seq<ResponsePart>) -> Seq<Seq<char>>
    decreases parts.len(),
{
    if parts.len() == 0 {
        Seq::empty()
    } else {
        let prev = menu_lines(parts.drop_last());
        match parts.last().text {
            Some(t) => if trim(t@).len() > 0 {
                prev.push(trim(t@))
            } else {
                prev
            },
            None => prev,
        }
    }
}

/// The menu text: its lines joined by newlines.
pub open spec fn menu_text_of(parts: Seq<ResponsePart>) -> Seq<char> {
    join(menu_lines(parts), "\n"@)
}

/// The part's text, trimmed, is `line`.
pub open spec fn gives_line(part: ResponsePart, line: Seq<char>) -> bool {
    part.text matches Some(t) && trim(t@) == line
}

/// The part has no text, or only white space.
pub open spec fn is_blank(part: ResponsePart) -> bool {
    part.text matches Some(t) ==> trim(t@).len() == 0
}

/// Every line of the menu text is a part's text trimmed, and none is empty.
pub proof fn menu_lines_are_trimmed_texts(parts: Seq<ResponsePart>)
    ensures
        forall|k: int| 0 <= k < menu_lines(parts).len() ==> (#[trigger] menu_lines(parts)[k]).len() > 0
            && exists|i: int| 0 <= i < parts.len() && gives_line(parts[i], menu_lines(parts)[k]),
        menu_lines(parts).len() == 0 <==> forall|i: int|
            0 <= i < parts.len() ==> is_blank(#[trigger] parts[i]),
    decreases parts.len(),
{
    if parts.len() > 0 {
        let init = parts.drop_last();
        menu_lines_are_trimmed_texts(init);
        assert(forall|i: int| 0 <= i < init.len() ==> init[i] == parts[i]);
        let prev = menu_lines(init);
        assert forall|k: int| 0 <= k < menu_lines(parts).len() implies (#[trigger] menu_lines(parts)[k]).len() > 0
            && exists|i: int| 0 <= i < parts.len() && gives_line(parts[i], menu_lines(parts)[k]) by {
            if k < prev.len() {
                assert(menu_lines(parts)[k] == prev[k]);
                let i0 = choose|i: int| 0 <= i < init.len() && gives_line(init[i], prev[k]);
                assert(parts[i0] == init[i0]);
            } else {
                assert(parts[parts.len() - 1] == parts.last());
            }
        }
        if menu_lines(parts).len() == 0 {
            assert forall|i: int| 0 <= i < parts.len() implies is_blank(#[trigger] parts[i]) by {
                if i < init.len() {
                    assert(parts[i] == init[i]);
                } else {
                    assert(parts[i] == parts.last());
                }
            }
        } else {
            if forall|i: int| 0 <= i < parts.len() ==> is_blank(#[trigger] parts[i]) {
                assert(forall|i: int| 0 <= i < init.len() ==> is_blank(#[trigger] init[i])) by {
                    assert forall|i: int| 0 <= i < init.len() implies is_blank(#[trigger] init[i]) by {
                        assert(parts[i] == init[i]);
                    }
                }
                assert(parts[parts.len() - 1] == parts.last());
            }
        }
    }
}

proof fn lemma_join_of_nonempty_lines(lines: Seq<Seq<char>>, sep: Seq<char>)
    requires
        forall|k: int| 0 <= k < lines.len() ==> (#[trigger] lines[k]).len() > 0,
    ensures
        join(lines, sep).len() == 0 <==> lines.len() == 0,
    decreases lines.len(),
{
    if lines.len() > 1 {
        assert(lines[lines.len() - 1] == lines.last());
    } else if lines.len() == 1 {
        assert(lines[0].len() > 0);
    }
}

/// The menu text is empty exactly when no part has text that is more than
/// white space; then the menu-text request fails with "no menu text".
pub proof fn menu_text_is_empty_only_without_text(parts: Seq<ResponsePart>)
    ensures
        menu_text_of(parts).len() == 0 <==> forall|i: int|
            0 <= i < parts.len() ==> is_blank(#[trigger] parts[i]),
{
    menu_lines_are_trimmed_texts(parts);
    lemma_join_of_nonempty_lines(menu_lines(parts), "\n"@);
}

/// The inline data of the first part that has some.
pub open spec fn first_inline_data(parts: Seq<ResponsePart>) -> Option<InlineData>
    decreases parts.len(),
{
    if parts.len() == 0 {
        None
    } else {
        match parts[0].inline_data {
            Some(d) => Some(d),
            None => first_inline_data(parts.drop_first()),
        }
    }
}

/// What the standard base64 alphabet, with canonical padding, decodes
/// from `text`: the bytes, or else the text of base64's error (which names
/// the offending symbol and its offset, or the length or padding at fault).
pub uninterp spec fn base64_decoding(text: Seq<char>) -> Result<Seq<u8>, Seq<char>>;

pub open spec fn status_message(status: nat, body: Seq<char>) -> Seq<char> {
    "Gemini returned "@ + decimal(status) + ": "@ + body
}

pub open spec fn no_candidates_message(body: Seq<char>) -> Seq<char> {
    "Gemini response had no candidates: "@ + body
}

pub open spec fn response_parse_prefix() -> Seq<char> {
    "parse Gemini JSON response: "@
}

pub open spec fn no_menu_text_message(body: Seq<char>) -> Seq<char> {
    "Gemini returned no menu text: "@ + body
}

pub open spec fn image_decode_prefix() -> Seq<char> {
    "base64-decode Gemini image bytes: "@
}

// ---------------------------------------------------------------------------
// Trusted calls
// ---------------------------------------------------------------------------

/// base64's error type, carried through as an opaque value.
#[verifier::external_type_specification]
#[verifier::external_body]
pub struct ExDecodeError(base64::DecodeError);

/// `base64::engine::general_purpose::STANDARD.decode`. Claims that it
/// succeeds exactly where `base64_decoding` is `Ok`, with those bytes, and
/// that the error it returns otherwise displays as `base64_decoding`'s
/// error text.
#[verifier::external_body]
fn decode_base64(text: &str) -> (res: Result<Vec<u8>, base64::DecodeError>)
    ensures
        res is Ok <==> base64_decoding(text@) is Ok,
        res matches Ok(b) ==> b@ == base64_decoding(text@)->Ok_0,
        res matches Err(e) ==> forall|m: String|
            #[trigger] to_string_from_display_ensures::<base64::DecodeError>(&e, m) ==> m@
                == base64_decoding(text@)->Err_0,
{
    base64::engine::general_purpose::STANDARD.decode(text)
}

/// `rand::random_range(0..n)`: a number below `n`, drawn by the thread's
/// random generator. Claims only the range; the call panics on an empty
/// range, which `requires` leaves out.
#[verifier::external_body]
fn random_below(n: usize) -> (res: usize)
    requires
        n > 0,
    ensures
        res < n,
{
    rand::random_range(0..n)
}

// ---------------------------------------------------------------------------
// Styles and prompts
// ---------------------------------------------------------------------------

/// The style with index `i`.
pub fn style_prompt(i: usize) -> (res: &'static str)
    requires
        i < STYLE_COUNT,
    ensures
        res@ == style_text(i as int),
{
    if i == 0 {
        STYLE_PHOTO
    } else if i == 1 {
        STYLE_OIL
    } else if i == 2 {
        STYLE_STUDIO
    } else if i == 3 {
        STYLE_CARTOON
    } else {
        STYLE_MOODY
    }
}

/// The five indices name five different styles, so every draw of the
/// random index below `STYLE_COUNT` picks its own style.
pub proof fn styles_differ_by_index(i: int, j: int)
    requires
        0 <= i < STYLE_COUNT,
        0 <= j < STYLE_COUNT,
        i != j,
    ensures
        style_text(i) != style_text(j),
{
    reveal_strlit("Vibrant overhead food photography of the dishes plated on a wooden table in natural daylight, realistic textures, shallow depth of field.");
    reveal_strlit("Warm, painterly oil-painting depiction of the dishes arranged on rustic ceramic plates, soft brushstrokes, gallery-art feel.");
    reveal_strlit("Clean studio food photography of each dish individually plated on white ceramic, soft shadows, food-magazine quality.");
    reveal_strlit("Cheerful hand-drawn cartoon illustration of the dishes with bright flat colors, bold outlines, and a playful storybook vibe.");
    reveal_strlit("Moody, dramatic close-up of the dishes against a dark background, rich textures, glossy highlights, fine-dining plating.");
    assert(style_text(i)[0] != style_text(j)[0] || style_text(i).len() != style_text(j).len()
        || style_text(i)[1] != style_text(j)[1]);
}

/// A style chosen at random; every style can be chosen.
pub fn pick_style_prompt() -> (res: &'static str)
    ensures
        is_style(res@),
{
    let i = random_below(STYLE_COUNT);
    let s = style_prompt(i);
    assert(style_text(i as int) == s@);
    s
}

/// The prompt that asks for the day's menu as Slack text.
pub fn menu_text_prompt(day_no: &str, menu_html: &str) -> (res: String)
    ensures
        res@ == menu_text_prompt_text(day_no@, menu_html@),
{
    let mut p = String::from_str("Today is ");
    p.append(day_no);
    p.append(".");
    p.append(MENU_TEXT_INSTRUCTIONS);
    p.append("Menu HTML:\n");
    p.append(menu_html);
    p
}

/// The prompt that asks for a picture of the menu in a style.
pub fn menu_image_prompt(menu_text: &str, style: &str) -> (res: String)
    ensures
        res@ == menu_image_prompt_text(menu_text@, style@),
{
    let mut p = String::from_str(IMAGE_INSTRUCTIONS);
    p.append("Style: ");
    p.append(style);
    p.append("\n\n");
    p.append("Today's menu:\n");
    p.append(menu_text);
    p
}

/// The menu-text prompt starts with "Today is ", the day and a full stop,
/// and ends with "Menu HTML:" on a line of its own followed by the page.
pub proof fn menu_text_prompt_frames_day_and_page(day_no: Seq<char>, menu_html: Seq<char>)
    ensures
        starts_with(menu_text_prompt_text(day_no, menu_html), "Today is "@ + day_no + "."@),
        ends_with(menu_text_prompt_text(day_no, menu_html), "Menu HTML:\n"@ + menu_html),
{
    let p = menu_text_prompt_text(day_no, menu_html);
    let head = "Today is "@ + day_no + "."@;
    let tail = "Menu HTML:\n"@ + menu_html;
    let mid = MENU_TEXT_INSTRUCTIONS@;
    assert(p =~= head + (mid + tail));
    assert(p =~= (head + mid) + tail);
    assert(p.subrange(0, head.len() as int) =~= head);
    assert(p.subrange(p.len() - tail.len(), p.len() as int) =~= tail);
}

/// The image prompt names the style after "Style: ", and ends with
/// "Today's menu:" on a line of its own followed by the menu text.
pub proof fn menu_image_prompt_frames_style_and_menu(menu_text: Seq<char>, style: Seq<char>)
    ensures
        contains_seq(menu_image_prompt_text(menu_text, style), "Style: "@ + style),
        ends_with(menu_image_prompt_text(menu_text, style), "Today's menu:\n"@ + menu_text),
{
    let p = menu_image_prompt_text(menu_text, style);
    let pre = IMAGE_INSTRUCTIONS@;
    let named = "Style: "@ + style;
    let tail = "Today's menu:\n"@ + menu_text;
    assert(p =~= pre + named + ("\n\n"@ + tail));
    assert(p =~= (pre + named + "\n\n"@) + tail);
    assert(p.subrange(pre.len() as int, (pre.len() + named.len()) as int) =~= named);
    assert(p.subrange(p.len() - tail.len(), p.len() as int) =~= tail);
}

// ---------------------------------------------------------------------------
// Requests
// ---------------------------------------------------------------------------

/// The JSON array items for the modalities, joined by commas.
fn quoted_list(items: &Vec<&'static str>) -> (res: String)
    ensures
        res@ == join(items@.map_values(|m: &'static str| m@).map_values(|m: Seq<char>| json_quoted(m)), ","@),
{
    let ghost views = items@.map_values(|m: &'static str| m@).map_values(|m: Seq<char>| json_quoted(m));
    let mut out: Vec<String> = Vec::new();
    let mut i: usize = 0;
    while i < items.len()
        invariant
            views == items@.map_values(|m: &'static str| m@).map_values(|m: Seq<char>| json_quoted(m)),
            i <= items.len(),
            out.len() == i,
            forall|j: int| 0 <= j < i ==> #[trigger] out@[j]@ == views[j],
        decreases items.len() - i,
    {
        let q = quoted(items[i]);
        assert(views[i as int] == json_quoted(items@[i as int]@));
        out.push(q);
        i = i + 1;
    }
    assert(out@.map_values(|q: String| q@) =~= views);
    join_lines(&out, ",")
}

impl<'a> Gemini<'a> {
    /// The URL of `model`'s `generateContent` endpoint behind the gateway.
    pub fn gateway_url(&self, model: &str) -> (res: String)
        ensures
            res@ == gateway_url_text(self.cf_account_id@, model@),
    {
        let mut u = String::from_str(GATEWAY_BASE);
        u.append("/");
        u.append(self.cf_account_id);
        u.append("/default/google-ai-studio/v1beta/models/");
        u.append(model);
        u.append(":generateContent");
        u
    }

    /// A `generateContent` request for one prompt.
    pub fn build_request(
        &self,
        model: &str,
        prompt: &str,
        generation_config: Option<GenerationConfig>,
    ) -> (res: HttpPost)
        ensures
            res.url@ == gateway_url_text(self.cf_account_id@, model@),
            header_views(res.headers@) == request_header_text(self.api_key@, self.cf_ai_gateway_token@),
            res.body@ == request_body_text(
                prompt@,
                match generation_config {
                    None => None,
                    Some(c) => Some(c.response_modalities@.map_values(|m: &'static str| m@)),
                },
            ),
    {
        let url = self.gateway_url(model);
        let mut body = String::from_str("{\"contents\":[{\"parts\":[{\"text\":");
        body.append(quoted(prompt).as_str());
        body.append("}]}]");
        match &generation_config {
            None => {},
            Some(c) => {
                body.append(",\"generationConfig\":{\"responseModalities\":[");
                body.append(quoted_list(&c.response_modalities).as_str());
                body.append("]}");
            },
        }
        body.append("}");
        let mut headers: Vec<(String, String)> = Vec::new();
        headers.push(header("Content-Type", "application/json"));
        headers.push(header("x-goog-api-key", self.api_key));
        headers.push(header("cf-aig-authorization", bearer_value(self.cf_ai_gateway_token).as_str()));
        assert(header_views(headers@) =~= request_header_text(self.api_key@, self.cf_ai_gateway_token@));
        assert(body@ =~= request_body_text(
            prompt@,
            match generation_config {
                None => None,
                Some(c) => Some(c.response_modalities@.map_values(|m: &'static str| m@)),
            },
        ));
        HttpPost { url, headers, body }
    }

    /// The request that asks the text model for the day's menu.
    pub fn menu_text_request(&self, day_no: &str, menu_html: &str) -> (res: HttpPost)
        ensures
            res.url@ == gateway_url_text(self.cf_account_id@, TEXT_MODEL@),
            header_views(res.headers@) == request_header_text(self.api_key@, self.cf_ai_gateway_token@),
            res.body@ == request_body_text(menu_text_prompt_text(day_no@, menu_html@), None),
    {
        let prompt = menu_text_prompt(day_no, menu_html);
        self.build_request(TEXT_MODEL, prompt.as_str(), None)
    }

    /// The request that asks the image model for a picture of the menu, in
    /// text and image modalities.
    pub fn menu_image_request(&self, menu_text: &str, style: &str) -> (res: HttpPost)
        ensures
            res.url@ == gateway_url_text(self.cf_account_id@, IMAGE_MODEL@),
            header_views(res.headers@) == request_header_text(self.api_key@, self.cf_ai_gateway_token@),
            res.body@ == request_body_text(
                menu_image_prompt_text(menu_text@, style@),
                Some(seq!["TEXT"@, "IMAGE"@]),
            ),
    {
        let prompt = menu_image_prompt(menu_text, style);
        let mut modalities: Vec<&'static str> = Vec::new();
        modalities.push("TEXT");
        modalities.push("IMAGE");
        let config = GenerationConfig { response_modalities: modalities };
        assert(config.response_modalities@.map_values(|m: &'static str| m@) =~= seq!["TEXT"@, "IMAGE"@]);
        self.build_request(IMAGE_MODEL, prompt.as_str(), Some(config))
    }
}

// ---------------------------------------------------------------------------
// Responses
// ---------------------------------------------------------------------------

/// The parts of the first candidate of a response. `parsed` is serde's
/// reading of `body`, or its error message.
pub fn first_candidate_parts(parsed: Result<GeminiResponse, String>, body: &str) -> (res: Result<
    Vec<ResponsePart>,
    String,
>)
    ensures
        match parsed {
            Err(e) => res matches Err(m) && m@ == response_parse_prefix() + e@,
            Ok(r) => if r.candidates.len() == 0 {
                res matches Err(m) && m@ == no_candidates_message(body@)
            } else {
                res matches Ok(parts) && parts@ == r.candidates@[0].content.parts@
            },
        },
{
    match parsed {
        Err(e) => {
            let mut m = String::from_str("parse Gemini JSON response: ");
            m.append(e.as_str());
            Err(m)
        },
        Ok(r) => {
            let mut candidates = r.candidates;
            if candidates.len() == 0 {
                let mut m = String::from_str("Gemini response had no candidates: ");
                m.append(body);
                Err(m)
            } else {
                let first = candidates.remove(0);
                Ok(first.content.parts)
            }
        },
    }
}

/// The menu text in a candidate's parts: the trimmed, non-empty texts,
/// one per line.
pub fn menu_text_from_parts(parts: &Vec<ResponsePart>) -> (res: String)
    ensures
        res@ == menu_text_of(parts@),
{
    let mut lines: Vec<String> = Vec::new();
    let mut i: usize = 0;
    while i < parts.len()
        invariant
            i <= parts.len(),
            lines@.map_values(|l: String| l@) == menu_lines(parts@.take(i as int)),
        decreases parts.len() - i,
    {
        assert(parts@.take((i + 1) as int).drop_last() =~= parts@.take(i as int));
        match &parts[i].text {
            Some(t) => {
                let line = trim_str(t.as_str());
                if !line.as_str().is_empty() {
                    lines.push(line);
                }
            },
            None => {},
        }
        assert(lines@.map_values(|l: String| l@) =~= menu_lines(parts@.take((i + 1) as int)));
        i = i + 1;
    }
    assert(parts@.take(parts.len() as int) =~= parts@);
    join_lines(&lines, "\n")
}

/// Whether a status is a success (`200..300`).
pub fn is_success(status: u16) -> (res: bool)
    ensures
        res == (200 <= status < 300),
{
    200 <= status && status < 300
}

/// "Gemini returned {status}: {body}".
fn status_error(status: u16, body: &str) -> (res: String)
    ensures
        res@ == status_message(status as nat, body@),
{
    let mut m = String::from_str("Gemini returned ");
    m.append(decimal_string(status as u64).as_str());
    m.append(": ");
    m.append(body);
    m
}

/// How a response to the menu-text request is classified: transient
/// statuses are retried; other failures, unreadable responses and
/// responses without menu text are fatal; otherwise the menu text is the
/// result. `parsed` is serde's reading of `body`, or its error message.
pub fn classify_menu_text(status: u16, body: &str, parsed: Result<GeminiResponse, String>) -> (res:
    Outcome<String>)
    ensures
        (status == 429 || 500 <= status < 600) ==> res is Retry,
        !(status == 429 || 500 <= status < 600) && !(200 <= status < 300) ==> (res matches Outcome::Fatal(m) && m@
            == status_message(status as nat, body@)),
        !(status == 429 || 500 <= status < 600) && 200 <= status < 300 ==> match parsed {
            Err(e) => res matches Outcome::Fatal(m) && m@ == response_parse_prefix() + e@,
            Ok(r) => if r.candidates.len() == 0 {
                res matches Outcome::Fatal(m) && m@ == no_candidates_message(body@)
            } else if menu_text_of(r.candidates@[0].content.parts@).len() == 0 {
                res matches Outcome::Fatal(m) && m@ == no_menu_text_message(body@)
            } else {
                res matches Outcome::Done(t) && t@ == menu_text_of(r.candidates@[0].content.parts@)
            },
        },
{
    if crate::is_transient(status) {
        return Outcome::Retry;
    }
    if !is_success(status) {
        return Outcome::Fatal(status_error(status, body));
    }
    let parts = match first_candidate_parts(parsed, body) {
        Ok(parts) => parts,
        Err(e) => return Outcome::Fatal(e),
    };
    let menu_text = menu_text_from_parts(&parts);
    if menu_text.as_str().is_empty() {
        let mut m = String::from_str("Gemini returned no menu text: ");
        m.append(body);
        Outcome::Fatal(m)
    } else {
        Outcome::Done(menu_text)
    }
}

/// The index of the first part with inline data.
fn first_inline_index(parts: &Vec<ResponsePart>) -> (res: Option<usize>)
    ensures
        match res {
            None => first_inline_data(parts@) is None,
            Some(i) => i < parts.len() && parts@[i as int].inline_data is Some
                && first_inline_data(parts@) == parts@[i as int].inline_data,
        },
{
    let mut i: usize = 0;
    assert(parts@.subrange(0, parts.len() as int) =~= parts@);
    while i < parts.len()
        invariant
            i <= parts.len(),
            first_inline_data(parts@) == first_inline_data(parts@.subrange(i as int, parts.len() as int)),
        decreases parts.len() - i,
    {
        assert(parts@.subrange(i as int, parts.len() as int)[0] == parts@[i as int]);
        if parts[i].inline_data.is_some() {
            return Some(i);
        }
        assert(parts@.subrange(i as int, parts.len() as int).drop_first() =~= parts@.subrange(
            (i + 1) as int,
            parts.len() as int,
        ));
        i = i + 1;
    }
    None
}

/// How a response to the image request is classified: transient statuses
/// are retried; other failures and unreadable responses are fatal; the
/// first inline data is decoded as the picture; a response with text only
/// is retried, to get a picture after all. `parsed` is serde's reading of
/// `body`, or its error message.
pub fn classify_menu_image(status: u16, body: &str, parsed: Result<GeminiResponse, String>) -> (res:
    Outcome<Vec<u8>>)
    ensures
        (status == 429 || 500 <= status < 600) ==> res is Retry,
        !(status == 429 || 500 <= status < 600) && !(200 <= status < 300) ==> (res matches Outcome::Fatal(m) && m@
            == status_message(status as nat, body@)),
        !(status == 429 || 500 <= status < 600) && 200 <= status < 300 ==> match parsed {
            Err(e) => res matches Outcome::Fatal(m) && m@ == response_parse_prefix() + e@,
            Ok(r) => if r.candidates.len() == 0 {
                res matches Outcome::Fatal(m) && m@ == no_candidates_message(body@)
            } else {
                match first_inline_data(r.candidates@[0].content.parts@) {
                    None => res is Retry,
                    Some(d) => match base64_decoding(d.data@) {
                        Ok(bytes) => res matches Outcome::Done(png) && png@ == bytes,
                        Err(e) => res matches Outcome::Fatal(m) && m@ == image_decode_prefix() + e,
                    },
                }
            },
        },
{
    if crate::is_transient(status) {
        return Outcome::Retry;
    }
    if !is_success(status) {
        return Outcome::Fatal(status_error(status, body));
    }
    let parts = match first_candidate_parts(parsed, body) {
        Ok(parts) => parts,
        Err(e) => return Outcome::Fatal(e),
    };
    match first_inline_index(&parts) {
        None => Outcome::Retry,
        Some(i) => {
            match &parts[i].inline_data {
                Some(inline) => match decode_base64(inline.data.as_str()) {
                    Ok(bytes) => Outcome::Done(bytes),
                    Err(e) => {
                        let detail = e.to_string();
                        let mut m = String::from_str("base64-decode Gemini image bytes: ");
                        m.append(detail.as_str());
                        Outcome::Fatal(m)
                    },
                },
                None => Outcome::Retry,
            }
        },
    }
}

// ---------------------------------------------------------------------------
// Drawing the day's picture
// ---------------------------------------------------------------------------

/// Where the making of the day's picture stands.
pub enum ImageState {
    /// The model is writing the menu text.
    WritingText,
    /// The model is drawing `menu_text` in `style`.
    Drawing { menu_text: String, style: &'static str },
    /// The picture is made, or has failed.
    Done,
}

/// What the runtime reports while the picture is made.
pub enum ImageEvent {
    /// The menu text, or why it could not be written.
    TextWritten(Result<String, String>),
    /// The picture's bytes, or why it could not be drawn.
    Drawn(Result<Vec<u8>, String>),
}

/// What the runtime must do next.
pub enum ImageAction {
    /// Ask the image model for a picture of `menu_text` in `style`.
    Draw { menu_text: String, style: &'static str },
    /// The picture is made, or has failed.
    Finish(Result<GeneratedImage, String>),
}

pub open spec fn image_out_of_order_message() -> Seq<char> {
    "image event out of order"@
}

/// `next` and `action` follow `state` on `event`.
pub open spec fn is_image_step(state: ImageState, event: ImageEvent, next: ImageState, action: ImageAction) -> bool {
    match (state, event) {
        (ImageState::WritingText, ImageEvent::TextWritten(r)) => match r {
            Err(e) => next is Done && action == ImageAction::Finish(Err(e)),
            Ok(text) => {
                &&& next matches ImageState::Drawing { menu_text, style } && menu_text == text
                    && is_style(style@)
                &&& action matches ImageAction::Draw { menu_text: t, style: s } && t@ == text@
                    && s == next->Drawing_style
            },
        },
        (ImageState::Drawing { menu_text, style }, ImageEvent::Drawn(r)) => match r {
            Err(e) => next is Done && action == ImageAction::Finish(Err(e)),
            Ok(png) => next is Done && action == ImageAction::Finish(
                Ok(GeneratedImage { png, style_prompt: style, menu_text }),
            ),
        },
        _ => {
            &&& next is Done
            &&& action matches ImageAction::Finish(Err(m)) && m@ == image_out_of_order_message()
        },
    }
}

/// The next step in making the day's picture: once the menu text is
/// written, a style is chosen at random and the picture is drawn in it; the
/// picture comes with its style and menu text. A failure at either call
/// ends the making with that failure.
pub fn image_step(state: ImageState, event: ImageEvent) -> (res: (ImageState, ImageAction))
    ensures
        is_image_step(state, event, res.0, res.1),
{
    match (state, event) {
        (ImageState::WritingText, ImageEvent::TextWritten(r)) => match r {
            Err(e) => (ImageState::Done, ImageAction::Finish(Err(e))),
            Ok(text) => {
                let style = pick_style_prompt();
                let t = String::from_str(text.as_str());
                (ImageState::Drawing { menu_text: text, style }, ImageAction::Draw { menu_text: t, style })
            },
        },
        (ImageState::Drawing { menu_text, style }, ImageEvent::Drawn(r)) => match r {
            Err(e) => (ImageState::Done, ImageAction::Finish(Err(e))),
            Ok(png) => (
                ImageState::Done,
                ImageAction::Finish(Ok(GeneratedImage { png, style_prompt: style, menu_text })),
            ),
        },
        _ => (ImageState::Done, ImageAction::Finish(Err(String::from_str("image event out of order")))),
    }
}

/// The picture is drawn from the menu text that was written, in the style
/// that was chosen for it, and it carries both.
pub proof fn picture_shows_the_written_menu(
    text: String,
    mid: ImageState,
    draw: ImageAction,
    png: Vec<u8>,
    done: ImageState,
    finish: ImageAction,
)
    requires
        is_image_step(ImageState::WritingText, ImageEvent::TextWritten(Ok(text)), mid, draw),
        is_image_step(mid, ImageEvent::Drawn(Ok(png)), done, finish),
    ensures
        draw matches ImageAction::Draw { menu_text, style } && menu_text@ == text@ && is_style(style@),
        finish matches ImageAction::Finish(Ok(image)) && image.menu_text == text && image.png == png
            && image.style_prompt == draw->Draw_style,
{
}

} // verus!
