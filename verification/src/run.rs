//! One scheduled run as a state machine. The runtime reports each event
//! (the run was scheduled, the page was fetched, the model answered, ...);
//! `run_step` decides the next state and what the runtime must do next.
//! On weekends nothing is posted; any failure ends the run with its error,
//! except a failed reply in the thread, which the run survives.

use chrono::{Datelike, Offset};
use vstd::prelude::*;
use vstd::string::*;

use crate::config::Config;
use crate::gemini::GeneratedImage;
use crate::r2::{image_key, image_key_text, public_url, public_url_text};

verus! {

broadcast use vstd::string::group_string_axioms;

/// A day of the week.
#[derive(Clone, Copy, Debug, PartialEq, Eq, Structural)]
pub enum Weekday {
    Mon,
    Tue,
    Wed,
    Thu,
    Fri,
    Sat,
    Sun,
}

/// Where a run stands.
pub enum RunState {
    /// Nothing has happened yet.
    Idle,
    /// The menu page is being fetched.
    FetchingMenu { day_no: String, date_iso: String },
    /// The picture of the menu is being made.
    GeneratingImage { day_no: String, date_iso: String },
    /// The picture is being stored under `key`.
    Uploading { day_no: String, date_iso: String, key: String, style: &'static str },
    /// The picture is being posted to Slack.
    Posting { style: &'static str },
    /// The style is being posted in the post's thread.
    Replying,
    /// The run is over.
    Finished,
}

/// What the runtime reports.
pub enum RunEvent {
    /// The run was scheduled on this weekday and date (in Oslo).
    Scheduled { weekday: Weekday, date_iso: String },
    /// The menu page was fetched and the menu found in it, or not.
    MenuFetched(Result<String, String>),
    /// The picture was made, or not.
    ImageGenerated(Result<GeneratedImage, String>),
    /// The picture was stored, or not.
    Uploaded(Result<(), String>),
    /// The picture was posted, with this message timestamp, or not.
    Posted(Result<String, String>),
    /// The reply was posted in the thread, or not.
    ReplyPosted(Result<(), String>),
}

/// What the runtime must do next.
pub enum RunAction {
    FetchMenu,
    GenerateImage { day_no: String, menu_html: String },
    Upload { key: String, image: GeneratedImage },
    PostImage { image_url: String, day_no: String, date_iso: String },
    PostReply { thread_ts: String, text: String },
    /// The run is over, with this result.
    Stop(Result<(), String>),
}

// ---------------------------------------------------------------------------
// The day of a run
// ---------------------------------------------------------------------------

/// The day in Oslo at `millis` milliseconds after the Unix epoch: its
/// weekday, counted from Monday as 0, and its date as `YYYY-MM-DD`; none
/// where chrono cannot represent the instant, or its local time in Oslo.
pub uninterp spec fn oslo_day(millis: i64) -> Option<(u8, Seq<char>)>;

/// `chrono::DateTime::from_timestamp_millis`, then `with_timezone` to
/// `chrono_tz::Europe::Oslo`, the local time taken with
/// `NaiveDateTime::checked_add_offset` (the checked form of `date_naive`,
/// which panics past chrono's range), read as
/// `weekday().num_days_from_monday()` and `format("%Y-%m-%d")`. Claims that
/// the result is `oslo_day` of the argument, and, as chrono documents for
/// `num_days_from_monday`, that the weekday number is below 7.
#[verifier::external_body]
pub(crate) fn oslo_day_of(millis: i64) -> (res: Option<(u8, String)>)
    ensures
        match res {
            None => oslo_day(millis) is None,
            Some(p) => oslo_day(millis) == Some((p.0, p.1@)),
        },
        res matches Some(p) ==> p.0 < 7,
{
    let local = match chrono::DateTime::from_timestamp_millis(millis) {
        Some(t) => t.with_timezone(&chrono_tz::Europe::Oslo),
        None => return None,
    };
    match local.naive_utc().checked_add_offset(local.offset().fix()) {
        Some(t) => Some((t.date().weekday().num_days_from_monday() as u8, t.date().format("%Y-%m-%d").to_string())),
        None => None,
    }
}

/// The weekday numbered `n`, counting from Monday as 0.
pub open spec fn weekday_numbered(n: u8) -> Weekday {
    if n == 0 {
        Weekday::Mon
    } else if n == 1 {
        Weekday::Tue
    } else if n == 2 {
        Weekday::Wed
    } else if n == 3 {
        Weekday::Thu
    } else if n == 4 {
        Weekday::Fri
    } else if n == 5 {
        Weekday::Sat
    } else {
        Weekday::Sun
    }
}

pub open spec fn invalid_schedule_message() -> Seq<char> {
    "invalid schedule timestamp"@
}

/// `res` is the event that starts a run scheduled at `millis`.
pub open spec fn is_scheduled_event(millis: i64, res: Result<RunEvent, String>) -> bool {
    match oslo_day(millis) {
        None => res matches Err(m) && m@ == invalid_schedule_message(),
        Some(p) => res matches Ok(RunEvent::Scheduled { weekday, date_iso }) && weekday
            == weekday_numbered(p.0) && date_iso@ == p.1,
    }
}

/// The weekday numbered `n`, counting from Monday as 0.
pub fn weekday_from_monday(n: u8) -> (res: Weekday)
    requires
        n < 7,
    ensures
        res == weekday_numbered(n),
{
    if n == 0 {
        Weekday::Mon
    } else if n == 1 {
        Weekday::Tue
    } else if n == 2 {
        Weekday::Wed
    } else if n == 3 {
        Weekday::Thu
    } else if n == 4 {
        Weekday::Fri
    } else if n == 5 {
        Weekday::Sat
    } else {
        Weekday::Sun
    }
}

/// The event that starts a run scheduled at `millis` milliseconds after
/// the Unix epoch: the weekday and date in Oslo at that instant. The day
/// comes from the schedule alone, never from a clock.
pub fn scheduled_event(millis: i64) -> (res: Result<RunEvent, String>)
    ensures
        is_scheduled_event(millis, res),
{
    match oslo_day_of(millis) {
        None => Err(String::from_str("invalid schedule timestamp")),
        Some((n, date_iso)) => Ok(RunEvent::Scheduled { weekday: weekday_from_monday(n), date_iso }),
    }
}

/// The Norwegian name of a weekday; none for Saturday and Sunday.
pub open spec fn day_name_text(w: Weekday) -> Option<Seq<char>> {
    match w {
        Weekday::Mon => Some("Mandag"@),
        Weekday::Tue => Some("Tirsdag"@),
        Weekday::Wed => Some("Onsdag"@),
        Weekday::Thu => Some("Torsdag"@),
        Weekday::Fri => Some("Fredag"@),
        Weekday::Sat => None,
        Weekday::Sun => None,
    }
}

/// The reply that names the picture's style.
pub open spec fn reply_text_of(style: Seq<char>) -> Seq<char> {
    "Style prompt:\n```"@ + style + "```"@
}

pub open spec fn out_of_order_message() -> Seq<char> {
    "event out of order"@
}

/// `next` and `action` follow `state` on `event`, for the settings `cfg`.
pub open spec fn is_run_step(
    cfg: Config,
    state: RunState,
    event: RunEvent,
    next: RunState,
    action: RunAction,
) -> bool {
    match (state, event) {
        (RunState::Idle, RunEvent::Scheduled { weekday, date_iso }) => match day_name_text(weekday) {
            None => next is Finished && action == RunAction::Stop(Ok(())),
            Some(d) => {
                &&& action is FetchMenu
                &&& next matches RunState::FetchingMenu { day_no, date_iso: date } && day_no@ == d
                    && date@ == date_iso@
            },
        },
        (RunState::FetchingMenu { day_no, date_iso }, RunEvent::MenuFetched(r)) => match r {
            Err(e) => next is Finished && action == RunAction::Stop(Err(e)),
            Ok(html) => {
                &&& next == RunState::GeneratingImage { day_no, date_iso }
                &&& action matches RunAction::GenerateImage { day_no: d, menu_html } && d@ == day_no@
                    && menu_html == html
            },
        },
        (RunState::GeneratingImage { day_no, date_iso }, RunEvent::ImageGenerated(r)) => match r {
            Err(e) => next is Finished && action == RunAction::Stop(Err(e)),
            Ok(image) => {
                &&& next matches RunState::Uploading { day_no: d, date_iso: date, key, style }
                    && d == day_no && date == date_iso && style == image.style_prompt && key@
                    == image_key_text(date_iso@)
                &&& action matches RunAction::Upload { key: k, image: im } && k@ == image_key_text(
                    date_iso@,
                ) && im == image
            },
        },
        (RunState::Uploading { day_no, date_iso, key, style }, RunEvent::Uploaded(r)) => match r {
            Err(e) => next is Finished && action == RunAction::Stop(Err(e)),
            Ok(()) => {
                &&& next == RunState::Posting { style }
                &&& action matches RunAction::PostImage { image_url, day_no: d, date_iso: date }
                    && image_url@ == public_url_text(cfg.r2_public_url_base@, key@) && d == day_no
                    && date == date_iso
            },
        },
        (RunState::Posting { style }, RunEvent::Posted(r)) => match r {
            Err(e) => next is Finished && action == RunAction::Stop(Err(e)),
            Ok(ts) => {
                &&& next is Replying
                &&& action matches RunAction::PostReply { thread_ts, text } && thread_ts == ts
                    && text@ == reply_text_of(style@)
            },
        },
        (RunState::Replying, RunEvent::ReplyPosted(_)) => next is Finished && action
            == RunAction::Stop(Ok(())),
        _ => {
            &&& next is Finished
            &&& action matches RunAction::Stop(Err(m)) && m@ == out_of_order_message()
        },
    }
}

/// The Norwegian name of a weekday; none for Saturday and Sunday.
pub fn day_name_no(w: &Weekday) -> (res: Option<&'static str>)
    ensures
        match res {
            None => day_name_text(*w) is None,
            Some(d) => day_name_text(*w) == Some(d@),
        },
{
    match w {
        Weekday::Mon => Some("Mandag"),
        Weekday::Tue => Some("Tirsdag"),
        Weekday::Wed => Some("Onsdag"),
        Weekday::Thu => Some("Torsdag"),
        Weekday::Fri => Some("Fredag"),
        Weekday::Sat => None,
        Weekday::Sun => None,
    }
}

/// The reply that names the picture's style.
pub fn reply_text(style: &str) -> (res: String)
    ensures
        res@ == reply_text_of(style@),
{
    let mut t = String::from_str("Style prompt:\n```");
    t.append(style);
    t.append("```");
    t
}

/// The next state of a run, and what the runtime must do, after `event`.
pub fn run_step(cfg: &Config, state: RunState, event: RunEvent) -> (res: (RunState, RunAction))
    ensures
        is_run_step(*cfg, state, event, res.0, res.1),
{
    match (state, event) {
        (RunState::Idle, RunEvent::Scheduled { weekday, date_iso }) => match day_name_no(&weekday) {
            None => (RunState::Finished, RunAction::Stop(Ok(()))),
            Some(d) => (
                RunState::FetchingMenu { day_no: String::from_str(d), date_iso },
                RunAction::FetchMenu,
            ),
        },
        (RunState::FetchingMenu { day_no, date_iso }, RunEvent::MenuFetched(r)) => match r {
            Err(e) => (RunState::Finished, RunAction::Stop(Err(e))),
            Ok(html) => {
                let d = String::from_str(day_no.as_str());
                (
                    RunState::GeneratingImage { day_no, date_iso },
                    RunAction::GenerateImage { day_no: d, menu_html: html },
                )
            },
        },
        (RunState::GeneratingImage { day_no, date_iso }, RunEvent::ImageGenerated(r)) => match r {
            Err(e) => (RunState::Finished, RunAction::Stop(Err(e))),
            Ok(image) => {
                let key = image_key(date_iso.as_str());
                let k = String::from_str(key.as_str());
                let style = image.style_prompt;
                (RunState::Uploading { day_no, date_iso, key, style }, RunAction::Upload { key: k, image })
            },
        },
        (RunState::Uploading { day_no, date_iso, key, style }, RunEvent::Uploaded(r)) => match r {
            Err(e) => (RunState::Finished, RunAction::Stop(Err(e))),
            Ok(()) => {
                let url = public_url(cfg.r2_public_url_base.as_str(), key.as_str());
                (
                    RunState::Posting { style },
                    RunAction::PostImage { image_url: url, day_no, date_iso },
                )
            },
        },
        (RunState::Posting { style }, RunEvent::Posted(r)) => match r {
            Err(e) => (RunState::Finished, RunAction::Stop(Err(e))),
            Ok(ts) => (
                RunState::Replying,
                RunAction::PostReply { thread_ts: ts, text: reply_text(style) },
            ),
        },
        (RunState::Replying, RunEvent::ReplyPosted(_)) => (
            RunState::Finished,
            RunAction::Stop(Ok(())),
        ),
        _ => (RunState::Finished, RunAction::Stop(Err(String::from_str("event out of order")))),
    }
}

// ---------------------------------------------------------------------------
// Laws
// ---------------------------------------------------------------------------

/// On Saturday and Sunday a run ends at once, successfully, and posts
/// nothing.
pub proof fn weekend_runs_post_nothing(
    cfg: Config,
    weekday: Weekday,
    date_iso: String,
    next: RunState,
    action: RunAction,
)
    requires
        weekday is Sat || weekday is Sun,
        is_run_step(cfg, RunState::Idle, RunEvent::Scheduled { weekday, date_iso }, next, action),
    ensures
        next is Finished,
        action == RunAction::Stop(Ok(())),
{
}

/// Two runs scheduled at the same instant start on the same weekday and
/// date, whenever they are run.
pub proof fn schedule_alone_fixes_the_day(
    millis: i64,
    first: Result<RunEvent, String>,
    second: Result<RunEvent, String>,
)
    requires
        is_scheduled_event(millis, first),
        is_scheduled_event(millis, second),
    ensures
        first is Ok <==> second is Ok,
        first matches Ok(RunEvent::Scheduled { weekday, date_iso }) ==> (second matches Ok(
            RunEvent::Scheduled { weekday: w2, date_iso: d2 },
        ) && w2 == weekday && d2@ == date_iso@),
{
}

/// A run scheduled on a Saturday or Sunday in Oslo ends at once,
/// successfully, and posts nothing.
pub proof fn weekend_schedule_posts_nothing(
    cfg: Config,
    millis: i64,
    start: Result<RunEvent, String>,
    next: RunState,
    action: RunAction,
)
    requires
        is_scheduled_event(millis, start),
        oslo_day(millis) matches Some(p) && p.0 >= 5,
        start matches Ok(e) && is_run_step(cfg, RunState::Idle, e, next, action),
    ensures
        next is Finished,
        action == RunAction::Stop(Ok(())),
{
}

/// Two pictures with the same bytes, style and menu text.
pub open spec fn same_image(a: GeneratedImage, b: GeneratedImage) -> bool {
    a.png@ == b.png@ && a.style_prompt@ == b.style_prompt@ && a.menu_text@ == b.menu_text@
}

/// Two states that hold the same texts.
pub open spec fn same_run_state(a: RunState, b: RunState) -> bool {
    match (a, b) {
        (RunState::Idle, RunState::Idle) => true,
        (
            RunState::FetchingMenu { day_no: d1, date_iso: t1 },
            RunState::FetchingMenu { day_no: d2, date_iso: t2 },
        ) => d1@ == d2@ && t1@ == t2@,
        (
            RunState::GeneratingImage { day_no: d1, date_iso: t1 },
            RunState::GeneratingImage { day_no: d2, date_iso: t2 },
        ) => d1@ == d2@ && t1@ == t2@,
        (
            RunState::Uploading { day_no: d1, date_iso: t1, key: k1, style: s1 },
            RunState::Uploading { day_no: d2, date_iso: t2, key: k2, style: s2 },
        ) => d1@ == d2@ && t1@ == t2@ && k1@ == k2@ && s1@ == s2@,
        (RunState::Posting { style: s1 }, RunState::Posting { style: s2 }) => s1@ == s2@,
        (RunState::Replying, RunState::Replying) => true,
        (RunState::Finished, RunState::Finished) => true,
        _ => false,
    }
}

/// Two actions that ask for the same work with the same texts.
pub open spec fn same_run_action(a: RunAction, b: RunAction) -> bool {
    match (a, b) {
        (RunAction::FetchMenu, RunAction::FetchMenu) => true,
        (
            RunAction::GenerateImage { day_no: d1, menu_html: h1 },
            RunAction::GenerateImage { day_no: d2, menu_html: h2 },
        ) => d1@ == d2@ && h1@ == h2@,
        (RunAction::Upload { key: k1, image: i1 }, RunAction::Upload { key: k2, image: i2 }) => k1@
            == k2@ && same_image(i1, i2),
        (
            RunAction::PostImage { image_url: u1, day_no: d1, date_iso: t1 },
            RunAction::PostImage { image_url: u2, day_no: d2, date_iso: t2 },
        ) => u1@ == u2@ && d1@ == d2@ && t1@ == t2@,
        (
            RunAction::PostReply { thread_ts: s1, text: x1 },
            RunAction::PostReply { thread_ts: s2, text: x2 },
        ) => s1@ == s2@ && x1@ == x2@,
        (RunAction::Stop(Ok(())), RunAction::Stop(Ok(()))) => true,
        (RunAction::Stop(Err(m1)), RunAction::Stop(Err(m2))) => m1@ == m2@,
        _ => false,
    }
}

/// A run's steps depend on nothing but the settings, the state and the
/// event: the same inputs give the same next state and the same work, with
/// the same day, date, storage key, image URL and texts.
pub proof fn run_steps_are_determined(
    cfg: Config,
    state: RunState,
    event: RunEvent,
    next1: RunState,
    action1: RunAction,
    next2: RunState,
    action2: RunAction,
)
    requires
        is_run_step(cfg, state, event, next1, action1),
        is_run_step(cfg, state, event, next2, action2),
    ensures
        same_run_state(next1, next2),
        same_run_action(action1, action2),
{
}

/// The picture is posted under the URL of the key it was stored with: the
/// date's key below the public base.
pub proof fn posted_url_is_uploaded_key(
    cfg: Config,
    state: RunState,
    event: RunEvent,
    mid: RunState,
    upload: RunAction,
    event2: RunEvent,
    next: RunState,
    post: RunAction,
)
    requires
        state is GeneratingImage,
        is_run_step(cfg, state, event, mid, upload),
        upload is Upload,
        is_run_step(cfg, mid, event2, next, post),
        post is PostImage,
    ensures
        post->PostImage_image_url@ == public_url_text(cfg.r2_public_url_base@, upload->Upload_key@),
        upload->Upload_key@ == image_key_text(state->GeneratingImage_date_iso@),
{
}

/// The day after `w`.
pub open spec fn following_day(w: Weekday) -> Weekday {
    match w {
        Weekday::Mon => Weekday::Tue,
        Weekday::Tue => Weekday::Wed,
        Weekday::Wed => Weekday::Thu,
        Weekday::Thu => Weekday::Fri,
        Weekday::Fri => Weekday::Sat,
        Weekday::Sat => Weekday::Sun,
        Weekday::Sun => Weekday::Mon,
    }
}

/// Weekday numbers count days from Monday: number 0 is Monday, and each
/// next number is the next day of the week.
pub proof fn weekday_numbers_follow_the_week(n: u8)
    requires
        n < 6,
    ensures
        weekday_numbered(0) == Weekday::Mon,
        weekday_numbered((n + 1) as u8) == following_day(weekday_numbered(n)),
{
}

/// The Norwegian names of Monday to Friday, in order.
pub open spec fn norwegian_workdays() -> Seq<Seq<char>> {
    seq!["Mandag"@, "Tirsdag"@, "Onsdag"@, "Torsdag"@, "Fredag"@]
}

/// A run scheduled on the `n`-th day of the week in Oslo (Monday being 0),
/// Monday to Friday, goes on to fetch the menu for the day of that name.
pub proof fn scheduled_run_names_its_day(
    cfg: Config,
    millis: i64,
    start: Result<RunEvent, String>,
    next: RunState,
    action: RunAction,
)
    requires
        is_scheduled_event(millis, start),
        oslo_day(millis) matches Some(p) && p.0 < 5,
        start matches Ok(e) && is_run_step(cfg, RunState::Idle, e, next, action),
    ensures
        action is FetchMenu,
        oslo_day(millis) matches Some(p) ==> (next matches RunState::FetchingMenu { day_no, date_iso }
            && day_no@ == norwegian_workdays()[p.0 as int] && date_iso@ == p.1),
{
}

/// The event that answers the work a state asked for.
pub open spec fn answers(state: RunState, event: RunEvent) -> bool {
    match (state, event) {
        (RunState::FetchingMenu { .. }, RunEvent::MenuFetched(_)) => true,
        (RunState::GeneratingImage { .. }, RunEvent::ImageGenerated(_)) => true,
        (RunState::Uploading { .. }, RunEvent::Uploaded(_)) => true,
        (RunState::Posting { .. }, RunEvent::Posted(_)) => true,
        (RunState::Replying, RunEvent::ReplyPosted(_)) => true,
        _ => false,
    }
}

/// The failure, if any, that an event reports.
pub open spec fn reported_failure(event: RunEvent) -> Option<String> {
    match event {
        RunEvent::MenuFetched(Err(e)) => Some(e),
        RunEvent::ImageGenerated(Err(e)) => Some(e),
        RunEvent::Uploaded(Err(e)) => Some(e),
        RunEvent::Posted(Err(e)) => Some(e),
        RunEvent::ReplyPosted(Err(e)) => Some(e),
        _ => None,
    }
}

/// When the fetch, the picture, the upload or the post fails, the run ends
/// at once with that failure as its error.
pub proof fn failures_end_the_run_with_their_error(
    cfg: Config,
    state: RunState,
    event: RunEvent,
    next: RunState,
    action: RunAction,
)
    requires
        is_run_step(cfg, state, event, next, action),
        answers(state, event),
        !(state is Replying),
        reported_failure(event) is Some,
    ensures
        next is Finished,
        action == RunAction::Stop(Err(reported_failure(event)->0)),
{
}

/// A run reports success only after the reply in the thread was attempted,
/// or at once on a weekend.
pub proof fn success_only_after_posting_or_on_weekends(
    cfg: Config,
    state: RunState,
    event: RunEvent,
    next: RunState,
    action: RunAction,
)
    requires
        is_run_step(cfg, state, event, next, action),
        action == RunAction::Stop(Ok(())),
    ensures
        state is Replying || (state is Idle && (event matches RunEvent::Scheduled { weekday, .. } && (
        weekday is Sat || weekday is Sun))),
{
}

/// Whatever the runtime reports of an earlier step, a failure ends the run
/// with that failure's message, except a failed reply in the thread, after
/// which the run still succeeds.
pub proof fn failures_end_the_run(
    cfg: Config,
    state: RunState,
    event: RunEvent,
    next: RunState,
    action: RunAction,
)
    requires
        is_run_step(cfg, state, event, next, action),
        action is Stop,
    ensures
        next is Finished,
        event matches RunEvent::ReplyPosted(_) && state is Replying ==> action == RunAction::Stop(
            Ok(()),
        ),
{
}

} // verus!
