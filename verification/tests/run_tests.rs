use lunchbot::config::Config;
use lunchbot::gemini::{image_step, style_prompt, GeneratedImage, ImageAction, ImageEvent, ImageState, STYLE_COUNT};
use lunchbot::run::{day_name_no, reply_text, run_step, scheduled_event, RunAction, RunEvent, RunState, Weekday};

fn cfg() -> Config {
    Config::from_values(
        "g".to_string(),
        "a".to_string(),
        "t".to_string(),
        "xoxb".to_string(),
        "C1".to_string(),
        "https://pub.r2.dev/",
    )
}

#[test]
fn weekday_names() {
    assert_eq!(day_name_no(&Weekday::Mon), Some("Mandag"));
    assert_eq!(day_name_no(&Weekday::Tue), Some("Tirsdag"));
    assert_eq!(day_name_no(&Weekday::Wed), Some("Onsdag"));
    assert_eq!(day_name_no(&Weekday::Thu), Some("Torsdag"));
    assert_eq!(day_name_no(&Weekday::Fri), Some("Fredag"));
    assert_eq!(day_name_no(&Weekday::Sat), None);
    assert_eq!(day_name_no(&Weekday::Sun), None);
}

#[test]
fn weekend_run_stops_at_once() {
    for w in [Weekday::Sat, Weekday::Sun] {
        let (next, action) = run_step(&cfg(), RunState::Idle, RunEvent::Scheduled { weekday: w, date_iso: "2024-05-11".to_string() });
        assert!(matches!(next, RunState::Finished));
        assert!(matches!(action, RunAction::Stop(Ok(()))));
    }
}

#[test]
fn full_weekday_run() {
    let c = cfg();
    let (s, a) = run_step(&c, RunState::Idle, RunEvent::Scheduled { weekday: Weekday::Wed, date_iso: "2024-05-08".to_string() });
    assert!(matches!(a, RunAction::FetchMenu));
    let (s, a) = run_step(&c, s, RunEvent::MenuFetched(Ok("<p>meny</p>".to_string())));
    match a {
        RunAction::GenerateImage { day_no, menu_html } => {
            assert_eq!(day_no, "Onsdag");
            assert_eq!(menu_html, "<p>meny</p>");
        }
        _ => panic!("expected the picture to be made"),
    }
    let style = style_prompt(2);
    let image = GeneratedImage { png: vec![1, 2, 3], style_prompt: style, menu_text: "*Dagens*".to_string() };
    let (s, a) = run_step(&c, s, RunEvent::ImageGenerated(Ok(image)));
    match a {
        RunAction::Upload { key, image } => {
            assert_eq!(key, "menu-2024-05-08.png");
            assert_eq!(image.png, vec![1, 2, 3]);
            assert_eq!(image.style_prompt, style);
            assert_eq!(image.menu_text, "*Dagens*");
        }
        _ => panic!("expected the upload"),
    }
    let (s, a) = run_step(&c, s, RunEvent::Uploaded(Ok(())));
    match a {
        RunAction::PostImage { image_url, day_no, date_iso } => {
            assert_eq!(image_url, "https://pub.r2.dev/menu-2024-05-08.png");
            assert_eq!(day_no, "Onsdag");
            assert_eq!(date_iso, "2024-05-08");
        }
        _ => panic!("expected the Slack post"),
    }
    let (s, a) = run_step(&c, s, RunEvent::Posted(Ok("1715.42".to_string())));
    match a {
        RunAction::PostReply { thread_ts, text } => {
            assert_eq!(thread_ts, "1715.42");
            assert_eq!(text, format!("Style prompt:\n```{style}```"));
        }
        _ => panic!("expected the thread reply"),
    }
    let (s, a) = run_step(&c, s, RunEvent::ReplyPosted(Err("rate limited".to_string())));
    assert!(matches!(s, RunState::Finished));
    assert!(matches!(a, RunAction::Stop(Ok(()))));
}

#[test]
fn failures_stop_the_run() {
    let c = cfg();
    let (s, _) = run_step(&c, RunState::Idle, RunEvent::Scheduled { weekday: Weekday::Mon, date_iso: "2024-05-06".to_string() });
    let (s, a) = run_step(&c, s, RunEvent::MenuFetched(Err("non-2xx (500) from tullin.munu.shop/meny".to_string())));
    assert!(matches!(s, RunState::Finished));
    match a {
        RunAction::Stop(Err(m)) => assert_eq!(m, "non-2xx (500) from tullin.munu.shop/meny"),
        _ => panic!("expected the error"),
    }
    let uploading = RunState::Uploading {
        day_no: "Mandag".to_string(),
        date_iso: "2024-05-06".to_string(),
        key: "menu-2024-05-06.png".to_string(),
        style: style_prompt(1),
    };
    match run_step(&c, uploading, RunEvent::Uploaded(Err("R2 down".to_string()))).1 {
        RunAction::Stop(Err(m)) => assert_eq!(m, "R2 down"),
        _ => panic!("expected the error"),
    }
}

#[test]
fn events_out_of_order() {
    match run_step(&cfg(), RunState::Finished, RunEvent::Uploaded(Ok(()))).1 {
        RunAction::Stop(Err(m)) => assert_eq!(m, "event out of order"),
        _ => panic!("expected the error"),
    }
    match run_step(&cfg(), RunState::Idle, RunEvent::Posted(Ok("1".to_string()))).1 {
        RunAction::Stop(Err(m)) => assert_eq!(m, "event out of order"),
        _ => panic!("expected the error"),
    }
}

#[test]
fn reply_texts() {
    assert_eq!(reply_text("Warm oil"), "Style prompt:\n```Warm oil```");
}

#[test]
fn picture_is_drawn_after_the_text() {
    let (s, a) = image_step(ImageState::WritingText, ImageEvent::TextWritten(Ok("*Suppe*".to_string())));
    let style = match a {
        ImageAction::Draw { menu_text, style } => {
            assert_eq!(menu_text, "*Suppe*");
            assert!((0..STYLE_COUNT).any(|i| style_prompt(i) == style));
            style
        }
        _ => panic!("expected the drawing request"),
    };
    let (s, a) = image_step(s, ImageEvent::Drawn(Ok(vec![9])));
    assert!(matches!(s, ImageState::Done));
    match a {
        ImageAction::Finish(Ok(image)) => {
            assert_eq!(image.png, vec![9]);
            assert_eq!(image.menu_text, "*Suppe*");
            assert_eq!(image.style_prompt, style);
        }
        _ => panic!("expected the picture"),
    }
}

#[test]
fn picture_failures() {
    match image_step(ImageState::WritingText, ImageEvent::TextWritten(Err("Gemini returned 400: x".to_string()))).1 {
        ImageAction::Finish(Err(m)) => assert_eq!(m, "Gemini returned 400: x"),
        _ => panic!("expected the error"),
    }
    let drawing = ImageState::Drawing { menu_text: "m".to_string(), style: style_prompt(0) };
    match image_step(drawing, ImageEvent::Drawn(Err("still failing".to_string()))).1 {
        ImageAction::Finish(Err(m)) => assert_eq!(m, "still failing"),
        _ => panic!("expected the error"),
    }
    match image_step(ImageState::Done, ImageEvent::Drawn(Ok(vec![]))).1 {
        ImageAction::Finish(Err(m)) => assert_eq!(m, "image event out of order"),
        _ => panic!("expected the error"),
    }
}

fn day_of(millis: i64) -> (Weekday, String) {
    match scheduled_event(millis).unwrap() {
        RunEvent::Scheduled { weekday, date_iso } => (weekday, date_iso),
        _ => panic!("expected the scheduled event"),
    }
}

#[test]
fn scheduled_day_is_read_in_oslo() {
    // 2024-05-06 10:00 UTC is noon on Monday in Oslo (summer time).
    let (w, d) = day_of(1_714_989_600_000);
    assert_eq!(w, Weekday::Mon);
    assert_eq!(d, "2024-05-06");
    // 2024-05-05 22:30 UTC, a Sunday there, is already Monday in Oslo.
    let (w, d) = day_of(1_714_948_200_000);
    assert_eq!(w, Weekday::Mon);
    assert_eq!(d, "2024-05-06");
    // 2024-01-05 23:30 UTC, a Friday there, is Saturday in Oslo (winter time).
    let (w, d) = day_of(1_704_497_400_000);
    assert_eq!(w, Weekday::Sat);
    assert_eq!(d, "2024-01-06");
    let (w, d) = day_of(1_715_418_000_000);
    assert_eq!(w, Weekday::Sat);
    assert_eq!(d, "2024-05-11");
}

#[test]
fn same_schedule_same_day() {
    assert_eq!(day_of(1_714_989_600_000), day_of(1_714_989_600_000));
}

#[test]
fn weekend_schedule_stops_the_run() {
    let start = scheduled_event(1_704_497_400_000).unwrap();
    let (next, action) = run_step(&cfg(), RunState::Idle, start);
    assert!(matches!(next, RunState::Finished));
    assert!(matches!(action, RunAction::Stop(Ok(()))));
}

#[test]
fn weekday_schedule_keys_the_picture_by_its_oslo_date() {
    let c = cfg();
    let (s, _) = run_step(&c, RunState::Idle, scheduled_event(1_714_948_200_000).unwrap());
    let (s, _) = run_step(&c, s, RunEvent::MenuFetched(Ok("m".to_string())));
    let image = GeneratedImage { png: vec![0], style_prompt: style_prompt(0), menu_text: "t".to_string() };
    match run_step(&c, s, RunEvent::ImageGenerated(Ok(image))).1 {
        RunAction::Upload { key, .. } => assert_eq!(key, "menu-2024-05-06.png"),
        _ => panic!("expected the upload"),
    }
}

#[test]
fn invalid_schedule() {
    for millis in [i64::MAX, i64::MIN, 8_210_298_409_200_000, 8_210_298_410_000_000, 8_210_298_412_799_999] {
        match scheduled_event(millis) {
            Err(m) => assert_eq!(m, "invalid schedule timestamp"),
            Ok(_) => panic!("expected an error"),
        }
    }
    // Far in the future the day can still be read.
    assert!(scheduled_event(3_000_000_000_000_000).is_ok());
}
