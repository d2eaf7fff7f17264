use wallpaper_switcher::config::{default_source_kind, default_weight, Config, CurrentWallpaper, Source};
use wallpaper_switcher::launch::starts_minimized;
use wallpaper_switcher::providers::{
    accept_unsplash_photo, chosen_image_path, largest_display, pick_wallhaven_image,
    unsplash_auth_header, wallhaven_atleast, wallhaven_candidates, UnsplashPhoto, WallhavenImage,
};
use wallpaper_switcher::selection::{
    is_blacklisted, provider_for, weighted_indices, AttemptOutcome, FetchError, FetchRequest,
    Provider, UpdateError, UpdateRun, ATTEMPT_LIMIT,
};
use wallpaper_switcher::service::{
    delay_or_default, delay_within_digit_limit, has_enabled_sources, plan_tick, service_delay,
    tick_decision, TickAction, DELAY_DIGIT_LIMIT,
};
use wallpaper_switcher::text::{decimal_text, has_prefix, text_eq};
use wallpaper_switcher::tray::{apply_feedback, menu_command, Feedback, MenuCommand};

fn source(query: &str, kind: &str, enabled: bool, weight: u32) -> Source {
    Source { query: query.to_string(), kind: kind.to_string(), enabled, weight }
}

fn config_with(sources: Vec<Source>, blacklist: Vec<&str>) -> Config {
    let mut c = Config::default();
    c.sources = sources;
    c.blacklist = blacklist.into_iter().map(|s| s.to_string()).collect();
    c
}

#[test]
fn defaults_match_the_settings_file_defaults() {
    assert_eq!(default_source_kind(), "unsplash");
    assert_eq!(default_weight(), 10);
    let c = Config::default();
    assert_eq!(c.unsplash_api_key, "");
    assert_eq!(c.delay, "1h");
    assert_eq!(c.theme_color, "#FFDDDD");
    assert!(c.minimize_to_tray);
    assert!(!c.run_on_startup);
    assert_eq!(c.sources.len(), 1);
    assert_eq!(c.sources[0].query, "nature");
    assert_eq!(c.sources[0].kind, "unsplash");
    assert!(c.sources[0].enabled);
    assert_eq!(c.sources[0].weight, 10);
    assert!(c.blacklist.is_empty());
}

#[test]
fn decimal_rendering() {
    assert_eq!(decimal_text(0), "0");
    assert_eq!(decimal_text(7), "7");
    assert_eq!(decimal_text(1920), "1920");
    assert_eq!(decimal_text(u32::MAX), "4294967295");
}

#[test]
fn text_comparisons() {
    assert!(text_eq("wallhaven", "wallhaven"));
    assert!(!text_eq("wallhaven", "wallhave"));
    assert!(!text_eq("abc", "abd"));
    assert!(text_eq("", ""));
    assert!(has_prefix("Client-ID abc", "Client-ID"));
    assert!(!has_prefix("Client", "Client-ID"));
    assert!(!has_prefix("client-ID x", "Client-ID"));
    assert!(has_prefix("x", ""));
}

#[test]
fn lottery_repeats_each_enabled_source_by_weight() {
    let sources = vec![
        source("a", "unsplash", true, 2),
        source("b", "unsplash", false, 5),
        source("c", "wallhaven", true, 0),
        source("d", "unsplash", true, 3),
    ];
    assert_eq!(weighted_indices(&sources), vec![0, 0, 2, 3, 3, 3]);
    assert!(weighted_indices(&vec![]).is_empty());
    assert!(weighted_indices(&vec![source("x", "unsplash", false, 4)]).is_empty());
}

#[test]
fn providers_are_read_from_the_kind() {
    assert_eq!(provider_for("wallhaven"), Provider::Wallhaven);
    assert_eq!(provider_for("unsplash"), Provider::Unsplash);
    assert_eq!(provider_for("Wallhaven"), Provider::Unsplash);
    assert_eq!(provider_for(""), Provider::Unsplash);
}

#[test]
fn blacklist_lookup() {
    let list = vec!["https://a/1".to_string(), "https://b/2".to_string()];
    assert!(is_blacklisted(&list, "https://b/2"));
    assert!(!is_blacklisted(&list, "https://b/3"));
    assert!(!is_blacklisted(&vec![], "https://a/1"));
}

#[test]
fn update_without_enabled_source_fails() {
    let c = config_with(vec![source("a", "unsplash", false, 10)], vec![]);
    match UpdateRun::start(c) {
        Err(e) => assert_eq!(e, UpdateError::NoSourcesEnabled),
        Ok(_) => panic!("expected an error"),
    }
}

#[test]
fn update_draws_only_enabled_sources_and_gives_up_after_the_limit() {
    let c = config_with(
        vec![
            source("off", "unsplash", false, 50),
            source("mountains", "wallhaven", true, 1),
        ],
        vec![],
    );
    let mut run = UpdateRun::start(c).ok().unwrap();
    for _ in 0..ATTEMPT_LIMIT {
        let req = run.begin_attempt().ok().unwrap();
        assert_eq!(req.source_index, 1);
        assert_eq!(req.provider, Provider::Wallhaven);
        assert_eq!(req.query, "mountains");
    }
    assert_eq!(run.attempts, 5);
    match run.begin_attempt() {
        Err(e) => assert_eq!(e, UpdateError::RetriesExhausted),
        Ok(_) => panic!("expected the attempts to be used up"),
    }
}

#[test]
fn fetch_results_are_classified() {
    let c = config_with(vec![source("a", "unsplash", true, 1)], vec!["https://x/banned"]);
    let run = UpdateRun::start(c).ok().unwrap();
    match run.after_fetch(0, Ok("https://x/banned".to_string())) {
        AttemptOutcome::Blacklisted { url } => assert_eq!(url, "https://x/banned"),
        other => panic!("unexpected {:?}", other),
    }
    match run.after_fetch(0, Ok("https://x/fine".to_string())) {
        AttemptOutcome::Download { url, source_index } => {
            assert_eq!(url, "https://x/fine");
            assert_eq!(source_index, 0);
        }
        other => panic!("unexpected {:?}", other),
    }
    assert!(matches!(run.after_fetch(0, Err(FetchError::ImageTooSmall)), AttemptOutcome::Failed));
    assert!(matches!(run.after_fetch(0, Err(FetchError::ApiStatus(500))), AttemptOutcome::Failed));
    assert!(matches!(
        run.after_fetch(0, Err(FetchError::Transport("timeout".to_string()))),
        AttemptOutcome::Failed
    ));
}

#[test]
fn request_for_a_source() {
    let c = config_with(vec![source("a", "unsplash", true, 1), source("sea", "wallhaven", true, 1)], vec![]);
    let req: FetchRequest = FetchRequest::for_source(&c, 1);
    assert_eq!(req.source_index, 1);
    assert_eq!(req.provider, Provider::Wallhaven);
    assert_eq!(req.query, "sea");
}

#[test]
fn largest_display_by_tuple_order() {
    assert_eq!(largest_display(&vec![]), (1920, 1080));
    assert_eq!(largest_display(&vec![(1920, 1080), (2560, 1440), (2560, 1080)]), (2560, 1440));
    assert_eq!(largest_display(&vec![(3840, 100), (1920, 2160)]), (3840, 100));
}

#[test]
fn unsplash_header_and_acceptance() {
    assert_eq!(unsplash_auth_header("abc"), "Client-ID abc");
    assert_eq!(unsplash_auth_header("Client-ID abc"), "Client-ID abc");
    assert_eq!(unsplash_auth_header(""), "Client-ID ");
    let h = unsplash_auth_header("k");
    assert_eq!(unsplash_auth_header(&h), h);
    let photo = |w, h| UnsplashPhoto { width: w, height: h, raw_url: "https://u/raw".to_string() };
    assert_eq!(accept_unsplash_photo(photo(3000, 2000), 1920, 1080).ok().unwrap(), "https://u/raw");
    assert_eq!(accept_unsplash_photo(photo(1920, 1080), 1920, 1080).ok().unwrap(), "https://u/raw");
    assert!(matches!(accept_unsplash_photo(photo(1919, 2000), 1920, 1080), Err(FetchError::ImageTooSmall)));
    assert!(matches!(accept_unsplash_photo(photo(3000, 1079), 1920, 1080), Err(FetchError::ImageTooSmall)));
}

fn image(path: &str, x: u32, y: u32) -> WallhavenImage {
    WallhavenImage { path: path.to_string(), dimension_x: x, dimension_y: y }
}

#[test]
fn wallhaven_parameters_and_picks() {
    assert_eq!(wallhaven_atleast(1920, 1080), "1920x1080");
    assert_eq!(wallhaven_atleast(0, 7), "0x7");
    let images = vec![image("small", 800, 600), image("big", 3840, 2160), image("tall", 1000, 3000)];
    assert_eq!(wallhaven_candidates(&images, 1920, 1080), vec![1]);
    assert_eq!(wallhaven_candidates(&images, 800, 600), vec![0, 1, 2]);
    assert_eq!(pick_wallhaven_image(&images, 1920, 1080).ok().unwrap(), "big");
    assert!(matches!(pick_wallhaven_image(&images, 5000, 5000), Err(FetchError::NoImagesFound)));
    assert!(matches!(pick_wallhaven_image(&vec![], 1, 1), Err(FetchError::NoImagesFound)));
    let any = pick_wallhaven_image(&images, 900, 600).ok().unwrap();
    assert!(any == "big" || any == "tall");
    assert_eq!(chosen_image_path(&images, Some(2)).ok().unwrap(), "tall");
    assert!(matches!(chosen_image_path(&images, None), Err(FetchError::NoImagesFound)));
}

#[test]
fn service_delays() {
    assert_eq!(service_delay("1h"), (3600, 0));
    assert_eq!(service_delay("2h 37min"), (9420, 0));
    assert_eq!(service_delay("32ms"), (0, 32_000_000));
    assert_eq!(service_delay("15m"), (900, 0));
    assert_eq!(service_delay("soon"), (3600, 0));
    assert_eq!(service_delay(""), (3600, 0));
    assert_eq!(delay_or_default(Some((5, 7))), (5, 7));
    assert_eq!(delay_or_default(None), (3600, 0));
}

#[test]
fn service_ticks() {
    let mut c = config_with(vec![source("a", "unsplash", true, 1)], vec![]);
    c.delay = "30s".to_string();
    assert!(has_enabled_sources(&c.sources));
    let p = plan_tick(&c, Some(10));
    assert_eq!(p.action, TickAction::Update);
    assert_eq!((p.sleep_secs, p.sleep_nanos), (30, 0));
    assert_eq!(plan_tick(&c, None).action, TickAction::Update);
    assert_eq!(plan_tick(&c, Some(599)).action, TickAction::Update);
    assert_eq!(plan_tick(&c, Some(600)).action, TickAction::UserIdle);
    assert_eq!(tick_decision(&c, Some(600)), TickAction::UserIdle);
    assert_eq!(tick_decision(&c, None), TickAction::Update);
    c.sources[0].enabled = false;
    assert!(!has_enabled_sources(&c.sources));
    assert_eq!(plan_tick(&c, Some(0)).action, TickAction::NoSources);
    assert_eq!(tick_decision(&c, Some(0)), TickAction::NoSources);
}

#[test]
fn delay_digit_limit() {
    assert_eq!(DELAY_DIGIT_LIMIT, 11);
    assert!(delay_within_digit_limit("1h"));
    assert!(delay_within_digit_limit(""));
    assert!(delay_within_digit_limit("2h 37min 5s"));
    assert!(delay_within_digit_limit("99999999999y"));
    assert_eq!(service_delay("99999999999s"), (99_999_999_999, 0));
    assert!(!delay_within_digit_limit("999999999999s"));
    assert!(!delay_within_digit_limit("18446744073709551615s 1000000000ns"));
    assert!(!delay_within_digit_limit("18446744073709551615s 999999999ns 1ns"));
    assert!(!delay_within_digit_limit("1h 2h 3h 4h 5h 6h 7h 8h 9h 1h 2h 3h"));
}

#[test]
fn menu_ids() {
    assert_eq!(menu_command("quit"), MenuCommand::Quit);
    assert_eq!(menu_command("show"), MenuCommand::Show);
    assert_eq!(menu_command("next"), MenuCommand::Next);
    assert_eq!(menu_command("more"), MenuCommand::More);
    assert_eq!(menu_command("less"), MenuCommand::Less);
    assert_eq!(menu_command("never"), MenuCommand::Never);
    assert_eq!(menu_command("Never"), MenuCommand::Other);
    assert_eq!(menu_command(""), MenuCommand::Other);
}

#[test]
fn feedback_on_the_current_wallpaper() {
    let mut c = config_with(vec![source("a", "unsplash", true, 1), source("b", "unsplash", true, 4)], vec![]);
    let cur = Some(CurrentWallpaper { source_index: 1, url: "https://w/9".to_string() });
    assert_eq!(apply_feedback(&mut c, &cur, MenuCommand::More), Feedback::Save);
    assert_eq!(c.sources[1].weight, 5);
    assert_eq!(c.sources[0].weight, 1);
    assert_eq!(weighted_indices(&c.sources), vec![0, 1, 1, 1, 1, 1]);
    assert_eq!(apply_feedback(&mut c, &cur, MenuCommand::Less), Feedback::Save);
    assert_eq!(c.sources[1].weight, 4);
    let first = Some(CurrentWallpaper { source_index: 0, url: "u".to_string() });
    assert_eq!(apply_feedback(&mut c, &first, MenuCommand::Less), Feedback::Save);
    assert_eq!(c.sources[0].weight, 1);
    assert_eq!(apply_feedback(&mut c, &cur, MenuCommand::Never), Feedback::SaveThenNext);
    assert_eq!(c.blacklist, vec!["https://w/9".to_string()]);
    assert!(is_blacklisted(&c.blacklist, "https://w/9"));
    assert_eq!(apply_feedback(&mut c, &None, MenuCommand::More), Feedback::Unchanged);
    assert_eq!(apply_feedback(&mut c, &cur, MenuCommand::Next), Feedback::Unchanged);
    let gone = Some(CurrentWallpaper { source_index: 7, url: "v".to_string() });
    assert_eq!(apply_feedback(&mut c, &gone, MenuCommand::More), Feedback::Unchanged);
    assert_eq!(apply_feedback(&mut c, &gone, MenuCommand::Less), Feedback::Unchanged);
    assert_eq!(c.sources[1].weight, 4);
    let run = UpdateRun::start(c).ok().unwrap();
    assert!(matches!(run.after_fetch(1, Ok("https://w/9".to_string())), AttemptOutcome::Blacklisted { .. }));
}

#[test]
fn more_then_less_restores_the_weight() {
    let mut c = config_with(vec![source("a", "unsplash", true, 6)], vec![]);
    let cur = Some(CurrentWallpaper { source_index: 0, url: "x".to_string() });
    apply_feedback(&mut c, &cur, MenuCommand::More);
    apply_feedback(&mut c, &cur, MenuCommand::Less);
    assert_eq!(c.sources[0].weight, 6);
    let mut c = config_with(vec![source("a", "unsplash", true, 1)], vec![]);
    c.increase_weight(0);
    c.decrease_weight(0);
    assert_eq!(c.sources[0].weight, 1);
    assert!(!c.increase_weight(3));
    assert!(!c.decrease_weight(3));
}

#[test]
fn minimized_start() {
    assert!(starts_minimized(&vec!["app".to_string(), "--minimized".to_string()]));
    assert!(!starts_minimized(&vec!["app".to_string()]));
    assert!(!starts_minimized(&vec!["--minimized=1".to_string()]));
    assert!(!starts_minimized(&vec![]));
}
