use magnify::asset::{extension_for, locate, AssetKind, Ext};
use magnify::cache::{cache_path, probe_paths, resolve};
use magnify::decimal::{decimal_string, parse_u64};
use magnify::error::FetchError;
use magnify::fetch::{AssetJob, AssetOutcome, Fetcher, Phase};
use magnify::profile::{authorization, profile_url, ProfileRecord, User};

fn user(id: &str, avatar: Option<&str>, banner: Option<&str>) -> User {
    User {
        id: id.to_string(),
        username: "someone".to_string(),
        discriminator: "0".to_string(),
        global_name: Some("Some One".to_string()),
        avatar: avatar.map(|s| s.to_string()),
        bot: None,
        system: None,
        mfa_enabled: None,
        banner: banner.map(|s| s.to_string()),
        accent_color: None,
        locale: None,
        verified: None,
        email: None,
        flags: None,
        premium_type: Some(1),
        public_flags: None,
        avatar_decoration_data: serde_json::Value::Null,
    }
}

fn started(id: &str) -> (Fetcher, u64) {
    let mut f = Fetcher::new(Some("tok".to_string())).unwrap();
    let req = f.begin_fetch(id).unwrap().unwrap();
    (f, req.ticket)
}

#[test]
fn marker_gives_gif() {
    assert_eq!(extension_for("a_abc123"), Ext::Gif);
    assert_eq!(extension_for("xxa_"), Ext::Gif);
}

#[test]
fn no_marker_gives_png() {
    assert_eq!(extension_for("abc123"), Ext::Png);
    assert_eq!(extension_for("a"), Ext::Png);
    assert_eq!(extension_for("_a"), Ext::Png);
    assert_eq!(extension_for(""), Ext::Png);
}

#[test]
fn parse_identifiers() {
    assert_eq!(parse_u64("123"), Some(123));
    assert_eq!(parse_u64("0"), Some(0));
    assert_eq!(parse_u64("007"), Some(7));
    assert_eq!(parse_u64("18446744073709551615"), Some(u64::MAX));
    assert_eq!(parse_u64("18446744073709551616"), None);
    assert_eq!(parse_u64(""), None);
    assert_eq!(parse_u64("-1"), None);
    assert_eq!(parse_u64("+1"), Some(1));
    assert_eq!(parse_u64("+"), None);
    assert_eq!(parse_u64("++1"), None);
    assert_eq!(parse_u64("+18446744073709551615"), Some(u64::MAX));
    assert_eq!(parse_u64(" 1"), None);
    assert_eq!(parse_u64("12a"), None);
}

#[test]
fn decimal_spelling() {
    assert_eq!(decimal_string(0), "0");
    assert_eq!(decimal_string(1234567890), "1234567890");
    assert_eq!(decimal_string(u64::MAX), "18446744073709551615");
}

#[test]
fn urls_and_header() {
    assert_eq!(profile_url(123), "https://discord.com/api/v10/users/123");
    assert_eq!(authorization("tok"), "Bot tok");
    let q = locate(42, "a_ff", AssetKind::Banner).unwrap();
    assert_eq!(q.remote_url(), "https://cdn.discordapp.com/banners/42/a_ff.gif");
    assert!(locate(42, "", AssetKind::Avatar).is_none());
}

#[test]
fn cache_paths_by_owner_and_kind() {
    assert_eq!(cache_path(7, AssetKind::Avatar, Ext::Png), "/tmp/7-avatar.png");
    assert_eq!(cache_path(7, AssetKind::Banner, Ext::Gif), "/tmp/7-banner.gif");
    let (png, gif) = probe_paths(7, AssetKind::Avatar);
    assert_eq!(png, "/tmp/7-avatar.png");
    assert_eq!(gif, "/tmp/7-avatar.gif");
}

#[test]
fn resolve_prefers_png() {
    let r = resolve(7, AssetKind::Avatar, true, true).unwrap();
    assert_eq!(r.extension, Ext::Png);
    assert_eq!(r.local_path, "/tmp/7-avatar.png");
    let r = resolve(7, AssetKind::Avatar, false, true).unwrap();
    assert_eq!(r.extension, Ext::Gif);
    assert_eq!(r.local_path, "/tmp/7-avatar.gif");
    assert!(resolve(7, AssetKind::Avatar, false, false).is_none());
}

#[test]
fn resolve_after_write_round_trip() {
    // nothing cached, a GIF is written: only the GIF path exists
    let r = resolve(9, AssetKind::Banner, false, true).unwrap();
    assert_eq!(r.extension, Ext::Gif);
    // a PNG is written over an earlier GIF: the PNG is found
    let r = resolve(9, AssetKind::Banner, true, true).unwrap();
    assert_eq!(r.extension, Ext::Png);
}

#[test]
fn profile_from_record() {
    let p = ProfileRecord::from_user(&user("123", None, Some("b1"))).unwrap();
    assert_eq!(p.id, 123);
    assert_eq!(p.username, "someone");
    assert_eq!(p.global_name, "Some One");
    assert_eq!(p.avatar_ref, "");
    assert_eq!(p.banner_ref, "b1");
    assert_eq!(p.created_at, 0);
    assert!(p.has_elevated_tier);
    let mut u = user("5", None, None);
    u.premium_type = Some(2);
    u.global_name = None;
    let p = ProfileRecord::from_user(&u).unwrap();
    assert!(!p.has_elevated_tier);
    assert_eq!(p.global_name, "");
    assert_eq!(ProfileRecord::from_user(&user("abc", None, None)).err(), Some(FetchError::Decode));
}

#[test]
fn empty_profile() {
    let p = ProfileRecord::empty();
    assert_eq!(p.id, 0);
    assert_eq!(p.username, "");
}

#[test]
fn missing_credential_stops_everything() {
    assert_eq!(Fetcher::new(None).err(), Some(FetchError::MissingCredential));
}

#[test]
fn begin_fetch_goes_to_fetching() {
    let mut f = Fetcher::new(Some("tok".to_string())).unwrap();
    assert!(matches!(f.phase, Phase::Idle));
    let req = f.begin_fetch("123").unwrap().unwrap();
    assert!(matches!(f.phase, Phase::Fetching { id: 123, .. }));
    assert_eq!(req.url, "https://discord.com/api/v10/users/123");
    assert_eq!(req.authorization, "Bot tok");
    assert_eq!(req.ticket, f.ticket);
}

#[test]
fn bad_identifier_is_rejected() {
    let mut f = Fetcher::new(Some("tok".to_string())).unwrap();
    assert_eq!(f.begin_fetch("12x").err(), Some(FetchError::Validation));
    assert_eq!(f.begin_fetch("").err(), Some(FetchError::Validation));
    assert!(matches!(f.phase, Phase::Idle));
}

#[test]
fn same_id_in_flight_is_not_repeated() {
    let (mut f, t) = started("123");
    assert!(f.begin_fetch("123").unwrap().is_none());
    assert_eq!(f.ticket, t);
    let req = f.begin_fetch("124").unwrap().unwrap();
    assert_ne!(req.ticket, t);
    // the superseded fetch's response is ignored
    let jobs = f.profile_received(t, Ok(user("123", Some("x"), None)));
    assert!(jobs.is_empty());
    assert!(matches!(f.phase, Phase::Fetching { id: 124, .. }));
}

#[test]
fn animated_avatar_example() {
    let (mut f, t) = started("123");
    let jobs = f.profile_received(t, Ok(user("123", Some("a_abc123"), None)));
    assert_eq!(jobs.len(), 1);
    let j: &AssetJob = &jobs[0];
    assert_eq!(j.kind, AssetKind::Avatar);
    assert_eq!(j.extension, Ext::Gif);
    assert_eq!(j.remote_url, "https://cdn.discordapp.com/avatars/123/a_abc123.gif");
    assert!(j.remote_url.contains("abc123"));
    assert_eq!(j.local_path, "/tmp/123-avatar.gif");
    assert!(f.asset_finished(t, AssetKind::Avatar, Ok(())));
    assert!(matches!(f.phase, Phase::Succeeded { avatar: AssetOutcome::Cached(Ext::Gif), banner: AssetOutcome::Skipped, .. }));
    assert_eq!(f.display_path(AssetKind::Avatar), Some("/tmp/123-avatar.gif".to_string()));
    assert_eq!(f.display_path(AssetKind::Banner), None);
}

#[test]
fn partial_failure() {
    let (mut f, t) = started("123");
    let jobs = f.profile_received(t, Ok(user("123", Some("av"), Some("bn"))));
    assert_eq!(jobs.len(), 2);
    assert_eq!(jobs[0].kind, AssetKind::Avatar);
    assert_eq!(jobs[1].kind, AssetKind::Banner);
    assert!(f.asset_finished(t, AssetKind::Avatar, Err(FetchError::Request)));
    assert!(matches!(f.phase, Phase::FetchingAssets { .. }));
    assert!(f.asset_finished(t, AssetKind::Banner, Ok(())));
    match &f.phase {
        Phase::PartiallySucceeded { profile, avatar, banner } => {
            assert_eq!(profile.id, 123);
            assert_eq!(*avatar, AssetOutcome::Failed(FetchError::Request));
            assert_eq!(*banner, AssetOutcome::Cached(Ext::Png));
        }
        _ => panic!("expected a partial success"),
    }
    assert_eq!(f.display_path(AssetKind::Banner), Some("/tmp/123-banner.png".to_string()));
    assert_eq!(f.display_path(AssetKind::Avatar), None);
    // a late duplicate report changes nothing
    assert!(!f.asset_finished(t, AssetKind::Banner, Ok(())));
}

#[test]
fn storage_failure_is_recorded() {
    let (mut f, t) = started("5");
    f.profile_received(t, Ok(user("5", Some("a"), None)));
    assert!(f.asset_finished(t, AssetKind::Avatar, Err(FetchError::Storage)));
    assert!(matches!(f.phase, Phase::PartiallySucceeded { avatar: AssetOutcome::Failed(FetchError::Storage), .. }));
}

#[test]
fn refetch_plans_the_same_jobs() {
    let mut runs: Vec<Vec<(String, String, Ext)>> = Vec::new();
    let mut f = Fetcher::new(Some("tok".to_string())).unwrap();
    for _ in 0..2 {
        let t = f.begin_fetch("77").unwrap().unwrap().ticket;
        let jobs = f.profile_received(t, Ok(user("77", Some("a_1"), Some("b_2"))));
        runs.push(jobs.iter().map(|j| (j.remote_url.clone(), j.local_path.clone(), j.extension)).collect());
        assert!(f.asset_finished(t, AssetKind::Avatar, Ok(())));
        assert!(f.asset_finished(t, AssetKind::Banner, Ok(())));
        assert!(matches!(f.phase, Phase::Succeeded { .. }));
    }
    assert_eq!(runs[0], runs[1]);
    assert_eq!(runs[0][0].1, "/tmp/77-avatar.gif");
    assert_eq!(runs[0][1].2, Ext::Png);
}

#[test]
fn no_images_succeeds_at_once() {
    let (mut f, t) = started("8");
    let jobs = f.profile_received(t, Ok(user("8", None, Some(""))));
    assert!(jobs.is_empty());
    assert!(matches!(f.phase, Phase::Succeeded { avatar: AssetOutcome::Skipped, banner: AssetOutcome::Skipped, .. }));
}

#[test]
fn profile_errors_fail_the_fetch() {
    let (mut f, t) = started("8");
    assert!(f.profile_received(t, Err(FetchError::Request)).is_empty());
    assert!(matches!(f.phase, Phase::Failed { error: FetchError::Request }));
    let (mut f, t) = started("8");
    assert!(f.profile_received(t, Ok(user("eight", Some("a"), None))).is_empty());
    assert!(matches!(f.phase, Phase::Failed { error: FetchError::Decode }));
}

#[test]
fn cancel_ignores_late_reports() {
    let (mut f, t) = started("8");
    assert!(f.cancel_fetch());
    assert!(matches!(f.phase, Phase::Idle));
    assert!(f.profile_received(t, Ok(user("8", Some("a"), None))).is_empty());
    assert!(matches!(f.phase, Phase::Idle));
    assert!(!f.cancel_fetch());
}

#[test]
fn plus_sign_identifier_is_accepted() {
    let mut f = Fetcher::new(Some("tok".to_string())).unwrap();
    let req = f.begin_fetch("+123").unwrap().unwrap();
    assert!(matches!(f.phase, Phase::Fetching { id: 123, .. }));
    assert_eq!(req.url, "https://discord.com/api/v10/users/123");
    let jobs = f.profile_received(req.ticket, Ok(user("+5", Some("a"), None)));
    assert_eq!(jobs.len(), 1);
    assert_eq!(jobs[0].local_path, "/tmp/5-avatar.png");
    match &f.phase {
        Phase::FetchingAssets { profile, .. } => assert_eq!(profile.id, 5),
        _ => panic!("expected the image phase"),
    }
}

#[test]
fn zero_id_record_for_nonzero_request_fails() {
    let (mut f, t) = started("123");
    assert!(f.profile_received(t, Ok(user("0", Some("a"), None))).is_empty());
    assert!(matches!(f.phase, Phase::Failed { error: FetchError::Decode }));
    let (mut f, t) = started("0");
    let jobs = f.profile_received(t, Ok(user("0", None, None)));
    assert!(jobs.is_empty());
    assert!(matches!(f.phase, Phase::Succeeded { .. }));
}
