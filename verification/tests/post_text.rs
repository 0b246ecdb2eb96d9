use splatoonbot::api::{
    AnarchySchedule, AnarchyType, RankedGameMode, SalmonRunSchedule, Schedules, Stage,
    TurfWarSchedule, Weapon,
};
use splatoonbot::bot::{
    auth_code_from_input, authorize_url, emote_anarchy, format_duration, get_sched_text,
    is_force_request,
};
use splatoonbot::config::{Credentials, Emotes};
use splatoonbot::time::{post_delay, signed_duration_since, Duration, Timestamp};

fn emotes() -> Emotes {
    Emotes {
        turf_war: ":turf:".to_string(),
        ranked: ":ranked:".to_string(),
        salmon_run: ":salmon:".to_string(),
        rainmaker: ":rm:".to_string(),
        clam_blitz: ":cb:".to_string(),
        splat_zones: ":sz:".to_string(),
        tower_control: ":tc:".to_string(),
    }
}

fn stages(names: &[&str]) -> Vec<Stage> {
    names.iter().map(|n| Stage(n.to_string())).collect()
}

fn t(secs: i64) -> Timestamp {
    Timestamp { secs, nanos: 0, offset_secs: 0 }
}

fn schedules() -> Schedules {
    Schedules {
        turf_war: TurfWarSchedule { ends_at: t(0), stages: stages(&["Scorch Gorge", "Eeltail Alley"]) },
        anarchy_series: AnarchySchedule {
            ends_at: t(0),
            stages: stages(&["Hagglefish Market", "Undertow Spillway"]),
            mode: RankedGameMode::SplatZones,
            mode_type: AnarchyType::Series,
        },
        anarchy_open: AnarchySchedule {
            ends_at: t(0),
            stages: stages(&["Mincemeat Metalworks"]),
            mode: RankedGameMode::ClamBlitz,
            mode_type: AnarchyType::Open,
        },
        salmon_run: SalmonRunSchedule {
            ends_at: t(0),
            stage: Stage("Sockeye Station".to_string()),
            weapons: vec![Weapon("Splattershot".to_string()), Weapon("Dynamo Roller".to_string())],
        },
    }
}

#[test]
fn post_text_lists_every_rotation() {
    let text = get_sched_text(&schedules(), &emotes());
    let expected = "**Multiplayer maps and modes have been updated!**\n\n\
:turf: Turf War:\n - Scorch Gorge\n - Eeltail Alley\n\n\
:ranked: Anarchy Battle (Series): **Splat Zones** :sz:\n - Hagglefish Market\n - Undertow Spillway\n\n\n\
:ranked: Anarchy Battle (Open): **Clam Blitz** :cb:\n - Mincemeat Metalworks\n\n\n\
:salmon: Salmon Run: **Sockeye Station**\n - Splattershot\n - Dynamo Roller\n\n\n";
    assert_eq!(text, expected);
}

#[test]
fn post_text_with_empty_lists() {
    let mut s = schedules();
    s.turf_war.stages = vec![];
    s.anarchy_open.stages = vec![];
    s.anarchy_open.mode = RankedGameMode::Rainmaker;
    s.salmon_run.weapons = vec![];
    let text = get_sched_text(&s, &emotes());
    let expected = "**Multiplayer maps and modes have been updated!**\n\n\
:turf: Turf War:\n\n\n\
:ranked: Anarchy Battle (Series): **Splat Zones** :sz:\n - Hagglefish Market\n - Undertow Spillway\n\n\n\
:ranked: Anarchy Battle (Open): **Rainmaker** :rm:\n\n\n\
:salmon: Salmon Run: **Sockeye Station**\n\n\n";
    assert_eq!(text, expected);
}

#[test]
fn post_text_with_one_turf_war_stage() {
    let mut s = schedules();
    s.turf_war.stages = stages(&["Mahi-Mahi Resort"]);
    let text = get_sched_text(&s, &emotes());
    assert!(text.starts_with(
        "**Multiplayer maps and modes have been updated!**\n\n:turf: Turf War:\n - Mahi-Mahi Resort\n\n:ranked:"
    ));
}

#[test]
fn emote_for_each_mode() {
    let e = emotes();
    assert_eq!(emote_anarchy(&RankedGameMode::ClamBlitz, &e), ":cb:");
    assert_eq!(emote_anarchy(&RankedGameMode::TowerControl, &e), ":tc:");
    assert_eq!(emote_anarchy(&RankedGameMode::SplatZones, &e), ":sz:");
    assert_eq!(emote_anarchy(&RankedGameMode::Rainmaker, &e), ":rm:");
}

/// The rendering as written against chrono's own `Duration`.
fn chrono_rendering(d: &chrono::Duration) -> String {
    let mut out = String::new();
    if d.num_hours() > 0 {
        out += format!("{} hours, ", d.num_hours()).as_str();
    }
    out += format!("{} minutes and {} seconds", d.num_minutes() % 60, d.num_seconds() % 60).as_str();
    out
}

fn duration(secs: i64, nanos: u32) -> Duration {
    let c = chrono::Duration::new(secs, nanos).unwrap();
    let d = Duration { secs, nanos: nanos as i32 };
    assert_eq!(format_duration(&d), chrono_rendering(&c));
    d
}

#[test]
fn durations_render_with_hours_minutes_and_seconds() {
    assert_eq!(format_duration(&duration(3725, 0)), "1 hours, 2 minutes and 5 seconds");
    assert_eq!(format_duration(&duration(65, 0)), "1 minutes and 5 seconds");
    assert_eq!(format_duration(&duration(0, 0)), "0 minutes and 0 seconds");
    assert_eq!(format_duration(&duration(7200, 999_999_999)), "2 hours, 0 minutes and 0 seconds");
    assert_eq!(format_duration(&duration(90061, 0)), "25 hours, 1 minutes and 1 seconds");
}

#[test]
fn negative_durations_render_like_chrono() {
    assert_eq!(format_duration(&duration(-65, 0)), "-1 minutes and -5 seconds");
    assert_eq!(format_duration(&duration(-1, 500_000_000)), "0 minutes and 0 seconds");
    assert_eq!(format_duration(&duration(-3725, 0)), "-2 minutes and -5 seconds");
    for secs in [-100_000i64, -3601, -3600, -61, -60, -59, -1, 0, 1, 59, 60, 61, 3599, 3600, 86_399, 1_000_000] {
        for nanos in [0u32, 1, 999_999_999] {
            duration(secs, nanos);
        }
    }
}

#[test]
fn extreme_durations_render() {
    let d = Duration { secs: i64::MIN, nanos: 0 };
    assert_eq!(format_duration(&d), "-30 minutes and -8 seconds");
    let d = Duration { secs: i64::MAX, nanos: 0 };
    assert_eq!(format_duration(&d), "2562047788015215 hours, 30 minutes and 7 seconds");
}

fn chrono_time(ts: &Timestamp) -> chrono::DateTime<chrono::Utc> {
    chrono::DateTime::from_timestamp(ts.secs, ts.nanos).unwrap()
}

#[test]
fn delay_is_time_to_rotation_end_plus_a_minute() {
    let end = Timestamp { secs: 1_672_538_400, nanos: 0, offset_secs: 0 };
    let now = Timestamp { secs: 1_672_534_800, nanos: 250_000_000, offset_secs: 0 };
    let d = post_delay(&end, &now);
    assert_eq!(d, Duration { secs: 3659, nanos: 750_000_000 });
    assert_eq!(format_duration(&d), "1 hours, 0 minutes and 59 seconds");
    assert_eq!(d.to_std_parts(), Some((3659, 750_000_000)));
    let late = post_delay(&now, &end);
    assert_eq!(late, Duration { secs: -3540, nanos: 250_000_000 });
    assert_eq!(late.to_std_parts(), None);
}

#[test]
fn delay_is_negative_once_the_rotation_ended_over_a_minute_ago() {
    let end = Timestamp { secs: 1_000, nanos: 0, offset_secs: 0 };
    let just_in_time = Timestamp { secs: 1_060, nanos: 0, offset_secs: 0 };
    assert_eq!(post_delay(&end, &just_in_time).to_std_parts(), Some((0, 0)));
    let too_late = Timestamp { secs: 1_060, nanos: 1, offset_secs: 0 };
    assert_eq!(post_delay(&end, &too_late).to_std_parts(), None);
}

#[test]
fn differences_agree_with_chrono_also_across_leap_seconds() {
    // 1483228799 is 2016-12-31T23:59:59Z, where a leap second was inserted.
    let samples = [
        Timestamp { secs: 1_483_228_799, nanos: 1_500_000_000, offset_secs: 0 },
        Timestamp { secs: 1_483_228_799, nanos: 1_000_000_000, offset_secs: 0 },
        Timestamp { secs: 1_483_228_799, nanos: 999_999_999, offset_secs: 0 },
        Timestamp { secs: 1_483_228_800, nanos: 0, offset_secs: 0 },
        Timestamp { secs: 1_483_228_740, nanos: 3, offset_secs: 0 },
        Timestamp { secs: 1_483_142_399, nanos: 1_200_000_000, offset_secs: 0 },
        Timestamp { secs: -86_401, nanos: 7, offset_secs: 0 },
        Timestamp { secs: 0, nanos: 0, offset_secs: 0 },
        Timestamp { secs: 1_700_000_000, nanos: 123_456_789, offset_secs: 0 },
    ];
    for a in samples.iter() {
        for b in samples.iter() {
            let ours = signed_duration_since(a, b);
            let theirs = chrono_time(a).signed_duration_since(chrono_time(b));
            assert_eq!(ours.secs * 1_000_000_000 + ours.nanos as i64,
                theirs.num_nanoseconds().unwrap(), "{:?} - {:?}", a, b);
            let delay = post_delay(a, b);
            let theirs = theirs + chrono::Duration::seconds(60);
            assert_eq!(delay.num_seconds(), theirs.num_seconds());
            assert_eq!(format_duration(&delay), chrono_rendering(&theirs));
        }
    }
}

#[test]
fn timestamp_range_check() {
    assert!(Timestamp { secs: 1_700_000_000, nanos: 0, offset_secs: 0 }.is_valid());
    assert!(!Timestamp { secs: i64::MAX, nanos: 0, offset_secs: 0 }.is_valid());
    assert!(!Timestamp { secs: 0, nanos: 2_000_000_000, offset_secs: 0 }.is_valid());
    assert!(!Timestamp { secs: 0, nanos: 0, offset_secs: 86_400 }.is_valid());
}

fn credentials() -> Credentials {
    Credentials {
        client_id: "abc".to_string(),
        client_secret: "SECRET-REDACTED".to_string(),
        instance_uri: "https://mastodon.example".to_string(),
        auth_code: None,
    }
}

#[test]
fn authorization_page() {
    assert_eq!(
        authorize_url(&credentials()),
        "https://mastodon.example/oauth/authorize?client_id=abc&scope=read+write+follow+push&redirect_uri=urn:ietf:wg:oauth:2.0:oob&response_type=code"
    );
}

#[test]
fn typed_authorization_code_is_trimmed() {
    assert_eq!(auth_code_from_input("  code123 \n"), "code123");
    assert_eq!(auth_code_from_input("\u{3000}a b\u{2003}\r\n"), "a b");
    assert_eq!(auth_code_from_input(" \t\n"), "");
    assert_eq!(auth_code_from_input("x"), "x");
}

#[test]
fn force_argument() {
    let args = |v: &[&str]| v.iter().map(|s| s.to_string()).collect::<Vec<String>>();
    assert!(is_force_request(&args(&["bot", "force"])));
    assert!(!is_force_request(&args(&["bot", "run"])));
    assert!(!is_force_request(&args(&["bot", "Force", "force"])));
    assert!(is_force_request(&args(&["bot", "force", "extra"])));
}
