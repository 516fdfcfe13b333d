use hanami_companion::clock::UtcTime;
use hanami_companion::app_state::{CompanionMod, ModSetting, OsuState};
use hanami_companion::tosu::model::{
    background_cache_key, background_url, normalize_hits, normalize_ruleset, normalize_state, positive_id, PayloadError,
    RawBeatmap, RawHits, RawNumberName, RawResults, RawTosuPayload,
};
use hanami_companion::tosu::mods::{normalize_mods, RawModEntry, RawMods};
use hanami_companion::app_state::Ruleset;

fn mod_acronyms(mods: &[CompanionMod]) -> Vec<&str> {
    mods.iter().map(|game_mod| game_mod.acronym.as_str()).collect()
}

fn entry(acronym: &str, settings: Vec<ModSetting>) -> RawModEntry {
    RawModEntry::Object { acronym: Some(acronym.into()), settings }
}

#[test]
fn accepts_unknown_and_missing_optional_fields() {
    let raw = RawTosuPayload {
        client: Some("future".into()),
        state: RawNumberName { number: Some(999), name: Some("newState".into()) },
        ..RawTosuPayload::default()
    }
    .validate()
    .expect("tolerant payload");
    let normalized = raw.normalize();
    assert_eq!(normalized.osu.state, OsuState::Unknown);
    assert!(normalized.now_playing.is_none());
}

#[test]
fn exposes_selected_lazer_mods_before_gameplay_without_a_whitelist() {
    let mut raw = RawTosuPayload {
        client: Some("lazer".into()),
        state: RawNumberName { number: Some(5), name: Some("selectPlay".into()) },
        beatmap: RawBeatmap { id: Some(1234), title: Some("Selected map".into()), ..RawBeatmap::default() },
        ..RawTosuPayload::default()
    };
    raw.play.mods = RawMods {
        name: None,
        array: vec![
            entry("DA", vec![ModSetting { key: "circle_size".into(), value_json: "6.5".into() }]),
            entry("WG", Vec::new()),
            entry("SV2", Vec::new()),
            entry("future_mod", Vec::new()),
            entry("DA", Vec::new()),
        ],
    };
    let normalized = raw.validate().expect("song select payload").normalize();
    assert_eq!(normalized.osu.state, OsuState::SongSelect);
    let mods = normalized.now_playing.expect("selected map").mods;
    assert_eq!(mod_acronyms(&mods), ["DA", "WG", "SV2", "FUTURE_MOD"]);
    assert_eq!(mods[0].settings[0].key, "circle_size");
    assert_eq!(mods[0].settings[0].value_json, "6.5");
}

#[test]
fn splits_compact_stable_mod_name_when_the_array_is_missing() {
    let mods = normalize_mods(&RawMods { name: Some("HDDT".into()), array: Vec::new() });
    assert_eq!(mod_acronyms(&mods), ["HD", "DT"]);
}

#[test]
fn bare_acronyms_and_other_entries_are_handled() {
    let mods = normalize_mods(&RawMods {
        name: Some("ignored".into()),
        array: vec![
            RawModEntry::Acronym(" hr ".into()),
            RawModEntry::Other,
            RawModEntry::Object { acronym: None, settings: Vec::new() },
            RawModEntry::Acronym("".into()),
        ],
    });
    assert_eq!(mod_acronyms(&mods), ["HR"]);
}

#[test]
fn arbitrary_json_is_not_a_healthy_v2_payload() {
    assert!(matches!(RawTosuPayload::default().validate(), Err(PayloadError::Unexpected)));
}

#[test]
fn a_reported_error_means_tosu_is_not_ready() {
    let raw = RawTosuPayload { error: Some("osu! not found".into()), ..RawTosuPayload::default() };
    assert!(matches!(raw.validate(), Err(PayloadError::NotReady)));
}

#[test]
fn accepts_negative_sentinel_ids_for_local_beatmaps() {
    let mut raw = RawTosuPayload {
        client: Some("lazer".into()),
        state: RawNumberName { number: Some(7), name: Some("resultScreen".into()) },
        beatmap: RawBeatmap {
            id: Some(-1),
            set: Some(-1),
            checksum: Some("local-checksum".into()),
            title: Some("Local map".into()),
            version: Some("Test".into()),
            ..RawBeatmap::default()
        },
        ..RawTosuPayload::default()
    };
    raw.results_screen = RawResults { score_id: Some(-1), score: Some(12345), ..RawResults::default() };
    let normalized = raw.validate().expect("local beatmap payload").normalize();
    let beatmap = normalized.now_playing.expect("local beatmap").beatmap;
    assert_eq!(beatmap.beatmap_id, None);
    assert_eq!(beatmap.beatmap_set_id, None);
    assert_eq!(
        beatmap.background_url.as_deref(),
        Some("http://127.0.0.1:24050/files/beatmap/background?beatmap=local-checksum")
    );
    assert_eq!(normalized.observation.result.expect("result").score_id, None);
}

#[test]
fn background_url_changes_with_the_beatmap() {
    let first = RawBeatmap { id: Some(1234), ..RawBeatmap::default() };
    let second = RawBeatmap { id: Some(5678), ..RawBeatmap::default() };
    assert_ne!(background_url(&first), background_url(&second));
}

#[test]
fn background_url_encodes_metadata_fallback() {
    let beatmap = RawBeatmap {
        title: Some("A title & more".to_owned()),
        version: Some("Hard+".to_owned()),
        ..RawBeatmap::default()
    };
    assert_eq!(
        background_url(&beatmap).as_deref(),
        Some("http://127.0.0.1:24050/files/beatmap/background?beatmap=A+title+%26+more%3AHard%2B")
    );
}

#[test]
fn states_rulesets_ids_and_hits_are_normalized() {
    assert_eq!(normalize_state(Some(2), &None), OsuState::Gameplay);
    assert_eq!(normalize_state(None, &Some("resultScreen".into())), OsuState::Results);
    assert_eq!(normalize_ruleset(Some(3), &None), Ruleset::Mania);
    assert_eq!(positive_id(Some(-1)), None);
    assert_eq!(positive_id(Some(0)), None);
    assert_eq!(positive_id(Some(17)), Some(17));
    let hits = normalize_hits(&RawHits { great: Some(3), misses: Some(1), ..RawHits::default() });
    assert_eq!((hits.great, hits.ok, hits.misses), (3, 0, 1));
}

#[test]
fn result_timestamps_are_read_as_rfc3339() {
    let mut raw = RawTosuPayload {
        client: Some("lazer".into()),
        state: RawNumberName { number: Some(7), name: None },
        ..RawTosuPayload::default()
    };
    raw.results_screen = RawResults {
        score: Some(10),
        created_at: Some("2024-01-02T03:04:05.678Z".into()),
        ..RawResults::default()
    };
    let result = raw.validate().expect("results payload").normalize().observation.result.expect("result");
    assert_eq!(result.timestamp, Some(UtcTime { seconds: 1_704_164_645, nanos: 678_000_000 }));

    let mut raw = RawTosuPayload {
        client: Some("lazer".into()),
        state: RawNumberName { number: Some(7), name: None },
        ..RawTosuPayload::default()
    };
    raw.results_screen = RawResults { created_at: Some("yesterday".into()), ..RawResults::default() };
    let result = raw.validate().expect("results payload").normalize().observation.result.expect("result");
    assert_eq!(result.timestamp, None);
}

#[test]
fn background_cache_keys_prefer_checksum_then_id_then_title() {
    let full = RawBeatmap {
        id: Some(42),
        checksum: Some("  abc  ".into()),
        title: Some("Song".into()),
        version: Some("Hard".into()),
        ..RawBeatmap::default()
    };
    assert_eq!(background_cache_key(&full).as_deref(), Some("abc"));
    let blank_checksum = RawBeatmap { checksum: Some("   ".into()), ..full.clone() };
    assert_eq!(background_cache_key(&blank_checksum).as_deref(), Some("42"));
    let no_id = RawBeatmap { id: Some(0), ..blank_checksum.clone() };
    assert_eq!(background_cache_key(&no_id).as_deref(), Some("Song:Hard"));
    assert_eq!(background_cache_key(&RawBeatmap::default()), None);
}

#[test]
fn result_timestamps_keep_their_nanoseconds() {
    let mut raw = RawTosuPayload {
        client: Some("lazer".into()),
        state: RawNumberName { number: Some(7), name: None },
        ..RawTosuPayload::default()
    };
    raw.results_screen = RawResults {
        score: Some(10),
        created_at: Some("2024-01-02T04:04:05.678901234+01:00".into()),
        ..RawResults::default()
    };
    let result = raw.validate().expect("results payload").normalize().observation.result.expect("result");
    assert_eq!(result.timestamp, Some(UtcTime { seconds: 1_704_164_645, nanos: 678_901_234 }));
}
