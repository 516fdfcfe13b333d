use hanami_companion::activity::detector::{
    is_failure_rank, meaningful_attempt, same_beatmap, total_hits, PlayDetector,
    MIN_ACTIVE_MS, MIN_JUDGED_OBJECTS, MIN_PROGRESS_PPM, RESULT_GRACE_MS,
    RESULT_HARD_TIMEOUT_MS,
};
use hanami_companion::activity::model::{PlayObservation, PlayOutcome, ResultObservation};
use hanami_companion::activity::{ActivityTracker, InMemoryActivityStore, ActivityStore};
use hanami_companion::clock::UtcTime;
use hanami_companion::app_state::{BeatmapSummary, CompanionMod, HitCounts, LivePlay, OsuState, Ruleset};

fn epoch() -> UtcTime {
    at(0)
}

fn at(seconds: i64) -> UtcTime {
    UtcTime { seconds, nanos: 0 }
}

fn hd() -> CompanionMod {
    CompanionMod { acronym: "HD".into(), settings: Vec::new() }
}

fn observation(state: OsuState, progress: f64) -> PlayObservation {
    PlayObservation {
        state,
        beatmap: Some(BeatmapSummary {
            beatmap_id: Some(42),
            checksum: Some("checksum-a".into()),
            title: "A map".into(),
            ruleset: Ruleset::Osu,
            ..BeatmapSummary::default()
        }),
        live: Some(LivePlay {
            player_name: Some("player".into()),
            score: 123,
            accuracy_bits: 98.5f64.to_bits(),
            combo: 20,
            maximum_combo: Some(200),
            hits: HitCounts::default(),
            current_pp_bits: Some(50.0f64.to_bits()),
            maximum_pp_bits: Some(100.0f64.to_bits()),
            progress_ppm: (progress * 1_000_000.0).round() as u32,
            elapsed_ms: (progress * 100_000.0).round() as u64,
            failed: false,
            rank: Some("A".into()),
        }),
        mods: vec![hd()],
        result: None,
    }
}

fn ready_result() -> ResultObservation {
    ResultObservation {
        score_id: Some(99),
        timestamp: None,
        player_name: Some("player".into()),
        score: Some(500),
        accuracy_bits: Some(99.0f64.to_bits()),
        combo: Some(190),
        misses: Some(0),
        judged_objects: Some(200),
        mods: vec![hd()],
        pp_bits: Some(88.0f64.to_bits()),
        rank: Some("S".into()),
    }
}

fn id() -> String {
    "00000000-0000-4000-8000-000000000000".into()
}

#[test]
fn reset_discards_an_attempt_across_an_observation_gap() {
    let mut detector = PlayDetector::new();
    detector.observe(observation(OsuState::Gameplay, 0.5));
    detector.reset();
    assert!(detector.observe(observation(OsuState::Gameplay, 0.0)).is_none());
    assert!(detector.observe(observation(OsuState::Menu, 0.5)).is_none());
    assert!(detector.observe(observation(OsuState::Menu, 0.5)).is_none());
}

#[test]
fn empty_attempt_is_discarded() {
    let mut detector = PlayDetector::new();
    detector.observe(observation(OsuState::Gameplay, 0.0));
    detector.observe(observation(OsuState::Menu, 0.0));
    assert!(detector.observe(observation(OsuState::Menu, 0.0)).is_none());
}

#[test]
fn meaningful_quit_is_recorded() {
    let mut detector = PlayDetector::new();
    detector.observe(observation(OsuState::Gameplay, 0.2));
    detector.observe(observation(OsuState::Menu, 0.2));
    let play = detector.observe(observation(OsuState::Menu, 0.2)).expect("quit");
    assert_eq!(play.outcome, PlayOutcome::Quit);
    assert_eq!(play.completion_ppm, Some(200_000));
    assert!(uuid::Uuid::parse_str(&play.id).is_ok());
}

#[test]
fn meaningful_retry_is_recorded() {
    let mut detector = PlayDetector::new();
    detector.observe(observation(OsuState::Gameplay, 0.2));
    let mut advanced = observation(OsuState::Gameplay, 0.3);
    advanced.live.as_mut().expect("live").hits.great = 20;
    detector.observe(advanced);
    let retry = detector.observe(observation(OsuState::Gameplay, 0.0)).expect("retry");
    assert_eq!(retry.outcome, PlayOutcome::Retried);
}

#[test]
fn ready_result_collects_late_pp_and_finalizes_once_after_grace_period() {
    let mut detector = PlayDetector::new();
    let started = 1_000;
    detector.observe_at(observation(OsuState::Gameplay, 0.9), started, epoch(), id());
    let mut first = observation(OsuState::Results, 0.9);
    let mut initial_result = ready_result();
    initial_result.pp_bits = None;
    first.result = Some(initial_result);
    assert!(detector.observe_at(first, started, epoch(), id()).is_none());

    let mut complete = observation(OsuState::Results, 0.9);
    complete.result = Some(ready_result());
    assert!(detector.observe_at(complete.clone(), started + 250, epoch(), id()).is_none());
    assert!(detector.observe_at(complete.clone(), started + 399, epoch(), id()).is_none());
    let play = detector
        .observe_at(complete.clone(), started + RESULT_GRACE_MS, epoch(), id())
        .expect("complete result");
    assert_eq!(play.score_id, Some(99));
    assert_eq!(play.pp_bits, Some(88.0f64.to_bits()));
    assert_eq!(play.completion_ppm, None);
    assert!(detector.observe_at(complete, started + 500, epoch(), id()).is_none());
}

#[test]
fn leaving_results_finalizes_ready_data_and_discards_unusable_data() {
    let started = 1_000;
    let mut detector = PlayDetector::new();
    detector.observe_at(observation(OsuState::Gameplay, 0.9), started, epoch(), id());
    let mut results = observation(OsuState::Results, 0.9);
    results.result = Some(ready_result());
    assert!(detector.observe_at(results, started, epoch(), id()).is_none());
    let play = detector
        .observe_at(observation(OsuState::Menu, 0.9), started + 50, epoch(), id())
        .expect("ready result on exit");
    assert_eq!(play.outcome, PlayOutcome::Passed);

    let mut detector = PlayDetector::new();
    detector.observe_at(observation(OsuState::Gameplay, 0.9), started, epoch(), id());
    let mut unusable = observation(OsuState::Results, 0.9);
    unusable.result = Some(ResultObservation {
        score_id: None,
        timestamp: None,
        player_name: None,
        score: Some(0),
        accuracy_bits: Some(0.0f64.to_bits()),
        combo: Some(0),
        misses: None,
        judged_objects: None,
        mods: Vec::new(),
        pp_bits: None,
        rank: None,
    });
    detector.observe_at(unusable, started, epoch(), id());
    assert!(detector
        .observe_at(observation(OsuState::Menu, 0.9), started + 50, epoch(), id())
        .is_none());
}

#[test]
fn hard_timeout_uses_reliable_failed_data_and_discards_unknown_results() {
    let started = 1_000;
    let mut failed_gameplay = observation(OsuState::Gameplay, 0.9);
    failed_gameplay.live.as_mut().expect("live").failed = true;
    let mut detector = PlayDetector::new();
    detector.observe_at(failed_gameplay, started, epoch(), id());
    detector.observe_at(observation(OsuState::Results, 0.9), started, epoch(), id());
    let failed = detector
        .observe_at(observation(OsuState::Results, 0.9), started + RESULT_HARD_TIMEOUT_MS, epoch(), id())
        .expect("reliable failure");
    assert_eq!(failed.outcome, PlayOutcome::Failed);

    let mut detector = PlayDetector::new();
    detector.observe_at(observation(OsuState::Gameplay, 0.9), started, epoch(), id());
    detector.observe_at(observation(OsuState::Results, 0.9), started, epoch(), id());
    assert!(detector
        .observe_at(observation(OsuState::Results, 0.9), started + RESULT_HARD_TIMEOUT_MS, epoch(), id())
        .is_none());
}

#[test]
fn checksum_has_priority_over_matching_metadata_and_ids() {
    let mut left = observation(OsuState::Gameplay, 0.2).beatmap.expect("beatmap");
    let mut right = left.clone();
    right.checksum = Some("other".into());
    assert!(!same_beatmap(&left, &right));
    left.beatmap_id = None;
    right.beatmap_id = None;
    right.checksum = Some("CHECKSUM-A".into());
    assert!(same_beatmap(&left, &right));
}

#[test]
fn meaningful_policy_accepts_each_supported_signal() {
    let mut live = observation(OsuState::Gameplay, 0.0).live.expect("live");
    assert!(!meaningful_attempt(&live));
    live.elapsed_ms = MIN_ACTIVE_MS;
    assert!(meaningful_attempt(&live));
    live.elapsed_ms = 0;
    live.hits.great = MIN_JUDGED_OBJECTS as u32;
    assert!(meaningful_attempt(&live));
    live.hits = HitCounts::default();
    live.progress_ppm = MIN_PROGRESS_PPM;
    assert!(meaningful_attempt(&live));
}

#[test]
fn hit_totals_and_failure_ranks() {
    let hits = HitCounts { great: 1, ok: 2, meh: 3, katu: 4, geki: 5, misses: u32::MAX };
    assert_eq!(total_hits(&hits), 15 + u32::MAX as u64);
    assert!(is_failure_rank("F"));
    assert!(is_failure_rank("f"));
    assert!(!is_failure_rank("FF"));
    assert!(!is_failure_rank("S"));
}

#[test]
fn ids_decide_when_checksums_are_missing() {
    let mut left = observation(OsuState::Gameplay, 0.2).beatmap.expect("beatmap");
    left.checksum = None;
    let mut right = left.clone();
    right.beatmap_id = Some(43);
    assert!(!same_beatmap(&left, &right));
    right.beatmap_id = None;
    assert!(same_beatmap(&left, &right));
    right.title = "Another map".into();
    assert!(!same_beatmap(&left, &right));
}

#[test]
fn the_store_keeps_the_newest_plays_first_up_to_its_capacity() {
    let mut detector = PlayDetector::new();
    let mut store = InMemoryActivityStore::new(2);
    for n in 0..3u64 {
        detector.observe_at(observation(OsuState::Gameplay, 0.2), 10 * n, at(n as i64), format!("id-{n}"));
        detector.observe_at(observation(OsuState::Menu, 0.2), 10 * n + 1, at(n as i64), format!("x-{n}"));
        let play = detector
            .observe_at(observation(OsuState::Menu, 0.2), 10 * n + 2, at(n as i64), format!("y-{n}"))
            .expect("quit");
        store.push(play);
    }
    let recent = store.recent();
    assert_eq!(recent.len(), 2);
    assert_eq!(recent[0].id, "id-2");
    assert_eq!(recent[1].id, "id-1");
}

#[test]
fn the_tracker_returns_the_recent_plays() {
    let mut tracker = ActivityTracker::new();
    assert!(tracker.observe(observation(OsuState::Gameplay, 0.2)).is_empty());
    assert!(tracker.observe(observation(OsuState::Menu, 0.2)).is_empty());
    let recent = tracker.observe(observation(OsuState::Menu, 0.2));
    assert_eq!(recent.len(), 1);
    assert_eq!(recent[0].outcome, PlayOutcome::Quit);
    tracker.reset();
    assert_eq!(tracker.observe(observation(OsuState::Menu, 0.2)).len(), 1);
}

#[test]
fn attempt_ids_are_hyphenated_version_four_uuids() {
    let mut detector = PlayDetector::new();
    detector.observe(observation(OsuState::Gameplay, 0.2));
    detector.observe(observation(OsuState::Menu, 0.2));
    let play = detector.observe(observation(OsuState::Menu, 0.2)).expect("quit");
    let id: Vec<char> = play.id.chars().collect();
    assert_eq!(id.len(), 36);
    for (i, c) in id.iter().enumerate() {
        if i == 8 || i == 13 || i == 18 || i == 23 {
            assert_eq!(*c, '-');
        } else {
            assert!(c.is_ascii_digit() || ('a'..='f').contains(c));
        }
    }
    assert_eq!(id[14], '4');
    assert!(matches!(id[19], '8' | '9' | 'a' | 'b'));
}
