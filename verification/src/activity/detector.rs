//! Detection of meaningful osu! attempts from a stream of tosu frames.
use vstd::prelude::*;

use super::model::{
    merge_result, merge_results, result_ready, PlayObservation, PlayOutcome, RecentPlay,
    ResultObservation,
};
use crate::app_state::{BeatmapSummary, CompanionMod, HitCounts, LivePlay, OsuState};
use crate::clock::{millis_since, monotonic_now, new_attempt_id, utc_now, UtcTime};
use crate::text::{
    chars_of, eq_ignore_case, str_equal, str_eq_ignore_case, string_of, to_lower, trim,
    trimmed,
};

verus! {

/// An attempt is meaningful after this much active gameplay (milliseconds).
pub const MIN_ACTIVE_MS: u64 = 5000;

/// An attempt is meaningful after this many judged objects.
pub const MIN_JUDGED_OBJECTS: u64 = 10;

/// An attempt is meaningful after this much beatmap progress (millionths).
pub const MIN_PROGRESS_PPM: u32 = 20000;

/// Results are not finalized before they have been shown this long (milliseconds).
pub const RESULT_GRACE_MS: u64 = 400;

/// Results are not finalized before they have been unchanged this long (milliseconds).
pub const RESULT_SETTLE_MS: u64 = 100;

/// Results are finalized, or given up, after this long (milliseconds).
pub const RESULT_HARD_TIMEOUT_MS: u64 = 1500;

/// The attempt being followed.
#[derive(Clone, Debug)]
pub struct PlayCandidate {
    pub id: String,
    pub started_at: UtcTime,
    pub beatmap: BeatmapSummary,
    pub live: LivePlay,
    pub mods: Vec<CompanionMod>,
    pub retry_detection_ready: bool,
}

/// An attempt whose results screen is being collected.
#[derive(Clone, Debug)]
pub struct PendingResults {
    pub candidate: PlayCandidate,
    pub result: Option<ResultObservation>,
    pub first_seen_ms: u64,
    pub last_updated_ms: u64,
}

/// The detector's state: the attempt in gameplay, the attempt that left
/// gameplay for another screen, and the attempt whose results are collected.
pub struct Tracking {
    pub active: Option<PlayCandidate>,
    pub pending_exit: Option<PlayCandidate>,
    pub pending_results: Option<PendingResults>,
}

/// Turns tosu frames into recorded attempts.
pub struct PlayDetector {
    tracking: Tracking,
    origin: Option<std::time::Instant>,
}

/// A recorded attempt before it is turned into a `RecentPlay`: the attempt,
/// the results shown for it, and how it ended.
pub type Emission = (PlayCandidate, Option<ResultObservation>, PlayOutcome);

/// The number of judged objects.
pub open spec fn hits_total(h: HitCounts) -> int {
    h.great + h.ok + h.meh + h.katu + h.geki + h.misses
}

/// Five seconds of gameplay, ten judged objects or two percent progress make
/// an attempt worth recording.
pub open spec fn meaningful(live: LivePlay) -> bool {
    ||| live.elapsed_ms >= MIN_ACTIVE_MS
    ||| hits_total(live.hits) >= MIN_JUDGED_OBJECTS
    ||| live.progress_ppm >= MIN_PROGRESS_PPM
}

/// The live data went backwards: the player restarted the attempt.
pub open spec fn restarted(previous: LivePlay, current: LivePlay) -> bool {
    ||| hits_total(current.hits) < hits_total(previous.hits)
    ||| current.elapsed_ms + 1000 < previous.elapsed_ms
    ||| (hits_total(current.hits) == 0 && previous.progress_ppm > 50000 && current.progress_ppm
        + 50000 < previous.progress_ppm)
}

/// The live data moved forwards.
pub open spec fn advanced(previous: LivePlay, current: LivePlay) -> bool {
    ||| hits_total(current.hits) > hits_total(previous.hits)
    ||| current.elapsed_ms > previous.elapsed_ms + 500
    ||| current.progress_ppm > previous.progress_ppm + 5000
}

/// The checksum of a beatmap without surrounding white space, where one is given.
pub open spec fn clean_checksum(checksum: Option<String>) -> Option<Seq<char>> {
    match checksum {
        Some(c) => if trim(c@).len() > 0 {
            Some(trim(c@))
        } else {
            None
        },
        None => None,
    }
}

/// Two beatmaps are the same: by checksum where both have one, else by
/// positive id where both have one, else by their metadata.
pub open spec fn beatmaps_match(left: BeatmapSummary, right: BeatmapSummary) -> bool {
    if clean_checksum(left.checksum) is Some && clean_checksum(right.checksum) is Some {
        eq_ignore_case(clean_checksum(left.checksum)->0, clean_checksum(right.checksum)->0)
    } else if left.beatmap_id matches Some(l) && right.beatmap_id matches Some(r) && l > 0 && r
        > 0 {
        left.beatmap_id == right.beatmap_id
    } else {
        &&& left.artist@ == right.artist@
        &&& left.title@ == right.title@
        &&& left.difficulty@ == right.difficulty@
        &&& left.mapper@ == right.mapper@
    }
}

/// The rank `F` marks a failed play, in either case.
pub open spec fn failure_rank(rank: Seq<char>) -> bool {
    eq_ignore_case(rank, seq!['F'])
}

/// A fresh attempt.
pub open spec fn fresh_candidate(
    beatmap: BeatmapSummary,
    live: LivePlay,
    mods: Vec<CompanionMod>,
    id: String,
    started_at: UtcTime,
) -> PlayCandidate {
    PlayCandidate { id, started_at, beatmap, live, mods, retry_detection_ready: false }
}

/// An attempt updated with a later frame of the same attempt.
pub open spec fn updated(
    c: PlayCandidate,
    beatmap: BeatmapSummary,
    live: LivePlay,
    mods: Vec<CompanionMod>,
) -> PlayCandidate {
    PlayCandidate {
        retry_detection_ready: c.retry_detection_ready || advanced(c.live, live),
        beatmap,
        live,
        mods,
        ..c
    }
}

/// How an attempt ended that gameplay of `next` interrupted.
pub open spec fn interrupted(previous: PlayCandidate, next: BeatmapSummary) -> PlayOutcome {
    if previous.live.failed {
        PlayOutcome::Failed
    } else if beatmaps_match(previous.beatmap, next) {
        PlayOutcome::Retried
    } else {
        PlayOutcome::Quit
    }
}

/// The attempt recorded when collected results are finalized, if they are usable.
pub open spec fn finalized(p: PendingResults) -> Option<Emission> {
    let failed = p.candidate.live.failed || (p.result matches Some(r) && r.rank matches Some(k)
        && failure_rank(k@));
    let usable = failed || (p.result matches Some(r) && result_ready(r));
    if !usable {
        None
    } else {
        Some(
            (
                p.candidate,
                p.result,
                if failed {
                    PlayOutcome::Failed
                } else {
                    PlayOutcome::Passed
                },
            ),
        )
    }
}

/// The attempt recorded when collected results are given up, if any.
pub open spec fn finalized_opt(p: Option<PendingResults>) -> Option<Emission> {
    match p {
        Some(p) => finalized(p),
        None => None,
    }
}

/// A gameplay frame.
pub open spec fn gameplay_step(
    t: Tracking,
    beatmap: Option<BeatmapSummary>,
    live: Option<LivePlay>,
    mods: Vec<CompanionMod>,
    wall: UtcTime,
    id: String,
) -> (Tracking, Option<Emission>) {
    let completed = finalized_opt(t.pending_results);
    let t1 = Tracking { pending_results: None, ..t };
    if beatmap is None || live is None {
        (t1, completed)
    } else {
        let b = beatmap->0;
        let l = live->0;
        let fresh = fresh_candidate(b, l, mods, id, wall);
        if completed is Some {
            (Tracking { active: Some(fresh), ..t1 }, completed)
        } else if t1.pending_exit is Some {
            let prev = t1.pending_exit->0;
            let same = beatmaps_match(prev.beatmap, b);
            let again = prev.retry_detection_ready && restarted(prev.live, l);
            if same && !prev.live.failed && !again {
                (Tracking { active: Some(updated(prev, b, l, mods)), pending_exit: None, ..t1 }, None)
            } else {
                (
                    Tracking { active: Some(fresh), pending_exit: None, ..t1 },
                    if meaningful(prev.live) {
                        Some((prev, None, interrupted(prev, b)))
                    } else {
                        None
                    },
                )
            }
        } else if t1.active is Some {
            let prev = t1.active->0;
            let same = beatmaps_match(prev.beatmap, b);
            let again = prev.retry_detection_ready && restarted(prev.live, l);
            if same && !again {
                (Tracking { active: Some(updated(prev, b, l, mods)), ..t1 }, None)
            } else {
                (
                    Tracking { active: Some(fresh), ..t1 },
                    if meaningful(prev.live) {
                        Some((prev, None, interrupted(prev, b)))
                    } else {
                        None
                    },
                )
            }
        } else {
            (Tracking { active: Some(fresh), ..t1 }, None)
        }
    }
}

/// After a gameplay frame with a beatmap and live data, the detector follows
/// an attempt on that beatmap whose live data and modifiers are the frame's:
/// a recorded play later carries the latest values seen. When the frame
/// continues the attempt in progress (same beatmap, not restarted, no
/// results pending), the attempt keeps its identifier and start time.
pub proof fn lemma_attempts_follow_the_latest_frame(
    t: Tracking,
    obs: PlayObservation,
    now_ms: u64,
    wall: UtcTime,
    id: String,
)
    requires
        obs.state == OsuState::Gameplay,
        obs.beatmap is Some,
        obs.live is Some,
    ensures
        step(t, obs, now_ms, wall, id).0.active matches Some(c) && c.live == obs.live->0
            && c.beatmap == obs.beatmap->0 && c.mods == obs.mods,
        t.active matches Some(prev) ==> (t.pending_results is None && t.pending_exit is None
            && beatmaps_match(prev.beatmap, obs.beatmap->0) && !(prev.retry_detection_ready
            && restarted(prev.live, obs.live->0)) ==> (step(t, obs, now_ms, wall, id).0.active
            matches Some(c) && c.id == prev.id && c.started_at == prev.started_at)),
{
}

/// An attempt that gameplay on `next` interrupts ended as a failure when it
/// had failed, as a retry when `next` is the same beatmap, and was quit
/// otherwise.
pub proof fn lemma_interrupted_attempts_are_named(prev: PlayCandidate, next: BeatmapSummary)
    ensures
        prev.live.failed ==> interrupted(prev, next) == PlayOutcome::Failed,
        !prev.live.failed && beatmaps_match(prev.beatmap, next) ==> interrupted(prev, next)
            == PlayOutcome::Retried,
        !prev.live.failed && !beatmaps_match(prev.beatmap, next) ==> interrupted(prev, next)
            == PlayOutcome::Quit,
{
}

/// The thresholds of the detector, in the units of the live data: an
/// attempt is worth recording after 5 000 ms of gameplay, 10 judged objects
/// (every judgement and miss counted) or 20 000 millionths (2 %) of the
/// beatmap. An attempt restarted when judgements went down, when more than
/// 1 000 ms of gameplay were lost, or when, with nothing judged, progress past
/// 5 % fell back by more than 5 %; it advanced when judgements went up, or
/// gameplay moved on by more than 500 ms, or progress by more than 0.5 %.
pub proof fn lemma_detector_thresholds(previous: LivePlay, current: LivePlay)
    ensures
        meaningful(current) <==> (current.elapsed_ms >= 5000 || current.hits.great
            + current.hits.ok + current.hits.meh + current.hits.katu + current.hits.geki
            + current.hits.misses >= 10 || current.progress_ppm >= 20000),
        restarted(previous, current) <==> ({
            let before = previous.hits.great + previous.hits.ok + previous.hits.meh
                + previous.hits.katu + previous.hits.geki + previous.hits.misses;
            let now = current.hits.great + current.hits.ok + current.hits.meh + current.hits.katu
                + current.hits.geki + current.hits.misses;
            ||| now < before
            ||| current.elapsed_ms + 1000 < previous.elapsed_ms
            ||| (now == 0 && previous.progress_ppm > 50000 && current.progress_ppm + 50000
                < previous.progress_ppm)
        }),
        advanced(previous, current) <==> ({
            let before = previous.hits.great + previous.hits.ok + previous.hits.meh
                + previous.hits.katu + previous.hits.geki + previous.hits.misses;
            let now = current.hits.great + current.hits.ok + current.hits.meh + current.hits.katu
                + current.hits.geki + current.hits.misses;
            ||| now > before
            ||| current.elapsed_ms > previous.elapsed_ms + 500
            ||| current.progress_ppm > previous.progress_ppm + 5000
        }),
{
}

/// Milliseconds from `earlier` to `later`, or zero.
pub open spec fn since(later: u64, earlier: u64) -> int {
    if later >= earlier {
        later - earlier
    } else {
        0
    }
}

/// A results-screen frame at monotonic time `now_ms`.
pub open spec fn results_step(t: Tracking, result: Option<ResultObservation>, now_ms: u64) -> (
    Tracking,
    Option<Emission>,
) {
    match t.pending_results {
        Some(p) => {
            let (known, changed) = merge_results(p.result, result);
            let last = if changed {
                now_ms
            } else {
                p.last_updated_ms
            };
            let p2 = PendingResults { result: known, last_updated_ms: last, ..p };
            let age = since(now_ms, p.first_seen_ms);
            let ready = known matches Some(r) && result_ready(r);
            if age >= RESULT_HARD_TIMEOUT_MS || (ready && age >= RESULT_GRACE_MS && since(
                now_ms,
                last,
            ) >= RESULT_SETTLE_MS) {
                (Tracking { pending_results: None, ..t }, finalized(p2))
            } else {
                (Tracking { pending_results: Some(p2), ..t }, None)
            }
        },
        None => {
            let (candidate, t1) = if t.active is Some {
                (t.active, Tracking { active: None, ..t })
            } else {
                (t.pending_exit, Tracking { pending_exit: None, ..t })
            };
            match candidate {
                None => (t, None),
                Some(c) => if !meaningful(c.live) {
                    (t1, None)
                } else {
                    (
                        Tracking {
                            pending_results: Some(
                                PendingResults {
                                    candidate: c,
                                    result,
                                    first_seen_ms: now_ms,
                                    last_updated_ms: now_ms,
                                },
                            ),
                            ..t1
                        },
                        None,
                    )
                },
            }
        },
    }
}

/// A frame of any other screen.
pub open spec fn away_step(t: Tracking) -> (Tracking, Option<Emission>) {
    if t.pending_results is Some {
        (Tracking { pending_results: None, ..t }, finalized_opt(t.pending_results))
    } else if t.pending_exit is Some {
        let prev = t.pending_exit->0;
        (
            Tracking { pending_exit: None, ..t },
            if !meaningful(prev.live) {
                None
            } else {
                Some(
                    (
                        prev,
                        None,
                        if prev.live.failed {
                            PlayOutcome::Failed
                        } else {
                            PlayOutcome::Quit
                        },
                    ),
                )
            },
        )
    } else {
        (Tracking { active: None, pending_exit: t.active, ..t }, None)
    }
}

/// One frame: the detector's next state and the attempt it records, if any.
/// `now_ms` is monotonic time, `wall` the instant of UTC and `id` the identifier
/// a new attempt would receive.
pub open spec fn step(
    t: Tracking,
    obs: PlayObservation,
    now_ms: u64,
    wall: UtcTime,
    id: String,
) -> (Tracking, Option<Emission>) {
    match obs.state {
        OsuState::Gameplay => gameplay_step(t, obs.beatmap, obs.live, obs.mods, wall, id),
        OsuState::Results => results_step(t, obs.result, now_ms),
        _ => away_step(t),
    }
}

/// The rank a recorded play carries: the observed one for a pass, `F` for a
/// failure, none otherwise.
pub open spec fn recorded_rank(
    c: PlayCandidate,
    result: Option<ResultObservation>,
    outcome: PlayOutcome,
    rank: Option<String>,
) -> bool {
    match outcome {
        PlayOutcome::Passed => rank == (if result matches Some(r) && r.rank is Some {
            result->0.rank
        } else {
            c.live.rank
        }),
        PlayOutcome::Failed => rank matches Some(k) && k@ == seq!['F'],
        _ => rank is None,
    }
}

/// `p` is the play recorded for `e`: the results' values where the results
/// report them, the last live values otherwise; the end time is the results'
/// timestamp or `wall`.
pub open spec fn recorded(p: RecentPlay, e: Emission, wall: UtcTime) -> bool {
    let (c, result, outcome) = e;
    let r = result->0;
    let has = result is Some;
    &&& p.id == c.id
    &&& p.score_id == (if has {
        r.score_id
    } else {
        None
    })
    &&& p.beatmap == c.beatmap
    &&& p.started_at == c.started_at
    &&& p.ended_at == (if has && r.timestamp is Some {
        r.timestamp->0
    } else {
        wall
    })
    &&& p.player_name == (if has && r.player_name is Some {
        r.player_name
    } else {
        c.live.player_name
    })
    &&& p.score == (if has && r.score is Some {
        r.score->0
    } else {
        c.live.score
    })
    &&& p.accuracy_bits == (if has && r.accuracy_bits is Some {
        r.accuracy_bits->0
    } else {
        c.live.accuracy_bits
    })
    &&& p.combo == (if has && r.combo is Some {
        r.combo->0
    } else {
        c.live.combo
    })
    &&& p.misses == (if has && r.misses is Some {
        r.misses->0
    } else {
        c.live.hits.misses
    })
    &&& p.mods == (if has && r.mods@.len() > 0 {
        r.mods
    } else {
        c.mods
    })
    &&& p.pp_bits == (if has && r.pp_bits is Some {
        r.pp_bits
    } else {
        c.live.current_pp_bits
    })
    &&& p.completion_ppm == (if outcome != PlayOutcome::Passed {
        Some(
            if c.live.progress_ppm <= 1000000 {
                c.live.progress_ppm
            } else {
                1000000u32
            },
        )
    } else {
        None
    })
    &&& p.outcome == outcome
    &&& recorded_rank(c, result, outcome, p.rank)
}

/// A play recorded without results (a quit, a retry, or a failure seen in
/// gameplay) carries the last live values of its attempt: its score, combo,
/// misses and performance, its progress as the completion, the attempt's
/// identifier, beatmap and start, and the time it was recorded as its end.
/// A pass reports no completion, and only a pass or a failure has a rank.
pub proof fn lemma_plays_without_results_carry_the_last_live_data(
    p: RecentPlay,
    c: PlayCandidate,
    outcome: PlayOutcome,
    wall: UtcTime,
)
    requires
        recorded(p, (c, None, outcome), wall),
        c.live.progress_ppm <= 1000000,
    ensures
        p.id == c.id,
        p.beatmap == c.beatmap,
        p.started_at == c.started_at,
        p.ended_at == wall,
        p.score == c.live.score,
        p.combo == c.live.combo,
        p.misses == c.live.hits.misses,
        p.accuracy_bits == c.live.accuracy_bits,
        p.pp_bits == c.live.current_pp_bits,
        p.player_name == c.live.player_name,
        p.mods == c.mods,
        p.score_id is None,
        p.outcome == outcome,
        outcome != PlayOutcome::Passed ==> p.completion_ppm == Some(c.live.progress_ppm),
        outcome == PlayOutcome::Passed ==> p.completion_ppm is None,
        (outcome == PlayOutcome::Quit || outcome == PlayOutcome::Retried) ==> p.rank is None,
{
}

/// `r` is what the detector returns for the emission `e`.
pub open spec fn yields(r: Option<RecentPlay>, e: Option<Emission>, wall: UtcTime) -> bool {
    match e {
        None => r is None,
        Some(x) => r matches Some(p) && recorded(p, x, wall),
    }
}


/// Every attempt the detector follows is named by a random UUID.
pub open spec fn ids_are_uuids(t: Tracking) -> bool {
    &&& (t.active matches Some(c) ==> crate::clock::uuid_v4_text(c.id@))
    &&& (t.pending_exit matches Some(c) ==> crate::clock::uuid_v4_text(c.id@))
    &&& (t.pending_results matches Some(p) ==> crate::clock::uuid_v4_text(p.candidate.id@))
}

/// Every local attempt receives a UUID: when new attempts are named by random
/// UUIDs, the detector keeps following only attempts so named, and every play
/// it records carries such a name.
pub proof fn lemma_recorded_plays_carry_uuids(
    t: Tracking,
    obs: PlayObservation,
    now_ms: u64,
    wall: UtcTime,
    id: String,
    r: Option<RecentPlay>,
)
    requires
        ids_are_uuids(t),
        crate::clock::uuid_v4_text(id@),
        yields(r, step(t, obs, now_ms, wall, id).1, wall),
    ensures
        ids_are_uuids(step(t, obs, now_ms, wall, id).0),
        r matches Some(p) ==> crate::clock::uuid_v4_text(p.id@),
{
}

/// The tracking state of a detector that follows no attempt.
pub open spec fn fresh_tracking() -> Tracking {
    Tracking { active: None, pending_exit: None, pending_results: None }
}

/// One timed frame: the observation, the monotonic time in milliseconds, the
/// instant of UTC, and the name a new attempt would receive.
pub type TimedFrame = (PlayObservation, u64, UtcTime, String);

/// What the detector emits, frame by frame, when it starts from `t`.
pub open spec fn emissions(t: Tracking, frames: Seq<TimedFrame>) -> Seq<Option<Emission>>
    decreases frames.len(),
{
    if frames.len() == 0 {
        seq![]
    } else {
        let (obs, now_ms, wall, id) = frames[0];
        let (next, e) = step(t, obs, now_ms, wall, id);
        seq![e] + emissions(next, frames.subrange(1, frames.len() as int))
    }
}

/// A detector that was reset answers every later sequence of frames exactly
/// as a new detector does: no attempt begun before the reset is reported.
pub proof fn lemma_reset_detector_answers_like_a_new_one(t: Tracking, frames: Seq<TimedFrame>)
    requires
        t.active is None,
        t.pending_exit is None,
        t.pending_results is None,
    ensures
        emissions(t, frames) == emissions(fresh_tracking(), frames),
{
    assert(t == fresh_tracking());
}

/// Results are collected only for meaningful attempts.
pub open spec fn well_formed(t: Tracking) -> bool {
    t.pending_results matches Some(p) ==> meaningful(p.candidate.live)
}

/// No attempt is followed.
pub open spec fn idle(t: Tracking) -> bool {
    &&& t.active is None
    &&& t.pending_exit is None
    &&& t.pending_results is None
}

/// Every frame keeps the detector well formed, and every attempt it records
/// is meaningful: five seconds of gameplay, ten judged objects or two percent
/// progress.
pub proof fn lemma_only_meaningful_attempts_are_recorded(
    t: Tracking,
    obs: PlayObservation,
    now_ms: u64,
    wall: UtcTime,
    id: String,
)
    requires
        well_formed(t),
    ensures
        well_formed(step(t, obs, now_ms, wall, id).0),
        step(t, obs, now_ms, wall, id).1 matches Some(e) ==> meaningful(e.0.live),
{
}

/// A pass is recorded only from results that report judged objects or a
/// score, and it carries those results; retries and quits carry none.
pub proof fn lemma_passes_come_from_complete_results(
    t: Tracking,
    obs: PlayObservation,
    now_ms: u64,
    wall: UtcTime,
    id: String,
)
    ensures
        step(t, obs, now_ms, wall, id).1 matches Some(e) ==> {
            &&& e.2 == PlayOutcome::Passed ==> (e.1 matches Some(r) && result_ready(r))
            &&& (e.2 == PlayOutcome::Retried || e.2 == PlayOutcome::Quit) ==> e.1 is None
        },
{
}

/// A detector that follows nothing records nothing on the next frame, so an
/// attempt interrupted by a reset is never recorded.
pub proof fn lemma_idle_detector_records_nothing(
    t: Tracking,
    obs: PlayObservation,
    now_ms: u64,
    wall: UtcTime,
    id: String,
)
    requires
        idle(t),
    ensures
        step(t, obs, now_ms, wall, id).1 is None,
{
}

/// Results are recorded at most once: the frame that records them leaves no
/// results pending, and a results frame with nothing followed changes nothing.
pub proof fn lemma_results_are_recorded_once(
    t: Tracking,
    result: Option<ResultObservation>,
    now_ms: u64,
)
    ensures
        results_step(t, result, now_ms).1 is Some ==> results_step(
            t,
            result,
            now_ms,
        ).0.pending_results is None,
        idle(t) ==> results_step(t, result, now_ms) == (t, None::<Emission>),
{
}

/// A pending result is finalized no later than the hard timeout: a results
/// frame that comes that long after the first one ends the collection.
pub proof fn lemma_results_end_at_the_hard_timeout(
    t: Tracking,
    result: Option<ResultObservation>,
    now_ms: u64,
)
    requires
        t.pending_results matches Some(p) && since(now_ms, p.first_seen_ms)
            >= RESULT_HARD_TIMEOUT_MS,
    ensures
        results_step(t, result, now_ms).0.pending_results is None,
{
}

/// An attempt that was failed is never recorded as passed.
pub proof fn lemma_failed_attempts_are_not_passes(
    t: Tracking,
    obs: PlayObservation,
    now_ms: u64,
    wall: UtcTime,
    id: String,
)
    ensures
        step(t, obs, now_ms, wall, id).1 matches Some(e) ==> (e.0.live.failed ==> e.2
            == PlayOutcome::Failed),
{
}

/// The number of judged hit objects.
pub fn total_hits(hits: &HitCounts) -> (r: u64)
    ensures
        r == hits_total(*hits),
{
    hits.great as u64 + hits.ok as u64 + hits.meh as u64 + hits.katu as u64 + hits.geki as u64
        + hits.misses as u64
}

/// Whether an attempt went far enough to be recorded: long enough, enough
/// objects judged, or enough of the beatmap played.
pub fn meaningful_attempt(live: &LivePlay) -> (r: bool)
    ensures
        r == meaningful(*live),
{
    live.elapsed_ms >= MIN_ACTIVE_MS || total_hits(&live.hits) >= MIN_JUDGED_OBJECTS
        || live.progress_ppm >= MIN_PROGRESS_PPM
}

fn attempt_restarted(previous: &LivePlay, current: &LivePlay) -> (r: bool)
    ensures
        r == restarted(*previous, *current),
{
    let previous_hits = total_hits(&previous.hits);
    let current_hits = total_hits(&current.hits);
    current_hits < previous_hits || (current.elapsed_ms as u128) + 1000 < previous.elapsed_ms as u128
        || (current_hits == 0 && previous.progress_ppm > 50000 && (current.progress_ppm as u64)
        + 50000 < previous.progress_ppm as u64)
}

fn attempt_advanced(previous: &LivePlay, current: &LivePlay) -> (r: bool)
    ensures
        r == advanced(*previous, *current),
{
    total_hits(&current.hits) > total_hits(&previous.hits) || current.elapsed_ms as u128
        > (previous.elapsed_ms as u128) + 500 || current.progress_ppm as u64
        > (previous.progress_ppm as u64) + 5000
}

fn checksum_key(checksum: &Option<String>) -> (r: Option<String>)
    ensures
        match r {
            Some(s) => clean_checksum(*checksum) == Some(s@),
            None => clean_checksum(*checksum) is None,
        },
{
    match checksum {
        Some(c) => {
            let t = trimmed(c.as_str());
            if !t.as_str().is_empty() {
                Some(t)
            } else {
                None
            }
        },
        None => None,
    }
}

/// Whether two beatmaps are the same beatmap.
pub fn same_beatmap(left: &BeatmapSummary, right: &BeatmapSummary) -> (r: bool)
    ensures
        r == beatmaps_match(*left, *right),
{
    let l = checksum_key(&left.checksum);
    let r = checksum_key(&right.checksum);
    if let (Some(a), Some(b)) = (&l, &r) {
        return str_eq_ignore_case(a.as_str(), b.as_str());
    }
    match (left.beatmap_id, right.beatmap_id) {
        (Some(a), Some(b)) => {
            if a > 0 && b > 0 {
                return a == b;
            }
        },
        _ => {},
    }
    str_equal(left.artist.as_str(), right.artist.as_str()) && str_equal(
        left.title.as_str(),
        right.title.as_str(),
    ) && str_equal(left.difficulty.as_str(), right.difficulty.as_str()) && str_equal(
        left.mapper.as_str(),
        right.mapper.as_str(),
    )
}

/// Whether a rank is the failure rank `F`, in any case.
pub fn is_failure_rank(rank: &str) -> (r: bool)
    ensures
        r == failure_rank(rank@),
{
    let v = chars_of(rank);
    assert(crate::text::lower(seq!['F']) =~= seq!['f']);
    if v.len() != 1 {
        assert(crate::text::lower(v@).len() != crate::text::lower(seq!['F']).len());
        return false;
    }
    let c = to_lower(v[0]);
    assert(crate::text::lower(v@) =~= seq![c]);
    if c == 'f' {
        true
    } else {
        assert(crate::text::lower(v@)[0] != crate::text::lower(seq!['F'])[0]);
        false
    }
}

/// The rank text of a failed play.
fn failed_rank() -> (s: String)
    ensures
        s@ == seq!['F'],
{
    let v = vec!['F'];
    assert(v@ =~= seq!['F']);
    string_of(&v)
}

fn interrupted_outcome(previous: &PlayCandidate, next_beatmap: &BeatmapSummary) -> (r: PlayOutcome)
    ensures
        r == interrupted(*previous, *next_beatmap),
{
    if previous.live.failed {
        PlayOutcome::Failed
    } else if same_beatmap(&previous.beatmap, next_beatmap) {
        PlayOutcome::Retried
    } else {
        PlayOutcome::Quit
    }
}

fn new_candidate(
    beatmap: BeatmapSummary,
    live: LivePlay,
    mods: Vec<CompanionMod>,
    id: String,
    started_at: UtcTime,
) -> (r: PlayCandidate)
    ensures
        r == fresh_candidate(beatmap, live, mods, id, started_at),
{
    PlayCandidate { id, started_at, beatmap, live, mods, retry_detection_ready: false }
}

fn update_candidate(
    candidate: &mut PlayCandidate,
    beatmap: BeatmapSummary,
    live: LivePlay,
    mods: Vec<CompanionMod>,
)
    ensures
        *final(candidate) == updated(*old(candidate), beatmap, live, mods),
{
    let advanced = attempt_advanced(&candidate.live, &live);
    candidate.retry_detection_ready = candidate.retry_detection_ready || advanced;
    candidate.beatmap = beatmap;
    candidate.live = live;
    candidate.mods = mods;
}

/// The play recorded for an attempt.
fn build_recent(
    candidate: PlayCandidate,
    result: Option<ResultObservation>,
    outcome: PlayOutcome,
    wall: UtcTime,
) -> (p: RecentPlay)
    ensures
        recorded(p, (candidate, result, outcome), wall),
{
    let ghost c = candidate;
    let ghost res = result;
    let PlayCandidate { id, started_at, beatmap, live, mods, .. } = candidate;
    let LivePlay {
        player_name: live_name,
        score: live_score,
        accuracy_bits: live_accuracy,
        combo: live_combo,
        hits,
        current_pp_bits,
        progress_ppm,
        rank: live_rank,
        ..
    } = live;
    let completion_ppm = match outcome {
        PlayOutcome::Passed => None,
        _ => Some(
            if progress_ppm <= 1000000 {
                progress_ppm
            } else {
                1000000u32
            },
        ),
    };
    match result {
        Some(r) => {
            let ResultObservation {
                score_id,
                timestamp,
                player_name,
                score,
                accuracy_bits,
                combo,
                misses,
                mods: result_mods,
                pp_bits,
                rank: result_rank,
                ..
            } = r;
            let observed = match result_rank {
                Some(k) => Some(k),
                None => live_rank,
            };
            let rank = match outcome {
                PlayOutcome::Passed => observed,
                PlayOutcome::Failed => Some(failed_rank()),
                _ => None,
            };
            RecentPlay {
                id,
                score_id,
                beatmap,
                started_at,
                ended_at: match timestamp {
                    Some(t) => t,
                    None => wall,
                },
                player_name: match player_name {
                    Some(n) => Some(n),
                    None => live_name,
                },
                score: match score {
                    Some(s) => s,
                    None => live_score,
                },
                accuracy_bits: match accuracy_bits {
                    Some(a) => a,
                    None => live_accuracy,
                },
                combo: match combo {
                    Some(v) => v,
                    None => live_combo,
                },
                misses: match misses {
                    Some(v) => v,
                    None => hits.misses,
                },
                mods: if result_mods.len() > 0 {
                    result_mods
                } else {
                    mods
                },
                pp_bits: match pp_bits {
                    Some(v) => Some(v),
                    None => current_pp_bits,
                },
                completion_ppm,
                outcome,
                rank,
            }
        },
        None => {
            let rank = match outcome {
                PlayOutcome::Passed => live_rank,
                PlayOutcome::Failed => Some(failed_rank()),
                _ => None,
            };
            RecentPlay {
                id,
                score_id: None,
                beatmap,
                started_at,
                ended_at: wall,
                player_name: live_name,
                score: live_score,
                accuracy_bits: live_accuracy,
                combo: live_combo,
                misses: hits.misses,
                mods,
                pp_bits: current_pp_bits,
                completion_ppm,
                outcome,
                rank,
            }
        },
    }
}

fn finalize_pending(pending: PendingResults, wall: UtcTime) -> (r: Option<RecentPlay>)
    ensures
        yields(r, finalized(pending), wall),
{
    let failed = pending.candidate.live.failed || match &pending.result {
        Some(result) => match &result.rank {
            Some(rank) => is_failure_rank(rank.as_str()),
            None => false,
        },
        None => false,
    };
    let usable = failed || match &pending.result {
        Some(result) => result.is_ready(),
        None => false,
    };
    if !usable {
        return None;
    }
    let outcome = if failed {
        PlayOutcome::Failed
    } else {
        PlayOutcome::Passed
    };
    Some(build_recent(pending.candidate, pending.result, outcome, wall))
}

impl Tracking {
    fn take_pending_on_exit(&mut self, wall: UtcTime) -> (r: Option<RecentPlay>)
        ensures
            *final(self) == (Tracking { pending_results: None, ..*old(self) }),
            yields(r, finalized_opt(old(self).pending_results), wall),
    {
        match self.pending_results.take() {
            Some(pending) => finalize_pending(pending, wall),
            None => None,
        }
    }

    fn observe_gameplay(
        &mut self,
        beatmap: Option<BeatmapSummary>,
        live: Option<LivePlay>,
        mods: Vec<CompanionMod>,
        wall: UtcTime,
        id: String,
    ) -> (r: Option<RecentPlay>)
        ensures
            ({
                let (t, e) = gameplay_step(*old(self), beatmap, live, mods, wall, id);
                *final(self) == t && yields(r, e, wall)
            }),
    {
        let completed = self.take_pending_on_exit(wall);
        let (beatmap, live) = match (beatmap, live) {
            (Some(b), Some(l)) => (b, l),
            _ => {
                return completed;
            },
        };
        if completed.is_some() {
            self.active = Some(new_candidate(beatmap, live, mods, id, wall));
            return completed;
        }
        if let Some(previous) = self.pending_exit.take() {
            let mut previous = previous;
            let same = same_beatmap(&previous.beatmap, &beatmap);
            let restarted = previous.retry_detection_ready && attempt_restarted(
                &previous.live,
                &live,
            );
            if same && !previous.live.failed && !restarted {
                update_candidate(&mut previous, beatmap, live, mods);
                self.active = Some(previous);
                return None;
            }
            let outcome = interrupted_outcome(&previous, &beatmap);
            let recent = if meaningful_attempt(&previous.live) {
                Some(build_recent(previous, None, outcome, wall))
            } else {
                None
            };
            self.active = Some(new_candidate(beatmap, live, mods, id, wall));
            return recent;
        }
        if let Some(active) = self.active.take() {
            let mut active = active;
            let same = same_beatmap(&active.beatmap, &beatmap);
            let restarted = active.retry_detection_ready && attempt_restarted(&active.live, &live);
            if same && !restarted {
                update_candidate(&mut active, beatmap, live, mods);
                self.active = Some(active);
                return None;
            }
            let outcome = interrupted_outcome(&active, &beatmap);
            let recent = if meaningful_attempt(&active.live) {
                Some(build_recent(active, None, outcome, wall))
            } else {
                None
            };
            self.active = Some(new_candidate(beatmap, live, mods, id, wall));
            return recent;
        }
        self.active = Some(new_candidate(beatmap, live, mods, id, wall));
        None
    }

    fn observe_results(
        &mut self,
        result: Option<ResultObservation>,
        now_ms: u64,
        wall: UtcTime,
    ) -> (r: Option<RecentPlay>)
        ensures
            ({
                let (t, e) = results_step(*old(self), result, now_ms);
                *final(self) == t && yields(r, e, wall)
            }),
    {
        if let Some(pending) = self.pending_results.take() {
            let PendingResults { candidate, result: known, first_seen_ms, last_updated_ms } =
                pending;
            let (known, changed) = merge_result(known, result);
            let last = if changed {
                now_ms
            } else {
                last_updated_ms
            };
            let age = now_ms.saturating_sub(first_seen_ms);
            let settled_for = now_ms.saturating_sub(last);
            let ready = match &known {
                Some(r) => r.is_ready(),
                None => false,
            };
            let pending = PendingResults {
                candidate,
                result: known,
                first_seen_ms,
                last_updated_ms: last,
            };
            if age >= RESULT_HARD_TIMEOUT_MS || (ready && age >= RESULT_GRACE_MS && settled_for
                >= RESULT_SETTLE_MS) {
                return finalize_pending(pending, wall);
            }
            self.pending_results = Some(pending);
            return None;
        }
        let candidate = if self.active.is_some() {
            self.active.take()
        } else {
            self.pending_exit.take()
        };
        match candidate {
            None => None,
            Some(candidate) => {
                if !meaningful_attempt(&candidate.live) {
                    return None;
                }
                self.pending_results = Some(
                    PendingResults {
                        candidate,
                        result,
                        first_seen_ms: now_ms,
                        last_updated_ms: now_ms,
                    },
                );
                None
            },
        }
    }

    fn observe_away(&mut self, wall: UtcTime) -> (r: Option<RecentPlay>)
        ensures
            ({
                let (t, e) = away_step(*old(self));
                *final(self) == t && yields(r, e, wall)
            }),
    {
        if self.pending_results.is_some() {
            return self.take_pending_on_exit(wall);
        }
        if let Some(previous) = self.pending_exit.take() {
            if !meaningful_attempt(&previous.live) {
                return None;
            }
            let outcome = if previous.live.failed {
                PlayOutcome::Failed
            } else {
                PlayOutcome::Quit
            };
            return Some(build_recent(previous, None, outcome, wall));
        }
        self.pending_exit = self.active.take();
        None
    }
}

impl PlayDetector {
    /// The detector's tracking state.
    pub closed spec fn state(&self) -> Tracking {
        self.tracking
    }

    /// A detector that follows no attempt.
    pub fn new() -> (d: Self)
        ensures
            d.state().active is None,
            d.state().pending_exit is None,
            d.state().pending_results is None,
    {
        PlayDetector {
            tracking: Tracking { active: None, pending_exit: None, pending_results: None },
            origin: None,
        }
    }

    /// Forgets every attempt, as after a gap in the observations.
    pub fn reset(&mut self)
        ensures
            final(self).state().active is None,
            final(self).state().pending_exit is None,
            final(self).state().pending_results is None,
    {
        self.tracking.active = None;
        self.tracking.pending_exit = None;
        self.tracking.pending_results = None;
    }

    /// Takes one frame at monotonic time `now_ms` and UTC instant `wall`; a
    /// new attempt receives `id`.
    pub fn observe_at(
        &mut self,
        observation: PlayObservation,
        now_ms: u64,
        wall: UtcTime,
        id: String,
    ) -> (r: Option<RecentPlay>)
        ensures
            ({
                let (t, e) = step(old(self).state(), observation, now_ms, wall, id);
                final(self).state() == t && yields(r, e, wall)
            }),
    {
        let PlayObservation { state, beatmap, live, mods, result } = observation;
        match state {
            OsuState::Gameplay => self.tracking.observe_gameplay(beatmap, live, mods, wall, id),
            OsuState::Results => self.tracking.observe_results(result, now_ms, wall),
            _ => self.tracking.observe_away(wall),
        }
    }

    /// Takes one frame now.
    pub fn observe(&mut self, observation: PlayObservation) -> (r: Option<RecentPlay>)
        ensures
            exists|now_ms: u64, wall: UtcTime, id: String|
                {
                    let (t, e) = #[trigger] step(old(self).state(), observation, now_ms, wall, id);
                    &&& crate::clock::uuid_v4_text(id@)
                    &&& final(self).state() == t
                    &&& yields(r, e, wall)
                },
            ids_are_uuids(old(self).state()) ==> ids_are_uuids(final(self).state()),
            ids_are_uuids(old(self).state()) ==> (r matches Some(p) ==> crate::clock::uuid_v4_text(
                p.id@,
            )),
    {
        if self.origin.is_none() {
            self.origin = Some(monotonic_now());
        }
        let now_ms = match &self.origin {
            Some(origin) => millis_since(origin),
            None => 0,
        };
        let wall = utc_now();
        let id = new_attempt_id();
        let ghost before = self.state();
        let ghost named = id;
        let r = self.observe_at(observation, now_ms, wall, id);
        proof {
            if ids_are_uuids(before) {
                lemma_recorded_plays_carry_uuids(before, observation, now_ms, wall, named, r);
            }
        }
        r
    }
}

} // verus!
