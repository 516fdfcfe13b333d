//! Observations fed to the play detector and the plays it records.
use vstd::prelude::*;

use crate::app_state::{BeatmapSummary, CompanionMod, LivePlay, ModSetting, OsuState};
use crate::clock::UtcTime;
use crate::text::str_equal;

verus! {

/// How an attempt ended.
#[derive(Clone, Copy, Debug, PartialEq, Eq, Structural)]
pub enum PlayOutcome {
    Passed,
    Failed,
    Retried,
    Quit,
}

/// A finished attempt as it is kept in the recent activity.
///
/// Times are instants of UTC; `completion_ppm` is the part of
/// the beatmap played, in millionths; accuracy and performance points are the
/// bit patterns of their `f64` values.
#[derive(Clone, Debug)]
pub struct RecentPlay {
    pub id: String,
    pub score_id: Option<u64>,
    pub beatmap: BeatmapSummary,
    pub started_at: UtcTime,
    pub ended_at: UtcTime,
    pub player_name: Option<String>,
    pub score: u64,
    pub accuracy_bits: u64,
    pub combo: u32,
    pub misses: u32,
    pub mods: Vec<CompanionMod>,
    pub pp_bits: Option<u64>,
    pub completion_ppm: Option<u32>,
    pub outcome: PlayOutcome,
    pub rank: Option<String>,
}

/// What the results screen shows; each field is absent until tosu reports it.
#[derive(Clone, Debug)]
pub struct ResultObservation {
    pub score_id: Option<u64>,
    pub timestamp: Option<UtcTime>,
    pub player_name: Option<String>,
    pub score: Option<u64>,
    pub accuracy_bits: Option<u64>,
    pub combo: Option<u32>,
    pub misses: Option<u32>,
    pub judged_objects: Option<u64>,
    pub mods: Vec<CompanionMod>,
    pub pp_bits: Option<u64>,
    pub rank: Option<String>,
}

/// One normalized frame of tosu state, as the play detector sees it.
#[derive(Clone, Debug)]
pub struct PlayObservation {
    pub state: OsuState,
    pub beatmap: Option<BeatmapSummary>,
    pub live: Option<LivePlay>,
    pub mods: Vec<CompanionMod>,
    pub result: Option<ResultObservation>,
}

/// The content of a modifier setting.
pub open spec fn setting_view(s: ModSetting) -> (Seq<char>, Seq<char>) {
    (s.key@, s.value_json@)
}

/// The content of a modifier: its acronym and its settings in order.
pub open spec fn mod_view(m: CompanionMod) -> (Seq<char>, Seq<(Seq<char>, Seq<char>)>) {
    (m.acronym@, m.settings@.map_values(|s: ModSetting| setting_view(s)))
}

/// The content of a list of modifiers.
pub open spec fn mods_view(v: Seq<CompanionMod>) -> Seq<(Seq<char>, Seq<(Seq<char>, Seq<char>)>)> {
    v.map_values(|m: CompanionMod| mod_view(m))
}

fn settings_equal(a: &Vec<ModSetting>, b: &Vec<ModSetting>) -> (r: bool)
    ensures
        r == (a@.map_values(|s: ModSetting| setting_view(s)) == b@.map_values(
            |s: ModSetting| setting_view(s),
        )),
{
    let ghost va = a@.map_values(|s: ModSetting| setting_view(s));
    let ghost vb = b@.map_values(|s: ModSetting| setting_view(s));
    if a.len() != b.len() {
        assert(va.len() != vb.len());
        return false;
    }
    let mut i: usize = 0;
    while i < a.len()
        invariant
            i <= a.len() == b.len(),
            va == a@.map_values(|s: ModSetting| setting_view(s)),
            vb == b@.map_values(|s: ModSetting| setting_view(s)),
            forall|k: int| 0 <= k < i ==> va[k] == vb[k],
        decreases a.len() - i,
    {
        let same = str_equal(a[i].key.as_str(), b[i].key.as_str()) && str_equal(
            a[i].value_json.as_str(),
            b[i].value_json.as_str(),
        );
        if !same {
            assert(va[i as int] != vb[i as int]);
            return false;
        }
        i = i + 1;
    }
    assert(va == vb);
    true
}

/// Whether two lists of modifiers have the same content.
pub fn mods_equal(a: &Vec<CompanionMod>, b: &Vec<CompanionMod>) -> (r: bool)
    ensures
        r == (mods_view(a@) == mods_view(b@)),
{
    if a.len() != b.len() {
        assert(mods_view(a@).len() != mods_view(b@).len());
        return false;
    }
    let mut i: usize = 0;
    while i < a.len()
        invariant
            i <= a.len() == b.len(),
            forall|k: int| 0 <= k < i ==> mods_view(a@)[k] == mods_view(b@)[k],
        decreases a.len() - i,
    {
        let same = str_equal(a[i].acronym.as_str(), b[i].acronym.as_str()) && settings_equal(
            &a[i].settings,
            &b[i].settings,
        );
        if !same {
            assert(mods_view(a@)[i as int] != mods_view(b@)[i as int]);
            return false;
        }
        i = i + 1;
    }
    assert(mods_view(a@) == mods_view(b@));
    true
}

/// A results frame is ready once it reports judged objects or a score.
pub open spec fn result_ready(r: ResultObservation) -> bool {
    ||| (r.judged_objects matches Some(n) && n > 0)
    ||| (r.score matches Some(s) && s > 0)
}

impl ResultObservation {
    /// Whether this results frame carries the data of a finished play.
    pub fn is_ready(&self) -> (r: bool)
        ensures
            r == result_ready(*self),
    {
        (match self.judged_objects {
            Some(n) => n > 0,
            None => false,
        }) || (match self.score {
            Some(s) => s > 0,
            None => false,
        })
    }
}

/// The later of two reports of a number: the newer one where it is present.
pub open spec fn pick<T>(current: Option<T>, newer: Option<T>) -> Option<T> {
    if newer is Some {
        newer
    } else {
        current
    }
}

/// Whether taking `newer` over `current` changes the number.
pub open spec fn replaces<T>(current: Option<T>, newer: Option<T>) -> bool {
    newer is Some && newer != current
}

/// The later of two reports of a text: the newer one where it is present and differs.
pub open spec fn pick_text(current: Option<String>, newer: Option<String>) -> Option<String> {
    if replaces_text(current, newer) {
        newer
    } else {
        current
    }
}

/// Whether taking `newer` over `current` changes the text.
pub open spec fn replaces_text(current: Option<String>, newer: Option<String>) -> bool {
    match newer {
        Some(n) => match current {
            Some(c) => c@ != n@,
            None => true,
        },
        None => false,
    }
}

/// The later of two modifier lists: the newer one where it is not empty and differs.
pub open spec fn replaces_mods(current: Vec<CompanionMod>, newer: Vec<CompanionMod>) -> bool {
    newer@.len() > 0 && mods_view(newer@) != mods_view(current@)
}

/// A results frame updated with a later one: each field that the later frame
/// reports replaces the earlier value.
pub open spec fn merged(c: ResultObservation, n: ResultObservation) -> ResultObservation {
    ResultObservation {
        score_id: pick(c.score_id, n.score_id),
        timestamp: pick(c.timestamp, n.timestamp),
        player_name: pick_text(c.player_name, n.player_name),
        score: pick(c.score, n.score),
        accuracy_bits: pick(c.accuracy_bits, n.accuracy_bits),
        combo: pick(c.combo, n.combo),
        misses: pick(c.misses, n.misses),
        judged_objects: pick(c.judged_objects, n.judged_objects),
        mods: if replaces_mods(c.mods, n.mods) {
            n.mods
        } else {
            c.mods
        },
        pp_bits: pick(c.pp_bits, n.pp_bits),
        rank: pick_text(c.rank, n.rank),
    }
}

/// Whether a later results frame changes any reported value.
pub open spec fn changes(c: ResultObservation, n: ResultObservation) -> bool {
    ||| replaces(c.score_id, n.score_id)
    ||| replaces(c.timestamp, n.timestamp)
    ||| replaces_text(c.player_name, n.player_name)
    ||| replaces(c.score, n.score)
    ||| replaces(c.accuracy_bits, n.accuracy_bits)
    ||| replaces(c.combo, n.combo)
    ||| replaces(c.misses, n.misses)
    ||| replaces(c.judged_objects, n.judged_objects)
    ||| replaces_mods(c.mods, n.mods)
    ||| replaces(c.pp_bits, n.pp_bits)
    ||| replaces_text(c.rank, n.rank)
}

/// The results known after a new frame, and whether the frame changed them.
pub open spec fn merge_results(
    current: Option<ResultObservation>,
    newer: Option<ResultObservation>,
) -> (Option<ResultObservation>, bool) {
    match (current, newer) {
        (Some(c), Some(n)) => (Some(merged(c, n)), changes(c, n)),
        (None, Some(n)) => (Some(n), true),
        _ => (current, false),
    }
}

fn pick_u64(current: Option<u64>, newer: Option<u64>) -> (r: (Option<u64>, bool))
    ensures
        r.0 == pick(current, newer),
        r.1 == replaces(current, newer),
{
    match newer {
        Some(n) => (newer, match current {
            Some(c) => c != n,
            None => true,
        }),
        None => (current, false),
    }
}

fn pick_u32(current: Option<u32>, newer: Option<u32>) -> (r: (Option<u32>, bool))
    ensures
        r.0 == pick(current, newer),
        r.1 == replaces(current, newer),
{
    match newer {
        Some(n) => (newer, match current {
            Some(c) => c != n,
            None => true,
        }),
        None => (current, false),
    }
}

fn pick_time(current: Option<UtcTime>, newer: Option<UtcTime>) -> (r: (Option<UtcTime>, bool))
    ensures
        r.0 == pick(current, newer),
        r.1 == replaces(current, newer),
{
    match newer {
        Some(n) => (newer, match current {
            Some(c) => c != n,
            None => true,
        }),
        None => (current, false),
    }
}

fn pick_string(current: Option<String>, newer: Option<String>) -> (r: (Option<String>, bool))
    ensures
        r.0 == pick_text(current, newer),
        r.1 == replaces_text(current, newer),
{
    let differs = match (&current, &newer) {
        (Some(c), Some(n)) => !str_equal(c.as_str(), n.as_str()),
        (None, Some(_)) => true,
        _ => false,
    };
    if differs {
        (newer, true)
    } else {
        (current, false)
    }
}

/// Folds a later results frame into the results known so far; the flag tells
/// whether anything changed.
pub fn merge_result(current: Option<ResultObservation>, newer: Option<ResultObservation>) -> (r: (
    Option<ResultObservation>,
    bool,
))
    ensures
        r == merge_results(current, newer),
{
    match (current, newer) {
        (Some(c), Some(n)) => {
            let (score_id, a) = pick_u64(c.score_id, n.score_id);
            let (timestamp, b) = pick_time(c.timestamp, n.timestamp);
            let (player_name, d) = pick_string(c.player_name, n.player_name);
            let (score, e) = pick_u64(c.score, n.score);
            let (accuracy_bits, f) = pick_u64(c.accuracy_bits, n.accuracy_bits);
            let (combo, g) = pick_u32(c.combo, n.combo);
            let (misses, h) = pick_u32(c.misses, n.misses);
            let (judged_objects, i) = pick_u64(c.judged_objects, n.judged_objects);
            let new_mods = n.mods.len() > 0 && !mods_equal(&c.mods, &n.mods);
            let mods = if new_mods {
                n.mods
            } else {
                c.mods
            };
            let (pp_bits, j) = pick_u64(c.pp_bits, n.pp_bits);
            let (rank, k) = pick_string(c.rank, n.rank);
            let result = ResultObservation {
                score_id,
                timestamp,
                player_name,
                score,
                accuracy_bits,
                combo,
                misses,
                judged_objects,
                mods,
                pp_bits,
                rank,
            };
            (Some(result), a || b || d || e || f || g || h || i || new_mods || j || k)
        },
        (None, Some(n)) => (Some(n), true),
        (current, _) => (current, false),
    }
}

/// Two recorded plays hold the same content.
pub open spec fn same_play(a: RecentPlay, b: RecentPlay) -> bool {
    &&& a.id == b.id
    &&& a.score_id == b.score_id
    &&& a.beatmap == b.beatmap
    &&& a.started_at == b.started_at
    &&& a.ended_at == b.ended_at
    &&& a.player_name == b.player_name
    &&& a.score == b.score
    &&& a.accuracy_bits == b.accuracy_bits
    &&& a.combo == b.combo
    &&& a.misses == b.misses
    &&& mods_view(a.mods@) == mods_view(b.mods@)
    &&& a.pp_bits == b.pp_bits
    &&& a.completion_ppm == b.completion_ppm
    &&& a.outcome == b.outcome
    &&& a.rank == b.rank
}

impl RecentPlay {
    /// A copy of this play.
    pub fn duplicate(&self) -> (r: Self)
        ensures
            same_play(r, *self),
    {
        RecentPlay {
            id: self.id.clone(),
            score_id: self.score_id,
            beatmap: self.beatmap.duplicate(),
            started_at: self.started_at,
            ended_at: self.ended_at,
            player_name: crate::app_state::copy_text(&self.player_name),
            score: self.score,
            accuracy_bits: self.accuracy_bits,
            combo: self.combo,
            misses: self.misses,
            mods: crate::app_state::duplicate_mods(&self.mods),
            pp_bits: self.pp_bits,
            completion_ppm: self.completion_ppm,
            outcome: self.outcome,
            rank: crate::app_state::copy_text(&self.rank),
        }
    }
}

} // verus!
