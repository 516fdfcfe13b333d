//! tosu's v2 WebSocket payload and its normalization into Companion's state.
use vstd::prelude::*;

use crate::activity::model::{mods_view, PlayObservation, ResultObservation};
use crate::app_state::{
    copy_text, duplicate_mods, BeatmapSummary, HitCounts, LivePlay, NowPlaying,
    OsuState, OsuStatus, Ruleset,
};
use crate::clock::{parse_rfc3339, rfc3339_time};
use crate::text::{
    chars_equal, chars_of, concat_chars, decimal, decimal_chars, lower, lower_chars, string_of,
    trim, trimmed,
};
use crate::tosu::mods::{normalize_mods, normalized_mods, RawMods};
use crate::web_address::{add_query_pairs, pairs_view, url_with_query_pairs};

verus! {

/// The background endpoint of the default tosu instance.
pub open spec fn background_endpoint() -> Seq<char> {
    "http://127.0.0.1:24050/files/beatmap/background"@
}

/// Why a payload is not usable tosu state.
#[derive(Clone, Debug, PartialEq, Eq)]
pub enum PayloadError {
    /// tosu reported an error, such as not finding osu!.
    NotReady,
    /// The payload is JSON but not tosu's v2 state.
    Unexpected,
    /// The payload is not valid JSON; the text explains why.
    InvalidJson(String),
}

#[derive(Clone, Debug, Default)]
pub struct RawNumberName {
    pub number: Option<i32>,
    pub name: Option<String>,
}

#[derive(Clone, Debug, Default)]
pub struct RawProfile {
    pub name: Option<String>,
}

/// Beatmap times in milliseconds.
#[derive(Clone, Copy, Debug, Default)]
pub struct RawBeatmapTime {
    pub live_ms: Option<i64>,
    pub first_object_ms: Option<i64>,
    pub last_object_ms: Option<i64>,
    pub mp3_length_ms: Option<i64>,
}

#[derive(Clone, Copy, Debug, Default)]
pub struct RawBeatmapStats {
    pub max_combo: Option<u32>,
}

#[derive(Clone, Debug, Default)]
pub struct RawBeatmap {
    pub id: Option<i64>,
    pub set: Option<i64>,
    pub checksum: Option<String>,
    pub mode: RawNumberName,
    pub artist: Option<String>,
    pub title: Option<String>,
    pub mapper: Option<String>,
    pub version: Option<String>,
    pub time: RawBeatmapTime,
    pub stats: RawBeatmapStats,
}

#[derive(Clone, Copy, Debug, Default)]
pub struct RawHits {
    pub great: Option<u32>,
    pub ok: Option<u32>,
    pub meh: Option<u32>,
    pub misses: Option<u32>,
    pub geki: Option<u32>,
    pub katu: Option<u32>,
}

#[derive(Clone, Copy, Debug, Default)]
pub struct RawCombo {
    pub current: Option<u32>,
    pub max: Option<u32>,
}

#[derive(Clone, Debug, Default)]
pub struct RawRank {
    pub current: Option<String>,
    pub max_this_play: Option<String>,
}

/// Performance points, as bit patterns of `f64` values.
#[derive(Clone, Copy, Debug, Default)]
pub struct RawPp {
    pub current_bits: Option<u64>,
    pub fc_bits: Option<u64>,
    pub max_achieved_bits: Option<u64>,
    pub max_achievable_bits: Option<u64>,
}

/// The play in progress; accuracy is the bit pattern of an `f64` value.
#[derive(Clone, Debug, Default)]
pub struct RawPlay {
    pub failed: Option<bool>,
    pub player_name: Option<String>,
    pub mode: RawNumberName,
    pub score: Option<u64>,
    pub accuracy_bits: Option<u64>,
    pub hits: RawHits,
    pub combo: RawCombo,
    pub mods: RawMods,
    pub rank: RawRank,
    pub pp: RawPp,
}

/// Performance points of a result, as bit patterns of `f64` values.
#[derive(Clone, Copy, Debug, Default)]
pub struct RawResultPp {
    pub current_bits: Option<u64>,
    pub fc_bits: Option<u64>,
}

/// The results screen; accuracy is the bit pattern of an `f64` value.
#[derive(Clone, Debug, Default)]
pub struct RawResults {
    pub score_id: Option<i64>,
    pub player_name: Option<String>,
    pub score: Option<u64>,
    pub accuracy_bits: Option<u64>,
    pub hits: RawHits,
    pub mods: RawMods,
    pub max_combo: Option<u32>,
    pub rank: Option<String>,
    pub pp: RawResultPp,
    pub created_at: Option<String>,
}

/// One frame of tosu's v2 state.
#[derive(Clone, Debug, Default)]
pub struct RawTosuPayload {
    pub error: Option<String>,
    pub client: Option<String>,
    pub state: RawNumberName,
    pub profile: RawProfile,
    pub beatmap: RawBeatmap,
    pub play: RawPlay,
    pub results_screen: RawResults,
}

/// A tosu frame in Companion's terms.
pub struct NormalizedTosu {
    pub osu: OsuStatus,
    pub now_playing: Option<NowPlaying>,
    pub live_play: Option<LivePlay>,
    pub observation: PlayObservation,
}

/// Whether a decoded payload is usable state: tosu reports no error, it names
/// a state, and it carries at least one of a client, a beatmap id or title, a
/// profile name or a score.
pub open spec fn payload_verdict(p: RawTosuPayload) -> Result<(), PayloadError> {
    if p.error is Some {
        Err(PayloadError::NotReady)
    } else if p.state.number is None || (p.client is None && p.beatmap.id is None
        && p.beatmap.title is None && p.profile.name is None && p.play.score is None) {
        Err(PayloadError::Unexpected)
    } else {
        Ok(())
    }
}

impl RawTosuPayload {
    /// Accepts a decoded payload that is usable tosu state.
    pub fn validate(self) -> (r: Result<Self, PayloadError>)
        ensures
            match payload_verdict(self) {
                Ok(()) => r == Ok::<Self, PayloadError>(self),
                Err(e) => r == Err::<Self, PayloadError>(e),
            },
    {
        if self.error.is_some() {
            return Err(PayloadError::NotReady);
        }
        if self.state.number.is_none() || (self.client.is_none() && self.beatmap.id.is_none()
            && self.beatmap.title.is_none() && self.profile.name.is_none()
            && self.play.score.is_none()) {
            return Err(PayloadError::Unexpected);
        }
        Ok(self)
    }
}

/// The text, or the empty text where there is none.
pub open spec fn text_or_empty(t: Option<String>) -> Seq<char> {
    match t {
        Some(s) => s@,
        None => Seq::empty(),
    }
}

/// The osu! screen for tosu's state number, or else its lower-cased name.
pub open spec fn state_of(number: Option<i32>, name: Option<String>) -> OsuState {
    if number == Some(0i32) {
        OsuState::Menu
    } else if number == Some(2i32) {
        OsuState::Gameplay
    } else if number == Some(5i32) {
        OsuState::SongSelect
    } else if number == Some(7i32) {
        OsuState::Results
    } else {
        let n = lower(text_or_empty(name));
        if n == "menu"@ {
            OsuState::Menu
        } else if n == "play"@ {
            OsuState::Gameplay
        } else if n == "selectplay"@ {
            OsuState::SongSelect
        } else if n == "resultscreen"@ {
            OsuState::Results
        } else {
            OsuState::Unknown
        }
    }
}

/// The game mode for tosu's mode number, or else its lower-cased name.
pub open spec fn ruleset_of(number: Option<i32>, name: Option<String>) -> Ruleset {
    if number == Some(0i32) {
        Ruleset::Osu
    } else if number == Some(1i32) {
        Ruleset::Taiko
    } else if number == Some(2i32) {
        Ruleset::Catch
    } else if number == Some(3i32) {
        Ruleset::Mania
    } else {
        let n = lower(text_or_empty(name));
        if n == "osu"@ {
            Ruleset::Osu
        } else if n == "taiko"@ {
            Ruleset::Taiko
        } else if n == "fruits"@ || n == "catch"@ {
            Ruleset::Catch
        } else if n == "mania"@ {
            Ruleset::Mania
        } else {
            Ruleset::Unknown
        }
    }
}

/// tosu's state numbers 0, 2, 5 and 7 are the main menu, gameplay, song
/// selection and the results screen, whatever name comes with them; without
/// one of those numbers, the names `menu`, `play`, `selectplay` and
/// `resultscreen` (in any case) name those screens, and anything else is an
/// unknown screen.
pub proof fn lemma_state_numbers_name_the_screens(name: Option<String>, number: Option<i32>)
    ensures
        state_of(Some(0i32), name) == OsuState::Menu,
        state_of(Some(2i32), name) == OsuState::Gameplay,
        state_of(Some(5i32), name) == OsuState::SongSelect,
        state_of(Some(7i32), name) == OsuState::Results,
        !(number matches Some(k) && (k == 0 || k == 2 || k == 5 || k == 7)) ==> {
            let n = lower(text_or_empty(name));
            &&& n == "menu"@ ==> state_of(number, name) == OsuState::Menu
            &&& n == "play"@ ==> state_of(number, name) == OsuState::Gameplay
            &&& n == "selectplay"@ ==> state_of(number, name) == OsuState::SongSelect
            &&& n == "resultscreen"@ ==> state_of(number, name) == OsuState::Results
            &&& n.len() == 0 ==> state_of(number, name) == OsuState::Unknown
        },
{
    reveal_strlit("menu");
    reveal_strlit("play");
    reveal_strlit("selectplay");
    reveal_strlit("resultscreen");
    let n = lower(text_or_empty(name));
    if n == "play"@ {
        assert(n[0] != "menu"@[0]);
    }
    if n == "selectplay"@ {
        assert(n.len() != "menu"@.len());
        assert(n.len() != "play"@.len());
    }
    if n == "resultscreen"@ {
        assert(n.len() != "menu"@.len());
        assert(n.len() != "play"@.len());
        assert(n.len() != "selectplay"@.len());
    }
    if n.len() == 0 {
        assert(n.len() != "menu"@.len());
        assert(n.len() != "play"@.len());
        assert(n.len() != "selectplay"@.len());
        assert(n.len() != "resultscreen"@.len());
    }
}

/// osu!'s mode numbers 0 to 3 are osu!, taiko, catch and mania, whatever name
/// comes with them; without a known number, the names `osu`, `taiko`,
/// `fruits` or `catch`, and `mania` (in any case) name those modes.
pub proof fn lemma_mode_numbers_name_the_rulesets(name: Option<String>, number: Option<i32>)
    ensures
        ruleset_of(Some(0i32), name) == Ruleset::Osu,
        ruleset_of(Some(1i32), name) == Ruleset::Taiko,
        ruleset_of(Some(2i32), name) == Ruleset::Catch,
        ruleset_of(Some(3i32), name) == Ruleset::Mania,
        !(number matches Some(k) && 0 <= k <= 3) ==> {
            let n = lower(text_or_empty(name));
            &&& n == "osu"@ ==> ruleset_of(number, name) == Ruleset::Osu
            &&& n == "taiko"@ ==> ruleset_of(number, name) == Ruleset::Taiko
            &&& (n == "fruits"@ || n == "catch"@) ==> ruleset_of(number, name) == Ruleset::Catch
            &&& n == "mania"@ ==> ruleset_of(number, name) == Ruleset::Mania
        },
{
    reveal_strlit("osu");
    reveal_strlit("taiko");
    reveal_strlit("fruits");
    reveal_strlit("catch");
    reveal_strlit("mania");
    let n = lower(text_or_empty(name));
    if n == "taiko"@ {
        assert(n.len() != "osu"@.len());
    }
    if n == "fruits"@ {
        assert(n.len() != "osu"@.len());
        assert(n.len() != "taiko"@.len());
    }
    if n == "catch"@ {
        assert(n.len() != "osu"@.len());
        assert(n[0] != "taiko"@[0]);
    }
    if n == "mania"@ {
        assert(n.len() != "osu"@.len());
        assert(n[0] != "taiko"@[0]);
        assert(n.len() != "fruits"@.len());
        assert(n[0] != "catch"@[0]);
    }
}

/// A positive id; tosu uses zero and negative ids for local beatmaps and scores.
pub open spec fn positive(id: Option<i64>) -> Option<u64> {
    match id {
        Some(v) => if v > 0 {
            Some(v as u64)
        } else {
            None
        },
        None => None,
    }
}

/// Missing judgement counts count as zero.
pub open spec fn hits_of(raw: RawHits) -> HitCounts {
    HitCounts {
        great: raw.great.unwrap_or(0),
        ok: raw.ok.unwrap_or(0),
        meh: raw.meh.unwrap_or(0),
        katu: raw.katu.unwrap_or(0),
        geki: raw.geki.unwrap_or(0),
        misses: raw.misses.unwrap_or(0),
    }
}

/// The sum of the reported judgement counts, where any is reported.
pub open spec fn judged_of(raw: RawHits) -> Option<u64> {
    if raw.great is None && raw.ok is None && raw.meh is None && raw.misses is None
        && raw.geki is None && raw.katu is None {
        None
    } else {
        let h = hits_of(raw);
        Some((h.great + h.ok + h.meh + h.katu + h.geki + h.misses) as u64)
    }
}

/// The key under which tosu caches a beatmap background: the trimmed
/// checksum, else the positive id, else the trimmed title and version.
pub open spec fn cache_key(raw: RawBeatmap) -> Option<Seq<char>> {
    if raw.checksum is Some && trim(raw.checksum->0@).len() > 0 {
        Some(trim(raw.checksum->0@))
    } else if positive(raw.id) is Some {
        Some(decimal(positive(raw.id)->0 as nat))
    } else if raw.title is Some && trim(raw.title->0@).len() > 0 {
        Some(trim(raw.title->0@) + seq![':'] + trim(text_or_empty(raw.version)))
    } else {
        None
    }
}

/// The background address of a beatmap.
pub open spec fn background_of(raw: RawBeatmap) -> Option<Seq<char>> {
    match cache_key(raw) {
        Some(k) => url_with_query_pairs(background_endpoint(), seq![("beatmap"@, k)]),
        None => None,
    }
}

/// The view of an optional text.
pub open spec fn text_view(t: Option<String>) -> Option<Seq<char>> {
    match t {
        Some(s) => Some(s@),
        None => None,
    }
}

/// `b` summarizes the raw beatmap, of game mode `ruleset`.
pub open spec fn summarizes(b: BeatmapSummary, raw: RawBeatmap, ruleset: Ruleset) -> bool {
    &&& b.beatmap_id == positive(raw.id)
    &&& b.beatmap_set_id == positive(raw.set)
    &&& b.checksum == raw.checksum
    &&& b.artist@ == text_or_empty(raw.artist)
    &&& b.title@ == text_or_empty(raw.title)
    &&& b.difficulty@ == text_or_empty(raw.version)
    &&& b.mapper@ == text_or_empty(raw.mapper)
    &&& b.ruleset == ruleset
    &&& text_view(b.background_url) == background_of(raw)
    &&& b.max_combo == raw.stats.max_combo
}

/// A beatmap is shown where it has a positive id or a title.
pub open spec fn has_beatmap(raw: RawBeatmap) -> bool {
    positive(raw.id) is Some || text_or_empty(raw.title).len() > 0
}

/// Where the play starts and ends on the beatmap's timeline, in milliseconds:
/// from the first object to the last one (or the end of the audio).
pub open spec fn play_span(t: RawBeatmapTime) -> (i64, i64) {
    let start = t.first_object_ms.unwrap_or(0);
    let end = if t.last_object_ms is Some {
        t.last_object_ms->0
    } else {
        t.mp3_length_ms.unwrap_or(start)
    };
    (start, end)
}

/// The progress through the play, in millionths, from 0 to 1 000 000.
pub open spec fn progress_of(t: RawBeatmapTime) -> u32 {
    let (start, end) = play_span(t);
    let live = t.live_ms.unwrap_or(start);
    if end <= start || live <= start {
        0
    } else if live >= end {
        1000000
    } else {
        ((live - start) * 1000000 / (end - start)) as u32
    }
}

/// The time played since the first object, in milliseconds.
pub open spec fn elapsed_of(t: RawBeatmapTime) -> u64 {
    let start = play_span(t).0;
    let live = t.live_ms.unwrap_or(start);
    if live > start {
        (live - start) as u64
    } else {
        0
    }
}

/// A name, unless it is empty.
pub open spec fn non_empty(t: Option<String>) -> Option<String> {
    match t {
        Some(s) => if s@.len() > 0 {
            t
        } else {
            None
        },
        None => None,
    }
}

/// The live data of the play in a payload.
pub open spec fn live_of(raw: RawTosuPayload) -> LivePlay {
    LivePlay {
        player_name: non_empty(
            if raw.play.player_name is Some {
                raw.play.player_name
            } else {
                raw.profile.name
            },
        ),
        score: raw.play.score.unwrap_or(0),
        accuracy_bits: raw.play.accuracy_bits.unwrap_or(0),
        combo: raw.play.combo.current.unwrap_or(0),
        maximum_combo: if raw.beatmap.stats.max_combo is Some {
            raw.beatmap.stats.max_combo
        } else {
            raw.play.combo.max
        },
        hits: hits_of(raw.play.hits),
        current_pp_bits: raw.play.pp.current_bits,
        maximum_pp_bits: if raw.play.pp.max_achievable_bits is Some {
            raw.play.pp.max_achievable_bits
        } else if raw.play.pp.max_achieved_bits is Some {
            raw.play.pp.max_achieved_bits
        } else {
            raw.play.pp.fc_bits
        },
        progress_ppm: progress_of(raw.beatmap.time),
        elapsed_ms: elapsed_of(raw.beatmap.time),
        failed: raw.play.failed.unwrap_or(false),
        rank: raw.play.rank.current,
    }
}

/// `r` is the results screen of a payload, `Some` fields where tosu reports them.
pub open spec fn result_of(r: ResultObservation, raw: RawResults) -> bool {
    &&& r.score_id == positive(raw.score_id)
    &&& r.timestamp == (if raw.created_at is Some {
        rfc3339_time(raw.created_at->0@)
    } else {
        None
    })
    &&& r.player_name == non_empty(raw.player_name)
    &&& r.score == raw.score
    &&& r.accuracy_bits == raw.accuracy_bits
    &&& r.combo == raw.max_combo
    &&& r.misses == raw.hits.misses
    &&& r.judged_objects == judged_of(raw.hits)
    &&& mods_view(r.mods@) == normalized_mods(raw.mods)
    &&& r.pp_bits == raw.pp.current_bits
    &&& r.rank == non_empty(raw.rank)
}

/// The osu! screen of a payload.
pub open spec fn payload_state(raw: RawTosuPayload) -> OsuState {
    state_of(raw.state.number, raw.state.name)
}

/// The game mode of a payload: the play's, else the beatmap's.
pub open spec fn payload_ruleset(raw: RawTosuPayload) -> Ruleset {
    ruleset_of(
        if raw.play.mode.number is Some {
            raw.play.mode.number
        } else {
            raw.beatmap.mode.number
        },
        if raw.play.mode.name is Some {
            raw.play.mode.name
        } else {
            raw.beatmap.mode.name
        },
    )
}

fn word_is(v: &Vec<char>, word: &str) -> (r: bool)
    ensures
        r == (v@ == word@),
{
    chars_equal(v, &chars_of(word))
}

fn lowered_name(name: &Option<String>) -> (r: Vec<char>)
    ensures
        r@ == lower(text_or_empty(*name)),
{
    match name {
        Some(n) => lower_chars(&chars_of(n.as_str())),
        None => {
            let v: Vec<char> = Vec::new();
            assert(lower(Seq::<char>::empty()) =~= v@);
            v
        },
    }
}

/// The osu! screen for tosu's state number or name.
pub fn normalize_state(number: Option<i32>, name: &Option<String>) -> (r: OsuState)
    ensures
        r == state_of(number, *name),
{
    match number {
        Some(0) => OsuState::Menu,
        Some(2) => OsuState::Gameplay,
        Some(5) => OsuState::SongSelect,
        Some(7) => OsuState::Results,
        _ => {
            let n = lowered_name(name);
            if word_is(&n, "menu") {
                OsuState::Menu
            } else if word_is(&n, "play") {
                OsuState::Gameplay
            } else if word_is(&n, "selectplay") {
                OsuState::SongSelect
            } else if word_is(&n, "resultscreen") {
                OsuState::Results
            } else {
                OsuState::Unknown
            }
        },
    }
}

/// The game mode for tosu's mode number or name.
pub fn normalize_ruleset(number: Option<i32>, name: &Option<String>) -> (r: Ruleset)
    ensures
        r == ruleset_of(number, *name),
{
    match number {
        Some(0) => Ruleset::Osu,
        Some(1) => Ruleset::Taiko,
        Some(2) => Ruleset::Catch,
        Some(3) => Ruleset::Mania,
        _ => {
            let n = lowered_name(name);
            if word_is(&n, "osu") {
                Ruleset::Osu
            } else if word_is(&n, "taiko") {
                Ruleset::Taiko
            } else if word_is(&n, "fruits") || word_is(&n, "catch") {
                Ruleset::Catch
            } else if word_is(&n, "mania") {
                Ruleset::Mania
            } else {
                Ruleset::Unknown
            }
        },
    }
}

/// A positive id, or none.
pub fn positive_id(value: Option<i64>) -> (r: Option<u64>)
    ensures
        r == positive(value),
{
    match value {
        Some(v) => if v > 0 {
            Some(v as u64)
        } else {
            None
        },
        None => None,
    }
}

/// Judgement counts, missing ones as zero.
pub fn normalize_hits(raw: &RawHits) -> (r: HitCounts)
    ensures
        r == hits_of(*raw),
{
    HitCounts {
        great: raw.great.unwrap_or(0),
        ok: raw.ok.unwrap_or(0),
        meh: raw.meh.unwrap_or(0),
        katu: raw.katu.unwrap_or(0),
        geki: raw.geki.unwrap_or(0),
        misses: raw.misses.unwrap_or(0),
    }
}

fn judged_objects(raw: &RawHits) -> (r: Option<u64>)
    ensures
        r == judged_of(*raw),
{
    if raw.great.is_none() && raw.ok.is_none() && raw.meh.is_none() && raw.misses.is_none()
        && raw.geki.is_none() && raw.katu.is_none() {
        None
    } else {
        let h = normalize_hits(raw);
        Some(
            h.great as u64 + h.ok as u64 + h.meh as u64 + h.katu as u64 + h.geki as u64
                + h.misses as u64,
        )
    }
}

fn text_or_new(t: &Option<String>) -> (r: String)
    ensures
        r@ == text_or_empty(*t),
{
    match t {
        Some(s) => s.clone(),
        None => String::new(),
    }
}

/// The key under which tosu caches the background of `raw`, where it has one.
pub fn background_cache_key(raw: &RawBeatmap) -> (r: Option<String>)
    ensures
        text_view(r) == cache_key(*raw),
{
    if let Some(c) = &raw.checksum {
        let t = trimmed(c.as_str());
        if !t.as_str().is_empty() {
            return Some(t);
        }
    }
    if let Some(id) = positive_id(raw.id) {
        return Some(string_of(&decimal_chars(id)));
    }
    if let Some(title) = &raw.title {
        let t = trimmed(title.as_str());
        if !t.as_str().is_empty() {
            let version = trimmed(text_or_new(&raw.version).as_str());
            let colon = vec![':'];
            assert(colon@ =~= seq![':']);
            let with_colon = concat_chars(&chars_of(t.as_str()), &colon);
            let key = concat_chars(&with_colon, &chars_of(version.as_str()));
            return Some(string_of(&key));
        }
    }
    None
}

/// The beatmap background address for a raw beatmap, keyed by its cache key.
pub fn background_url(raw: &RawBeatmap) -> (r: Option<String>)
    ensures
        text_view(r) == background_of(*raw),
{
    let key = match background_cache_key(raw) {
        Some(k) => k,
        None => {
            return None;
        },
    };
    let mut pairs: Vec<(String, String)> = Vec::new();
    pairs.push((string_of(&chars_of("beatmap")), key));
    assert(pairs_view(pairs@) =~= seq![("beatmap"@, pairs@[0].1@)]);
    let r = add_query_pairs(
        string_of(&chars_of("http://127.0.0.1:24050/files/beatmap/background")).as_str(),
        &pairs,
    );
    r
}

/// The beatmap summary of a raw beatmap, where it names one.
pub fn normalize_beatmap(raw: &RawBeatmap, ruleset: Ruleset) -> (r: Option<BeatmapSummary>)
    ensures
        match r {
            Some(b) => has_beatmap(*raw) && summarizes(b, *raw, ruleset),
            None => !has_beatmap(*raw),
        },
{
    let title = text_or_new(&raw.title);
    if positive_id(raw.id).is_none() && title.as_str().is_empty() {
        return None;
    }
    Some(
        BeatmapSummary {
            beatmap_id: positive_id(raw.id),
            beatmap_set_id: positive_id(raw.set),
            checksum: copy_text(&raw.checksum),
            artist: text_or_new(&raw.artist),
            title,
            difficulty: text_or_new(&raw.version),
            mapper: text_or_new(&raw.mapper),
            ruleset,
            background_url: background_url(raw),
            max_combo: raw.stats.max_combo,
        },
    )
}

fn progress(t: &RawBeatmapTime) -> (r: u32)
    ensures
        r == progress_of(*t),
{
    let start = t.first_object_ms.unwrap_or(0);
    let end = match t.last_object_ms {
        Some(e) => e,
        None => t.mp3_length_ms.unwrap_or(start),
    };
    let live = t.live_ms.unwrap_or(start);
    if end <= start || live <= start {
        0
    } else if live >= end {
        1000000
    } else {
        let num: i128 = (live as i128 - start as i128) * 1000000;
        let den: i128 = end as i128 - start as i128;
        let q: i128 = num / den;
        assert(0 <= q < 1000000) by (nonlinear_arith)
            requires
                0 < num,
                num < den * 1000000,
                q == num / den,
                den > 0,
        ;
        q as u32
    }
}

fn elapsed(t: &RawBeatmapTime) -> (r: u64)
    ensures
        r == elapsed_of(*t),
{
    let start = t.first_object_ms.unwrap_or(0);
    let live = t.live_ms.unwrap_or(start);
    if live > start {
        (live as i128 - start as i128) as u64
    } else {
        0
    }
}

fn non_empty_text(t: Option<String>) -> (r: Option<String>)
    ensures
        r == non_empty(t),
{
    match t {
        Some(s) => if s.as_str().is_empty() {
            None
        } else {
            Some(s)
        },
        None => None,
    }
}

/// The live data of the play in a payload.
pub fn normalize_live(raw: &RawTosuPayload) -> (r: LivePlay)
    ensures
        r == live_of(*raw),
{
    let name = match &raw.play.player_name {
        Some(n) => Some(n.clone()),
        None => copy_text(&raw.profile.name),
    };
    LivePlay {
        player_name: non_empty_text(name),
        score: raw.play.score.unwrap_or(0),
        accuracy_bits: raw.play.accuracy_bits.unwrap_or(0),
        combo: raw.play.combo.current.unwrap_or(0),
        maximum_combo: match raw.beatmap.stats.max_combo {
            Some(c) => Some(c),
            None => raw.play.combo.max,
        },
        hits: normalize_hits(&raw.play.hits),
        current_pp_bits: raw.play.pp.current_bits,
        maximum_pp_bits: match raw.play.pp.max_achievable_bits {
            Some(v) => Some(v),
            None => match raw.play.pp.max_achieved_bits {
                Some(v) => Some(v),
                None => raw.play.pp.fc_bits,
            },
        },
        progress_ppm: progress(&raw.beatmap.time),
        elapsed_ms: elapsed(&raw.beatmap.time),
        failed: raw.play.failed.unwrap_or(false),
        rank: copy_text(&raw.play.rank.current),
    }
}

/// The results screen of a payload.
pub fn normalize_result(raw: &RawResults) -> (r: ResultObservation)
    ensures
        result_of(r, *raw),
{
    ResultObservation {
        score_id: positive_id(raw.score_id),
        timestamp: match &raw.created_at {
            Some(text) => parse_rfc3339(text.as_str()),
            None => None,
        },
        player_name: non_empty_text(copy_text(&raw.player_name)),
        score: raw.score,
        accuracy_bits: raw.accuracy_bits,
        combo: raw.max_combo,
        misses: raw.hits.misses,
        judged_objects: judged_objects(&raw.hits),
        mods: normalize_mods(&raw.mods),
        pp_bits: raw.pp.current_bits,
        rank: non_empty_text(copy_text(&raw.rank)),
    }
}

/// Whether `r` is the frame `raw` in Companion's terms: osu! runs and shows
/// the payload's screen; the beatmap and modifiers are on screen; live data
/// exists in gameplay and results on the results screen.
pub open spec fn normalizes(r: NormalizedTosu, raw: RawTosuPayload) -> bool {
    &&& r.osu.running
    &&& r.osu.state == payload_state(raw)
    &&& r.osu.client == raw.client
    &&& r.observation.state == payload_state(raw)
    &&& match r.observation.beatmap {
        Some(b) => has_beatmap(raw.beatmap) && summarizes(b, raw.beatmap, payload_ruleset(raw)),
        None => !has_beatmap(raw.beatmap),
    }
    &&& mods_view(r.observation.mods@) == normalized_mods(raw.play.mods)
    &&& match r.now_playing {
        Some(n) => r.observation.beatmap == Some(n.beatmap) && mods_view(n.mods@)
            == normalized_mods(raw.play.mods),
        None => r.observation.beatmap is None,
    }
    &&& r.live_play == (if payload_state(raw) == OsuState::Gameplay {
        Some(live_of(raw))
    } else {
        None
    })
    &&& r.observation.live == r.live_play
    &&& match r.observation.result {
        Some(res) => payload_state(raw) == OsuState::Results && result_of(res, raw.results_screen),
        None => payload_state(raw) != OsuState::Results,
    }
}

impl RawTosuPayload {
    /// The frame in Companion's terms: osu! runs and shows the payload's
    /// screen; the beatmap and modifiers are on screen; live data exists in
    /// gameplay and results on the results screen.
    pub fn normalize(self) -> (r: NormalizedTosu)
        ensures
            normalizes(r, self),
    {
        let state = normalize_state(self.state.number, &self.state.name);
        let ruleset = normalize_ruleset(
            match self.play.mode.number {
                Some(n) => Some(n),
                None => self.beatmap.mode.number,
            },
            match &self.play.mode.name {
                Some(n) => &self.play.mode.name,
                None => &self.beatmap.mode.name,
            },
        );
        let beatmap = normalize_beatmap(&self.beatmap, ruleset);
        let mods = normalize_mods(&self.play.mods);
        let live_play = match state {
            OsuState::Gameplay => Some(normalize_live(&self)),
            _ => None,
        };
        let result = match state {
            OsuState::Results => Some(normalize_result(&self.results_screen)),
            _ => None,
        };
        let now_playing = match &beatmap {
            Some(b) => Some(NowPlaying { beatmap: b.duplicate(), mods: duplicate_mods(&mods) }),
            None => None,
        };
        let live_copy = match &live_play {
            Some(l) => Some(l.duplicate()),
            None => None,
        };
        NormalizedTosu {
            osu: OsuStatus { running: true, state, client: self.client },
            now_playing,
            live_play: live_copy,
            observation: PlayObservation { state, beatmap, live: live_play, mods, result },
        }
    }
}

} // verus!
