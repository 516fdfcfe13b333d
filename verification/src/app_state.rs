//! The normalized companion state that the user interface renders.
use vstd::prelude::*;

use crate::activity::model::RecentPlay;
use crate::auth::client::AuthConfig;
use crate::settings::AppSettings;
use crate::tosu::process::TosuMemoryAccess;

verus! {

/// The state of Companion's connection to the local tosu service.
#[derive(Clone, Copy, Debug, PartialEq, Eq, Structural)]
pub enum TosuConnection {
    Disabled,
    Searching,
    Connecting,
    Connected,
    Stale,
    Unavailable,
    Error,
}

impl Default for TosuConnection {
    fn default() -> (r: Self)
        ensures
            r == TosuConnection::Searching,
    {
        TosuConnection::Searching
    }
}

/// What tosu and Companion know about the tosu executable and connection.
#[derive(Clone, Debug)]
pub struct TosuStatus {
    pub connection: TosuConnection,
    pub process_owned: bool,
    pub executable_available: bool,
    pub executable_path: Option<String>,
    pub executable_configured: bool,
    pub auto_start: bool,
    pub port: u16,
    pub memory_access: TosuMemoryAccess,
    pub message: Option<String>,
}

/// The screen the osu! client shows.
#[derive(Clone, Copy, Debug, PartialEq, Eq, Structural)]
pub enum OsuState {
    Menu,
    SongSelect,
    Gameplay,
    Results,
    Unknown,
}

impl Default for OsuState {
    fn default() -> (r: Self)
        ensures
            r == OsuState::Unknown,
    {
        OsuState::Unknown
    }
}

/// Whether osu! runs, which screen it shows and which client it is.
#[derive(Clone, Debug)]
pub struct OsuStatus {
    pub running: bool,
    pub state: OsuState,
    pub client: Option<String>,
}

impl Default for OsuStatus {
    fn default() -> (r: Self)
        ensures
            !r.running,
            r.state == OsuState::Unknown,
            r.client is None,
    {
        OsuStatus { running: false, state: OsuState::Unknown, client: None }
    }
}

/// The osu! game mode of a beatmap or play.
#[derive(Clone, Copy, Debug, PartialEq, Eq, Structural)]
pub enum Ruleset {
    Osu,
    Taiko,
    Catch,
    Mania,
    Unknown,
}

impl Default for Ruleset {
    fn default() -> (r: Self)
        ensures
            r == Ruleset::Unknown,
    {
        Ruleset::Unknown
    }
}

/// The identifying metadata of a beatmap.
#[derive(Clone, Debug)]
pub struct BeatmapSummary {
    pub beatmap_id: Option<u64>,
    pub beatmap_set_id: Option<u64>,
    pub checksum: Option<String>,
    pub artist: String,
    pub title: String,
    pub difficulty: String,
    pub mapper: String,
    pub ruleset: Ruleset,
    pub background_url: Option<String>,
    pub max_combo: Option<u32>,
}

impl Default for BeatmapSummary {
    fn default() -> (r: Self)
        ensures
            r.beatmap_id is None,
            r.beatmap_set_id is None,
            r.checksum is None,
            r.artist@.len() == 0,
            r.title@.len() == 0,
            r.difficulty@.len() == 0,
            r.mapper@.len() == 0,
            r.ruleset == Ruleset::Unknown,
            r.background_url is None,
            r.max_combo is None,
    {
        BeatmapSummary {
            beatmap_id: None,
            beatmap_set_id: None,
            checksum: None,
            artist: String::new(),
            title: String::new(),
            difficulty: String::new(),
            mapper: String::new(),
            ruleset: Ruleset::Unknown,
            background_url: None,
            max_combo: None,
        }
    }
}

/// One setting of a game modifier: its name and its value as JSON text.
#[derive(Clone, Debug)]
pub struct ModSetting {
    pub key: String,
    pub value_json: String,
}

/// A game modifier, by acronym, with its settings (each key at most once).
#[derive(Clone, Debug)]
pub struct CompanionMod {
    pub acronym: String,
    pub settings: Vec<ModSetting>,
}

/// The beatmap on screen together with the selected modifiers.
#[derive(Clone, Debug)]
pub struct NowPlaying {
    pub beatmap: BeatmapSummary,
    pub mods: Vec<CompanionMod>,
}

/// Judgement counts of a play.
#[derive(Clone, Copy, Debug)]
pub struct HitCounts {
    pub great: u32,
    pub ok: u32,
    pub meh: u32,
    pub katu: u32,
    pub geki: u32,
    pub misses: u32,
}

impl Default for HitCounts {
    fn default() -> (r: Self)
        ensures
            r.great == 0 && r.ok == 0 && r.meh == 0 && r.katu == 0 && r.geki == 0 && r.misses == 0,
    {
        HitCounts { great: 0, ok: 0, meh: 0, katu: 0, geki: 0, misses: 0 }
    }
}

/// Live data of the play in progress.
///
/// Fractional quantities are held as integers: `progress_ppm` is the progress
/// through the beatmap in millionths (0 to 1 000 000), `elapsed_ms` the time
/// played in milliseconds, and accuracy and performance points are carried as
/// the bit patterns of their `f64` values, which the library never computes with.
#[derive(Clone, Debug)]
pub struct LivePlay {
    pub player_name: Option<String>,
    pub score: u64,
    pub accuracy_bits: u64,
    pub combo: u32,
    pub maximum_combo: Option<u32>,
    pub hits: HitCounts,
    pub current_pp_bits: Option<u64>,
    pub maximum_pp_bits: Option<u64>,
    pub progress_ppm: u32,
    pub elapsed_ms: u64,
    pub failed: bool,
    pub rank: Option<String>,
}

/// The sign-in state with Hanami.
#[derive(Clone, Copy, Debug, PartialEq, Eq, Structural)]
pub enum AuthState {
    SignedOut,
    OpeningBrowser,
    WaitingForApproval,
    ExchangingCode,
    SignedIn,
    Refreshing,
    Error,
}

impl Default for AuthState {
    fn default() -> (r: Self)
        ensures
            r == AuthState::SignedOut,
    {
        AuthState::SignedOut
    }
}

/// The sign-in state together with the Hanami instance in use.
#[derive(Clone, Debug)]
pub struct AuthStatus {
    pub state: AuthState,
    pub message: Option<String>,
    pub base_url: String,
    pub is_production: bool,
}

/// Everything the user interface shows.
#[derive(Clone, Debug)]
pub struct CompanionSnapshot {
    pub tracking_enabled: bool,
    pub tosu: TosuStatus,
    pub osu: OsuStatus,
    pub now_playing: Option<NowPlaying>,
    pub live_play: Option<LivePlay>,
    pub recent_activity: Vec<RecentPlay>,
    pub auth: AuthStatus,
    pub app_version: String,
    pub upload_available: bool,
}

/// A copy of an optional text.
pub fn copy_text(t: &Option<String>) -> (r: Option<String>)
    ensures
        r == *t,
{
    match t {
        Some(s) => Some(s.clone()),
        None => None,
    }
}

impl BeatmapSummary {
    /// A copy of this beatmap's metadata.
    pub fn duplicate(&self) -> (r: Self)
        ensures
            r == *self,
    {
        BeatmapSummary {
            beatmap_id: self.beatmap_id,
            beatmap_set_id: self.beatmap_set_id,
            checksum: copy_text(&self.checksum),
            artist: self.artist.clone(),
            title: self.title.clone(),
            difficulty: self.difficulty.clone(),
            mapper: self.mapper.clone(),
            ruleset: self.ruleset,
            background_url: copy_text(&self.background_url),
            max_combo: self.max_combo,
        }
    }
}

impl CompanionMod {
    /// A copy of this modifier.
    pub fn duplicate(&self) -> (r: Self)
        ensures
            r.acronym == self.acronym,
            r.settings@ == self.settings@,
    {
        let mut settings: Vec<ModSetting> = Vec::new();
        let mut i: usize = 0;
        while i < self.settings.len()
            invariant
                i <= self.settings.len(),
                settings@ == self.settings@.take(i as int),
            decreases self.settings.len() - i,
        {
            let s = &self.settings[i];
            settings.push(ModSetting { key: s.key.clone(), value_json: s.value_json.clone() });
            i = i + 1;
            assert(settings@ =~= self.settings@.take(i as int));
        }
        assert(self.settings@.take(self.settings@.len() as int) =~= self.settings@);
        CompanionMod { acronym: self.acronym.clone(), settings }
    }
}

/// A copy of a list of modifiers, with the same content.
pub fn duplicate_mods(mods: &Vec<CompanionMod>) -> (r: Vec<CompanionMod>)
    ensures
        crate::activity::model::mods_view(r@) == crate::activity::model::mods_view(mods@),
{
    let mut r: Vec<CompanionMod> = Vec::new();
    let mut i: usize = 0;
    while i < mods.len()
        invariant
            i <= mods.len(),
            r@.len() == i,
            forall|k: int|
                0 <= k < i ==> crate::activity::model::mod_view(#[trigger] r@[k])
                    == crate::activity::model::mod_view(mods@[k]),
        decreases mods.len() - i,
    {
        let m = mods[i].duplicate();
        r.push(m);
        i = i + 1;
    }
    assert(crate::activity::model::mods_view(r@) =~= crate::activity::model::mods_view(mods@));
    r
}

impl LivePlay {
    /// A copy of this live data.
    pub fn duplicate(&self) -> (r: Self)
        ensures
            r == *self,
    {
        LivePlay {
            player_name: copy_text(&self.player_name),
            score: self.score,
            accuracy_bits: self.accuracy_bits,
            combo: self.combo,
            maximum_combo: self.maximum_combo,
            hits: self.hits,
            current_pp_bits: self.current_pp_bits,
            maximum_pp_bits: self.maximum_pp_bits,
            progress_ppm: self.progress_ppm,
            elapsed_ms: self.elapsed_ms,
            failed: self.failed,
            rank: copy_text(&self.rank),
        }
    }
}

/// The snapshot shown when Companion starts: tracking on, tosu searched for
/// on the configured port, nothing of osu!, signed out of the configured
/// Hanami instance. `executable` is the tosu executable found (if any) and
/// `memory_access` what tosu would have.
pub fn initial_snapshot(
    settings: &AppSettings,
    auth: &AuthConfig,
    executable: Option<String>,
    memory_access: TosuMemoryAccess,
    app_version: String,
) -> (r: CompanionSnapshot)
    ensures
        r.tracking_enabled,
        r.tosu == (TosuStatus {
            connection: TosuConnection::Searching,
            process_owned: false,
            executable_available: executable is Some,
            executable_path: executable,
            executable_configured: settings.spec_values().tosu_executable is Some,
            auto_start: settings.spec_values().tosu_auto_start,
            port: settings.endpoint_port(),
            memory_access,
            message: None,
        }),
        r.osu == (OsuStatus { running: false, state: OsuState::Unknown, client: None }),
        r.now_playing is None,
        r.live_play is None,
        r.recent_activity@.len() == 0,
        r.auth.state == AuthState::SignedOut,
        r.auth.message is None,
        r.auth.base_url@ == auth.spec_base_url(),
        r.auth.is_production == (auth.spec_base_url() == crate::auth::client::production_base()),
        r.app_version == app_version,
        !r.upload_available,
{
    let available = executable.is_some();
    let configured = settings.executable().is_some();
    let endpoint = settings.endpoint();
    CompanionSnapshot {
        tracking_enabled: true,
        tosu: TosuStatus {
            connection: TosuConnection::Searching,
            process_owned: false,
            executable_available: available,
            executable_path: executable,
            executable_configured: configured,
            auto_start: settings.tosu_auto_start(),
            port: endpoint.port(),
            memory_access,
            message: None,
        },
        osu: OsuStatus { running: false, state: OsuState::Unknown, client: None },
        now_playing: None,
        live_play: None,
        recent_activity: Vec::new(),
        auth: AuthStatus {
            state: AuthState::SignedOut,
            message: None,
            base_url: crate::auth::client::text(auth.base_url()),
            is_production: auth.is_production(),
        },
        app_version,
        upload_available: false,
    }
}

} // verus!
