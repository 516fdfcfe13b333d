//! Game modifiers as tosu reports them: an array of acronyms or objects with
//! settings, or a compact name such as `HDDT`.
use vstd::prelude::*;

use crate::activity::model::{mod_view, mods_view, setting_view};
use crate::app_state::{CompanionMod, ModSetting};
use crate::text::{
    chars_equal, chars_of, string_of, string_of_range, trim, trim_bounds, upper, upper_chars,
};

verus! {

/// One element of tosu's modifier array.
#[derive(Clone, Debug)]
pub enum RawModEntry {
    /// A bare acronym.
    Acronym(String),
    /// An object; `acronym` is present when the object's `acronym` field is
    /// text, `settings` holds the entries of its `settings` object.
    Object { acronym: Option<String>, settings: Vec<ModSetting> },
    /// Any other JSON value.
    Other,
}

/// The modifiers tosu reports for a play.
#[derive(Clone, Debug, Default)]
pub struct RawMods {
    pub name: Option<String>,
    pub array: Vec<RawModEntry>,
}

/// The content of a list of settings.
pub type SettingsView = Seq<(Seq<char>, Seq<char>)>;

/// The content of one modifier.
pub type ModView = (Seq<char>, SettingsView);

/// Every character is ASCII (`str::is_ascii`).
pub open spec fn all_ascii(s: Seq<char>) -> bool {
    forall|i: int| 0 <= i < s.len() ==> #[trigger] s[i] <= '\u{7f}'
}

/// The content of a list of settings.
pub open spec fn settings_view(s: Seq<ModSetting>) -> SettingsView {
    s.map_values(|x: ModSetting| setting_view(x))
}

/// The acronym an array element names, if any.
pub open spec fn entry_acronym(e: RawModEntry) -> Option<Seq<char>> {
    match e {
        RawModEntry::Acronym(s) => Some(s@),
        RawModEntry::Object { acronym, .. } => match acronym {
            Some(a) => Some(a@),
            None => None,
        },
        RawModEntry::Other => None,
    }
}

/// The settings an array element carries.
pub open spec fn entry_settings(e: RawModEntry) -> SettingsView {
    match e {
        RawModEntry::Object { settings, .. } => settings_view(settings@),
        _ => Seq::empty(),
    }
}

/// Whether `key` is set in `s`, and where first.
pub open spec fn key_at(s: SettingsView, key: Seq<char>, i: int) -> bool {
    &&& 0 <= i < s.len()
    &&& s[i].0 == key
    &&& forall|j: int| 0 <= j < i ==> s[j].0 != key
}

/// `s` with `key` set to `value`: replaced where the key is set, appended otherwise.
pub open spec fn put_setting(s: SettingsView, key: Seq<char>, value: Seq<char>) -> SettingsView {
    if exists|i: int| key_at(s, key, i) {
        s.update(choose|i: int| key_at(s, key, i), (key, value))
    } else {
        s.push((key, value))
    }
}

/// `s` extended with `more`, later settings replacing earlier ones of the same key.
pub open spec fn extend_settings(s: SettingsView, more: SettingsView) -> SettingsView
    decreases more.len(),
{
    if more.len() == 0 {
        s
    } else {
        let earlier = extend_settings(s, more.drop_last());
        put_setting(earlier, more.last().0, more.last().1)
    }
}

/// Whether a modifier named `acronym` is listed in `ms`, and where first.
pub open spec fn mod_at(ms: Seq<ModView>, acronym: Seq<char>, i: int) -> bool {
    &&& 0 <= i < ms.len()
    &&& ms[i].0 == acronym
    &&& forall|j: int| 0 <= j < i ==> ms[j].0 != acronym
}

/// `ms` after the modifier `acronym` with `settings` is added: the acronym is
/// trimmed and upper-cased; an empty acronym and `NM` are ignored; a listed
/// modifier takes the settings over its own.
pub open spec fn put_mod(ms: Seq<ModView>, acronym: Seq<char>, settings: SettingsView) -> Seq<
    ModView,
> {
    let a = upper(trim(acronym));
    if a.len() == 0 || a == "NM"@ {
        ms
    } else if exists|i: int| mod_at(ms, a, i) {
        let i = choose|i: int| mod_at(ms, a, i);
        ms.update(i, (a, extend_settings(ms[i].1, settings)))
    } else {
        ms.push((a, settings))
    }
}

/// The modifiers that the first elements of the array describe.
pub open spec fn mods_of_entries(es: Seq<RawModEntry>) -> Seq<ModView>
    decreases es.len(),
{
    if es.len() == 0 {
        Seq::empty()
    } else {
        let earlier = mods_of_entries(es.drop_last());
        match entry_acronym(es.last()) {
            Some(a) => put_mod(earlier, a, entry_settings(es.last())),
            None => earlier,
        }
    }
}

/// The modifiers named by the first `n` two-letter chunks of `compact`.
pub open spec fn mods_of_chunks(ms: Seq<ModView>, compact: Seq<char>, n: nat) -> Seq<ModView>
    decreases n,
{
    if n == 0 {
        ms
    } else {
        put_mod(
            mods_of_chunks(ms, compact, (n - 1) as nat),
            compact.subrange(2 * (n - 1), 2 * n as int),
            Seq::empty(),
        )
    }
}

/// The modifiers of a play: those of the array, or, where the array names
/// none, those of the compact name split into two-letter acronyms (or the
/// whole name where it is not ASCII of even length).
pub open spec fn normalized_mods(raw: RawMods) -> Seq<ModView> {
    let from_array = mods_of_entries(raw.array@);
    if from_array.len() == 0 && raw.name is Some {
        let compact = trim(raw.name->0@);
        if all_ascii(compact) && compact.len() % 2 == 0 {
            mods_of_chunks(from_array, compact, compact.len() / 2)
        } else {
            put_mod(from_array, compact, Seq::empty())
        }
    } else {
        from_array
    }
}

fn find_setting(s: &Vec<ModSetting>, key: &Vec<char>) -> (r: Option<usize>)
    ensures
        match r {
            Some(i) => key_at(settings_view(s@), key@, i as int),
            None => !exists|i: int| key_at(settings_view(s@), key@, i),
        },
{
    let ghost v = settings_view(s@);
    let mut i: usize = 0;
    while i < s.len()
        invariant
            i <= s.len(),
            v == settings_view(s@),
            forall|j: int| 0 <= j < i ==> v[j].0 != key@,
        decreases s.len() - i,
    {
        if chars_equal(&chars_of(s[i].key.as_str()), key) {
            return Some(i);
        }
        i = i + 1;
    }
    None
}

/// Sets `key` to `value` in a list of settings.
fn set_setting(s: &mut Vec<ModSetting>, setting: ModSetting)
    ensures
        settings_view(final(s)@) == put_setting(
            settings_view(old(s)@),
            setting.key@,
            setting.value_json@,
        ),
{
    let ghost v = settings_view(old(s)@);
    let key = chars_of(setting.key.as_str());
    match find_setting(s, &key) {
        Some(i) => {
            proof {
                let c = choose|k: int| key_at(v, key@, k);
                assert(key_at(v, key@, c));
                if c < i {
                    assert(v[c].0 != key@);
                } else if c > i {
                    assert(v[i as int].0 != key@);
                }
            }
            s.set(i, setting);
            assert(settings_view(s@) =~= put_setting(
                v,
                key@,
                setting.value_json@,
            ));
        },
        None => {
            s.push(setting);
            assert(settings_view(s@) =~= put_setting(
                v,
                key@,
                setting.value_json@,
            ));
        },
    }
}

/// Extends a list of settings with more, later settings replacing earlier ones.
fn extend_with(s: &mut Vec<ModSetting>, more: &Vec<ModSetting>)
    ensures
        settings_view(final(s)@) == extend_settings(settings_view(old(s)@), settings_view(more@)),
{
    let ghost start = settings_view(old(s)@);
    let ghost mv = settings_view(more@);
    let mut j: usize = 0;
    while j < more.len()
        invariant
            j <= more.len(),
            mv == settings_view(more@),
            settings_view(s@) == extend_settings(start, mv.take(j as int)),
        decreases more.len() - j,
    {
        let item = ModSetting { key: more[j].key.clone(), value_json: more[j].value_json.clone() };
        proof {
            assert(mv.take(j + 1).drop_last() =~= mv.take(j as int));
            assert(mv.take(j + 1).last() == setting_view(item));
        }
        set_setting(s, item);
        j = j + 1;
    }
    assert(mv.take(mv.len() as int) =~= mv);
}

fn no_settings() -> (v: Vec<ModSetting>)
    ensures
        settings_view(v@) == Seq::<(Seq<char>, Seq<char>)>::empty(),
{
    let v: Vec<ModSetting> = Vec::new();
    assert(settings_view(v@) =~= Seq::<(Seq<char>, Seq<char>)>::empty());
    v
}

fn is_ascii_text(v: &Vec<char>) -> (r: bool)
    ensures
        r == all_ascii(v@),
{
    let mut i: usize = 0;
    while i < v.len()
        invariant
            i <= v.len(),
            forall|k: int| 0 <= k < i ==> #[trigger] v@[k] <= '\u{7f}',
        decreases v.len() - i,
    {
        if v[i] > '\u{7f}' {
            return false;
        }
        i = i + 1;
    }
    true
}

fn find_mod(ms: &Vec<CompanionMod>, acronym: &Vec<char>) -> (r: Option<usize>)
    ensures
        match r {
            Some(i) => mod_at(mods_view(ms@), acronym@, i as int),
            None => !exists|i: int| mod_at(mods_view(ms@), acronym@, i),
        },
{
    let mut i: usize = 0;
    while i < ms.len()
        invariant
            i <= ms.len(),
            forall|j: int| 0 <= j < i ==> mods_view(ms@)[j].0 != acronym@,
        decreases ms.len() - i,
    {
        if chars_equal(&chars_of(ms[i].acronym.as_str()), acronym) {
            return Some(i);
        }
        i = i + 1;
    }
    None
}

/// Adds the modifier `acronym` with `settings` to `mods` (see `put_mod`).
pub fn push_mod(mods: &mut Vec<CompanionMod>, acronym: &str, settings: Vec<ModSetting>)
    ensures
        mods_view(final(mods)@) == put_mod(
            mods_view(old(mods)@),
            acronym@,
            settings_view(settings@),
        ),
{
    let ghost sv = settings_view(settings@);
    let v = chars_of(acronym);
    let (a, b) = trim_bounds(&v);
    let mut t: Vec<char> = Vec::new();
    let mut k: usize = a;
    while k < b
        invariant
            a <= k <= b <= v.len(),
            t@ == v@.subrange(a as int, k as int),
        decreases b - k,
    {
        t.push(v[k]);
        k = k + 1;
        assert(t@ =~= v@.subrange(a as int, k as int));
    }
    let up = upper_chars(&t);
    if up.len() == 0 || chars_equal(&up, &chars_of("NM")) {
        return;
    }
    let ghost old_view = mods_view(mods@);
    match find_mod(mods, &up) {
        Some(i) => {
            proof {
                let c = choose|j: int| mod_at(old_view, up@, j);
                assert(mod_at(old_view, up@, c));
                if c < i {
                    assert(old_view[c].0 != up@);
                } else if c > i {
                    assert(old_view[i as int].0 != up@);
                }
            }
            let mut m = CompanionMod { acronym: String::new(), settings: Vec::new() };
            std::mem::swap(&mut m, &mut mods[i]);
            assert(mod_view(m) == old_view[i as int]);
            extend_with(&mut m.settings, &settings);
            mods.set(i, m);
            assert(mods_view(mods@) =~= put_mod(old_view, acronym@, sv));
        },
        None => {
            mods.push(CompanionMod { acronym: string_of(&up), settings });
            assert(mods_view(mods@) =~= put_mod(old_view, acronym@, sv));
        },
    }
}

/// The modifiers of a play (see `normalized_mods`).
pub fn normalize_mods(raw: &RawMods) -> (r: Vec<CompanionMod>)
    ensures
        mods_view(r@) == normalized_mods(*raw),
{
    let mut mods: Vec<CompanionMod> = Vec::new();
    let mut i: usize = 0;
    while i < raw.array.len()
        invariant
            i <= raw.array.len(),
            mods_view(mods@) == mods_of_entries(raw.array@.take(i as int)),
        decreases raw.array.len() - i,
    {
        let ghost prefix = raw.array@.take(i + 1);
        assert(prefix.drop_last() =~= raw.array@.take(i as int));
        match &raw.array[i] {
            RawModEntry::Acronym(a) => {
                push_mod(&mut mods, a.as_str(), no_settings());
            },
            RawModEntry::Object { acronym, settings } => match acronym {
                Some(a) => {
                    let mut copied: Vec<ModSetting> = Vec::new();
                    let mut j: usize = 0;
                    while j < settings.len()
                        invariant
                            j <= settings.len(),
                            copied@ == settings@.take(j as int),
                        decreases settings.len() - j,
                    {
                        copied.push(
                            ModSetting {
                                key: settings[j].key.clone(),
                                value_json: settings[j].value_json.clone(),
                            },
                        );
                        j = j + 1;
                        assert(copied@ =~= settings@.take(j as int));
                    }
                    assert(settings@.take(settings@.len() as int) =~= settings@);
                    push_mod(&mut mods, a.as_str(), copied);
                },
                None => {},
            },
            RawModEntry::Other => {},
        }
        i = i + 1;
    }
    assert(raw.array@.take(raw.array@.len() as int) =~= raw.array@);
    if mods.len() == 0 {
        if let Some(name) = &raw.name {
            let v = chars_of(name.as_str());
            let (a, b) = trim_bounds(&v);
            let compact = string_of_range(&v, a, b);
            let cv = chars_of(compact.as_str());
            if is_ascii_text(&cv) && cv.len() % 2 == 0 {
                let ghost base = mods_view(mods@);
                let mut n: usize = 0;
                while n < cv.len() / 2
                    invariant
                        cv@ == trim(name@),
                        n <= cv@.len() / 2,
                        mods_view(mods@) == mods_of_chunks(base, cv@, n as nat),
                    decreases cv.len() / 2 - n,
                {
                    let chunk = string_of_range(&cv, 2 * n, 2 * n + 2);
                    push_mod(&mut mods, chunk.as_str(), no_settings());
                    n = n + 1;
                }
            } else {
                push_mod(&mut mods, compact.as_str(), no_settings());
            }
        }
    }
    mods
}

} // verus!
