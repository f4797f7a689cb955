//! Hotkey management: the consecutive-press recognizer the hotkey manager
//! runs, conflict detection against the system's own shortcuts, the
//! decoding of a system hotkey entry, and the normalization of a hotkey
//! into what the global-shortcut binder accepts.

use vstd::prelude::*;
use vstd::seq_lib::group_to_multiset_ensures;
use vstd::multiset::group_multiset_axioms;
use vstd::multiset::Multiset;
use crate::config::Hotkey;
use crate::key_listener::ConsecutiveState;
use crate::key_listener::gesture_step;
use crate::key_listener::initial_state;
use crate::key_listener::spec_step;
use crate::key_listener::state_wf;
use crate::textops::str_eq;
use crate::textops::to_lower;
use crate::textops::lower_of;
use crate::textops::u64_to_string;
use crate::textops::spec_decimal;

verus! {

/// Largest allowed gap between presses of a consecutive hotkey, in
/// milliseconds.
pub const CONSECUTIVE_INTERVAL_MS: u64 = 500;

/// The hotkey manager: the state of the consecutive-press run it tracks.
#[derive(Debug)]
pub struct HotkeyManager {
    /// The consecutive-press run.
    pub consecutive_state: ConsecutiveState,
}

impl HotkeyManager {
    /// A manager with an empty run.
    pub fn new() -> (r: Self)
        ensures
            r.consecutive_state == initial_state(),
    {
        HotkeyManager { consecutive_state: ConsecutiveState::default() }
    }

    /// Feeds one key press: reports whether it completes the consecutive
    /// hotkey `target`.  Any other kind of hotkey never triggers here and
    /// leaves the run untouched.
    pub fn check_consecutive(&mut self, key: &str, now_ms: u64, target: &Hotkey) -> (fired:
        bool)
        requires
            state_wf(old(self).consecutive_state),
        ensures
            state_wf(final(self).consecutive_state),
            target matches Hotkey::Consecutive { key: tk, count } ==> ((
            final(self).consecutive_state,
            fired,
            ) == spec_step(
                old(self).consecutive_state,
                tk@,
                *count,
                CONSECUTIVE_INTERVAL_MS,
                key@,
                now_ms,
            )),
            target matches Hotkey::Combination { .. } ==> !fired && *final(self)
                == *old(self),
    {
        match target {
            Hotkey::Consecutive { key: tkey, count } => gesture_step(
                &mut self.consecutive_state,
                tkey.as_str(),
                *count,
                CONSECUTIVE_INTERVAL_MS,
                key,
                now_ms,
            ),
            _ => false,
        }
    }

    /// Abandons the current consecutive-press run.
    pub fn reset_consecutive(&mut self)
        ensures
            final(self).consecutive_state == initial_state(),
    {
        self.consecutive_state = ConsecutiveState::default();
    }
}

/// One of the operating system's own shortcuts, for conflict detection.
#[derive(Debug, Clone)]
pub struct SystemHotkey {
    /// Display name of the shortcut.
    pub name: String,
    /// Its modifier names.
    pub modifiers: Vec<String>,
    /// Its key.
    pub key: String,
}

/// The views of a modifier list, case-folded.
pub open spec fn lowered_views(mods: Seq<String>) -> Seq<Seq<char>> {
    mods.map_values(|m: String| lower_of(m@))
}

/// Two hotkeys clash when their keys fold to the same characters and their
/// modifier sets, case-folded, are the same multiset.
pub open spec fn spec_hotkeys_match(
    mods1: Seq<String>,
    key1: Seq<char>,
    mods2: Seq<String>,
    key2: Seq<char>,
) -> bool {
    &&& lower_of(key1) == lower_of(key2)
    &&& lowered_views(mods1).to_multiset() == lowered_views(mods2).to_multiset()
}

/// Counts the entries of `mods` whose case-folded view is the view of
/// `needle` (itself already folded).
#[verifier::loop_isolation(false)]
fn count_lowered(mods: &Vec<String>, needle: &str) -> (c: usize)
    ensures
        c == lowered_views(mods@).to_multiset().count(needle@),
{
    broadcast use group_to_multiset_ensures, group_multiset_axioms;

    let ghost lv = lowered_views(mods@);
    let mut c: usize = 0;
    let mut j: usize = 0;
    proof {
        assert(lv.take(0) =~= Seq::<Seq<char>>::empty());
        assert(lv.take(0).to_multiset() =~= Multiset::<Seq<char>>::empty());
    }
    while j < mods.len()
        invariant
            0 <= j <= mods@.len(),
            c <= j,
            lv == lowered_views(mods@),
            lv.len() == mods@.len(),
            c == lv.take(j as int).to_multiset().count(needle@),
        decreases mods@.len() - j,
    {
        let lj = to_lower(mods[j].as_str());
        let hit = str_eq(lj.as_str(), needle);
        proof {
            assert(lv[j as int] == lower_of(mods@[j as int]@));
            assert(lv.take(j + 1 as int) =~= lv.take(j as int).push(lv[j as int]));
            assert(lv.take(j as int).push(lv[j as int]).to_multiset() =~= lv.take(
                j as int,
            ).to_multiset().insert(lv[j as int]));
            if hit {
                vstd::multiset::lemma_insert_increases_count_by_1(
                    lv.take(j as int).to_multiset(),
                    lv[j as int],
                );
            } else {
                vstd::multiset::lemma_insert_other_elements_unchanged(
                    lv.take(j as int).to_multiset(),
                    lv[j as int],
                    needle@,
                );
            }
        }
        if hit {
            c += 1;
        }
        j += 1;
    }
    proof {
        assert(lv.take(mods@.len() as int) =~= lv);
    }
    c
}

/// Whether two hotkeys clash: keys equal and modifier multisets equal,
/// everything case-folded.
#[verifier::loop_isolation(false)]
pub fn hotkeys_match(mods1: &Vec<String>, key1: &str, mods2: &Vec<String>, key2: &str) -> (r:
    bool)
    ensures
        r == spec_hotkeys_match(mods1@, key1@, mods2@, key2@),
{
    broadcast use group_to_multiset_ensures, group_multiset_axioms;

    let k1 = to_lower(key1);
    let k2 = to_lower(key2);
    if !str_eq(k1.as_str(), k2.as_str()) {
        return false;
    }
    let ghost la = lowered_views(mods1@);
    let ghost lb = lowered_views(mods2@);
    if mods1.len() != mods2.len() {
        proof {
            assert(la.to_multiset().len() != lb.to_multiset().len());
        }
        return false;
    }
    let mut i: usize = 0;
    while i < mods1.len()
        invariant
            0 <= i <= mods1@.len(),
            la == lowered_views(mods1@),
            lb == lowered_views(mods2@),
            forall|k: int|
                0 <= k < i ==> la.to_multiset().count(#[trigger] la[k]) == lb.to_multiset().count(
                    la[k],
                ),
        decreases mods1@.len() - i,
    {
        let li = to_lower(mods1[i].as_str());
        proof {
            assert(la[i as int] == lower_of(mods1@[i as int]@));
        }
        let c1 = count_lowered(mods1, li.as_str());
        let c2 = count_lowered(mods2, li.as_str());
        if c1 != c2 {
            proof {
                assert(la.to_multiset().count(la[i as int]) != lb.to_multiset().count(
                    la[i as int],
                ));
            }
            return false;
        }
        i += 1;
    }
    let mut i2: usize = 0;
    while i2 < mods2.len()
        invariant
            0 <= i2 <= mods2@.len(),
            la == lowered_views(mods1@),
            lb == lowered_views(mods2@),
            forall|k: int|
                0 <= k < la.len() ==> la.to_multiset().count(#[trigger] la[k])
                    == lb.to_multiset().count(la[k]),
            forall|k: int|
                0 <= k < i2 ==> la.to_multiset().count(#[trigger] lb[k]) == lb.to_multiset().count(
                    lb[k],
                ),
        decreases mods2@.len() - i2,
    {
        let li = to_lower(mods2[i2].as_str());
        proof {
            assert(lb[i2 as int] == lower_of(mods2@[i2 as int]@));
        }
        let c1 = count_lowered(mods1, li.as_str());
        let c2 = count_lowered(mods2, li.as_str());
        if c1 != c2 {
            proof {
                assert(la.to_multiset().count(lb[i2 as int]) != lb.to_multiset().count(
                    lb[i2 as int],
                ));
            }
            return false;
        }
        i2 += 1;
    }
    proof {
        assert forall|x: Seq<char>| la.to_multiset().count(x) == lb.to_multiset().count(x) by {
            if la.to_multiset().count(x) > 0 {
                assert(la.contains(x));
                let k = choose|k: int| 0 <= k < la.len() && la[k] == x;
                assert(la.to_multiset().count(la[k]) == lb.to_multiset().count(la[k]));
            } else if lb.to_multiset().count(x) > 0 {
                assert(lb.contains(x));
                let k = choose|k: int| 0 <= k < lb.len() && lb[k] == x;
                assert(la.to_multiset().count(lb[k]) == lb.to_multiset().count(lb[k]));
            }
        }
        assert(la.to_multiset() =~= lb.to_multiset());
    }
    true
}

/// The display name of a system key code: the handful of named keys the
/// conflict table uses, or `key_` followed by the code.
pub open spec fn spec_keycode_name(k: u32) -> Seq<char> {
    if k == 49 {
        " "@
    } else if k == 36 {
        "Return"@
    } else if k == 48 {
        "Tab"@
    } else if k == 51 {
        "Delete"@
    } else if k == 53 {
        "Escape"@
    } else if k == 0 {
        "a"@
    } else if k == 1 {
        "s"@
    } else if k == 2 {
        "d"@
    } else if k == 3 {
        "f"@
    } else if k == 4 {
        "h"@
    } else if k == 5 {
        "g"@
    } else if k == 6 {
        "z"@
    } else if k == 7 {
        "x"@
    } else if k == 8 {
        "c"@
    } else if k == 9 {
        "v"@
    } else if k == 11 {
        "b"@
    } else if k == 12 {
        "q"@
    } else if k == 13 {
        "w"@
    } else if k == 14 {
        "e"@
    } else if k == 15 {
        "r"@
    } else if k == 16 {
        "y"@
    } else if k == 17 {
        "t"@
    } else {
        "key_"@ + spec_decimal(k as int)
    }
}

/// Renders a system key code as the key name the conflict table uses.
pub fn keycode_to_string(keycode: u32) -> (r: String)
    ensures
        r@ == spec_keycode_name(keycode),
{
    if keycode == 49 {
        String::from_str(" ")
    } else if keycode == 36 {
        String::from_str("Return")
    } else if keycode == 48 {
        String::from_str("Tab")
    } else if keycode == 51 {
        String::from_str("Delete")
    } else if keycode == 53 {
        String::from_str("Escape")
    } else if keycode == 0 {
        String::from_str("a")
    } else if keycode == 1 {
        String::from_str("s")
    } else if keycode == 2 {
        String::from_str("d")
    } else if keycode == 3 {
        String::from_str("f")
    } else if keycode == 4 {
        String::from_str("h")
    } else if keycode == 5 {
        String::from_str("g")
    } else if keycode == 6 {
        String::from_str("z")
    } else if keycode == 7 {
        String::from_str("x")
    } else if keycode == 8 {
        String::from_str("c")
    } else if keycode == 9 {
        String::from_str("v")
    } else if keycode == 11 {
        String::from_str("b")
    } else if keycode == 12 {
        String::from_str("q")
    } else if keycode == 13 {
        String::from_str("w")
    } else if keycode == 14 {
        String::from_str("e")
    } else if keycode == 15 {
        String::from_str("r")
    } else if keycode == 16 {
        String::from_str("y")
    } else if keycode == 17 {
        String::from_str("t")
    } else {
        let mut s = String::from_str("key_");
        let d = u64_to_string(keycode as u64);
        s.append(d.as_str());
        s
    }
}

/// The modifier names a system hotkey's flag word encodes, in the fixed
/// order shift, control, alt, meta.
pub open spec fn spec_modifier_names(flags: u32) -> Seq<Seq<char>> {
    (if flags & (1u32 << 17) != 0 {
        seq!["Shift"@]
    } else {
        Seq::<Seq<char>>::empty()
    }) + (if flags & (1u32 << 18) != 0 {
        seq!["Control"@]
    } else {
        Seq::<Seq<char>>::empty()
    }) + (if flags & (1u32 << 19) != 0 {
        seq!["Alt"@]
    } else {
        Seq::<Seq<char>>::empty()
    }) + (if flags & (1u32 << 20) != 0 {
        seq!["Meta"@]
    } else {
        Seq::<Seq<char>>::empty()
    })
}

/// Decodes one entry of the system's shortcut table, already unpacked into
/// plain values by the caller: a disabled entry yields nothing; otherwise
/// the display name carries the entry's identifier, the modifiers come from
/// the flag word, and the key from the key code.
pub fn parse_hotkey_entry(id: &str, enabled: bool, key_code: u32, modifier_flags: u32) -> (r:
    Option<SystemHotkey>)
    ensures
        !enabled ==> r is None,
        enabled ==> (r matches Some(h) && h.name@ == "系统快捷键 #"@ + id@
            && h.modifiers@.map_values(|m: String| m@) == spec_modifier_names(modifier_flags)
            && h.key@ == spec_keycode_name(key_code)),
{
    if !enabled {
        return None;
    }
    let mut modifiers: Vec<String> = Vec::new();
    if modifier_flags & (1u32 << 17) != 0 {
        modifiers.push(String::from_str("Shift"));
    }
    if modifier_flags & (1u32 << 18) != 0 {
        modifiers.push(String::from_str("Control"));
    }
    if modifier_flags & (1u32 << 19) != 0 {
        modifiers.push(String::from_str("Alt"));
    }
    if modifier_flags & (1u32 << 20) != 0 {
        modifiers.push(String::from_str("Meta"));
    }
    proof {
        assert(modifiers@.map_values(|m: String| m@) =~= spec_modifier_names(modifier_flags));
    }
    let key = keycode_to_string(key_code);
    let mut name = String::from_str("系统快捷键 #");
    name.append(id);
    Some(SystemHotkey { name, modifiers, key })
}

/// A fixed system hotkey with one modifier.
fn sys1(name: &str, m1: &str, key: &str) -> (r: SystemHotkey)
    ensures
        r.name@ == name@,
        r.modifiers@.len() == 1,
        r.modifiers@[0]@ == m1@,
        r.key@ == key@,
{
    let mut mods: Vec<String> = Vec::new();
    mods.push(String::from_str(m1));
    SystemHotkey { name: String::from_str(name), modifiers: mods, key: String::from_str(key) }
}

/// A fixed system hotkey with two modifiers.
fn sys2(name: &str, m1: &str, m2: &str, key: &str) -> (r: SystemHotkey)
    ensures
        r.name@ == name@,
        r.modifiers@.len() == 2,
        r.modifiers@[0]@ == m1@,
        r.modifiers@[1]@ == m2@,
        r.key@ == key@,
{
    let mut mods: Vec<String> = Vec::new();
    mods.push(String::from_str(m1));
    mods.push(String::from_str(m2));
    SystemHotkey { name: String::from_str(name), modifiers: mods, key: String::from_str(key) }
}

/// The well-known shortcuts every system carries, checked even when the
/// system's own table cannot be read: the two Spotlight chords and the
/// three screenshot chords.
pub fn builtin_system_hotkeys() -> (r: Vec<SystemHotkey>)
    ensures
        r@.len() == 5,
        r@[0].name@ == "Spotlight"@ && r@[0].modifiers@.len() == 1 && r@[0].modifiers@[0]@
            == "Meta"@ && r@[0].key@ == " "@,
        r@[1].name@ == "Spotlight"@ && r@[1].modifiers@.len() == 2 && r@[1].modifiers@[0]@
            == "Meta"@ && r@[1].modifiers@[1]@ == "Alt"@ && r@[1].key@ == " "@,
        r@[2].name@ == "截图"@ && r@[2].modifiers@.len() == 2 && r@[2].modifiers@[0]@
            == "Meta"@ && r@[2].modifiers@[1]@ == "Shift"@ && r@[2].key@ == "3"@,
        r@[3].name@ == "截图"@ && r@[3].modifiers@.len() == 2 && r@[3].modifiers@[0]@
            == "Meta"@ && r@[3].modifiers@[1]@ == "Shift"@ && r@[3].key@ == "4"@,
        r@[4].name@ == "截图"@ && r@[4].modifiers@.len() == 2 && r@[4].modifiers@[0]@
            == "Meta"@ && r@[4].modifiers@[1]@ == "Shift"@ && r@[4].key@ == "5"@,
{
    let mut v: Vec<SystemHotkey> = Vec::new();
    v.push(sys1("Spotlight", "Meta", " "));
    v.push(sys2("Spotlight", "Meta", "Alt", " "));
    v.push(sys2("截图", "Meta", "Shift", "3"));
    v.push(sys2("截图", "Meta", "Shift", "4"));
    v.push(sys2("截图", "Meta", "Shift", "5"));
    v
}

/// The conflict names: out of `entries`, in table order, the display names
/// of those that clash with the combination of `mods` and `key`.
pub open spec fn spec_conflict_names(
    entries: Seq<SystemHotkey>,
    mods: Seq<String>,
    key: Seq<char>,
) -> Seq<Seq<char>>
    decreases entries.len(),
{
    if entries.len() == 0 {
        Seq::empty()
    } else {
        let prefix = spec_conflict_names(entries.drop_last(), mods, key);
        if spec_hotkeys_match(entries.last().modifiers@, entries.last().key@, mods, key) {
            prefix.push(entries.last().name@)
        } else {
            prefix
        }
    }
}

/// The names out of `system_hotkeys` that a combination hotkey clashes
/// with, in table order; a consecutive hotkey clashes with nothing.
#[verifier::loop_isolation(false)]
pub fn check_system_conflicts(hotkey: &Hotkey, system_hotkeys: &Vec<SystemHotkey>) -> (r: Vec<
    String>)
    ensures
        hotkey matches Hotkey::Consecutive { .. } ==> r@.len() == 0,
        hotkey matches Hotkey::Combination { modifiers, key } ==> r@.map_values(
            |n: String| n@,
        ) == spec_conflict_names(system_hotkeys@, modifiers@, key@),
{
    match hotkey {
        Hotkey::Consecutive { .. } => Vec::new(),
        Hotkey::Combination { modifiers, key } => {
            let mut conflicts: Vec<String> = Vec::new();
            let mut i: usize = 0;
            proof {
                assert(system_hotkeys@.take(0) =~= Seq::<SystemHotkey>::empty());
                assert(conflicts@.map_values(|n: String| n@) =~= spec_conflict_names(
                    system_hotkeys@.take(0),
                    modifiers@,
                    key@,
                ));
            }
            while i < system_hotkeys.len()
                invariant
                    0 <= i <= system_hotkeys@.len(),
                    conflicts@.map_values(|n: String| n@) == spec_conflict_names(
                        system_hotkeys@.take(i as int),
                        modifiers@,
                        key@,
                    ),
                decreases system_hotkeys@.len() - i,
            {
                let entry = &system_hotkeys[i];
                proof {
                    assert(system_hotkeys@.take(i + 1 as int).drop_last()
                        =~= system_hotkeys@.take(i as int));
                    assert(system_hotkeys@.take(i + 1 as int).last()
                        == system_hotkeys@[i as int]);
                }
                let clash = hotkeys_match(
                    &entry.modifiers,
                    entry.key.as_str(),
                    modifiers,
                    key.as_str(),
                );
                if clash {
                    conflicts.push(entry.name.clone());
                }
                proof {
                    assert(conflicts@.map_values(|n: String| n@) =~= spec_conflict_names(
                        system_hotkeys@.take(i + 1 as int),
                        modifiers@,
                        key@,
                    ));
                }
                i += 1;
            }
            proof {
                assert(system_hotkeys@.take(system_hotkeys@.len() as int) =~= system_hotkeys@);
            }
            conflicts
        },
    }
}

/// The key token a global shortcut can bind, from a case-folded key name:
/// a single letter or the space character stands for itself, the word
/// `space` stands for the space character, and anything else is
/// unsupported.
pub open spec fn spec_shortcut_token(l: Seq<char>) -> Option<Seq<char>> {
    if l.len() == 1 && (('a' <= l[0] && l[0] <= 'z') || l[0] == ' ') {
        Some(l)
    } else if l == "space"@ {
        Some(" "@)
    } else {
        None
    }
}

/// The bindable key token of a hotkey: a combination's key, folded and
/// normalized, when the binder supports it; nothing for unsupported keys
/// and for consecutive hotkeys, which the raw listener handles instead.
pub fn shortcut_key_for(hotkey: &Hotkey) -> (r: Option<String>)
    ensures
        hotkey matches Hotkey::Consecutive { .. } ==> r is None,
        hotkey matches Hotkey::Combination { key, .. } ==> (match spec_shortcut_token(
            lower_of(key@),
        ) {
            Some(t) => r matches Some(s) && s@ == t,
            None => r is None,
        }),
{
    match hotkey {
        Hotkey::Consecutive { .. } => None,
        Hotkey::Combination { key, .. } => {
            proof {
                reveal_strlit("space");
            }
            let lower = to_lower(key.as_str());
            let llen = lower.as_str().unicode_len();
            if llen == 1 {
                let c = lower.as_str().get_char(0);
                if ('a' <= c && c <= 'z') || c == ' ' {
                    Some(lower)
                } else {
                    None
                }
            } else if str_eq(lower.as_str(), "space") {
                Some(String::from_str(" "))
            } else {
                None
            }
        },
    }
}

} // verus!
