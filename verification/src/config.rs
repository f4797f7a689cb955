//! Hotkey and language configuration: the hotkey shape (a modifier
//! combination or a repeated key), its validation and display rendering, and
//! the language list the translator chooses targets from.

use vstd::prelude::*;
use crate::textops::{str_eq, to_upper, upper_of, u64_to_string, spec_decimal};

verus! {

/// A configured hotkey: either a chord of modifiers plus one key, or a key
/// pressed several times in a row.
#[derive(Debug, Clone)]
pub enum Hotkey {
    /// A modifier-plus-key chord, registered as an OS global shortcut.
    Combination {
        /// Modifier names: `Meta`, `Control`, `Alt`, `Shift`.
        modifiers: Vec<String>,
        /// The main key.
        key: String,
    },
    /// The same key pressed `count` times in a row, recognized by the raw
    /// key listener.
    Consecutive {
        /// The repeated key.
        key: String,
        /// How many presses trigger.
        count: u8,
    },
}

/// A combination with at least one modifier is valid for selection mode;
/// a consecutive gesture never is.
pub open spec fn spec_validate_for_selected_mode(h: Hotkey) -> bool {
    match h {
        Hotkey::Combination { modifiers, .. } => modifiers@.len() > 0,
        Hotkey::Consecutive { .. } => false,
    }
}

/// The display name of one modifier.
pub open spec fn spec_display_mod(m: Seq<char>) -> Seq<char> {
    if m == "Meta"@ {
        "Cmd"@
    } else if m == "Control"@ {
        "Ctrl"@
    } else if m == "Alt"@ {
        "Option"@
    } else {
        m
    }
}

/// The modifier display names joined with `" + "`.
pub open spec fn spec_mods_joined(mods: Seq<String>) -> Seq<char>
    decreases mods.len(),
{
    if mods.len() == 0 {
        Seq::empty()
    } else if mods.len() == 1 {
        spec_display_mod(mods[0]@)
    } else {
        spec_mods_joined(mods.drop_last()) + " + "@ + spec_display_mod(mods.last()@)
    }
}

/// The display rendering of a hotkey: joined modifiers plus the uppercased
/// key, or the uppercased key name times the press count.
pub open spec fn spec_format(h: Hotkey) -> Seq<char> {
    match h {
        Hotkey::Combination { modifiers, key } => spec_mods_joined(modifiers@) + " + "@
            + upper_of(key@),
        Hotkey::Consecutive { key, count } => upper_of(
            if key@ == " "@ {
                "Space"@
            } else {
                key@
            },
        ) + " × "@ + spec_decimal(count as int),
    }
}

/// The display name of one modifier: `Meta` shows as `Cmd`, `Control` as
/// `Ctrl`, `Alt` as `Option`, anything else as itself.
fn display_mod(m: &String) -> (r: &str)
    ensures
        r@ == spec_display_mod(m@),
{
    if str_eq(m.as_str(), "Meta") {
        "Cmd"
    } else if str_eq(m.as_str(), "Control") {
        "Ctrl"
    } else if str_eq(m.as_str(), "Alt") {
        "Option"
    } else {
        m.as_str()
    }
}

impl Hotkey {
    /// Whether this hotkey may drive selection mode: it must be a
    /// combination with at least one modifier.
    pub fn validate_for_selected_mode(&self) -> (r: bool)
        ensures
            r == spec_validate_for_selected_mode(*self),
    {
        match self {
            Hotkey::Combination { modifiers, .. } => modifiers.len() > 0,
            Hotkey::Consecutive { .. } => false,
        }
    }

    /// Renders the hotkey for display.
    pub fn format(&self) -> (r: String)
        ensures
            r@ == spec_format(*self),
    {
        match self {
            Hotkey::Combination { modifiers, key } => {
                let mut s = String::new();
                let mut i: usize = 0;
                while i < modifiers.len()
                    invariant
                        0 <= i <= modifiers@.len(),
                        s@ == spec_mods_joined(modifiers@.take(i as int)),
                    decreases modifiers@.len() - i,
                {
                    if i > 0 {
                        s.append(" + ");
                    }
                    s.append(display_mod(&modifiers[i]));
                    proof {
                        let m = modifiers@;
                        assert(m.take(i + 1 as int).drop_last() =~= m.take(i as int));
                        assert(m.take(i + 1 as int).last() == m[i as int]);
                        if i == 0 {
                            assert(s@ =~= spec_mods_joined(m.take(i + 1 as int)));
                        }
                    }
                    i += 1;
                }
                proof {
                    assert(modifiers@.take(modifiers@.len() as int) =~= modifiers@);
                }
                s.append(" + ");
                let u = to_upper(key.as_str());
                s.append(u.as_str());
                s
            },
            Hotkey::Consecutive { key, count } => {
                let mut s = if str_eq(key.as_str(), " ") {
                    to_upper("Space")
                } else {
                    to_upper(key.as_str())
                };
                s.append(" × ");
                let d = u64_to_string(*count as u64);
                s.append(d.as_str());
                s
            },
        }
    }
}

/// The pair of hotkeys the pipeline listens for.
#[derive(Debug, Clone)]
pub struct HotkeyConfig {
    /// Hotkey of selection mode: translate the current selection.
    pub selected_mode: Hotkey,
    /// Hotkey of full mode: select everything, then translate.
    pub full_mode: Hotkey,
}

impl Default for HotkeyConfig {
    /// Control-K for selection mode and Control-J for full mode: plain
    /// combinations, so no raw input-monitoring permission is needed.
    fn default() -> (r: Self)
        ensures
            r.selected_mode matches Hotkey::Combination { modifiers, key } && modifiers@.len()
                == 1 && modifiers@[0]@ == "Control"@ && key@ == "k"@,
            r.full_mode matches Hotkey::Combination { modifiers, key } && modifiers@.len()
                == 1 && modifiers@[0]@ == "Control"@ && key@ == "j"@,
    {
        let mut m1: Vec<String> = Vec::new();
        m1.push(String::from_str("Control"));
        let mut m2: Vec<String> = Vec::new();
        m2.push(String::from_str("Control"));
        HotkeyConfig {
            selected_mode: Hotkey::Combination { modifiers: m1, key: String::from_str("k") },
            full_mode: Hotkey::Combination { modifiers: m2, key: String::from_str("j") },
        }
    }
}

/// One selectable target language.
#[derive(Debug, Clone)]
pub struct Language {
    /// Language code, such as `en-US`.
    pub code: String,
    /// Display name, such as `English`.
    pub name: String,
}

/// A language with the given code and name.
fn lang(code: &str, name: &str) -> (r: Language)
    ensures
        r.code@ == code@,
        r.name@ == name@,
{
    Language { code: String::from_str(code), name: String::from_str(name) }
}

/// The translation language configuration: the current target and the list
/// offered in the menu.
#[derive(Debug, Clone)]
pub struct LanguageConfig {
    /// Code of the current target language.
    pub current_target: String,
    /// The languages offered for quick switching.
    pub favorite_languages: Vec<Language>,
}

impl Default for LanguageConfig {
    /// United States English as the target, with six common languages on
    /// the quick-switch list.
    fn default() -> (r: Self)
        ensures
            r.current_target@ == "en-US"@,
            r.favorite_languages@.len() == 6,
            r.favorite_languages@[0].code@ == "en-US"@ && r.favorite_languages@[0].name@
                == "English"@,
            r.favorite_languages@[1].code@ == "zh-CN"@ && r.favorite_languages@[1].name@
                == "简体中文"@,
            r.favorite_languages@[2].code@ == "ja-JP"@ && r.favorite_languages@[2].name@
                == "日本語"@,
            r.favorite_languages@[3].code@ == "ko-KR"@ && r.favorite_languages@[3].name@
                == "한국어"@,
            r.favorite_languages@[4].code@ == "fr-FR"@ && r.favorite_languages@[4].name@
                == "Français"@,
            r.favorite_languages@[5].code@ == "es-ES"@ && r.favorite_languages@[5].name@
                == "Español"@,
    {
        let mut favorites: Vec<Language> = Vec::new();
        favorites.push(lang("en-US", "English"));
        favorites.push(lang("zh-CN", "简体中文"));
        favorites.push(lang("ja-JP", "日本語"));
        favorites.push(lang("ko-KR", "한국어"));
        favorites.push(lang("fr-FR", "Français"));
        favorites.push(lang("es-ES", "Español"));
        LanguageConfig {
            current_target: String::from_str("en-US"),
            favorite_languages: favorites,
        }
    }
}

} // verus!
