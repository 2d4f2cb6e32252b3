use vstd::prelude::*;
use vstd::string::StringExecFns;

verus! {

/// File name of the persisted settings, relative to the program's directory.
pub fn get_config_path() -> (r: &'static str)
    ensures
        r@ == "config.json"@,
{
    "config.json"
}

/// User settings: an optional voice name, whether to start with the session,
/// and an optional language code (none means: follow the system).
#[derive(Debug, Clone)]
pub struct Config {
    pub custom_voice: Option<String>,
    pub auto_start: bool,
    pub language: Option<String>,
}

impl Default for Config {
    fn default() -> (r: Config)
        ensures
            r.custom_voice is None,
            !r.auto_start,
            r.language is None,
    {
        Config { custom_voice: None, auto_start: false, language: None }
    }
}

/// The view of an optional string.
pub open spec fn opt_view(s: Option<String>) -> Option<Seq<char>> {
    match s {
        Some(t) => Some(t@),
        None => None,
    }
}

/// The language offered at a position of the settings list: English,
/// Simplified Chinese, Japanese.
pub open spec fn language_code_at(index: int) -> Option<Seq<char>> {
    if index == 0 {
        Some("en"@)
    } else if index == 1 {
        Some("zh"@)
    } else if index == 2 {
        Some("ja"@)
    } else {
        None
    }
}

/// Number of languages offered.
pub const LANGUAGE_COUNT: usize = 3;

/// The language code at a position of the settings list.
pub fn language_code(index: usize) -> (r: Option<&'static str>)
    ensures
        r is Some <==> index < LANGUAGE_COUNT,
        r matches Some(c) ==> Some(c@) == language_code_at(index as int),
{
    match index {
        0 => Some("en"),
        1 => Some("zh"),
        2 => Some("ja"),
        _ => None,
    }
}

/// The position of the configured language in the settings list; the first
/// entry when none is configured or it is not offered.
pub fn language_index(language: &Option<String>) -> (r: usize)
    ensures
        r < LANGUAGE_COUNT,
        opt_view(*language) == language_code_at(r as int) || (r == 0 && forall|k: int|
            0 <= k < LANGUAGE_COUNT ==> opt_view(*language) != language_code_at(k)),
{
    match language {
        None => 0,
        Some(l) => {
            let mut i: usize = 0;
            while i < LANGUAGE_COUNT
                invariant
                    i <= LANGUAGE_COUNT,
                    opt_view(*language) == Some(l@),
                    forall|k: int| 0 <= k < i ==> Some(l@) != language_code_at(k),
                decreases LANGUAGE_COUNT - i,
            {
                let found = language_code(i);
                let code = found.unwrap();
                assert(Some(code@) == language_code_at(i as int));
                let c = String::from_str(code);
                if *l == c {
                    return i;
                }
                i = i + 1;
            }
            0
        },
    }
}

impl Config {
    /// Takes the choices made in the settings dialog: a language (none when
    /// nothing is selected), a voice, and the autostart flag. Returns whether
    /// the language changed, in which case the texts must be reloaded.
    pub fn apply_settings(&mut self, language: Option<&str>, voice: Option<String>, auto_start: bool) -> (changed: bool)
        ensures
            changed == (language is Some && opt_view(old(self).language) != Some(language->0@)),
            changed ==> opt_view(final(self).language) == Some(language->0@),
            !changed ==> final(self).language == old(self).language,
            final(self).custom_voice == voice,
            final(self).auto_start == auto_start,
    {
        let changed = match language {
            None => false,
            Some(code) => {
                let c = String::from_str(code);
                let differs = match &self.language {
                    Some(l) => !(*l == c),
                    None => true,
                };
                if differs {
                    self.language = Some(c);
                }
                differs
            },
        };
        self.custom_voice = voice;
        self.auto_start = auto_start;
        changed
    }
}

} // verus!
