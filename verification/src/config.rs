use vstd::prelude::*;
use vstd::string::StrSliceExecFns;

verus! {

/// The language of the optional month names in directory names.
#[derive(Clone, Copy, Debug, PartialEq, Eq, Structural)]
pub enum Language {
    NoLanguage,
    English,
    Swedish,
}

/// A run's whole configuration: the two roots, which date sources to use,
/// the oldest accepted year, and how target directories are named.
pub struct Config {
    pub input: String,
    pub output: String,
    pub verbose: bool,
    pub name: bool,
    pub meta: bool,
    pub clean: bool,
    pub min_year: i32,
    pub year: bool,
    pub month: Language,
    pub flat: bool,
}

/// Which extractors a run uses, from the two command-line switches: each
/// switch alone restricts the run to that one source; given neither or
/// both, both sources are used.
pub fn effective_sources(name_switch: bool, meta_switch: bool) -> (r: (bool, bool))
    ensures
        r.0 == (!meta_switch || name_switch),
        r.1 == (!name_switch || meta_switch),
{
    (!meta_switch || name_switch, !name_switch || meta_switch)
}

pub open spec fn language_token_spec(s: Seq<char>) -> Option<Language> {
    if s == "en"@ {
        Some(Language::English)
    } else if s == "swe"@ {
        Some(Language::Swedish)
    } else {
        None
    }
}

/// Map a month-language command-line token onto its variant; anything but
/// the two known tokens is refused.
pub fn language_from_token(token: &str) -> (r: Option<Language>)
    ensures
        r == language_token_spec(token@),
{
    proof {
        reveal_strlit("en");
        reveal_strlit("swe");
    }
    let n = token.unicode_len();
    if n == 2 && token.get_char(0) == 'e' && token.get_char(1) == 'n' {
        proof {
            assert(token@ =~= "en"@);
        }
        Some(Language::English)
    } else if n == 3 && token.get_char(0) == 's' && token.get_char(1) == 'w' && token.get_char(2)
        == 'e' {
        proof {
            assert(token@ =~= "swe"@);
        }
        Some(Language::Swedish)
    } else {
        None
    }
}

/// The traversal filter: an entry whose base name begins with `.` is hidden
/// and skipped.
pub fn name_is_not_hidden(name: &str) -> (r: bool)
    ensures
        r == !(name@.len() > 0 && name@[0] == '.'),
{
    let n = name.unicode_len();
    if n == 0 {
        true
    } else {
        name.get_char(0) != '.'
    }
}

} // verus!
