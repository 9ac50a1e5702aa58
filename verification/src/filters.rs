//! Phonological classifiers: vowels, skerping clusters, and the dash
//! placeholders used in templated endings.

use vstd::prelude::*;

verus! {

/// The closed set of vowel characters, accented variants included.
pub open spec fn spec_is_vowel(c: char) -> bool {
    ||| c == 'a' || c == 'e' || c == 'i' || c == 'y' || c == 'o' || c == 'u' || c == 'ø'
    ||| c == 'á' || c == 'æ' || c == 'í' || c == 'ý' || c == 'ó' || c == 'ú'
}

pub fn is_vowel(c: char) -> (r: bool)
    ensures
        r == spec_is_vowel(c),
{
    match c {
        'a' | 'e' | 'i' | 'y' | 'o' | 'u' | 'ø' => true,
        'á' | 'æ' | 'í' | 'ý' | 'ó' | 'ú' => true,
        _ => false,
    }
}

/// The consonant cluster a skerping-marked root inserts after a stem
/// ending in the given vowel, when one exists.
pub open spec fn spec_skerping(vowel: char) -> Option<Seq<char>> {
    if vowel == 'ó' || vowel == 'ú' {
        Some("gv"@)
    } else if vowel == 'í' || vowel == 'ý' || vowel == 'y' || vowel == 'i' {
        Some("ggj"@)
    } else {
        None
    }
}

pub fn skerping(vowel: char) -> (r: Option<&'static str>)
    ensures
        match r {
            Some(s) => spec_skerping(vowel) == Some(s@),
            None => spec_skerping(vowel) is None,
        },
{
    match vowel {
        'ó' | 'ú' => Some("gv"),
        'í' | 'ý' | 'y' | 'i' => Some("ggj"),
        _ => None,
    }
}

/// Placeholder characters standing for the stem inside templated endings.
pub open spec fn spec_dash(c: char) -> bool {
    c == '-' || c == '~'
}

pub fn dash(c: char) -> (r: bool)
    ensures
        r == spec_dash(c),
{
    matches!(c, '-' | '~')
}

} // verus!
