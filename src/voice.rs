use vstd::prelude::*;
use vstd::string::{StrSliceExecFns, StringExecFns};

verus! {

/// Finds the first voice whose name is `wanted`.
pub fn find_voice(names: &Vec<String>, wanted: &str) -> (r: Option<usize>)
    ensures
        r matches Some(i) ==> i < names@.len() && names@[i as int]@ == wanted@
            && forall|j: int| 0 <= j < i ==> names@[j]@ != wanted@,
        r is None ==> forall|j: int| 0 <= j < names@.len() ==> names@[j]@ != wanted@,
{
    let target = String::from_str(wanted);
    let mut i: usize = 0;
    while i < names.len()
        invariant
            i <= names@.len(),
            target@ == wanted@,
            forall|j: int| 0 <= j < i ==> names@[j]@ != wanted@,
        decreases names@.len() - i,
    {
        if names[i] == target {
            return Some(i);
        }
        i = i + 1;
    }
    None
}

/// A voice the speech engine offers: its name and its language tag.
#[derive(Debug, Clone)]
pub struct VoiceDetail {
    pub name: String,
    pub language: String,
}

/// Whether `s` begins with `p`.
pub open spec fn has_prefix(s: Seq<char>, p: Seq<char>) -> bool {
    p.len() <= s.len() && s.take(p.len() as int) == p
}

/// Whether a string begins with a prefix.
pub fn starts_with(s: &str, p: &str) -> (r: bool)
    ensures
        r == has_prefix(s@, p@),
{
    let n = p.unicode_len();
    if n > s.unicode_len() {
        return false;
    }
    let mut i: usize = 0;
    while i < n
        invariant
            n == p@.len(),
            n <= s@.len(),
            i <= n,
            forall|j: int| 0 <= j < i ==> s@[j] == p@[j],
        decreases n - i,
    {
        if s.get_char(i) != p.get_char(i) {
            assert(s@.take(n as int)[i as int] != p@[i as int]);
            return false;
        }
        i = i + 1;
    }
    assert(s@.take(n as int) =~= p@);
    true
}

/// Indices below `n` of the voices whose language tag begins with `lang`, in order.
pub open spec fn voices_matching(voices: Seq<VoiceDetail>, lang: Seq<char>, n: int) -> Seq<usize>
    decreases n,
{
    if n <= 0 {
        seq![]
    } else if has_prefix(voices[n - 1].language@, lang) {
        voices_matching(voices, lang, n - 1).push((n - 1) as usize)
    } else {
        voices_matching(voices, lang, n - 1)
    }
}

/// The positions of the voices that speak a language, such as `en` for `en-US`.
pub fn voices_for_language(voices: &Vec<VoiceDetail>, lang: &str) -> (r: Vec<usize>)
    ensures
        r@ == voices_matching(voices@, lang@, voices@.len() as int),
{
    let mut r: Vec<usize> = Vec::new();
    let mut i: usize = 0;
    while i < voices.len()
        invariant
            i <= voices@.len(),
            r@ == voices_matching(voices@, lang@, i as int),
        decreases voices@.len() - i,
    {
        if starts_with(voices[i].language.as_str(), lang) {
            r.push(i);
        }
        i = i + 1;
    }
    r
}

} // verus!
