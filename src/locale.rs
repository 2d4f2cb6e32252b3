use vstd::prelude::*;
use vstd::string::{StrSliceExecFns, StringExecFns};

verus! {

/// `k` is where the language part of a locale tag ends: at its first `-`, or
/// at its end when it has none.
pub open spec fn is_language_end(tag: Seq<char>, k: int) -> bool {
    &&& 0 <= k <= tag.len()
    &&& forall|j: int| 0 <= j < k ==> tag[j] != '-'
    &&& (k == tag.len() || tag[k] == '-')
}

/// The language part of a locale tag: what comes before its first `-`.
pub open spec fn language_part(tag: Seq<char>) -> Seq<char> {
    tag.take(choose|k: int| is_language_end(tag, k))
}

/// The announcement language for a system locale tag: Chinese and Japanese
/// are supported, anything else falls back to English.
pub open spec fn supported_language(tag: Seq<char>) -> Seq<char> {
    let lang = language_part(tag);
    if lang == "zh"@ {
        "zh"@
    } else if lang == "ja"@ {
        "ja"@
    } else {
        "en"@
    }
}

/// The language to announce in: the configured one if any, else the one the
/// system locale calls for, else English.
pub open spec fn effective_locale_of(configured: Option<Seq<char>>, system: Option<Seq<char>>) -> Seq<char> {
    match configured {
        Some(l) => l,
        None => match system {
            Some(tag) => supported_language(tag),
            None => "en"@,
        },
    }
}

proof fn lemma_language_end_unique(tag: Seq<char>, k: int)
    requires
        is_language_end(tag, k),
    ensures
        language_part(tag) == tag.take(k),
{
    let c = choose|c: int| is_language_end(tag, c);
    assert(is_language_end(tag, c));
    if c < k {
        assert(tag[c] != '-');
    } else if k < c {
        assert(tag[k] != '-');
    }
}

fn supported_language_of(tag: &str) -> (r: String)
    ensures
        r@ == supported_language(tag@),
{
    let n = tag.unicode_len();
    let mut k: usize = 0;
    while k < n && tag.get_char(k) != '-'
        invariant
            n == tag@.len(),
            k <= n,
            forall|j: int| 0 <= j < k ==> tag@[j] != '-',
        decreases n - k,
    {
        k = k + 1;
    }
    proof {
        lemma_language_end_unique(tag@, k as int);
        reveal_strlit("zh");
        reveal_strlit("ja");
        reveal_strlit("en");
    }
    if k == 2 {
        let a = tag.get_char(0);
        let b = tag.get_char(1);
        if a == 'z' && b == 'h' {
            assert(tag@.take(2) =~= "zh"@);
            return String::from_str("zh");
        }
        if a == 'j' && b == 'a' {
            assert(tag@.take(2) =~= "ja"@);
            return String::from_str("ja");
        }
        assert(tag@.take(2)[0] == a && tag@.take(2)[1] == b);
    }
    assert(tag@.take(k as int) != "zh"@ && tag@.take(k as int) != "ja"@) by {
        if k != 2 {
            assert(tag@.take(k as int).len() != 2);
        }
    }
    String::from_str("en")
}

/// Picks the announcement language from the configured one and the system
/// locale tag.
pub fn effective_locale(configured: &Option<String>, system: &Option<String>) -> (r: String)
    ensures
        r@ == effective_locale_of(
            match configured { Some(l) => Some(l@), None => None },
            match system { Some(t) => Some(t@), None => None },
        ),
{
    match configured {
        Some(l) => l.clone(),
        None => match system {
            Some(tag) => supported_language_of(tag.as_str()),
            None => {
                proof { reveal_strlit("en"); }
                String::from_str("en")
            },
        },
    }
}

} // verus!
