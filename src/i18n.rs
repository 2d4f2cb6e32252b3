use vstd::prelude::*;
use vstd::hash_map::StringHashMap;
use vstd::string::{StrSliceExecFns, StringExecFns};

verus! {

#[verifier::external_type_specification]
#[verifier::external_body]
pub struct ExJsonError(serde_json::Error);

/// What the JSON parser makes of a text: `None` when it rejects the text,
/// `Some(None)` when the document is not an object, and otherwise the
/// object's members in order, each with its string value or `None` when the
/// value is not a string.
pub uninterp spec fn json_object_of(text: Seq<char>) -> Option<Option<Seq<(Seq<char>, Option<Seq<char>>)>>>;

/// The view of parsed members.
pub open spec fn members_view(ms: Seq<(String, Option<String>)>) -> Seq<(Seq<char>, Option<Seq<char>>)> {
    ms.map_values(|m: (String, Option<String>)| (m.0@, match m.1 {
        Some(v) => Some(v@),
        None => None,
    }))
}

/// Relies on serde_json::from_str into a `Value`; the result depends on the
/// text alone. An object's members are handed out as key and string value,
/// the value `None` when it is no `Value::String`.
#[verifier::external_body]
fn parse_json_object(text: &str) -> (r: Result<Option<Vec<(String, Option<String>)>>, serde_json::Error>)
    ensures
        r is Err <==> json_object_of(text@) is None,
        r matches Ok(None) ==> json_object_of(text@) == Some(None::<Seq<(Seq<char>, Option<Seq<char>>)>>),
        r matches Ok(Some(ms)) ==> json_object_of(text@) == Some(Some(members_view(ms@))),
{
    match serde_json::from_str::<serde_json::Value>(text) {
        Ok(serde_json::Value::Object(m)) => Ok(Some(m.into_iter().map(|(k, v)| match v {
            serde_json::Value::String(t) => (k, Some(t)),
            _ => (k, None),
        }).collect())),
        Ok(_) => Ok(None),
        Err(e) => Err(e),
    }
}

/// The template table of parsed members: each string member in order, a
/// later one of the same key replacing an earlier one.
pub open spec fn table_of_members(ms: Seq<(Seq<char>, Option<Seq<char>>)>) -> Map<Seq<char>, Seq<char>>
    decreases ms.len(),
{
    if ms.len() == 0 {
        Map::empty()
    } else {
        let t = table_of_members(ms.drop_last());
        match ms.last().1 {
            Some(v) => t.insert(ms.last().0, v),
            None => t,
        }
    }
}

/// The template table of a JSON text that the parser accepts: its object's
/// string members, or nothing when it is not an object.
pub open spec fn table_of_json(parsed: Option<Seq<(Seq<char>, Option<Seq<char>>)>>) -> Map<Seq<char>, Seq<char>> {
    match parsed {
        Some(ms) => table_of_members(ms),
        None => Map::empty(),
    }
}

/// `s` with every non-overlapping occurrence of `from`, taken from the left,
/// replaced by `to`.
pub open spec fn replace_all(s: Seq<char>, from: Seq<char>, to: Seq<char>) -> Seq<char>
    decreases s.len(),
{
    if from.len() == 0 || s.len() < from.len() {
        s
    } else if s.take(from.len() as int) == from {
        to + replace_all(s.skip(from.len() as int), from, to)
    } else {
        seq![s[0]] + replace_all(s.skip(1), from, to)
    }
}

/// Whether `from` occurs in `s` at position `i`.
fn occurs_at(s: &str, from: &str, i: usize) -> (r: bool)
    requires
        i + from@.len() <= s@.len(),
        s@.len() <= usize::MAX,
    ensures
        r == (s@.skip(i as int).take(from@.len() as int) == from@),
{
    let m = from.unicode_len();
    let mut j: usize = 0;
    while j < m
        invariant
            m == from@.len(),
            i + m <= s@.len(),
            s@.len() <= usize::MAX,
            j <= m,
            forall|k: int| 0 <= k < j ==> s@[i + k] == from@[k],
        decreases m - j,
    {
        if s.get_char(i + j) != from.get_char(j) {
            assert(s@.skip(i as int).take(m as int)[j as int] != from@[j as int]);
            return false;
        }
        j = j + 1;
    }
    assert(s@.skip(i as int).take(m as int) =~= from@);
    true
}

/// `s` with every non-overlapping occurrence of a non-empty `from`, searched
/// from the left, replaced by `to`.
pub fn replace_text(s: &str, from: &str, to: &str) -> (r: String)
    requires
        from@.len() > 0,
    ensures
        r@ == replace_all(s@, from@, to@),
{
    let n = s.unicode_len();
    let m = from.unicode_len();
    let mut out = String::new();
    let mut start: usize = 0;
    let mut i: usize = 0;
    assert(s@.skip(0) =~= s@);
    assert(out@ + s@.subrange(0, 0) =~= Seq::<char>::empty());
    while m <= n - i
        invariant
            n == s@.len(),
            m == from@.len(),
            m > 0,
            start <= i <= n,
            out@ + s@.subrange(start as int, i as int) + replace_all(s@.skip(i as int), from@, to@)
                == replace_all(s@, from@, to@),
        decreases n - i,
    {
        let ghost rest = s@.skip(i as int);
        if occurs_at(s, from, i) {
            assert(rest.skip(m as int) =~= s@.skip(i + m));
            assert(replace_all(rest, from@, to@) == to@ + replace_all(s@.skip(i + m), from@, to@));
            let piece = s.substring_char(start, i);
            out.append(piece);
            out.append(to);
            i = i + m;
            start = i;
            assert(s@.subrange(start as int, i as int) =~= Seq::<char>::empty());
        } else {
            assert(rest.skip(1) =~= s@.skip(i + 1));
            assert(replace_all(rest, from@, to@) == seq![s@[i as int]] + replace_all(s@.skip(i + 1), from@, to@));
            assert(s@.subrange(start as int, i as int) + seq![s@[i as int]] =~= s@.subrange(start as int, i + 1));
            i = i + 1;
        }
    }
    assert(replace_all(s@.skip(i as int), from@, to@) == s@.skip(i as int));
    let tail = s.substring_char(start, n);
    out.append(tail);
    assert(s@.subrange(start as int, i as int) + s@.skip(i as int) =~= s@.subrange(start as int, n as int));
    out
}

/// The placeholder that stands for a named parameter in a template: `{name}`.
pub open spec fn placeholder(name: Seq<char>) -> Seq<char> {
    seq!['{'] + name + seq!['}']
}

fn make_placeholder(name: &str) -> (r: String)
    ensures
        r@ == placeholder(name@),
{
    let mut p = String::from_str("{");
    p.append(name);
    p.append("}");
    proof {
        reveal_strlit("{");
        reveal_strlit("}");
    }
    p
}

/// Error of building a text table from JSON.
#[derive(Debug, Clone, Copy, PartialEq, Eq, Structural)]
pub enum I18nError {
    /// The JSON parser rejected the text.
    Malformed,
}

/// Text templates of one language, by key.
pub struct I18nManager {
    translations: StringHashMap<String>,
}

impl View for I18nManager {
    type V = Map<Seq<char>, Seq<char>>;

    closed spec fn view(&self) -> Map<Seq<char>, Seq<char>> {
        self.translations@.map_values(|v: String| v@)
    }
}

impl I18nManager {
    /// A table with no templates.
    pub fn empty() -> (r: I18nManager)
        ensures
            r@ == Map::<Seq<char>, Seq<char>>::empty(),
    {
        let r = I18nManager { translations: StringHashMap::new() };
        assert(r@ =~= Map::<Seq<char>, Seq<char>>::empty());
        r
    }

    /// Adds or replaces the template of a key.
    pub fn insert(&mut self, key: String, template: String)
        ensures
            final(self)@ == old(self)@.insert(key@, template@),
    {
        self.translations.insert(key, template);
        assert(self@ =~= old(self)@.insert(key@, template@));
    }

    /// Builds the table from a JSON object whose string members are the
    /// templates; members of other kinds are skipped, and JSON that is not an
    /// object gives an empty table.
    pub fn from_json(text: &str) -> (r: Result<I18nManager, I18nError>)
        ensures
            r is Err <==> json_object_of(text@) is None,
            r matches Err(e) ==> e == I18nError::Malformed,
            r matches Ok(t) ==> t@ == table_of_json(json_object_of(text@)->0),
    {
        let parsed = match parse_json_object(text) {
            Ok(p) => p,
            Err(_) => return Err(I18nError::Malformed),
        };
        let mut table = I18nManager::empty();
        match parsed {
            None => {
                assert(table@ =~= table_of_json(json_object_of(text@)->0));
            },
            Some(members) => {
                let ghost view = members_view(members@);
                let mut i: usize = 0;
                while i < members.len()
                    invariant
                        i <= members@.len(),
                        view == members_view(members@),
                        table@ == table_of_members(view.take(i as int)),
                    decreases members@.len() - i,
                {
                    assert(view.take(i as int + 1).drop_last() =~= view.take(i as int));
                    match &members[i].1 {
                        Some(v) => table.insert(members[i].0.clone(), v.clone()),
                        None => {},
                    }
                    i = i + 1;
                }
                assert(view.take(members@.len() as int) =~= view);
            },
        }
        Ok(table)
    }

    /// The template of `key`, if there is one.
    pub fn get_text(&self, key: &str) -> (r: Option<String>)
        ensures
            r is Some <==> self@.contains_key(key@),
            r matches Some(t) ==> t@ == self@[key@],
    {
        match self.translations.get(key) {
            Some(t) => Some(t.clone()),
            None => None,
        }
    }

    /// The template of `key` with every `{param_key}` replaced by `param_value`.
    pub fn get_text_with_param(&self, key: &str, param_key: &str, param_value: &str) -> (r: Option<String>)
        ensures
            r is Some <==> self@.contains_key(key@),
            r matches Some(t) ==> t@ == replace_all(self@[key@], placeholder(param_key@), param_value@),
    {
        match self.translations.get(key) {
            Some(t) => {
                let p = make_placeholder(param_key);
                Some(replace_text(t.as_str(), p.as_str(), param_value))
            },
            None => None,
        }
    }
}

} // verus!
