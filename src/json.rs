//! A JSON tree owned by the library, with the lookups the pipeline needs.
use vstd::prelude::*;
use vstd::string::StrSliceExecFns;

verus! {

/// A JSON value. Object members keep the order in which they were given.
#[derive(Debug)]
pub enum Json {
    Null,
    Bool(bool),
    /// A number, kept as its textual form.
    Number(String),
    Str(String),
    Array(Vec<Json>),
    Object(Vec<(String, Json)>),
}

/// The value of the first member named `key`, if any.
pub open spec fn entries_get(es: Seq<(String, Json)>, key: Seq<char>) -> Option<Json>
    decreases es.len(),
{
    if es.len() == 0 {
        None
    } else if es[0].0@ == key {
        Some(es[0].1)
    } else {
        entries_get(es.drop_first(), key)
    }
}

/// Member lookup: `None` unless `v` is an object with a member named `key`.
pub open spec fn json_get(v: Json, key: Seq<char>) -> Option<Json> {
    match v {
        Json::Object(es) => entries_get(es@, key),
        _ => None,
    }
}

/// The text of a string value.
pub open spec fn json_str(v: Json) -> Option<Seq<char>> {
    match v {
        Json::Str(s) => Some(s@),
        _ => None,
    }
}

proof fn lemma_entries_get_skip(es: Seq<(String, Json)>, key: Seq<char>, i: int)
    requires
        0 <= i < es.len(),
        forall|j: int| 0 <= j < i ==> es[j].0@ != key,
    ensures
        entries_get(es, key) == entries_get(es.subrange(i, es.len() as int), key),
    decreases i,
{
    if i == 0 {
        assert(es.subrange(0, es.len() as int) =~= es);
    } else {
        assert(es[0].0@ != key);
        lemma_entries_get_skip(es.drop_first(), key, i - 1);
        assert(es.drop_first().subrange(i - 1, es.len() - 1) =~= es.subrange(i, es.len() as int));
    }
}

proof fn lemma_entries_get_none(es: Seq<(String, Json)>, key: Seq<char>)
    requires
        forall|j: int| 0 <= j < es.len() ==> es[j].0@ != key,
    ensures
        entries_get(es, key).is_none(),
    decreases es.len(),
{
    if es.len() > 0 {
        lemma_entries_get_none(es.drop_first(), key);
    }
}

impl Json {
    /// Looks up the member `key` of an object.
    pub fn get(&self, key: &str) -> (r: Option<&Json>)
        ensures
            r.is_some() == json_get(*self, key@).is_some(),
            r.is_some() ==> json_get(*self, key@) == Some(*r.unwrap()),
    {
        match self {
            Json::Object(es) => {
                let k = String::from_str(key);
                let mut i: usize = 0;
                while i < es.len()
                    invariant
                        0 <= i <= es.len(),
                        k@ == key@,
                        *self == Json::Object(*es),
                        forall|j: int| 0 <= j < i ==> es@[j].0@ != key@,
                    decreases es.len() - i,
                {
                    if es[i].0 == k {
                        proof {
                            lemma_entries_get_skip(es@, key@, i as int);
                            let tail = es@.subrange(i as int, es@.len() as int);
                            assert(tail[0] == es@[i as int]);
                        }
                        return Some(&es[i].1);
                    }
                    i = i + 1;
                }
                proof {
                    lemma_entries_get_none(es@, key@);
                }
                None
            },
            _ => None,
        }
    }

    /// The text of a string value.
    pub fn as_str(&self) -> (r: Option<&String>)
        ensures
            r.is_some() == json_str(*self).is_some(),
            r.is_some() ==> json_str(*self) == Some(r.unwrap()@),
    {
        match self {
            Json::Str(s) => Some(s),
            _ => None,
        }
    }

    pub fn is_null(&self) -> (r: bool)
        ensures
            r == (*self is Null),
    {
        match self {
            Json::Null => true,
            _ => false,
        }
    }
}

} // verus!
