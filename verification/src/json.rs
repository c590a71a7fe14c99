use vstd::prelude::*;
use crate::util::str_eq;

verus! {

/// A parsed JSON document, as handed in by the caller after the transport
/// has read and tokenized the response body. The schema read by this
/// library consists of strings, arrays and objects only, so numeric
/// payloads are kept as a bare `Number` marker.
#[derive(Debug, PartialEq)]
pub enum JsonValue {
    Null,
    Bool(bool),
    Number,
    Str(String),
    Arr(Vec<JsonValue>),
    Obj(Vec<(String, JsonValue)>),
}

/// First entry of `entries` whose key reads `key`, if any.
pub open spec fn spec_obj_get(entries: Seq<(String, JsonValue)>, key: Seq<char>) -> Option<
    JsonValue,
>
    decreases entries.len(),
{
    if entries.len() == 0 {
        None
    } else if entries[0].0@ == key {
        Some(entries[0].1)
    } else {
        spec_obj_get(entries.skip(1), key)
    }
}

/// The field `key` of `v`, when `v` is an object that has it.
pub open spec fn spec_get(v: JsonValue, key: Seq<char>) -> Option<JsonValue> {
    match v {
        JsonValue::Obj(entries) => spec_obj_get(entries@, key),
        _ => None,
    }
}

/// The field `key` of `v`, when it is present and holds a string.
pub open spec fn spec_get_str(v: JsonValue, key: Seq<char>) -> Option<Seq<char>> {
    match spec_get(v, key) {
        Some(JsonValue::Str(s)) => Some(s@),
        _ => None,
    }
}

impl JsonValue {
    /// Looks up a field of an object; `None` on any other kind of value.
    pub fn get<'a>(&'a self, key: &str) -> (r: Option<&'a JsonValue>)
        ensures
            (match r {
                Some(x) => spec_get(*self, key@) == Some(*x),
                None => spec_get(*self, key@) is None,
            }),
    {
        match self {
            JsonValue::Obj(entries) => {
                let n = entries.len();
                let mut i: usize = 0;
                proof {
                    assert(entries@.skip(0) =~= entries@);
                    assert(spec_get(*self, key@) == spec_obj_get(entries@, key@));
                }
                while i < n
                    invariant
                        n == entries.len(),
                        i <= n,
                        spec_get(*self, key@) == spec_obj_get(entries@, key@),
                        spec_obj_get(entries@, key@) == spec_obj_get(entries@.skip(i as int), key@),
                    decreases n - i,
                {
                    proof {
                        assert(entries@.skip(i as int)[0] == entries@[i as int]);
                        assert(entries@.skip(i as int).skip(1) =~= entries@.skip(i as int + 1));
                    }
                    if str_eq(entries[i].0.as_str(), key) {
                        let r = &entries[i].1;
                        proof {
                            assert(spec_obj_get(entries@.skip(i as int), key@) == Some(
                                entries@[i as int].1,
                            ));
                            assert(*r == entries@[i as int].1);
                        }
                        return Some(r);
                    }
                    i = i + 1;
                }
                proof {
                    assert(entries@.skip(n as int).len() == 0);
                }
                None
            },
            _ => None,
        }
    }

    /// Looks up a field and returns its string content, cloned; `None` when
    /// the field is absent or not a string.
    pub fn get_str(&self, key: &str) -> (r: Option<String>)
        ensures
            r.deep_view() == spec_get_str(*self, key@),
    {
        match self.get(key) {
            Some(JsonValue::Str(s)) => Some(s.clone()),
            _ => None,
        }
    }
}

} // verus!
