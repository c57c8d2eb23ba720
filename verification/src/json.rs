//! JSON values as the client's logic reads them.
//!
//! A value keeps its structure where the logic looks inside it (strings
//! and objects) together with its compact JSON rendering, which is what
//! the logic shows for values it does not take apart.

use vstd::prelude::*;

use vstd::string::*;

use crate::text::str_eq;

verus! {

/// A JSON value and its compact rendering.
pub struct Json {
    pub kind: JsonKind,
    /// The compact JSON text of this value (`{"a":1}`, `[1,2]`, `"x"`).
    pub text: String,
}

/// The shape of a JSON value.
pub enum JsonKind {
    Null,
    Bool(bool),
    Number,
    Str(String),
    Array(Vec<Json>),
    /// Members in the order the object yields them.
    Object(Vec<(String, Json)>),
}

/// `i` is the first position in `m` whose name is `key`.
pub open spec fn is_first_key(m: Seq<(String, Json)>, key: Seq<char>, i: int) -> bool {
    0 <= i < m.len() && m[i].0@ == key && forall|j: int| 0 <= j < i ==> m[j].0@ != key
}

impl Json {
    pub open spec fn is_null_spec(&self) -> bool {
        self.kind is Null
    }

    /// The string payload, when the value is a string.
    pub open spec fn str_view(&self) -> Option<Seq<char>> {
        match self.kind {
            JsonKind::Str(s) => Some(s@),
            _ => None,
        }
    }

    /// The value of the first member named `key`, when the value is an
    /// object that has one.
    pub open spec fn member(&self, key: Seq<char>) -> Option<Json> {
        match self.kind {
            JsonKind::Object(m) => if exists|i: int| is_first_key(m@, key, i) {
                Some(m@[choose|i: int| is_first_key(m@, key, i)].1)
            } else {
                None
            },
            _ => None,
        }
    }

    /// The string held by member `key`, when there is one and it is a string.
    pub open spec fn member_str(&self, key: Seq<char>) -> Option<Seq<char>> {
        match self.member(key) {
            Some(j) => j.str_view(),
            None => None,
        }
    }

    pub fn is_null(&self) -> (r: bool)
        ensures
            r == self.is_null_spec(),
    {
        match self.kind {
            JsonKind::Null => true,
            _ => false,
        }
    }

    pub fn as_str(&self) -> (r: Option<&String>)
        ensures
            match r {
                Some(s) => self.str_view() == Some(s@),
                None => self.str_view() is None,
            },
    {
        match &self.kind {
            JsonKind::Str(s) => Some(s),
            _ => None,
        }
    }
}


impl Json {
    /// The first member named `key` of an object; `None` for other values.
    pub fn get(&self, key: &str) -> (r: Option<&Json>)
        ensures
            match r {
                Some(x) => self.member(key@) == Some(*x),
                None => self.member(key@) is None,
            },
    {
        match &self.kind {
            JsonKind::Object(m) => {
                let mut i: usize = 0;
                while i < m.len()
                    invariant
                        self.kind == JsonKind::Object(*m),
                        i <= m@.len(),
                        forall|j: int| 0 <= j < i ==> m@[j].0@ != key@,
                    decreases m@.len() - i,
                {
                    if str_eq(m[i].0.as_str(), key) {
                        proof {
                            assert(is_first_key(m@, key@, i as int));
                            let c = choose|k: int| is_first_key(m@, key@, k);
                            assert(is_first_key(m@, key@, c));
                            if c < i {
                                assert(m@[c].0@ == key@);
                                assert(false);
                            } else if c > i {
                                assert(m@[i as int].0@ != key@);
                                assert(false);
                            }
                            assert(c == i);
                            assert(self.kind == JsonKind::Object(*m));
                            assert(self.member(key@) == Some(m@[i as int].1));
                        }
                        return Some(&m[i].1);
                    }
                    i += 1;
                }
                None
            },
            _ => None,
        }
    }
}


/// The string member `key` of `v`, tried in the order the keys are given.
pub open spec fn first_member_str(v: Json, keys: Seq<Seq<char>>) -> Option<Seq<char>>
    decreases keys.len(),
{
    if keys.len() == 0 {
        None
    } else if v.member_str(keys[0]) is Some {
        v.member_str(keys[0])
    } else {
        first_member_str(v, keys.drop_first())
    }
}

/// The top-level fields that may hold an error message, most specific first.
pub open spec fn error_keys() -> Seq<Seq<char>> {
    seq!["errorMessage"@, "error_message"@, "error"@, "message"@, "detail"@, "reason"@]
}

/// The human-readable error message found in a stream-error payload: the
/// payload itself when it is a string; else the first string among the
/// top-level error fields; else the nested `error.message`, prefixed with
/// `error.type` when that is a non-empty string.
pub open spec fn error_detail(v: Json) -> Option<Seq<char>> {
    if v.is_null_spec() {
        None
    } else if v.str_view() is Some {
        v.str_view()
    } else if first_member_str(v, error_keys()) is Some {
        first_member_str(v, error_keys())
    } else {
        match v.member("error"@) {
            Some(err) => if err.str_view() is Some {
                err.str_view()
            } else {
                match err.member_str("message"@) {
                    Some(s) => {
                        let ty = match err.member_str("type"@) {
                            Some(t) => t,
                            None => Seq::empty(),
                        };
                        Some(
                            if ty.len() == 0 {
                                s
                            } else {
                                ty + ": "@ + s
                            },
                        )
                    },
                    None => None,
                }
            },
            None => None,
        }
    }
}

/// The string member `key` of `v`, as a new string.
pub(crate) fn member_string(v: &Json, key: &str) -> (r: Option<String>)
    ensures
        match r {
            Some(s) => v.member_str(key@) == Some(s@),
            None => v.member_str(key@) is None,
        },
{
    match v.get(key) {
        Some(x) => match x.as_str() {
            Some(s) => Some(s.clone()),
            None => None,
        },
        None => None,
    }
}

/// Dig a human-readable error message out of the payload that comes with
/// a stream error. Providers disagree on the field name, so a few likely
/// paths are probed in turn.
pub fn extract_error_detail(v: &Json) -> (r: Option<String>)
    ensures
        match r {
            Some(s) => error_detail(*v) == Some(s@),
            None => error_detail(*v) is None,
        },
{
    if v.is_null() {
        return None;
    }
    if let Some(s) = v.as_str() {
        return Some(s.clone());
    }
    let ghost keys = error_keys();
    proof {
        reveal_with_fuel(first_member_str, 7);
        assert(keys.drop_first().drop_first().drop_first().drop_first().drop_first().drop_first()
            =~= Seq::<Seq<char>>::empty());
    }
    if let Some(s) = member_string(v, "errorMessage") {
        return Some(s);
    }
    if let Some(s) = member_string(v, "error_message") {
        return Some(s);
    }
    if let Some(s) = member_string(v, "error") {
        return Some(s);
    }
    if let Some(s) = member_string(v, "message") {
        return Some(s);
    }
    if let Some(s) = member_string(v, "detail") {
        return Some(s);
    }
    if let Some(s) = member_string(v, "reason") {
        return Some(s);
    }
    if let Some(err) = v.get("error") {
        if let Some(s) = err.as_str() {
            return Some(s.clone());
        }
        if let Some(s) = member_string(err, "message") {
            let ty = match member_string(err, "type") {
                Some(t) => t,
                None => String::new(),
            };
            if ty.unicode_len() == 0 {
                return Some(s);
            } else {
                return Some(crate::helpers::concat3(ty.as_str(), ": ", s.as_str()));
            }
        }
    }
    None
}

} // verus!
