//! The typed result of the current-user operation.

use crate::json::{jview, jview_elems, map_get, JsonData, JsonMap, JsonValue};
use crate::types::errors::SdkError;
use vstd::prelude::*;

verus! {

/// Mathematical model of a [`User`].
pub struct UserData {
    pub id: Seq<char>,
    pub content: Seq<(Seq<char>, JsonData)>,
    pub strategies: Seq<Seq<char>>,
}

/// What a sequence of JSON values decodes to when every one must be a
/// string.
pub open spec fn spec_decode_strings(items: Seq<JsonData>) -> Option<Seq<Seq<char>>>
    decreases items.len(),
{
    if items.len() == 0 {
        Some(Seq::empty())
    } else {
        match items[0] {
            JsonData::Str(s) => match spec_decode_strings(items.drop_first()) {
                Some(rest) => Some(seq![s] + rest),
                None => None,
            },
            _ => None,
        }
    }
}

/// What the current-user result payload decodes to: a required `_id`
/// string, a required `_source` object and a required `strategies` array of
/// strings.
pub open spec fn spec_decode_user(d: JsonData) -> Option<UserData> {
    match d {
        JsonData::Obj(es) => match (map_get(es, "_id"@), map_get(es, "_source"@), map_get(
            es,
            "strategies"@,
        )) {
            (Some(JsonData::Str(id)), Some(JsonData::Obj(content)), Some(JsonData::Arr(raw))) => {
                match spec_decode_strings(raw) {
                    Some(strategies) => Some(UserData { id, content, strategies }),
                    None => None,
                }
            },
            _ => None,
        },
        _ => None,
    }
}

/// The authenticated user: identifier, profile content and the
/// authentication strategies bound to it.
#[derive(Debug)]
pub struct User {
    id: String,
    content: JsonMap,
    strategies: Vec<String>,
}

impl View for User {
    type V = UserData;

    closed spec fn view(&self) -> UserData {
        UserData {
            id: self.id@,
            content: self.content@,
            strategies: Seq::new(self.strategies@.len(), |i: int| self.strategies@[i]@),
        }
    }
}

impl User {
    /// Decodes the current-user result payload.
    pub fn from_json(v: &JsonValue) -> (r: Result<User, SdkError>)
        ensures
            match spec_decode_user(jview(*v)) {
                Some(ud) => (r matches Ok(u) && u@ == ud),
                None => (r matches Err(e) && e@ is Decode),
            },
    {
        let m = match v.as_object() {
            Some(m) => m,
            None => {
                return Err(decode_fail());
            },
        };
        let id: String = match m.get("_id") {
            Some(x) => match x.as_str() {
                Some(s) => s.clone(),
                None => {
                    return Err(decode_fail());
                },
            },
            None => {
                return Err(decode_fail());
            },
        };
        let content: JsonMap = match m.get("_source") {
            Some(x) => match x.as_object() {
                Some(o) => o.duplicate(),
                None => {
                    return Err(decode_fail());
                },
            },
            None => {
                return Err(decode_fail());
            },
        };
        let raw: &Vec<JsonValue> = match m.get("strategies") {
            Some(x) => match x.as_array() {
                Some(items) => items,
                None => {
                    return Err(decode_fail());
                },
            },
            None => {
                return Err(decode_fail());
            },
        };
        let strategies: Vec<String> = match decode_strings(raw) {
            Ok(v) => v,
            Err(e) => {
                return Err(e);
            },
        };
        let u = User { id, content, strategies };
        proof {
            match spec_decode_user(jview(*v)) {
                Some(ud) => {
                    assert(u@.strategies =~= ud.strategies);
                },
                None => {},
            }
        }
        Ok(u)
    }

    /// The user's identifier.
    pub fn id(&self) -> (r: String)
        ensures
            r@ == self@.id,
    {
        self.id.clone()
    }

    /// The user's profile content.
    pub fn content(&self) -> (r: JsonMap)
        ensures
            r@ == self@.content,
    {
        self.content.duplicate()
    }

    /// The authentication strategies bound to the user.
    pub fn strategies(&self) -> (r: Vec<String>)
        ensures
            r@.len() == self@.strategies.len(),
            forall|i: int| 0 <= i < r@.len() ==> r@[i]@ == self@.strategies[i],
    {
        let n: usize = self.strategies.len();
        let mut out: Vec<String> = Vec::new();
        let mut i: usize = 0;
        while i < n
            invariant
                0 <= i <= n,
                n == self.strategies@.len(),
                out@.len() == i,
                forall|j: int| 0 <= j < i ==> out@[j]@ == self.strategies@[j]@,
            decreases n - i,
        {
            out.push(self.strategies[i].clone());
            i = i + 1;
        }
        out
    }
}

/// Decodes a JSON array in which every element must be a string.
pub(crate) fn decode_strings(items: &Vec<JsonValue>) -> (r: Result<Vec<String>, SdkError>)
    ensures
        match spec_decode_strings(jview_elems(items@)) {
            Some(ss) => (match r {
                Ok(v) => v@.len() == ss.len() && (forall|i: int|
                    0 <= i < v@.len() ==> v@[i]@ == ss[i]),
                Err(_) => false,
            }),
            None => (r matches Err(e) && e@ is Decode),
        },
{
    proof {
        crate::json::lemma_jview_elems(items@);
        assert(jview_elems(items@).skip(0) =~= jview_elems(items@));
        match spec_decode_strings(jview_elems(items@)) {
            Some(t) => {
                assert(prefix_strings(Seq::<String>::empty()) + t =~= t);
                assert(prefix_strings(Seq::<String>::empty()) =~= Seq::<Seq<char>>::empty());
            },
            None => {},
        }
    }
    let n: usize = items.len();
    let mut out: Vec<String> = Vec::new();
    proof {
        assert(prefix_strings(out@) =~= Seq::<Seq<char>>::empty());
    }
    let mut i: usize = 0;
    while i < n
        invariant
            0 <= i <= n,
            n == items@.len(),
            jview_elems(items@).len() == n,
            forall|j: int| 0 <= j < n ==> jview_elems(items@)[j] == jview(items@[j]),
            out@.len() == i,
            spec_decode_strings(jview_elems(items@)) == prepend_strings(
                prefix_strings(out@),
                spec_decode_strings(jview_elems(items@).skip(i as int)),
            ),
        decreases n - i,
    {
        let s: String = match items[i].as_str() {
            Some(s) => s.clone(),
            None => {
                proof {
                    assert(jview_elems(items@).skip(i as int)[0] == jview_elems(items@)[i as int]);
                }
                return Err(decode_fail());
            },
        };
        let ghost out_prev = out@;
        out.push(s);
        proof {
            assert(jview_elems(items@).skip(i as int)[0] == jview_elems(items@)[i as int]);
            assert(jview_elems(items@).skip(i as int).drop_first() =~= jview_elems(items@).skip(
                i + 1,
            ));
            assert(prefix_strings(out@) =~= prefix_strings(out_prev).push(s@));
            match spec_decode_strings(jview_elems(items@).skip(i + 1)) {
                Some(t) => {
                    assert(prefix_strings(out_prev) + (seq![s@] + t) =~= prefix_strings(out@) + t);
                },
                None => {},
            }
        }
        i = i + 1;
    }
    proof {
        assert(jview_elems(items@).skip(n as int).len() == 0);
        assert(spec_decode_strings(jview_elems(items@).skip(n as int)) == Some(
            Seq::<Seq<char>>::empty(),
        ));
        assert(prefix_strings(out@) + Seq::<Seq<char>>::empty() =~= prefix_strings(out@));
    }
    Ok(out)
}

/// The views of a vector of strings, element for element.
pub open spec fn prefix_strings(v: Seq<String>) -> Seq<Seq<char>> {
    Seq::new(v.len(), |i: int| v[i]@)
}

/// `r` with `p` put in front of the decoded strings.
pub open spec fn prepend_strings(
    p: Seq<Seq<char>>,
    r: Option<Seq<Seq<char>>>,
) -> Option<Seq<Seq<char>>> {
    match r {
        Some(t) => Some(p + t),
        None => None,
    }
}

/// A decode failure for a user result of an unexpected shape.
fn decode_fail() -> (e: SdkError)
    ensures
        e@ is Decode,
{
    SdkError::Decode { message: "the user result has an unexpected shape".to_owned() }
}

} // verus!
