//! The typed result of the rights listing operation.

use crate::json::{jview, map_get, JsonData, JsonValue};
use crate::types::errors::SdkError;
use vstd::prelude::*;

verus! {

/// Mathematical model of a [`UserRight`].
pub struct UserRightData {
    pub controller: Seq<char>,
    pub action: Seq<char>,
    pub index: Seq<char>,
    pub collection: Seq<char>,
    pub value: Seq<char>,
}

/// What one rights entry decodes to: five required string fields.
pub open spec fn spec_decode_user_right(d: JsonData) -> Option<UserRightData> {
    match d {
        JsonData::Obj(es) => match (map_get(es, "controller"@), map_get(es, "action"@), map_get(
            es,
            "index"@,
        ), map_get(es, "collection"@), map_get(es, "value"@)) {
            (
                Some(JsonData::Str(controller)),
                Some(JsonData::Str(action)),
                Some(JsonData::Str(index)),
                Some(JsonData::Str(collection)),
                Some(JsonData::Str(value)),
            ) => Some(UserRightData { controller, action, index, collection, value }),
            _ => None,
        },
        _ => None,
    }
}

/// One right of the authenticated user: what it may do, on which
/// controller, action, index and collection.
#[derive(Debug)]
pub struct UserRight {
    controller: String,
    action: String,
    index: String,
    collection: String,
    value: String,
}

impl View for UserRight {
    type V = UserRightData;

    closed spec fn view(&self) -> UserRightData {
        UserRightData {
            controller: self.controller@,
            action: self.action@,
            index: self.index@,
            collection: self.collection@,
            value: self.value@,
        }
    }
}

impl UserRight {
    /// Decodes one rights entry.
    pub fn from_json(v: &JsonValue) -> (r: Result<UserRight, SdkError>)
        ensures
            match spec_decode_user_right(jview(*v)) {
                Some(ud) => (r matches Ok(u) && u@ == ud),
                None => (r matches Err(e) && e@ is Decode),
            },
    {
        let m = match v.as_object() {
            Some(m) => m,
            None => {
                return Err(decode_fail());
            },
        };
        let controller: String = match get_str(m, "controller") {
            Ok(s) => s,
            Err(e) => {
                return Err(e);
            },
        };
        let action: String = match get_str(m, "action") {
            Ok(s) => s,
            Err(e) => {
                return Err(e);
            },
        };
        let index: String = match get_str(m, "index") {
            Ok(s) => s,
            Err(e) => {
                return Err(e);
            },
        };
        let collection: String = match get_str(m, "collection") {
            Ok(s) => s,
            Err(e) => {
                return Err(e);
            },
        };
        let value: String = match get_str(m, "value") {
            Ok(s) => s,
            Err(e) => {
                return Err(e);
            },
        };
        Ok(UserRight { controller, action, index, collection, value })
    }

    pub fn controller(&self) -> (r: String)
        ensures
            r@ == self@.controller,
    {
        self.controller.clone()
    }

    pub fn action(&self) -> (r: String)
        ensures
            r@ == self@.action,
    {
        self.action.clone()
    }

    pub fn index(&self) -> (r: String)
        ensures
            r@ == self@.index,
    {
        self.index.clone()
    }

    pub fn collection(&self) -> (r: String)
        ensures
            r@ == self@.collection,
    {
        self.collection.clone()
    }

    pub fn value(&self) -> (r: String)
        ensures
            r@ == self@.value,
    {
        self.value.clone()
    }
}

/// What a sequence of JSON values decodes to when every one must be a
/// rights entry.
pub open spec fn spec_decode_rights(items: Seq<JsonData>) -> Option<Seq<UserRightData>>
    decreases items.len(),
{
    if items.len() == 0 {
        Some(Seq::empty())
    } else {
        match spec_decode_user_right(items[0]) {
            Some(rd) => match spec_decode_rights(items.drop_first()) {
                Some(rest) => Some(seq![rd] + rest),
                None => None,
            },
            None => None,
        }
    }
}

/// The views of a vector of rights, element for element.
pub open spec fn rights_views(v: Seq<UserRight>) -> Seq<UserRightData> {
    Seq::new(v.len(), |i: int| v[i]@)
}

/// `r` with `p` put in front of the decoded rights.
pub open spec fn prepend_rights(
    p: Seq<UserRightData>,
    r: Option<Seq<UserRightData>>,
) -> Option<Seq<UserRightData>> {
    match r {
        Some(t) => Some(p + t),
        None => None,
    }
}

/// Decodes a JSON array in which every element must be a rights entry,
/// keeping length and order.
pub(crate) fn decode_rights(items: &Vec<JsonValue>) -> (r: Result<Vec<UserRight>, SdkError>)
    ensures
        match spec_decode_rights(crate::json::jview_elems(items@)) {
            Some(rs) => (match r {
                Ok(v) => v@.len() == rs.len() && (forall|i: int|
                    0 <= i < v@.len() ==> v@[i]@ == rs[i]),
                Err(_) => false,
            }),
            None => (r matches Err(e) && e@ is Decode),
        },
{
    let ghost views = crate::json::jview_elems(items@);
    proof {
        crate::json::lemma_jview_elems(items@);
        assert(views.skip(0) =~= views);
        match spec_decode_rights(views) {
            Some(t) => {
                assert(rights_views(Seq::<UserRight>::empty()) + t =~= t);
                assert(rights_views(Seq::<UserRight>::empty()) =~= Seq::<UserRightData>::empty());
            },
            None => {},
        }
    }
    let n: usize = items.len();
    let mut out: Vec<UserRight> = Vec::new();
    proof {
        assert(rights_views(out@) =~= Seq::<UserRightData>::empty());
    }
    let mut i: usize = 0;
    while i < n
        invariant
            0 <= i <= n,
            n == items@.len(),
            views == crate::json::jview_elems(items@),
            views.len() == n,
            forall|j: int| 0 <= j < n ==> views[j] == crate::json::jview(items@[j]),
            out@.len() == i,
            spec_decode_rights(views) == prepend_rights(
                rights_views(out@),
                spec_decode_rights(views.skip(i as int)),
            ),
        decreases n - i,
    {
        let right: UserRight = match UserRight::from_json(&items[i]) {
            Ok(right) => right,
            Err(e) => {
                proof {
                    assert(views.skip(i as int)[0] == views[i as int]);
                }
                return Err(e);
            },
        };
        let ghost out_prev = out@;
        out.push(right);
        proof {
            assert(views.skip(i as int)[0] == views[i as int]);
            assert(views.skip(i as int).drop_first() =~= views.skip(i + 1));
            assert(rights_views(out@) =~= rights_views(out_prev).push(out@[i as int]@));
            match spec_decode_rights(views.skip(i + 1)) {
                Some(t) => {
                    assert(rights_views(out_prev) + (seq![out@[i as int]@] + t) =~= rights_views(
                        out@,
                    ) + t);
                },
                None => {},
            }
        }
        i = i + 1;
    }
    proof {
        assert(views.skip(n as int).len() == 0);
        assert(spec_decode_rights(views.skip(n as int)) == Some(Seq::<UserRightData>::empty()));
        assert(rights_views(out@) + Seq::<UserRightData>::empty() =~= rights_views(out@));
    }
    Ok(out)
}

/// Reads a required string field of a rights entry.
fn get_str(m: &crate::json::JsonMap, key: &str) -> (r: Result<String, SdkError>)
    ensures
        match r {
            Ok(s) => map_get(m@, key@) == Some(JsonData::Str(s@)),
            Err(e) => e@ is Decode && !(map_get(m@, key@) matches Some(JsonData::Str(_))),
        },
{
    match m.get(key) {
        Some(x) => match x.as_str() {
            Some(s) => Ok(s.clone()),
            None => Err(decode_fail()),
        },
        None => Err(decode_fail()),
    }
}

/// A decode failure for a rights entry of an unexpected shape.
fn decode_fail() -> (e: SdkError)
    ensures
        e@ is Decode,
{
    SdkError::Decode { message: "a rights entry has an unexpected shape".to_owned() }
}

} // verus!
