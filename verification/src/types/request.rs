//! The Operation Descriptor: an immutable value describing one logical
//! remote call, built by a chain of consuming setters and never mutated
//! after it is handed to a transport.

use crate::json::{jview, map_get, map_put, JsonData, JsonMap, JsonValue};
use vstd::prelude::*;

verus! {

/// Mathematical model of a [`KuzzleRequest`].
pub struct RequestData {
    pub controller: Seq<char>,
    pub action: Seq<char>,
    pub index: Option<Seq<char>>,
    pub collection: Option<Seq<char>>,
    pub strategy: Option<Seq<char>>,
    pub jwt: Option<Seq<char>>,
    pub body: Seq<(Seq<char>, JsonData)>,
    pub query_strings: Seq<(Seq<char>, JsonData)>,
}

/// A fresh descriptor: controller and action set, everything else empty.
pub open spec fn req_new(controller: Seq<char>, action: Seq<char>) -> RequestData {
    RequestData {
        controller,
        action,
        index: None,
        collection: None,
        strategy: None,
        jwt: None,
        body: Seq::empty(),
        query_strings: Seq::empty(),
    }
}

/// An optional field read back as a string: the empty string when unset.
pub open spec fn opt_or_empty(o: Option<Seq<char>>) -> Seq<char> {
    match o {
        Some(s) => s,
        None => Seq::empty(),
    }
}

/// An operation descriptor: controller name, action name, optional resource
/// qualifiers, a body payload, query parameters and an optional bearer
/// credential.
#[derive(Debug)]
pub struct KuzzleRequest {
    controller: String,
    action: String,
    index: Option<String>,
    collection: Option<String>,
    strategy: Option<String>,
    jwt: Option<String>,
    body: JsonMap,
    query_strings: JsonMap,
}

impl View for KuzzleRequest {
    type V = RequestData;

    closed spec fn view(&self) -> RequestData {
        RequestData {
            controller: self.controller@,
            action: self.action@,
            index: match self.index {
                Some(s) => Some(s@),
                None => None,
            },
            collection: match self.collection {
                Some(s) => Some(s@),
                None => None,
            },
            strategy: match self.strategy {
                Some(s) => Some(s@),
                None => None,
            },
            jwt: match self.jwt {
                Some(s) => Some(s@),
                None => None,
            },
            body: self.body@,
            query_strings: self.query_strings@,
        }
    }
}

impl KuzzleRequest {
    /// A descriptor for one logical (controller, action) operation.
    pub fn new(controller: &str, action: &str) -> (r: KuzzleRequest)
        ensures
            r@ == req_new(controller@, action@),
    {
        let r = KuzzleRequest {
            controller: controller.to_owned(),
            action: action.to_owned(),
            index: None,
            collection: None,
            strategy: None,
            jwt: None,
            body: JsonMap::new(),
            query_strings: JsonMap::new(),
        };
        proof {
            assert(r@.body =~= Seq::<(Seq<char>, JsonData)>::empty());
            assert(r@.query_strings =~= Seq::<(Seq<char>, JsonData)>::empty());
        }
        r
    }

    pub fn controller(&self) -> (r: &String)
        ensures
            r@ == self@.controller,
    {
        &self.controller
    }

    pub fn action(&self) -> (r: &String)
        ensures
            r@ == self@.action,
    {
        &self.action
    }

    /// The index qualifier, or the empty string when unset.
    pub fn index(&self) -> (r: String)
        ensures
            r@ == opt_or_empty(self@.index),
    {
        match &self.index {
            Some(index) => index.clone(),
            None => String::new(),
        }
    }

    /// The collection qualifier, or the empty string when unset.
    pub fn collection(&self) -> (r: String)
        ensures
            r@ == opt_or_empty(self@.collection),
    {
        match &self.collection {
            Some(collection) => collection.clone(),
            None => String::new(),
        }
    }

    /// The strategy qualifier, or the empty string when unset.
    pub fn strategy(&self) -> (r: String)
        ensures
            r@ == opt_or_empty(self@.strategy),
    {
        match &self.strategy {
            Some(strategy) => strategy.clone(),
            None => String::new(),
        }
    }

    /// The bearer credential, or the empty string when none is attached.
    pub fn jwt(&self) -> (r: String)
        ensures
            r@ == opt_or_empty(self@.jwt),
    {
        match &self.jwt {
            Some(jwt) => jwt.clone(),
            None => String::new(),
        }
    }

    /// The body payload.
    pub fn body(&self) -> (r: &JsonMap)
        ensures
            r@ == self@.body,
    {
        &self.body
    }

    /// The query parameters.
    pub fn query_strings(&self) -> (r: &JsonMap)
        ensures
            r@ == self@.query_strings,
    {
        &self.query_strings
    }

    /// The descriptor with its index qualifier set.
    pub fn set_index(self, index: &str) -> (r: KuzzleRequest)
        ensures
            r@ == (RequestData { index: Some(index@), ..self@ }),
    {
        KuzzleRequest { index: Some(index.to_owned()), ..self }
    }

    /// The descriptor with its strategy qualifier set.
    pub fn set_strategy(self, strategy: &str) -> (r: KuzzleRequest)
        ensures
            r@ == (RequestData { strategy: Some(strategy@), ..self@ }),
    {
        KuzzleRequest { strategy: Some(strategy.to_owned()), ..self }
    }

    /// The descriptor with a bearer credential attached.
    pub fn set_jwt(self, jwt: String) -> (r: KuzzleRequest)
        ensures
            r@ == (RequestData { jwt: Some(jwt@), ..self@ }),
    {
        KuzzleRequest { jwt: Some(jwt), ..self }
    }

    /// The descriptor with its body replaced.
    pub fn set_body(self, body: JsonMap) -> (r: KuzzleRequest)
        ensures
            r@ == (RequestData { body: body@, ..self@ }),
    {
        KuzzleRequest { body, ..self }
    }

    /// The descriptor with one body field bound: a later insertion of the
    /// same key overwrites the earlier one.
    pub fn add_to_body(self, key: &str, value: JsonValue) -> (r: KuzzleRequest)
        ensures
            r@ == (RequestData { body: map_put(self@.body, key@, jview(value)), ..self@ }),
    {
        let mut r = self;
        r.body.insert(key.to_owned(), value);
        r
    }

    /// The descriptor with one query parameter bound, overwriting as
    /// `add_to_body` does.
    pub fn add_to_query_strings(self, key: &str, value: JsonValue) -> (r: KuzzleRequest)
        ensures
            r@ == (RequestData {
                query_strings: map_put(self@.query_strings, key@, jview(value)),
                ..self@
            }),
    {
        let mut r = self;
        r.query_strings.insert(key.to_owned(), value);
        r
    }
}

/// Building a descriptor through the builder chain and reading each field
/// back yields exactly the values set: fields never set read back as empty,
/// and of two body insertions sharing a key the later one is read back.
pub proof fn lemma_descriptor_round_trip(
    controller: Seq<char>,
    action: Seq<char>,
    strategy: Seq<char>,
    key: Seq<char>,
    first: JsonData,
    second: JsonData,
)
    ensures
        ({
            let d = req_new(controller, action);
            let built = RequestData {
                body: map_put(map_put(d.body, key, first), key, second),
                ..(RequestData { strategy: Some(strategy), ..d })
            };
            built.controller == controller && built.action == action && opt_or_empty(
                built.strategy,
            ) == strategy && map_get(built.body, key) == Some(second) && opt_or_empty(built.index)
                == Seq::<char>::empty() && opt_or_empty(built.collection) == Seq::<char>::empty()
                && opt_or_empty(built.jwt) == Seq::<char>::empty() && built.query_strings
                == Seq::<(Seq<char>, JsonData)>::empty()
        }),
{
    let d = req_new(controller, action);
    crate::json::lemma_map_put_get(map_put(d.body, key, first), key, second);
}

} // verus!
