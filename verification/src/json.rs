//! The JSON value model: request bodies, query parameters and decoded
//! replies are all values of [`JsonValue`], whose mathematical model is
//! [`JsonData`].

use vstd::prelude::*;

verus! {

broadcast use vstd::std_specs::vec::group_vec_axioms, vstd::seq::group_seq_axioms;

/// Mathematical model of a JSON value. Objects are modelled as the sequence
/// of their entries, in insertion order; [`map_get`] reads them as a mapping.
pub enum JsonData {
    Null,
    Bool(bool),
    Int(int),
    Str(Seq<char>),
    Arr(Seq<JsonData>),
    Obj(Seq<(Seq<char>, JsonData)>),
}

/// A JSON value: null, a boolean, an integer number, a string, an array, or
/// an object. Numbers are integers; a fractional or exponent form in a wire
/// reply is reported as a decode failure rather than approximated.
#[derive(Debug)]
pub enum JsonValue {
    Null,
    Bool(bool),
    Int(i64),
    Str(String),
    Arr(Vec<JsonValue>),
    Obj(JsonMap),
}

/// A string-keyed mapping of JSON values, in insertion order. Inserting a
/// key that is already present overwrites its value in place.
#[derive(Debug)]
pub struct JsonMap {
    entries: Vec<(String, JsonValue)>,
}

/// The model of a [`JsonValue`].
pub open spec fn jview(v: JsonValue) -> JsonData
    decreases v,
{
    match v {
        JsonValue::Null => JsonData::Null,
        JsonValue::Bool(b) => JsonData::Bool(b),
        JsonValue::Int(i) => JsonData::Int(i as int),
        JsonValue::Str(s) => JsonData::Str(s@),
        JsonValue::Arr(items) => JsonData::Arr(jview_elems(items@)),
        JsonValue::Obj(m) => JsonData::Obj(mview(m)),
    }
}

/// The model of a sequence of JSON values, element for element.
pub open spec fn jview_elems(items: Seq<JsonValue>) -> Seq<JsonData>
    decreases items,
{
    if items.len() == 0 {
        Seq::empty()
    } else {
        seq![jview(items[0])] + jview_elems(items.drop_first())
    }
}

/// The model of a sequence of object entries, entry for entry.
pub open spec fn jview_entries(entries: Seq<(String, JsonValue)>) -> Seq<(Seq<char>, JsonData)>
    decreases entries,
{
    if entries.len() == 0 {
        Seq::empty()
    } else {
        seq![(entries[0].0@, jview(entries[0].1))] + jview_entries(entries.drop_first())
    }
}

/// The model of a [`JsonMap`]: its entries, in order.
pub closed spec fn mview(m: JsonMap) -> Seq<(Seq<char>, JsonData)>
    decreases m,
{
    jview_entries(m.entries@)
}

/// A [`JsonMap`]'s view is [`mview`] of it.
pub proof fn lemma_map_view(m: &JsonMap)
    ensures
        m@ == mview(*m),
{
}

impl View for JsonValue {
    type V = JsonData;

    open spec fn view(&self) -> JsonData {
        jview(*self)
    }
}

impl View for JsonMap {
    type V = Seq<(Seq<char>, JsonData)>;

    closed spec fn view(&self) -> Seq<(Seq<char>, JsonData)> {
        mview(*self)
    }
}

/// What looking a key up in an object's entry sequence yields: the value of
/// the first entry carrying the key, if any.
pub open spec fn map_get(s: Seq<(Seq<char>, JsonData)>, key: Seq<char>) -> Option<JsonData>
    decreases s.len(),
{
    if s.len() == 0 {
        None
    } else if s[0].0 == key {
        Some(s[0].1)
    } else {
        map_get(s.drop_first(), key)
    }
}

/// What inserting into an object's entry sequence yields: the first entry
/// carrying the key has its value overwritten in place; a fresh key is
/// appended at the end.
pub open spec fn map_put(
    s: Seq<(Seq<char>, JsonData)>,
    key: Seq<char>,
    value: JsonData,
) -> Seq<(Seq<char>, JsonData)>
    decreases s.len(),
{
    if s.len() == 0 {
        seq![(key, value)]
    } else if s[0].0 == key {
        seq![(key, value)] + s.drop_first()
    } else {
        seq![s[0]] + map_put(s.drop_first(), key, value)
    }
}

/// Reading back an inserted key yields the inserted value: the later
/// insertion overwrites whatever the key was bound to before.
pub proof fn lemma_map_put_get(s: Seq<(Seq<char>, JsonData)>, key: Seq<char>, value: JsonData)
    ensures
        map_get(map_put(s, key, value), key) == Some(value),
    decreases s.len(),
{
    if s.len() == 0 {
    } else if s[0].0 == key {
        assert(map_put(s, key, value)[0] == (key, value));
    } else {
        lemma_map_put_get(s.drop_first(), key, value);
        assert(map_put(s, key, value).drop_first() =~= map_put(s.drop_first(), key, value));
    }
}

/// Inserting one key leaves every other key's binding unchanged.
pub proof fn lemma_map_put_get_other(
    s: Seq<(Seq<char>, JsonData)>,
    key: Seq<char>,
    value: JsonData,
    other: Seq<char>,
)
    requires
        other != key,
    ensures
        map_get(map_put(s, key, value), other) == map_get(s, other),
    decreases s.len(),
{
    reveal_with_fuel(map_get, 3);
    if s.len() == 0 {
        assert(map_put(s, key, value)[0] == (key, value));
        assert(map_put(s, key, value).drop_first().len() == 0);
    } else if s[0].0 == key {
        assert(map_put(s, key, value)[0] == (key, value));
        assert(map_put(s, key, value).drop_first() =~= s.drop_first());
    } else {
        lemma_map_put_get_other(s.drop_first(), key, value, other);
        assert(map_put(s, key, value)[0] == s[0]);
        assert(map_put(s, key, value).drop_first() =~= map_put(s.drop_first(), key, value));
    }
}

/// The element views line up index for index with the elements.
pub proof fn lemma_jview_elems(items: Seq<JsonValue>)
    ensures
        jview_elems(items).len() == items.len(),
        forall|j: int|
            0 <= j < items.len() ==> jview_elems(items)[j] == jview(items[j]),
    decreases items,
{
    if items.len() == 0 {
    } else {
        lemma_jview_elems(items.drop_first());
        assert forall|j: int|
            0 <= j < items.len() implies jview_elems(items)[j] == jview(items[j]) by {
            if j > 0 {
                assert(items.drop_first()[j - 1] == items[j]);
            }
        }
    }
}

/// The entry views line up index for index with the entries.
pub proof fn lemma_jview_entries(entries: Seq<(String, JsonValue)>)
    ensures
        jview_entries(entries).len() == entries.len(),
        forall|j: int|
            0 <= j < entries.len() ==> jview_entries(entries)[j] == (
                entries[j].0@,
                jview(entries[j].1),
            ),
    decreases entries,
{
    if entries.len() == 0 {
    } else {
        lemma_jview_entries(entries.drop_first());
        assert forall|j: int|
            0 <= j < entries.len() implies jview_entries(entries)[j] == (
            entries[j].0@,
            jview(entries[j].1),
        ) by {
            if j > 0 {
                assert(entries.drop_first()[j - 1] == entries[j]);
            }
        }
    }
}

impl JsonMap {
    /// An empty mapping.
    pub fn new() -> (r: JsonMap)
        ensures
            r@ =~= Seq::<(Seq<char>, JsonData)>::empty(),
    {
        JsonMap { entries: Vec::new() }
    }

    pub fn len(&self) -> (r: usize)
        ensures
            r == self@.len(),
    {
        proof {
            lemma_jview_entries(self.entries@);
        }
        self.entries.len()
    }

    pub fn is_empty(&self) -> (r: bool)
        ensures
            r <==> self@.len() == 0,
    {
        proof {
            lemma_jview_entries(self.entries@);
        }
        self.entries.len() == 0
    }

    /// The entries, in insertion order.
    pub fn entries(&self) -> (r: &Vec<(String, JsonValue)>)
        ensures
            r@.len() == self@.len(),
            forall|i: int|
                0 <= i < r@.len() ==> self@[i] == (r@[i].0@, jview(r@[i].1)),
            decreases_to!(*self => *r),
    {
        proof {
            lemma_jview_entries(self.entries@);
        }
        &self.entries
    }

    /// The value bound to `key`, if any.
    pub fn get(&self, key: &str) -> (r: Option<&JsonValue>)
        ensures
            match r {
                Some(v) => map_get(self@, key@) == Some(jview(*v)),
                None => map_get(self@, key@) is None,
            },
    {
        proof {
            lemma_jview_entries(self.entries@);
            assert(self@.skip(0) =~= self@);
        }
        let wanted: String = key.to_owned();
        let n: usize = self.entries.len();
        let mut i: usize = 0;
        while i < n
            invariant
                0 <= i <= n,
                n == self.entries@.len(),
                wanted@ == key@,
                self@ == jview_entries(self.entries@),
                self@.len() == n,
                forall|j: int|
                    0 <= j < n ==> self@[j] == (self.entries@[j].0@, jview(self.entries@[j].1)),
                map_get(self@, key@) == map_get(self@.skip(i as int), key@),
            decreases n - i,
        {
            if self.entries[i].0.eq(&wanted) {
                proof {
                    assert(self@.skip(i as int)[0] == self@[i as int]);
                }
                return Some(&self.entries[i].1);
            }
            proof {
                assert(self@.skip(i as int)[0] == self@[i as int]);
                assert(self@.skip(i as int).drop_first() =~= self@.skip(i + 1));
            }
            i = i + 1;
        }
        proof {
            assert(self@.skip(n as int).len() == 0);
        }
        None
    }

    /// Puts an entry in front of the others, keeping whatever already
    /// carries the key: the wire decoder builds objects front to back, and
    /// a later duplicate key in the wire text loses to the earlier one.
    pub(crate) fn prepend(&mut self, key: String, value: JsonValue)
        ensures
            final(self)@ =~= seq![(key@, jview(value))] + old(self)@,
    {
        proof {
            lemma_jview_entries(self.entries@);
        }
        let ghost old_entries = self.entries@;
        let ghost old_view = self@;
        let ghost key_view = key@;
        let ghost value_view = jview(value);
        self.entries.insert(0, (key, value));
        proof {
            lemma_jview_entries(self.entries@);
            assert forall|j: int| 0 <= j < self@.len() implies self@[j] == (seq![
                (key_view, value_view),
            ] + old_view)[j] by {
                if j > 0 {
                    assert(self.entries@[j] == old_entries[j - 1]);
                }
            }
            assert(self@ =~= seq![(key_view, value_view)] + old_view);
        }
    }

    /// Appends an entry unconditionally, keeping the stored order.
    pub(crate) fn push_entry(&mut self, key: String, value: JsonValue)
        ensures
            final(self)@ =~= old(self)@.push((key@, jview(value))),
    {
        proof {
            lemma_jview_entries(self.entries@);
        }
        let ghost old_entries = self.entries@;
        let ghost old_view = self@;
        let ghost key_view = key@;
        let ghost value_view = jview(value);
        self.entries.push((key, value));
        proof {
            lemma_jview_entries(self.entries@);
            assert forall|j: int| 0 <= j < self@.len() implies self@[j] == old_view.push(
                (key_view, value_view),
            )[j] by {
                if j < old_view.len() {
                    assert(self.entries@[j] == old_entries[j]);
                }
            }
            assert(self@ =~= old_view.push((key_view, value_view)));
        }
    }

    /// An entry-for-entry copy.
    pub fn duplicate(&self) -> (r: JsonMap)
        ensures
            r@ == self@,
        decreases *self,
    {
        let entries: &Vec<(String, JsonValue)> = self.entries();
        let n: usize = entries.len();
        let mut out: JsonMap = JsonMap::new();
        let mut k: usize = 0;
        while k < n
            invariant
                0 <= k <= n,
                n == entries@.len(),
                self@.len() == n,
                forall|j: int|
                    0 <= j < n ==> self@[j] == (entries@[j].0@, jview(entries@[j].1)),
                out@ == self@.subrange(0, k as int),
                decreases_to!(*self => *entries),
            decreases n - k,
        {
            proof {
                assert(decreases_to!(*entries => entries@[k as int]));
                assert(decreases_to!(entries@[k as int] => entries@[k as int].1));
            }
            let copy: JsonValue = entries[k].1.duplicate();
            out.push_entry(entries[k].0.clone(), copy);
            proof {
                assert(out@ =~= self@.subrange(0, k + 1));
            }
            k = k + 1;
        }
        proof {
            assert(self@.subrange(0, n as int) =~= self@);
        }
        out
    }

    /// Binds `key` to `value`: overwrites the first entry already carrying
    /// `key`, or appends a new entry.
    pub fn insert(&mut self, key: String, value: JsonValue)
        ensures
            final(self)@ =~= map_put(old(self)@, key@, jview(value)),
    {
        proof {
            lemma_jview_entries(self.entries@);
        }
        let ghost old_entries = self.entries@;
        let ghost old_view = self@;
        let n: usize = self.entries.len();
        let mut i: usize = 0;
        while i < n
            invariant
                0 <= i <= n,
                n == self.entries@.len(),
                self.entries@ == old_entries,
                old_view == jview_entries(old_entries),
                old_view == old(self)@,
                old_view.len() == n,
                forall|j: int|
                    0 <= j < n ==> old_view[j] == (old_entries[j].0@, jview(old_entries[j].1)),
                forall|j: int| 0 <= j < i ==> old_view[j].0 != key@,
            decreases n - i,
        {
            if self.entries[i].0.eq(&key) {
                let ghost key_view = key@;
                let ghost value_view = jview(value);
                self.entries.set(i, (key, value));
                proof {
                    lemma_map_put_prefix(old_view, key_view, value_view, i as int);
                    lemma_jview_entries(self.entries@);
                    assert(self@ =~= old_view.update(i as int, (key_view, value_view)));
                }
                return ;
            }
            i = i + 1;
        }
        let ghost key_view = key@;
        let ghost value_view = jview(value);
        self.entries.push((key, value));
        proof {
            lemma_map_put_append(old_view, key_view, value_view);
            lemma_jview_entries(self.entries@);
            assert(self@ =~= old_view.push((key_view, value_view)));
        }
    }
}

/// When the first `i` entries all carry other keys and entry `i` carries
/// `key`, inserting overwrites entry `i` in place.
proof fn lemma_map_put_prefix(s: Seq<(Seq<char>, JsonData)>, key: Seq<char>, value: JsonData, i: int)
    requires
        0 <= i < s.len(),
        forall|j: int| 0 <= j < i ==> s[j].0 != key,
        s[i].0 == key,
    ensures
        map_put(s, key, value) =~= s.update(i, (key, value)),
    decreases s.len(),
{
    if i == 0 {
        assert(map_put(s, key, value) =~= seq![(key, value)] + s.drop_first());
        assert(seq![(key, value)] + s.drop_first() =~= s.update(0, (key, value)));
    } else {
        assert(s.drop_first()[i - 1].0 == key);
        assert(forall|j: int| 0 <= j < i - 1 ==> s.drop_first()[j] == s[j + 1]);
        lemma_map_put_prefix(s.drop_first(), key, value, i - 1);
        assert(seq![s[0]] + s.drop_first().update(i - 1, (key, value)) =~= s.update(
            i,
            (key, value),
        ));
    }
}

/// When no entry carries `key`, inserting appends the new entry at the end.
proof fn lemma_map_put_append(s: Seq<(Seq<char>, JsonData)>, key: Seq<char>, value: JsonData)
    requires
        forall|j: int| 0 <= j < s.len() ==> s[j].0 != key,
    ensures
        map_put(s, key, value) =~= s.push((key, value)),
    decreases s.len(),
{
    if s.len() == 0 {
    } else {
        lemma_map_put_append(s.drop_first(), key, value);
        assert(seq![s[0]] + s.drop_first().push((key, value)) =~= s.push((key, value)));
    }
}

impl JsonValue {
    /// A structurally equal copy.
    pub fn duplicate(&self) -> (r: JsonValue)
        ensures
            jview(r) == jview(*self),
        decreases *self,
    {
        match self {
            JsonValue::Null => JsonValue::Null,
            JsonValue::Bool(b) => JsonValue::Bool(*b),
            JsonValue::Int(i) => JsonValue::Int(*i),
            JsonValue::Str(s) => JsonValue::Str(s.clone()),
            JsonValue::Arr(items) => {
                let ghost iv = jview_elems(items@);
                proof {
                    lemma_jview_elems(items@);
                }
                let n: usize = items.len();
                let mut out: Vec<JsonValue> = Vec::new();
                let mut k: usize = 0;
                while k < n
                    invariant
                        0 <= k <= n,
                        n == items@.len(),
                        iv == jview_elems(items@),
                        iv.len() == n,
                        forall|j: int| 0 <= j < n ==> iv[j] == jview(items@[j]),
                        out@.len() == k,
                        forall|j: int| 0 <= j < k ==> jview(out@[j]) == iv[j],
                        decreases_to!(*self => *items),
                    decreases n - k,
                {
                    proof {
                        assert(decreases_to!(*items => items@[k as int]));
                    }
                    let copy: JsonValue = items[k].duplicate();
                    out.push(copy);
                    k = k + 1;
                }
                proof {
                    lemma_jview_elems(out@);
                    assert(jview_elems(out@) =~= iv);
                }
                JsonValue::Arr(out)
            },
            JsonValue::Obj(m) => {
                proof {
                    assert(decreases_to!(JsonValue::Obj(*m) => *m));
                }
                JsonValue::Obj(m.duplicate())
            },
        }
    }

    /// True for the JSON constant `null`.
    pub fn is_null(&self) -> (r: bool)
        ensures
            r <==> self@ is Null,
    {
        match self {
            JsonValue::Null => true,
            _ => false,
        }
    }

    /// The boolean this value is, if it is one.
    pub fn as_bool(&self) -> (r: Option<bool>)
        ensures
            match r {
                Some(b) => self@ == JsonData::Bool(b),
                None => !(self@ is Bool),
            },
    {
        match self {
            JsonValue::Bool(b) => Some(*b),
            _ => None,
        }
    }

    /// The integer this value is, if it is one.
    pub fn as_i64(&self) -> (r: Option<i64>)
        ensures
            match r {
                Some(i) => self@ == JsonData::Int(i as int),
                None => !(self@ is Int),
            },
    {
        match self {
            JsonValue::Int(i) => Some(*i),
            _ => None,
        }
    }

    /// The string this value is, if it is one.
    pub fn as_str(&self) -> (r: Option<&String>)
        ensures
            match r {
                Some(s) => self@ == JsonData::Str(s@),
                None => !(self@ is Str),
            },
    {
        match self {
            JsonValue::Str(s) => Some(s),
            _ => None,
        }
    }

    /// The elements of this value, if it is an array.
    pub fn as_array(&self) -> (r: Option<&Vec<JsonValue>>)
        ensures
            match r {
                Some(items) => self@ == JsonData::Arr(jview_elems(items@)),
                None => !(self@ is Arr),
            },
    {
        match self {
            JsonValue::Arr(items) => Some(items),
            _ => None,
        }
    }

    /// The mapping this value is, if it is an object.
    pub fn as_object(&self) -> (r: Option<&JsonMap>)
        ensures
            match r {
                Some(m) => self@ == JsonData::Obj(m@),
                None => !(self@ is Obj),
            },
    {
        match self {
            JsonValue::Obj(m) => Some(m),
            _ => None,
        }
    }

    /// The mapping this value is, owned, if it is an object.
    pub fn into_object(self) -> (r: Option<JsonMap>)
        ensures
            match r {
                Some(m) => self@ == JsonData::Obj(m@),
                None => !(self@ is Obj),
            },
    {
        match self {
            JsonValue::Obj(m) => Some(m),
            _ => None,
        }
    }

    /// The value bound to `key`, if this value is an object binding it.
    pub fn get(&self, key: &str) -> (r: Option<&JsonValue>)
        ensures
            match r {
                Some(v) => self@ matches JsonData::Obj(entries) && map_get(entries, key@)
                    == Some(jview(*v)),
                None => !(self@ is Obj) || (self@ matches JsonData::Obj(entries) && map_get(
                    entries,
                    key@,
                ) is None),
            },
    {
        match self {
            JsonValue::Obj(m) => m.get(key),
            _ => None,
        }
    }
}

} // verus!
