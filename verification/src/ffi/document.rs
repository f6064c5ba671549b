//! JSON documents handed to the host, as a tree that verified code builds
//! and whose shape the contracts state.

use vstd::prelude::*;

verus! {

/// The mathematical value of a JSON document.
#[verifier::ext_equal]
pub enum Json {
    Null,
    Bool(bool),
    Int(int),
    Text(Seq<char>),
    List(Seq<Json>),
    /// Member keys and, at the same positions, member values.
    Object(Seq<Seq<char>>, Seq<Json>),
}

/// The JSON object with the given members, in order.
pub open spec fn object(members: Seq<(Seq<char>, Json)>) -> Json {
    Json::Object(
        members.map_values(|m: (Seq<char>, Json)| m.0),
        members.map_values(|m: (Seq<char>, Json)| m.1),
    )
}

/// A JSON document as the library builds it; object members keep the order
/// in which they were added. When it is serialised for the host (by
/// serde_json's `Map`, in `app/`), the host receives object keys sorted and a
/// key added twice only once, with the value added last.
pub enum JsonValue {
    Null,
    Bool(bool),
    Int(i64),
    Text(String),
    List(Vec<JsonValue>),
    /// Member keys and, at the same positions, member values.
    Object(Vec<String>, Vec<JsonValue>),
}

impl View for JsonValue {
    type V = Json;

    open spec fn view(&self) -> Json
        decreases self,
    {
        match self {
            JsonValue::Null => Json::Null,
            JsonValue::Bool(b) => Json::Bool(*b),
            JsonValue::Int(n) => Json::Int(*n as int),
            JsonValue::Text(s) => Json::Text(s@),
            JsonValue::List(items) => Json::List(
                Seq::new(
                    items@.len(),
                    |i: int|
                        {
                            if 0 <= i < items@.len() {
                                items@[i].view()
                            } else {
                                Json::Null
                            }
                        },
                ),
            ),
            JsonValue::Object(keys, values) => Json::Object(
                keys@.map_values(|k: String| k@),
                Seq::new(
                    values@.len(),
                    |i: int|
                        {
                            if 0 <= i < values@.len() {
                                values@[i].view()
                            } else {
                                Json::Null
                            }
                        },
                ),
            ),
        }
    }
}

/// `doc` is an object with exactly one member named `key`, and that member's
/// value is `value`.
pub open spec fn has_member(doc: Json, key: Seq<char>, value: Json) -> bool {
    match doc {
        Json::Object(keys, values) => {
            &&& keys.len() == values.len()
            &&& exists|i: int|
                #![trigger keys[i]]
                0 <= i < keys.len() && keys[i] == key && values[i] == value && (forall|j: int|
                    0 <= j < keys.len() && #[trigger] keys[j] == key ==> j == i)
        },
        _ => false,
    }
}

/// `doc` is a list whose entries are, in order, the documents `entries`.
pub open spec fn is_list_of(doc: Json, entries: Seq<Json>) -> bool {
    doc matches Json::List(items) && items.len() == entries.len() && forall|i: int|
        0 <= i < entries.len() ==> #[trigger] items[i] == entries[i]
}

/// No two members have the same name.
pub open spec fn distinct_keys(members: Seq<(Seq<char>, Json)>) -> bool {
    forall|a: int, b: int|
        0 <= a < members.len() && 0 <= b < members.len() && a != b ==> (#[trigger] members[a]).0
            != (#[trigger] members[b]).0
}

/// An object built from members with distinct names has each of them as its
/// only member of that name.
pub proof fn lemma_object_member(members: Seq<(Seq<char>, Json)>, i: int)
    requires
        0 <= i < members.len(),
        distinct_keys(members),
    ensures
        has_member(object(members), members[i].0, members[i].1),
{
    let keys = members.map_values(|m: (Seq<char>, Json)| m.0);
    let values = members.map_values(|m: (Seq<char>, Json)| m.1);
    assert(keys[i] == members[i].0);
    assert(values[i] == members[i].1);
    assert forall|j: int| 0 <= j < keys.len() && #[trigger] keys[j] == members[i].0 implies j
        == i by {
        if j != i {
            assert(members[j].0 != members[i].0);
        }
    }
}

/// A list of texts is shown as a list of strings, one per text, in order;
/// an optional text as the text, or `null` when there is none.
pub proof fn law_text_documents(texts: Seq<Seq<char>>, value: Option<Seq<char>>, strings: Seq<String>)
    ensures
        string_views(strings).len() == strings.len(),
        forall|i: int| 0 <= i < strings.len() ==> #[trigger] string_views(strings)[i] == strings[i]@,
        is_list_of(texts_json(texts), Seq::new(texts.len(), |i: int| Json::Text(texts[i]))),
        value matches Some(text) ==> optional_text_json(value) == Json::Text(text),
        value is None ==> optional_text_json(value) == Json::Null,
{
}

/// The views of a list of documents.
pub open spec fn views(items: Seq<JsonValue>) -> Seq<Json> {
    items.map_values(|v: JsonValue| v@)
}

/// An optional text, as JSON: `null` or the text.
pub open spec fn optional_text_json(value: Option<Seq<char>>) -> Json {
    match value {
        Some(text) => Json::Text(text),
        None => Json::Null,
    }
}

/// A list of texts, as a JSON list of strings.
pub open spec fn texts_json(texts: Seq<Seq<char>>) -> Json {
    Json::List(texts.map_values(|t: Seq<char>| Json::Text(t)))
}

/// The views of a list of strings.
pub open spec fn string_views(texts: Seq<String>) -> Seq<Seq<char>> {
    texts.map_values(|t: String| t@)
}

impl JsonValue {
    /// A copy of the document.
    pub fn duplicate(&self) -> (res: JsonValue)
        ensures
            res@ == self@,
        decreases self,
    {
        match self {
            JsonValue::Null => JsonValue::Null,
            JsonValue::Bool(b) => JsonValue::Bool(*b),
            JsonValue::Int(n) => JsonValue::Int(*n),
            JsonValue::Text(t) => JsonValue::Text(t.clone()),
            JsonValue::List(items) => {
                let mut copies: Vec<JsonValue> = Vec::new();
                for i in 0..items.len()
                    invariant
                        *self == JsonValue::List(*items),
                        copies@.len() == i,
                        forall|j: int| 0 <= j < i ==> #[trigger] copies@[j]@ == items@[j]@,
                {
                    proof {
                        assert(decreases_to!(*self => self->List_0));
                        assert(decreases_to!(*items => items@));
                        assert(decreases_to!(items@ => items@[i as int]));
                    }
                    copies.push(items[i].duplicate());
                }
                let res = JsonValue::List(copies);
                assert forall|j: int| 0 <= j < items@.len() implies res@->List_0[j] == self@->List_0[j] by {
                    assert(copies@[j]@ == items@[j]@);
                }
                assert(res@->List_0 =~= self@->List_0);
                res
            },
            JsonValue::Object(keys, values) => {
                let mut key_copies: Vec<String> = Vec::new();
                let mut copies: Vec<JsonValue> = Vec::new();
                for i in 0..values.len()
                    invariant
                        *self == JsonValue::Object(*keys, *values),
                        copies@.len() == i,
                        forall|j: int| 0 <= j < i ==> #[trigger] copies@[j]@ == values@[j]@,
                {
                    proof {
                        assert(decreases_to!(*self => self->Object_1));
                        assert(decreases_to!(*values => values@));
                        assert(decreases_to!(values@ => values@[i as int]));
                    }
                    copies.push(values[i].duplicate());
                }
                for i in 0..keys.len()
                    invariant
                        key_copies@.len() == i,
                        forall|j: int| 0 <= j < i ==> #[trigger] key_copies@[j]@ == keys@[j]@,
                {
                    key_copies.push(keys[i].clone());
                }
                let res = JsonValue::Object(key_copies, copies);
                assert(res@->Object_0 =~= self@->Object_0);
                assert forall|j: int| 0 <= j < values@.len() implies res@->Object_1[j] == self@->Object_1[j] by {
                    assert(copies@[j]@ == values@[j]@);
                }
                assert(res@->Object_1 =~= self@->Object_1);
                res
            },
        }
    }

    /// A JSON string with the given text.
    pub fn text(value: &str) -> (res: JsonValue)
        ensures
            res@ == Json::Text(value@),
    {
        JsonValue::Text(value.to_owned())
    }

    /// `null` for `None`, otherwise the text.
    pub fn optional_text(value: &Option<String>) -> (res: JsonValue)
        ensures
            res@ == optional_text_json(crate::ffi::opt_view(*value)),
    {
        match value {
            Some(text) => JsonValue::Text(text.clone()),
            None => JsonValue::Null,
        }
    }

    /// `null` for `None`, otherwise the number.
    pub fn optional_int(value: Option<i64>) -> (res: JsonValue)
        ensures
            res@ == match value {
                Some(n) => Json::Int(n as int),
                None => Json::Null,
            },
    {
        match value {
            Some(n) => JsonValue::Int(n),
            None => JsonValue::Null,
        }
    }

    /// A JSON list of the given documents, in order.
    pub fn list(items: Vec<JsonValue>) -> (res: JsonValue)
        ensures
            res@ == Json::List(views(items@)),
    {
        let res = JsonValue::List(items);
        assert(res@->List_0 =~= views(items@));
        res
    }

    /// A JSON list of strings.
    pub fn texts(values: &Vec<String>) -> (res: JsonValue)
        ensures
            res@ == texts_json(string_views(values@)),
    {
        let mut items: Vec<JsonValue> = Vec::new();
        for i in 0..values.len()
            invariant
                items@.len() == i,
                forall|j: int|
                    0 <= j < i ==> #[trigger] items@[j]@ == Json::Text(values@[j]@),
        {
            items.push(JsonValue::Text(values[i].clone()));
        }
        let res = JsonValue::list(items);
        assert(views(items@) =~= string_views(values@).map_values(|t: Seq<char>| Json::Text(t)));
        res
    }
}

/// Builds a JSON object member by member.
pub struct ObjectBuilder {
    keys: Vec<String>,
    values: Vec<JsonValue>,
}

impl View for ObjectBuilder {
    type V = Seq<(Seq<char>, Json)>;

    closed spec fn view(&self) -> Seq<(Seq<char>, Json)> {
        Seq::new(self.values@.len(), |i: int| (self.keys@[i]@, self.values@[i]@))
    }
}

impl ObjectBuilder {
    /// Every key has its value.
    pub closed spec fn well_formed(&self) -> bool {
        self.keys@.len() == self.values@.len()
    }

    /// An object with no members yet.
    pub fn new() -> (res: ObjectBuilder)
        ensures
            res@ == Seq::<(Seq<char>, Json)>::empty(),
            res.well_formed(),
    {
        let res = ObjectBuilder { keys: Vec::new(), values: Vec::new() };
        assert(res@ =~= Seq::<(Seq<char>, Json)>::empty());
        res
    }

    /// Adds the member `key` with `value` after the members added so far.
    pub fn field(&mut self, key: &str, value: JsonValue)
        requires
            old(self).well_formed(),
        ensures
            final(self).well_formed(),
            final(self)@ == old(self)@.push((key@, value@)),
    {
        self.keys.push(key.to_owned());
        self.values.push(value);
        assert(self@ =~= old(self)@.push((key@, value@)));
    }

    /// The object, with its members in the order they were added.
    pub fn build(self) -> (res: JsonValue)
        requires
            self.well_formed(),
        ensures
            res@ == object(self@),
    {
        let ghost expected = self@;
        let keys = self.keys;
        let values = self.values;
        let res = JsonValue::Object(keys, values);
        assert(res@->Object_0 =~= expected.map_values(|m: (Seq<char>, Json)| m.0));
        assert(res@->Object_1 =~= expected.map_values(|m: (Seq<char>, Json)| m.1));
        res
    }
}

} // verus!
