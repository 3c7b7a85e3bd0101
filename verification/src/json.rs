use serde_json::Value;
use vstd::prelude::*;

verus! {

/// A JSON document as the library holds it. A number read from a text keeps
/// the text that serde_json prints for it; a number the library makes is an
/// integer. Object members keep their order.
#[derive(Debug)]
pub enum JsonValue {
    Null,
    Bool(bool),
    Number(String),
    Integer(i128),
    Str(String),
    Array(Vec<JsonValue>),
    Object(Vec<(String, JsonValue)>),
}

/// The mathematical model of a JSON document.
pub enum Json {
    Null,
    Bool(bool),
    Number(Seq<char>),
    Str(Seq<char>),
    Array(Seq<Json>),
    Object(Seq<(Seq<char>, Json)>),
}

impl JsonValue {
    /// The model of the document.
    pub open spec fn model(&self) -> Json
        decreases self,
    {
        match self {
            JsonValue::Null => Json::Null,
            JsonValue::Bool(b) => Json::Bool(*b),
            JsonValue::Number(n) => Json::Number(n@),
            JsonValue::Integer(i) => Json::Number(int_text(*i as int)),
            JsonValue::Str(s) => Json::Str(s@),
            JsonValue::Array(items) => Json::Array(
                Seq::new(
                    items.len() as nat,
                    |i: int|
                        if 0 <= i < items.len() {
                            items@[i].model()
                        } else {
                            Json::Null
                        },
                ),
            ),
            JsonValue::Object(members) => Json::Object(
                Seq::new(
                    members.len() as nat,
                    |i: int|
                        if 0 <= i < members.len() {
                            (members@[i].0@, members@[i].1.model())
                        } else {
                            (Seq::empty(), Json::Null)
                        },
                ),
            ),
        }
    }
}

impl View for JsonValue {
    type V = Json;

    open spec fn view(&self) -> Json {
        self.model()
    }
}

/// The views of a sequence of documents.
pub open spec fn views(items: Seq<JsonValue>) -> Seq<Json> {
    Seq::new(items.len(), |i: int| items[i]@)
}

/// The views of a sequence of object members.
pub open spec fn member_views(members: Seq<(String, JsonValue)>) -> Seq<(Seq<char>, Json)> {
    Seq::new(members.len(), |i: int| (members[i].0@, members[i].1@))
}

/// The view of an array is the array of the views of its items.
pub proof fn lemma_array_view(items: Vec<JsonValue>)
    ensures
        JsonValue::Array(items)@ == Json::Array(views(items@)),
{
    assert(JsonValue::Array(items)@->Array_0 =~= views(items@));
}

/// The view of an object is the object of the views of its members.
pub proof fn lemma_object_view(members: Vec<(String, JsonValue)>)
    ensures
        JsonValue::Object(members)@ == Json::Object(member_views(members@)),
{
    assert(JsonValue::Object(members)@->Object_0 =~= member_views(members@));
}

/// The model of an outcome that is a document or an error message.
pub open spec fn outcome_view(r: Result<JsonValue, String>) -> Result<Json, Seq<char>> {
    match r {
        Ok(v) => Ok(v@),
        Err(e) => Err(e@),
    }
}

/// What serde_json makes of a text when it reads it as a `serde_json::Value`:
/// the document (with the members of each object in the order of their keys,
/// a later duplicate key replacing an earlier one), or its error message.
pub uninterp spec fn parsed_json(text: Seq<char>) -> Result<Json, Seq<char>>;

#[verifier::external_type_specification]
#[verifier::external_body]
pub struct ExSerdeJsonValue(serde_json::Value);

/// Moves a `serde_json::Value` into the library's own representation, one
/// variant for one variant; a number becomes the text that serde_json prints
/// for it, and the members of an object come in the map's own order.
#[verifier::external_body]
fn from_serde_value(value: serde_json::Value) -> JsonValue {
    match value {
        serde_json::Value::Null => JsonValue::Null,
        serde_json::Value::Bool(b) => JsonValue::Bool(b),
        serde_json::Value::Number(n) => JsonValue::Number(n.to_string()),
        serde_json::Value::String(s) => JsonValue::Str(s),
        serde_json::Value::Array(a) => JsonValue::Array(a.into_iter().map(from_serde_value).collect()),
        serde_json::Value::Object(m) => JsonValue::Object(
            m.into_iter().map(|(k, v)| (k, from_serde_value(v))).collect(),
        ),
    }
}

/// Reads a text with `serde_json::from_str::<serde_json::Value>`. The
/// contract claims that the outcome is `parsed_json` of the text: the
/// document read, or the message of serde_json's error; and that a document
/// read is readable: it nests fewer than 128 containers, its keys come from
/// a map in their order, and its numbers are the texts serde_json writes.
#[verifier::external_body]
pub(crate) fn parse_json(text: &str) -> (r: Result<JsonValue, String>)
    ensures
        outcome_view(r) == parsed_json(text@),
        r is Ok ==> readable(r->Ok_0@),
{
    serde_json::from_str::<serde_json::Value>(text).map(from_serde_value).map_err(|e| e.to_string())
}

// ---------------------------------------------------------------------------
// Decimal text of integers.
/// The decimal digit `d` as text.
pub open spec fn digit_text(d: nat) -> Seq<char> {
    if d == 0 {
        "0"@
    } else if d == 1 {
        "1"@
    } else if d == 2 {
        "2"@
    } else if d == 3 {
        "3"@
    } else if d == 4 {
        "4"@
    } else if d == 5 {
        "5"@
    } else if d == 6 {
        "6"@
    } else if d == 7 {
        "7"@
    } else if d == 8 {
        "8"@
    } else {
        "9"@
    }
}

/// The decimal text of a natural number, without leading zeros.
pub open spec fn nat_text(n: nat) -> Seq<char>
    decreases n,
{
    if n < 10 {
        digit_text(n)
    } else {
        nat_text(n / 10) + digit_text(n % 10)
    }
}

/// The decimal text of an integer, with a leading minus when it is negative.
pub open spec fn int_text(i: int) -> Seq<char> {
    if i < 0 {
        "-"@ + nat_text((-i) as nat)
    } else {
        nat_text(i as nat)
    }
}

/// The JSON number for an integer.
pub fn integer_json(i: i64) -> (r: JsonValue)
    ensures
        r@ == Json::Number(int_text(i as int)),
{
    JsonValue::Integer(i as i128)
}

/// The JSON number for a count.
pub fn count_json(n: usize) -> (r: JsonValue)
    ensures
        r@ == Json::Number(nat_text(n as nat)),
{
    JsonValue::Integer(n as i128)
}

// ---------------------------------------------------------------------------
// Documents that serde_json reads back as they were written.
/// Whether `a` comes strictly before `b` in the order of their characters'
/// code points, the order of the keys of a serde_json map.
pub open spec fn key_less(a: Seq<char>, b: Seq<char>) -> bool
    decreases a.len(),
{
    if a.len() == 0 {
        b.len() > 0
    } else if b.len() == 0 {
        false
    } else if (a[0] as u32) < (b[0] as u32) {
        true
    } else if a[0] == b[0] {
        key_less(a.drop_first(), b.drop_first())
    } else {
        false
    }
}

/// The keys of an object come in strictly increasing order.
pub open spec fn keys_ascending(members: Seq<(Seq<char>, Json)>) -> bool {
    forall|i: int| 0 <= i < members.len() - 1 ==> key_less(#[trigger] members[i].0, members[i + 1].0)
}

/// The text of an integer that serde_json holds exactly.
pub open spec fn integral_text(t: Seq<char>) -> bool {
    exists|i: int| -0x8000_0000_0000_0000 <= i <= 0xffff_ffff_ffff_ffff && t == #[trigger] int_text(i)
}

/// A document whose containers nest at most `room` deep, whose numbers are
/// integers that serde_json holds exactly or texts that serde_json writes
/// back unchanged, and whose objects have their keys in increasing order.
pub open spec fn fits(j: Json, room: nat) -> bool
    decreases j,
{
    match j {
        Json::Number(t) => integral_text(t) || json_text(Json::Number(t)) == Some(t),
        Json::Array(items) => room > 0 && forall|i: int|
            0 <= i < items.len() ==> fits(#[trigger] items[i], (room - 1) as nat),
        Json::Object(members) => room > 0 && keys_ascending(members) && forall|i: int|
            0 <= i < members.len() ==> fits(#[trigger] members[i].1, (room - 1) as nat),
        _ => true,
    }
}

/// serde_json reads the document `j` from the text.
pub open spec fn reads_back(text: Seq<char>, j: Json) -> bool {
    parsed_json(text) == Ok::<Json, Seq<char>>(j)
}

/// A document that serde_json reads back from its own text as it was: it
/// stops reading at 128 nested containers, writes a number as its shortest
/// text (which it reads back exactly, as the crate asks for
/// `float_roundtrip`), and keeps the members of an object in the order of
/// their keys.
pub open spec fn readable(j: Json) -> bool {
    fits(j, 127)
}

// ---------------------------------------------------------------------------
// Writing documents with serde_json.
/// The view of an optional text.
pub open spec fn opt_text_view(o: Option<String>) -> Option<Seq<char>> {
    match o {
        Some(s) => Some(s@),
        None => None,
    }
}

/// What `serde_json::to_string` writes for a document: nothing when a number
/// of it is not a number that serde_json holds.
pub uninterp spec fn json_text(j: Json) -> Option<Seq<char>>;

/// What `serde_json::to_string_pretty` writes for a document: nothing when a
/// number of it is not a number that serde_json holds.
pub uninterp spec fn json_pretty_text(j: Json) -> Option<Seq<char>>;

/// Moves a document into a `serde_json::Value`, one variant for one variant;
/// a number, whether kept as text or made as an integer, is read from its
/// decimal text by serde_json; an object's members go into a serde_json map.
/// Nothing comes out when a number is not one that serde_json reads.
#[verifier::external_body]
fn to_serde_value(v: &JsonValue) -> Option<Value> {
    Some(match v {
        JsonValue::Null => Value::Null,
        JsonValue::Bool(b) => Value::Bool(*b),
        JsonValue::Number(n) => Value::Number(n.parse().ok()?),
        JsonValue::Integer(i) => Value::Number(i.to_string().parse().ok()?),
        JsonValue::Str(s) => Value::String(s.clone()),
        JsonValue::Array(a) => Value::Array(a.iter().map(to_serde_value).collect::<Option<_>>()?),
        JsonValue::Object(m) => Value::Object(
            m.iter().map(|(k, x)| Some((k.clone(), to_serde_value(x)?))).collect::<Option<_>>()?,
        ),
    })
}

/// Writes a document with `serde_json::to_string`. The contract claims that
/// the text is `json_text` of the document, and that serde_json reads a
/// readable document back from it unchanged.
#[verifier::external_body]
pub(crate) fn compact_string(v: &JsonValue) -> (r: Option<String>)
    ensures
        opt_text_view(r) == json_text(v@),
        readable(v@) ==> r is Some && reads_back(r->Some_0@, v@),
{
    to_serde_value(v).and_then(|x| serde_json::to_string(&x).ok())
}

/// Writes a document with `serde_json::to_string_pretty`. The contract claims
/// that the text is `json_pretty_text` of the document, and that serde_json
/// reads a readable document back from it unchanged.
#[verifier::external_body]
pub(crate) fn pretty_string(v: &JsonValue) -> (r: Option<String>)
    ensures
        opt_text_view(r) == json_pretty_text(v@),
        readable(v@) ==> r is Some && reads_back(r->Some_0@, v@),
{
    to_serde_value(v).and_then(|x| serde_json::to_string_pretty(&x).ok())
}


// ---------------------------------------------------------------------------
// Reading and building documents.
/// The value of the last member of an object whose key is `key`: the one
/// that a serde_json map keeps.
pub open spec fn member_lookup(members: Seq<(Seq<char>, Json)>, key: Seq<char>) -> Option<Json>
    decreases members.len(),
{
    if members.len() == 0 {
        None
    } else if members.last().0 == key {
        Some(members.last().1)
    } else {
        member_lookup(members.drop_last(), key)
    }
}

/// What `serde_json::Value::get` with a string key gives: the member of an
/// object, and nothing for any other document.
pub open spec fn json_get(j: Json, key: Seq<char>) -> Option<Json> {
    match j {
        Json::Object(members) => member_lookup(members, key),
        _ => None,
    }
}

/// Reading a member of an object gives the value of the last member with
/// that key, as a serde_json map keeps it; nothing when no member has it.
pub proof fn law_get_finds_the_last_member(members: Seq<(Seq<char>, Json)>, key: Seq<char>)
    ensures
        json_get(Json::Object(members), key) is None <==> forall|i: int|
            0 <= i < members.len() ==> (#[trigger] members[i]).0 != key,
        json_get(Json::Object(members), key) matches Some(v) ==> exists|i: int|
            0 <= i < members.len() && (#[trigger] members[i]) == (key, v) && forall|j: int|
                i < j < members.len() ==> (#[trigger] members[j]).0 != key,
    decreases members.len(),
{
    if members.len() > 0 {
        let rest = members.drop_last();
        law_get_finds_the_last_member(rest, key);
        assert forall|i: int| 0 <= i < rest.len() implies rest[i] == members[i] by {}
        if members.last().0 == key {
            let i = members.len() - 1;
            assert(members[i] == (key, members.last().1));
        } else if member_lookup(rest, key) is Some {
            let v = member_lookup(rest, key)->Some_0;
            let i = choose|i: int|
                0 <= i < rest.len() && (#[trigger] rest[i]) == (key, v) && forall|j: int|
                    i < j < rest.len() ==> (#[trigger] rest[j]).0 != key;
            assert(members[i] == (key, v));
            assert forall|j: int| i < j < members.len() implies (#[trigger] members[j]).0 != key by {
                if j < rest.len() {
                    assert(rest[j] == members[j]);
                }
            }
        }
    }
}

/// The text of a document that is a string, as `serde_json::Value::as_str`
/// gives it.
pub open spec fn json_as_str(j: Option<Json>) -> Option<Seq<char>> {
    match j {
        Some(Json::Str(s)) => Some(s),
        _ => None,
    }
}

/// The text of the member `key` of a document, when that member is a string.
pub open spec fn string_member(j: Json, key: Seq<char>) -> Option<Seq<char>> {
    json_as_str(json_get(j, key))
}

/// The view of an optional reference to a document.
pub open spec fn opt_view(o: Option<&JsonValue>) -> Option<Json> {
    match o {
        Some(v) => Some(v@),
        None => None,
    }
}

/// The view of an optional text.
pub open spec fn opt_str_view(o: Option<&str>) -> Option<Seq<char>> {
    match o {
        Some(s) => Some(s@),
        None => None,
    }
}

impl JsonValue {
    /// The member `key` of an object; nothing for any other document.
    pub fn get(&self, key: &str) -> (r: Option<&JsonValue>)
        ensures
            opt_view(r) == json_get(self@, key@),
    {
        match self {
            JsonValue::Object(members) => {
                proof {
                    lemma_object_view(*members);
                }
                let ghost mv = member_views(members@);
                let wanted = String::from_str(key);
                let mut i: usize = members.len();
                assert(mv.subrange(0, mv.len() as int) =~= mv);
                while i > 0
                    invariant
                        i <= members.len(),
                        mv == member_views(members@),
                        wanted@ == key@,
                        self@ == Json::Object(mv),
                        member_lookup(mv, key@) == member_lookup(mv.subrange(0, i as int), key@),
                    decreases i,
                {
                    let k = i - 1;
                    if members[k].0 == wanted {
                        assert(mv.subrange(0, i as int).last() == mv[k as int]);
                        return Some(&members[k].1);
                    }
                    assert(mv.subrange(0, i as int).drop_last() =~= mv.subrange(0, k as int));
                    i = k;
                }
                None
            },
            _ => None,
        }
    }

    /// The text of a string; nothing for any other document.
    pub fn as_str(&self) -> (r: Option<&str>)
        ensures
            opt_str_view(r) == json_as_str(Some(self@)),
    {
        match self {
            JsonValue::Str(s) => Some(s.as_str()),
            _ => None,
        }
    }

    /// The text of the member `key`, when that member is a string.
    pub fn string_member(&self, key: &str) -> (r: Option<&str>)
        ensures
            opt_str_view(r) == string_member(self@, key@),
    {
        match self.get(key) {
            Some(v) => v.as_str(),
            None => None,
        }
    }

    /// A copy of the document.
    pub fn duplicate(&self) -> (r: JsonValue)
        ensures
            r@ == self@,
        decreases self,
    {
        match self {
            JsonValue::Null => JsonValue::Null,
            JsonValue::Bool(b) => JsonValue::Bool(*b),
            JsonValue::Number(n) => JsonValue::Number(n.clone()),
            JsonValue::Integer(i) => JsonValue::Integer(*i),
            JsonValue::Str(s) => JsonValue::Str(s.clone()),
            JsonValue::Array(items) => {
                proof {
                    lemma_array_view(*items);
                }
                let mut copy: Vec<JsonValue> = Vec::new();
                let mut i: usize = 0;
                while i < items.len()
                    invariant
                        i <= items.len(),
                        *self == JsonValue::Array(*items),
                        self@ == Json::Array(views(items@)),
                        copy.len() == i,
                        forall|k: int| 0 <= k < i ==> (#[trigger] copy@[k])@ == items@[k]@,
                    decreases items.len() - i,
                {
                    proof {
                        assert(decreases_to!(*self => items@[i as int]));
                    }
                    let item = items[i].duplicate();
                    copy.push(item);
                    i += 1;
                }
                assert(views(copy@) =~= views(items@));
                proof {
                    lemma_array_view(copy);
                }
                JsonValue::Array(copy)
            },
            JsonValue::Object(members) => {
                proof {
                    lemma_object_view(*members);
                }
                let mut copy: Vec<(String, JsonValue)> = Vec::new();
                let mut i: usize = 0;
                while i < members.len()
                    invariant
                        i <= members.len(),
                        *self == JsonValue::Object(*members),
                        self@ == Json::Object(member_views(members@)),
                        copy.len() == i,
                        forall|k: int| 0 <= k < i ==> (#[trigger] copy@[k]).0@ == members@[k].0@ && copy@[k].1@ == members@[k].1@,
                    decreases members.len() - i,
                {
                    proof {
                        assert(decreases_to!(*self => members@[i as int].1));
                    }
                    let value = members[i].1.duplicate();
                    copy.push((members[i].0.clone(), value));
                    i += 1;
                }
                assert(member_views(copy@) =~= member_views(members@));
                proof {
                    lemma_object_view(copy);
                }
                JsonValue::Object(copy)
            },
        }
    }

    /// The string document for a text.
    pub fn text(s: &str) -> (r: JsonValue)
        ensures
            r@ == Json::Str(s@),
    {
        JsonValue::Str(String::from_str(s))
    }

    /// An object of the given members, in the given order.
    pub fn object(members: Vec<(String, JsonValue)>) -> (r: JsonValue)
        ensures
            r@ == Json::Object(member_views(members@)),
    {
        proof {
            lemma_object_view(members);
        }
        JsonValue::Object(members)
    }

    /// An array of the given items, in the given order.
    pub fn array(items: Vec<JsonValue>) -> (r: JsonValue)
        ensures
            r@ == Json::Array(views(items@)),
    {
        proof {
            lemma_array_view(items);
        }
        JsonValue::Array(items)
    }
}

/// Whether a text is the given one.
pub(crate) fn text_is(s: &String, literal: &str) -> (r: bool)
    ensures
        r == (s@ == literal@),
{
    let l = String::from_str(literal);
    *s == l
}

/// A member of an object.
pub fn member(key: &str, value: JsonValue) -> (r: (String, JsonValue))
    ensures
        r.0@ == key@,
        r.1 == value,
{
    (String::from_str(key), value)
}

} // verus!
