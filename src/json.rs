use vstd::prelude::*;
use serde_json::Value;

verus! {

/// One value of a JSON object, as far as the wire protocol reads it: a
/// string, an integer, an object whose members are strings (`None` marks a
/// member of another kind), or anything else.
#[derive(Debug, Clone)]
pub enum JsonValue {
    Str(String),
    Int(i64),
    Object(Vec<(String, Option<String>)>),
    Other,
}

/// The mathematical content of a `JsonValue`.
pub enum JsonModel {
    Str(Seq<char>),
    Int(int),
    Object(Seq<(Seq<char>, Option<Seq<char>>)>),
    Other,
}

/// The content of a nested member list.
pub open spec fn members_view(m: Seq<(String, Option<String>)>) -> Seq<(Seq<char>, Option<Seq<char>>)> {
    m.map_values(|p: (String, Option<String>)| (p.0@, match p.1 {
        Some(s) => Some(s@),
        None => None,
    }))
}

impl View for JsonValue {
    type V = JsonModel;

    open spec fn view(&self) -> JsonModel {
        match self {
            JsonValue::Str(s) => JsonModel::Str(s@),
            JsonValue::Int(i) => JsonModel::Int(*i as int),
            JsonValue::Object(m) => JsonModel::Object(members_view(m@)),
            JsonValue::Other => JsonModel::Other,
        }
    }
}

/// A JSON object: its members in order.
#[derive(Debug, Clone)]
pub struct JsonObject {
    pub entries: Vec<(String, JsonValue)>,
}

/// The content of a JSON object: (key, value) pairs.
pub type ObjectModel = Seq<(Seq<char>, JsonModel)>;

impl View for JsonObject {
    type V = ObjectModel;

    open spec fn view(&self) -> ObjectModel {
        self.entries@.map_values(|p: (String, JsonValue)| (p.0@, p.1@))
    }
}

/// The value of the first member named `key`.
pub open spec fn lookup(o: ObjectModel, key: Seq<char>) -> Option<JsonModel>
    decreases o.len(),
{
    if o.len() == 0 {
        None
    } else if o[0].0 == key {
        Some(o[0].1)
    } else {
        lookup(o.drop_first(), key)
    }
}

/// The first nested member named `key`: `None` when absent.
pub open spec fn member(m: Seq<(Seq<char>, Option<Seq<char>>)>, key: Seq<char>) -> Option<Option<Seq<char>>>
    decreases m.len(),
{
    if m.len() == 0 {
        None
    } else if m[0].0 == key {
        Some(m[0].1)
    } else {
        member(m.drop_first(), key)
    }
}

/// What `serde_json` reads from a line of text, as an object.
pub uninterp spec fn parsed_json(text: Seq<char>) -> Option<ObjectModel>;

/// What `serde_json` writes for an object.
pub uninterp spec fn json_text(o: ObjectModel) -> Seq<char>;

/// Relies on `serde_json::from_str` into a `serde_json::Map`: the object that
/// a line holds, if it holds one.
#[verifier::external_body]
pub(crate) fn parse_object(line: &str) -> (r: Option<JsonObject>)
    ensures
        match r {
            Some(o) => parsed_json(line@) == Some(o@),
            None => parsed_json(line@) is None,
        },
{
    let map: serde_json::Map<String, Value> = serde_json::from_str(line).ok()?;
    Some(JsonObject { entries: map.into_iter().map(|(k, v)| (k, match v {
        Value::String(s) => JsonValue::Str(s),
        Value::Number(n) => n.as_i64().map_or(JsonValue::Other, JsonValue::Int),
        Value::Object(m) => JsonValue::Object(
            m.into_iter().map(|(k, v)| (k, v.as_str().map(String::from))).collect(),
        ),
        _ => JsonValue::Other,
    })).collect() })
}

/// Relies on `serde_json::Value::to_string`: the text of an object.
#[verifier::external_body]
pub(crate) fn render_object(o: &JsonObject) -> (r: String)
    ensures
        r@ == json_text(o@),
{
    let mut map = serde_json::Map::new();
    for (k, v) in &o.entries {
        map.insert(k.clone(), match v {
            JsonValue::Str(s) => Value::from(s.as_str()),
            JsonValue::Int(i) => Value::from(*i),
            JsonValue::Object(m) => Value::Object(m.iter().map(|(k, v)| (k.clone(), Value::from(v.clone()))).collect()),
            JsonValue::Other => Value::Null,
        });
    }
    Value::Object(map).to_string()
}

/// The index of the first member named `key`, if any.
pub fn find(o: &JsonObject, key: &String) -> (r: Option<usize>)
    ensures
        match r {
            Some(i) => i < o.entries.len() && o.entries@[i as int].0@ == key@
                && lookup(o@, key@) == Some(o.entries@[i as int].1@),
            None => lookup(o@, key@) is None,
        },
{
    let mut i: usize = 0;
    assert(o@.subrange(0, o@.len() as int) =~= o@);
    while i < o.entries.len()
        invariant
            i <= o.entries.len(),
            lookup(o@, key@) == lookup(o@.subrange(i as int, o@.len() as int), key@),
        decreases o.entries.len() - i,
    {
        let ghost rest = o@.subrange(i as int, o@.len() as int);
        assert(rest.drop_first() =~= o@.subrange(i + 1, o@.len() as int));
        if o.entries[i].0 == *key {
            return Some(i);
        }
        i = i + 1;
    }
    None
}

/// The index of the first nested member named `key`, if any.
pub fn find_member(m: &Vec<(String, Option<String>)>, key: &String) -> (r: Option<usize>)
    ensures
        match r {
            Some(i) => i < m.len() && m@[i as int].0@ == key@
                && member(members_view(m@), key@) == Some(members_view(m@)[i as int].1),
            None => member(members_view(m@), key@) is None,
        },
{
    let mut i: usize = 0;
    assert(members_view(m@).subrange(0, m@.len() as int) =~= members_view(m@));
    while i < m.len()
        invariant
            i <= m.len(),
            member(members_view(m@), key@) == member(members_view(m@).subrange(i as int, m@.len() as int), key@),
        decreases m.len() - i,
    {
        let ghost rest = members_view(m@).subrange(i as int, m@.len() as int);
        assert(rest.drop_first() =~= members_view(m@).subrange(i + 1, m@.len() as int));
        if m[i].0 == *key {
            return Some(i);
        }
        i = i + 1;
    }
    None
}

} // verus!
