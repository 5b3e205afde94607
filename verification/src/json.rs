//! JSON values as plain data, read with `serde_json`.
use vstd::prelude::*;

use crate::text::{all_digits, cat, cat3, chars_of, is_digit, opt_string_view, owned, str_eq};

verus! {

#[verifier::external_type_specification]
#[verifier::external_body]
pub struct ExJsonValue(serde_json::Value);

/// A JSON value. Numbers keep their text; an object keeps its members in
/// the parser's order.
#[derive(Debug)]
pub enum Json {
    Null,
    Bool(bool),
    Number(String),
    Text(String),
    Array(Vec<Json>),
    Object(Vec<(String, Json)>),
}

/// A JSON value as a mathematical value.
pub enum JsonModel {
    Null,
    Bool(bool),
    Number(Seq<char>),
    Text(Seq<char>),
    Array(Seq<JsonModel>),
    Object(Seq<(Seq<char>, JsonModel)>),
}

pub open spec fn json_model(v: Json) -> JsonModel
    decreases v,
{
    match v {
        Json::Null => JsonModel::Null,
        Json::Bool(b) => JsonModel::Bool(b),
        Json::Number(t) => JsonModel::Number(t@),
        Json::Text(s) => JsonModel::Text(s@),
        Json::Array(items) => JsonModel::Array(
            Seq::new(
                items@.len(),
                |i: int|
                    if 0 <= i < items@.len() {
                        json_model(items@[i])
                    } else {
                        JsonModel::Null
                    },
            ),
        ),
        Json::Object(members) => JsonModel::Object(
            Seq::new(
                members@.len(),
                |i: int|
                    if 0 <= i < members@.len() {
                        (members@[i].0@, json_model(members@[i].1))
                    } else {
                        (Seq::empty(), JsonModel::Null)
                    },
            ),
        ),
    }
}

/// What `serde_json::from_str::<Value>` gives for a text: the value, or
/// the parser's error text.
pub uninterp spec fn parsed_json(raw: Seq<char>) -> Result<JsonModel, Seq<char>>;

/// `serde_json::Value` as a [`Json`], variant for variant.
#[verifier::external_body]
fn json_of(v: serde_json::Value) -> Json {
    match v {
        serde_json::Value::Null => Json::Null,
        serde_json::Value::Bool(b) => Json::Bool(b),
        serde_json::Value::Number(n) => Json::Number(n.to_string()),
        serde_json::Value::String(s) => Json::Text(s),
        serde_json::Value::Array(a) => Json::Array(a.into_iter().map(json_of).collect()),
        serde_json::Value::Object(m) => Json::Object(m.into_iter().map(|(k, x)| (k, json_of(x))).collect()),
    }
}

/// `serde_json::from_str::<serde_json::Value>`: the contract claims that
/// the outcome is the one named by [`parsed_json`] for the text, with the
/// error as its display text.
#[verifier::external_body]
pub(crate) fn parse_json(raw: &str) -> (res: Result<Json, String>)
    ensures
        match res {
            Ok(v) => parsed_json(raw@) == Ok::<JsonModel, Seq<char>>(json_model(v)),
            Err(e) => parsed_json(raw@) == Err::<JsonModel, Seq<char>>(e@),
        },
{
    match serde_json::from_str::<serde_json::Value>(raw) {
        Ok(v) => Ok(json_of(v)),
        Err(e) => Err(e.to_string()),
    }
}

/// The values of an array as plain values.
pub open spec fn item_models(items: Seq<Json>) -> Seq<JsonModel> {
    Seq::new(items.len(), |i: int| json_model(items[i]))
}

/// The members of an object as plain values.
pub open spec fn member_models(members: Seq<(String, Json)>) -> Seq<(Seq<char>, JsonModel)> {
    Seq::new(members.len(), |i: int| (members[i].0@, json_model(members[i].1)))
}

/// An array's or object's model is that of its parts.
pub proof fn lemma_parts_model(v: Json)
    ensures
        v matches Json::Array(items) ==> json_model(v) == JsonModel::Array(item_models(items@)),
        v matches Json::Object(members) ==> json_model(v) == JsonModel::Object(member_models(members@)),
{
    match v {
        Json::Array(items) => {
            assert(json_model(v)->Array_0 =~= item_models(items@));
        },
        Json::Object(members) => {
            assert(json_model(v)->Object_0 =~= member_models(members@));
        },
        _ => {},
    }
}

/// The value of the first member named `key`, if any.
pub open spec fn member(fields: Seq<(Seq<char>, JsonModel)>, key: Seq<char>) -> Option<JsonModel>
    decreases fields.len(),
{
    if fields.len() == 0 {
        None
    } else if fields[0].0 == key {
        Some(fields[0].1)
    } else {
        member(fields.drop_first(), key)
    }
}

/// What `serde_json::Value::get` gives with a key: the member of an
/// object; nothing for any other value.
pub open spec fn get_field(v: JsonModel, key: Seq<char>) -> Option<JsonModel> {
    match v {
        JsonModel::Object(fields) => member(fields, key),
        _ => None,
    }
}

/// The text of a string value.
pub open spec fn text_of(v: Option<JsonModel>) -> Option<Seq<char>> {
    match v {
        Some(JsonModel::Text(s)) => Some(s),
        _ => None,
    }
}

/// The member names of an object, in order; none for any other value.
pub open spec fn member_names(v: JsonModel) -> Seq<Seq<char>> {
    match v {
        JsonModel::Object(fields) => fields.map_values(|f: (Seq<char>, JsonModel)| f.0),
        _ => Seq::empty(),
    }
}

proof fn lemma_member_at(fields: Seq<(Seq<char>, JsonModel)>, key: Seq<char>, i: int)
    requires
        0 <= i <= fields.len(),
        forall|j: int| 0 <= j < i ==> (#[trigger] fields[j]).0 != key,
    ensures
        i < fields.len() && fields[i].0 == key ==> member(fields, key) == Some(fields[i].1),
        i == fields.len() ==> member(fields, key) is None,
    decreases i,
{
    if i > 0 {
        assert(fields[0].0 != key);
        let rest = fields.drop_first();
        assert forall|j: int| 0 <= j < i - 1 implies (#[trigger] rest[j]).0 != key by {
            assert(rest[j] == fields[j + 1]);
        }
        lemma_member_at(rest, key, i - 1);
    }
}

/// The member of `v` named `key`, where `v` is an object that has one.
pub fn json_get<'a>(v: &'a Json, key: &str) -> (res: Option<&'a Json>)
    ensures
        match res {
            Some(x) => get_field(json_model(*v), key@) == Some(json_model(*x)),
            None => get_field(json_model(*v), key@) is None,
        },
{
    match v {
        Json::Object(members) => {
            let ghost fields = match json_model(*v) {
                JsonModel::Object(f) => f,
                _ => Seq::empty(),
            };
            assert(fields.len() == members@.len());
            let mut i: usize = 0;
            while i < members.len()
                invariant
                    i <= members.len(),
                    fields.len() == members@.len(),
                    json_model(*v) == JsonModel::Object(fields),
                    forall|j: int| 0 <= j < members@.len() ==> #[trigger] fields[j] == (members@[j].0@, json_model(members@[j].1)),
                    forall|j: int| 0 <= j < i ==> (#[trigger] fields[j]).0 != key@,
                decreases members.len() - i,
            {
                if str_eq(members[i].0.as_str(), key) {
                    proof {
                        lemma_member_at(fields, key@, i as int);
                    }
                    return Some(&members[i].1);
                }
                i = i + 1;
            }
            proof {
                lemma_member_at(fields, key@, i as int);
            }
            None
        },
        _ => None,
    }
}

/// The text of the member of `v` named `key`, where it is a string.
pub fn text_member(v: &Json, key: &str) -> (res: Option<String>)
    ensures
        opt_string_view(res) == text_of(get_field(json_model(*v), key@)),
{
    match json_get(v, key) {
        Some(Json::Text(s)) => Some(s.clone()),
        _ => None,
    }
}

/// A number's text is an integer's: digits, with a leading `-` or not.
pub open spec fn is_integer_text(t: Seq<char>) -> bool {
    ||| (t.len() > 0 && all_digits(t))
    ||| (t.len() > 1 && t[0] == '-' && all_digits(t.drop_first()))
}

/// What `format!("{:?}", s)` gives for a `str`: the text quoted, with
/// escapes.
pub uninterp spec fn debug_quoted(s: Seq<char>) -> Seq<char>;

/// How `serde_json` names an unexpected value in its error texts.
pub open spec fn unexpected_text(m: JsonModel) -> Seq<char> {
    match m {
        JsonModel::Null => "null"@,
        JsonModel::Bool(b) => if b {
            "boolean `true`"@
        } else {
            "boolean `false`"@
        },
        JsonModel::Number(t) => if is_integer_text(t) {
            "integer `"@ + t + "`"@
        } else {
            "floating point `"@ + t + "`"@
        },
        JsonModel::Text(s) => "string "@ + debug_quoted(s),
        JsonModel::Array(_) => "sequence"@,
        JsonModel::Object(_) => "map"@,
    }
}

/// The error text for a value of the wrong kind.
pub open spec fn invalid_type(m: JsonModel, expected: Seq<char>) -> Seq<char> {
    "invalid type: "@ + unexpected_text(m) + ", expected "@ + expected
}

/// `format!("{:?}", s)` on a `str` (std's `Debug` for `str`): the contract
/// names its result, which depends on `s` alone.
#[verifier::external_body]
fn debug_quote(s: &str) -> (res: String)
    ensures
        res@ == debug_quoted(s@),
{
    format!("{:?}", s)
}

/// Whether every character of `v` from `from` on is a digit (and there is one).
fn digits_from(v: &Vec<char>, from: usize) -> (res: bool)
    requires
        from <= v.len(),
    ensures
        res == (v@.skip(from as int).len() > 0 && all_digits(v@.skip(from as int))),
{
    if from >= v.len() {
        return false;
    }
    let mut i = from;
    while i < v.len()
        invariant
            from <= i <= v.len(),
            forall|j: int| from <= j < i ==> is_digit(#[trigger] v@[j]),
        decreases v.len() - i,
    {
        let code = v[i] as u32;
        if !(48 <= code && code <= 57) {
            assert(!is_digit(v@.skip(from as int)[i - from]));
            return false;
        }
        i = i + 1;
    }
    assert forall|j: int| 0 <= j < v@.skip(from as int).len() implies is_digit(#[trigger] v@.skip(from as int)[j]) by {
        assert(v@.skip(from as int)[j] == v@[j + from]);
    }
    true
}

/// Whether `t` is one or more decimal digits.
pub fn is_digits_str(t: &str) -> (res: bool)
    ensures
        res == (t@.len() > 0 && all_digits(t@)),
{
    let v = chars_of(t);
    assert(v@.skip(0) =~= v@);
    digits_from(&v, 0)
}

/// Whether the number text `t` is an integer's.
pub fn is_integer_str(t: &str) -> (res: bool)
    ensures
        res == is_integer_text(t@),
{
    let v = chars_of(t);
    assert(v@.skip(0) =~= v@);
    if digits_from(&v, 0) {
        return true;
    }
    if v.len() > 1 && v[0] == '-' {
        assert(v@.skip(1) =~= v@.drop_first());
        return digits_from(&v, 1);
    }
    false
}

/// How `serde_json` names the value `v` in its error texts.
pub fn unexpected_of(v: &Json) -> (res: String)
    ensures
        res@ == unexpected_text(json_model(*v)),
{
    match v {
        Json::Null => owned("null"),
        Json::Bool(b) => if *b {
            owned("boolean `true`")
        } else {
            owned("boolean `false`")
        },
        Json::Number(t) => if is_integer_str(t.as_str()) {
            cat3("integer `", t.as_str(), "`")
        } else {
            cat3("floating point `", t.as_str(), "`")
        },
        Json::Text(s) => {
            let q = debug_quote(s.as_str());
            cat("string ", q.as_str())
        },
        Json::Array(_) => owned("sequence"),
        Json::Object(_) => owned("map"),
    }
}

/// The error text for `v` where a value of the kind `expected` was wanted.
pub fn invalid_type_text(v: &Json, expected: &str) -> (res: String)
    ensures
        res@ == invalid_type(json_model(*v), expected@),
{
    let u = unexpected_of(v);
    let head = cat3("invalid type: ", u.as_str(), ", expected ");
    cat(head.as_str(), expected)
}

} // verus!
