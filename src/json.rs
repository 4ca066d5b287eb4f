//! JSON text for request payloads: objects are written member by member, and
//! an optional field that is not set is left out of its object.
use vstd::prelude::*;
use crate::date::{date_text, Date};
use crate::text::{decimal, decimal_text, join_texts, joined, json_quoted, json_string, texts};

verus! {

/// The object member `"key":value`.
pub open spec fn member(key: Seq<char>, value: Seq<char>) -> Seq<char> {
    json_quoted(key) + seq![':'] + value
}

/// A JSON object with the given members, in order.
pub open spec fn object_text(members: Seq<Seq<char>>) -> Seq<char> {
    seq!['{'] + joined(members, seq![',']) + seq!['}']
}

/// A JSON array with the given items, in order.
pub open spec fn array_text(items: Seq<Seq<char>>) -> Seq<char> {
    seq!['['] + joined(items, seq![',']) + seq![']']
}

/// The JSON literal of a boolean.
pub open spec fn bool_text(b: bool) -> Seq<char> {
    if b { seq!['t', 'r', 'u', 'e'] } else { seq!['f', 'a', 'l', 's', 'e'] }
}

/// The members that one field adds: one member when the value is set, none
/// when it is not.
pub open spec fn opt_member(key: Seq<char>, value: Option<Seq<char>>) -> Seq<Seq<char>> {
    match value {
        Some(v) => seq![member(key, v)],
        None => Seq::empty(),
    }
}

/// The JSON text of an optional string, when it is set.
pub open spec fn string_value(o: Option<String>) -> Option<Seq<char>> {
    match o {
        Some(s) => Some(json_quoted(s@)),
        None => None,
    }
}

/// The JSON text of an optional number, when it is set.
pub open spec fn u32_value(o: Option<u32>) -> Option<Seq<char>> {
    match o {
        Some(n) => Some(decimal(n as nat)),
        None => None,
    }
}

/// The JSON text of an optional boolean, when it is set.
pub open spec fn bool_value(o: Option<bool>) -> Option<Seq<char>> {
    match o {
        Some(b) => Some(bool_text(b)),
        None => None,
    }
}

/// The JSON text of an optional date (a `YYYY-MM-DD` string), when it is set.
pub open spec fn date_value(o: Option<Date>) -> Option<Seq<char>> {
    match o {
        Some(d) => Some(json_quoted(date_text(d@.0, d@.1, d@.2))),
        None => None,
    }
}

/// The member texts of a JSON object, one per field that is written.
pub open spec fn members_of(v: Vec<String>) -> Seq<Seq<char>> {
    texts(v@)
}

/// A record that is sent as a JSON object.
pub trait JsonObject: Sized {
    /// The JSON text of the record.
    spec fn json_spec(&self) -> Seq<char>;

    fn to_json(&self) -> (r: String)
        ensures
            r@ == self.json_spec(),
    ;
}

/// The JSON texts of the records, in order.
pub open spec fn json_items<T: JsonObject>(v: Seq<T>) -> Seq<Seq<char>> {
    v.map_values(|x: T| x.json_spec())
}

/// Appends the member `"key":value`.
pub(crate) fn push_member(members: &mut Vec<String>, key: &str, value: &str)
    ensures
        members_of(*final(members)) == members_of(*old(members)).push(member(key@, value@)),
{
    let mut m = json_string(key);
    m.append(":");
    m.append(value);
    proof {
        reveal_strlit(":");
        assert(":"@ =~= seq![':']);
        assert(m@ =~= member(key@, value@));
    }
    members.push(m);
    assert(members_of(*members) =~= members_of(*old(members)).push(member(key@, value@)));
}

/// Appends the member for `key` when `value` is set, and nothing otherwise.
pub(crate) fn push_opt_member(members: &mut Vec<String>, key: &str, value: Option<String>)
    ensures
        members_of(*final(members)) == members_of(*old(members)) + opt_member(
            key@,
            match value { Some(v) => Some(v@), None => None },
        ),
{
    match value {
        Some(v) => {
            push_member(members, key, v.as_str());
        },
        None => {},
    }
    assert(members_of(*members) =~= members_of(*old(members)) + opt_member(
        key@,
        match value { Some(v) => Some(v@), None => None },
    ));
}

/// The JSON text of an optional string.
pub(crate) fn opt_string_json(o: &Option<String>) -> (r: Option<String>)
    ensures
        (match r { Some(t) => Some(t@), None => None }) == string_value(*o),
{
    match o {
        Some(s) => Some(json_string(s.as_str())),
        None => None,
    }
}

/// The JSON text of an optional number.
pub(crate) fn opt_u32_json(o: Option<u32>) -> (r: Option<String>)
    ensures
        (match r { Some(t) => Some(t@), None => None }) == u32_value(o),
{
    match o {
        Some(n) => Some(decimal_text(n)),
        None => None,
    }
}

/// The JSON literal of a boolean.
pub(crate) fn bool_json(b: bool) -> (r: String)
    ensures
        r@ == bool_text(b),
{
    proof {
        reveal_strlit("true");
        reveal_strlit("false");
    }
    if b {
        String::from_str("true")
    } else {
        String::from_str("false")
    }
}

/// The JSON text of an optional boolean.
pub(crate) fn opt_bool_json(o: Option<bool>) -> (r: Option<String>)
    ensures
        (match r { Some(t) => Some(t@), None => None }) == bool_value(o),
{
    match o {
        Some(b) => Some(bool_json(b)),
        None => None,
    }
}

/// The JSON text of an optional date.
pub(crate) fn opt_date_json(o: &Option<Date>) -> (r: Option<String>)
    ensures
        (match r { Some(t) => Some(t@), None => None }) == date_value(*o),
{
    match o {
        Some(d) => {
            let t = d.to_text();
            Some(json_string(t.as_str()))
        },
        None => None,
    }
}

/// Wraps text in two delimiters.
fn enclose(open: &str, inner: String, close: &str) -> (r: String)
    ensures
        r@ == open@ + inner@ + close@,
{
    let mut r = String::from_str(open);
    r.append(inner.as_str());
    r.append(close);
    r
}

/// The JSON object with the given members.
pub(crate) fn object_json(members: &Vec<String>) -> (r: String)
    ensures
        r@ == object_text(members_of(*members)),
{
    proof {
        reveal_strlit("{");
        reveal_strlit("}");
        reveal_strlit(",");
    }
    let r = enclose("{", join_texts(members, ","), "}");
    assert("{"@ =~= seq!['{']);
    assert("}"@ =~= seq!['}']);
    assert(","@ =~= seq![',']);
    r
}

/// The JSON array of the records, in order.
pub fn array_json<T: JsonObject>(v: &Vec<T>) -> (r: String)
    ensures
        r@ == array_text(json_items(v@)),
{
    let mut parts: Vec<String> = Vec::new();
    let mut i: usize = 0;
    while i < v.len()
        invariant
            i <= v@.len(),
            texts(parts@) == json_items(v@.subrange(0, i as int)),
        decreases v.len() - i,
    {
        let t = v[i].to_json();
        let ghost before = parts@;
        parts.push(t);
        proof {
            assert(parts@ == before.push(t));
            assert(v@.subrange(0, i + 1) =~= v@.subrange(0, i as int).push(v@[i as int]));
            assert(texts(parts@) =~= texts(before).push(t@));
            assert(json_items(v@.subrange(0, i + 1)) =~= json_items(v@.subrange(0, i as int)).push(
                v@[i as int].json_spec(),
            ));
        }
        i = i + 1;
    }
    assert(v@.subrange(0, v@.len() as int) =~= v@);
    proof {
        reveal_strlit("[");
        reveal_strlit("]");
        reveal_strlit(",");
    }
    let r = enclose("[", join_texts(&parts, ","), "]");
    assert("["@ =~= seq!['[']);
    assert("]"@ =~= seq![']']);
    assert(","@ =~= seq![',']);
    r
}

} // verus!
