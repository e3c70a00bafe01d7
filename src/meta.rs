use vstd::prelude::*;
use vstd::string::StringSliceAdditionalSpecFns;
use crate::text::{push_bytes, push_str};

verus! {

/// Meta key carrying the edge's authentication token.
pub const AUTH_TOKEN_KEY: &'static str = "X-Tunnel-Token";

/// Meta key carrying the upstream `host:port` of a forwarded stream.
pub const FORWARD_TO_KEY: &'static str = "X-Tunnel-Forward-To";

/// Meta key carrying an edge's display name.
pub const DEVICE_NAME_KEY: &'static str = "device_name";

/// Meta key carrying the outcome of an authentication.
pub const RESULT_KEY: &'static str = "result";

/// A metadata value as the protocol reads it: strings and booleans are kept,
/// every other JSON value is only known to be there.
#[derive(Debug)]
pub enum MetaValue {
    Str(String),
    Bool(bool),
    Other,
}

/// The mathematical form of a [`MetaValue`].
pub enum MetaScalar {
    Str(Seq<char>),
    Bool(bool),
    Other,
}

impl View for MetaValue {
    type V = MetaScalar;

    open spec fn view(&self) -> MetaScalar {
        match self {
            MetaValue::Str(s) => MetaScalar::Str(s@),
            MetaValue::Bool(b) => MetaScalar::Bool(*b),
            MetaValue::Other => MetaScalar::Other,
        }
    }
}

/// The entries of a parsed metadata object, as mathematical values.
pub open spec fn entries_view(es: Seq<(String, MetaValue)>) -> Seq<(Seq<char>, MetaScalar)> {
    es.map_values(|e: (String, MetaValue)| (e.0@, e.1@))
}

/// The entries of the JSON object held in `b`, in the parser's order, or
/// `None` when `b` is not a JSON object.
pub uninterp spec fn json_object_entries(b: Seq<u8>) -> Option<Seq<(Seq<char>, MetaScalar)>>;

/// The JSON string literal (quoted and escaped) that denotes `s`.
pub uninterp spec fn json_string_of(s: Seq<char>) -> Seq<u8>;

/// Relies on `serde_json::from_slice` into a `serde_json::Map`: it parses a
/// JSON object, whose entries are handed out with their string and bool values.
#[verifier::external_body]
fn parse_json_object(b: &[u8]) -> (r: Option<Vec<(String, MetaValue)>>)
    ensures
        r.is_some() == json_object_entries(b@).is_some(),
        r.is_some() ==> entries_view(r.unwrap()@) == json_object_entries(b@).unwrap(),
{
    let m = serde_json::from_slice::<serde_json::Map<String, serde_json::Value>>(b).ok()?;
    Some(m.into_iter().map(|(k, v)| match v {
        serde_json::Value::String(s) => (k, MetaValue::Str(s)),
        serde_json::Value::Bool(x) => (k, MetaValue::Bool(x)),
        _ => (k, MetaValue::Other),
    }).collect())
}

/// Relies on `serde_json::to_vec` on a `str`: the JSON string literal of `s`.
#[verifier::external_body]
pub(crate) fn json_quote(s: &str) -> (r: Vec<u8>)
    ensures
        r@ == json_string_of(s@),
{
    serde_json::to_vec(s).unwrap_or_default()
}

/// The string value stored under `key`: the first entry with that key decides.
pub open spec fn str_field(es: Seq<(Seq<char>, MetaScalar)>, key: Seq<char>) -> Option<Seq<char>>
    decreases es.len(),
{
    if es.len() == 0 {
        None
    } else if es[0].0 == key {
        match es[0].1 {
            MetaScalar::Str(s) => Some(s),
            _ => None,
        }
    } else {
        str_field(es.drop_first(), key)
    }
}

/// The bool value stored under `key`: the first entry with that key decides.
pub open spec fn bool_field(es: Seq<(Seq<char>, MetaScalar)>, key: Seq<char>) -> Option<bool>
    decreases es.len(),
{
    if es.len() == 0 {
        None
    } else if es[0].0 == key {
        match es[0].1 {
            MetaScalar::Bool(b) => Some(b),
            _ => None,
        }
    } else {
        bool_field(es.drop_first(), key)
    }
}

/// The string under `key` in the JSON object `meta`, if `meta` is one and holds a string there.
pub open spec fn meta_str_spec(meta: Seq<u8>, key: Seq<char>) -> Option<Seq<char>> {
    match json_object_entries(meta) {
        Some(es) => str_field(es, key),
        None => None,
    }
}

/// The bool under `key` in the JSON object `meta`, if `meta` is one and holds a bool there.
pub open spec fn meta_bool_spec(meta: Seq<u8>, key: Seq<char>) -> Option<bool> {
    match json_object_entries(meta) {
        Some(es) => bool_field(es, key),
        None => None,
    }
}

/// Whether `meta` holds a JSON object.
pub open spec fn is_json_object(meta: Seq<u8>) -> bool {
    json_object_entries(meta).is_some()
}

/// The entries of the JSON object in `meta`, or `None` when it holds none.
pub fn parse_meta(meta: &[u8]) -> (r: Option<Vec<(String, MetaValue)>>)
    ensures
        r.is_some() == json_object_entries(meta@).is_some(),
        r.is_some() ==> entries_view(r.unwrap()@) == json_object_entries(meta@).unwrap(),
{
    parse_json_object(meta)
}

/// Checks that `meta` holds a JSON object.
pub fn meta_is_object(meta: &[u8]) -> (r: bool)
    ensures
        r == is_json_object(meta@),
{
    parse_json_object(meta).is_some()
}

/// Looks up a string value among parsed entries.
pub fn lookup_str(es: &Vec<(String, MetaValue)>, key: &str) -> (r: Option<String>)
    ensures
        r.is_some() == str_field(entries_view(es@), key@).is_some(),
        r.is_some() ==> r.unwrap()@ == str_field(entries_view(es@), key@).unwrap(),
{
    let k = String::from_str(key);
    let ghost all = entries_view(es@);
    proof {
        assert(all.subrange(0, all.len() as int) =~= all);
    }
    let mut i: usize = 0;
    while i < es.len()
        invariant
            i <= es.len(),
            all == entries_view(es@),
            k@ == key@,
            str_field(all, key@) == str_field(all.subrange(i as int, all.len() as int), key@),
        decreases es.len() - i,
    {
        let ghost rest = all.subrange(i as int, all.len() as int);
        assert(rest.drop_first() =~= all.subrange(i + 1, all.len() as int));
        assert(rest[0] == (es@[i as int].0@, es@[i as int].1@));
        if es[i].0 == k {
            return match &es[i].1 {
                MetaValue::Str(s) => Some(s.clone()),
                _ => None,
            };
        }
        i = i + 1;
    }
    None
}

/// Looks up a bool value among parsed entries.
pub fn lookup_bool(es: &Vec<(String, MetaValue)>, key: &str) -> (r: Option<bool>)
    ensures
        r == bool_field(entries_view(es@), key@),
{
    let k = String::from_str(key);
    let ghost all = entries_view(es@);
    proof {
        assert(all.subrange(0, all.len() as int) =~= all);
    }
    let mut i: usize = 0;
    while i < es.len()
        invariant
            i <= es.len(),
            all == entries_view(es@),
            k@ == key@,
            bool_field(all, key@) == bool_field(all.subrange(i as int, all.len() as int), key@),
        decreases es.len() - i,
    {
        let ghost rest = all.subrange(i as int, all.len() as int);
        assert(rest.drop_first() =~= all.subrange(i + 1, all.len() as int));
        assert(rest[0] == (es@[i as int].0@, es@[i as int].1@));
        if es[i].0 == k {
            return match &es[i].1 {
                MetaValue::Bool(b) => Some(*b),
                _ => None,
            };
        }
        i = i + 1;
    }
    None
}

/// The string stored under `key` in the JSON object `meta`.
pub fn meta_str(meta: &[u8], key: &str) -> (r: Option<String>)
    ensures
        r.is_some() == meta_str_spec(meta@, key@).is_some(),
        r.is_some() ==> r.unwrap()@ == meta_str_spec(meta@, key@).unwrap(),
{
    match parse_json_object(meta) {
        Some(es) => lookup_str(&es, key),
        None => None,
    }
}

/// The bool stored under `key` in the JSON object `meta`.
pub fn meta_bool(meta: &[u8], key: &str) -> (r: Option<bool>)
    ensures
        r == meta_bool_spec(meta@, key@),
{
    match parse_json_object(meta) {
        Some(es) => lookup_bool(&es, key),
        None => None,
    }
}


/// The byte `{`.
pub const LBRACE: u8 = 123;

/// The byte `}`.
pub const RBRACE: u8 = 125;

/// The byte `:`.
pub const COLON: u8 = 58;

/// The JSON object with the one entry `key: value`, for a string value.
pub open spec fn str_entry_json(key: Seq<char>, value: Seq<char>) -> Seq<u8> {
    seq![LBRACE] + json_string_of(key) + seq![COLON] + json_string_of(value) + seq![RBRACE]
}

/// The JSON object with the one entry `key: value`, for a bool value.
pub open spec fn bool_entry_json(key: Seq<char>, value: bool) -> Seq<u8> {
    seq![LBRACE] + json_string_of(key) + seq![COLON] + (if value {
        "true"@
    } else {
        "false"@
    }).map_values(|c: char| c as u8) + seq![RBRACE]
}

/// The empty JSON object.
pub open spec fn empty_object_json() -> Seq<u8> {
    seq![LBRACE, RBRACE]
}

/// Encodes the metadata object `{key: value}` with a string value.
pub fn str_entry_meta(key: &str, value: &str) -> (r: Vec<u8>)
    ensures
        r@ == str_entry_json(key@, value@),
{
    let mut out: Vec<u8> = Vec::new();
    out.push(LBRACE);
    push_bytes(&mut out, json_quote(key).as_slice());
    out.push(COLON);
    push_bytes(&mut out, json_quote(value).as_slice());
    out.push(RBRACE);
    assert(out@ =~= str_entry_json(key@, value@));
    out
}

/// Encodes the metadata object `{key: value}` with a bool value.
pub fn bool_entry_meta(key: &str, value: bool) -> (r: Vec<u8>)
    ensures
        r@ == bool_entry_json(key@, value),
{
    let mut out: Vec<u8> = Vec::new();
    out.push(LBRACE);
    push_bytes(&mut out, json_quote(key).as_slice());
    out.push(COLON);
    let word = if value { "true" } else { "false" };
    proof {
        reveal_strlit("true");
        reveal_strlit("false");
        vstd::string::is_ascii_spec_bytes(word);
    }
    assert(word.is_ascii());
    push_str(&mut out, word);
    out.push(RBRACE);
    assert(out@ =~= bool_entry_json(key@, value));
    out
}

/// Encodes the empty metadata object.
pub fn empty_meta() -> (r: Vec<u8>)
    ensures
        r@ == empty_object_json(),
{
    let mut out: Vec<u8> = Vec::new();
    out.push(LBRACE);
    out.push(RBRACE);
    assert(out@ =~= empty_object_json());
    out
}

} // verus!
