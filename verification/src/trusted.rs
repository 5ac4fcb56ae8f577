//! The calls into `serde_json` and `uuid` that the verified code makes, with
//! the contracts that it relies on.
use vstd::prelude::*;

verus! {

/// A JSON value, as `serde_json` holds it. The request id of a JSON-RPC
/// exchange is one, carried through from request to reply without being read.
#[verifier::external_type_specification]
#[verifier::external_body]
pub struct ExJsonValue(serde_json::Value);

/// `<serde_json::Value as Clone>::clone`: the `Clone` impl that
/// `serde_json` derives for `Value`, which copies the value as it is.
#[verifier::external_body]
pub(crate) fn clone_json(v: &serde_json::Value) -> (r: serde_json::Value)
    ensures
        r == *v,
{
    v.clone()
}

/// The member named `key` of `v`, when `v` is an object that has one.
pub uninterp spec fn json_member_spec(v: serde_json::Value, key: Seq<char>) -> Option<serde_json::Value>;

/// The elements of `v`, when `v` is an array.
pub uninterp spec fn json_array_spec(v: serde_json::Value) -> Option<Seq<serde_json::Value>>;

/// The text of `v`, when `v` is a string.
pub uninterp spec fn json_text_spec(v: serde_json::Value) -> Option<Seq<char>>;

/// `serde_json::Value::get` with a string key: the member named `key` when
/// `v` is an object holding it, `None` otherwise. The answer is named as a
/// function of `v` and `key`.
#[verifier::external_body]
pub(crate) fn json_member<'a>(v: &'a serde_json::Value, key: &str) -> (r: Option<&'a serde_json::Value>)
    ensures
        match r {
            Some(m) => json_member_spec(*v, key@) == Some(*m),
            None => json_member_spec(*v, key@) is None,
        },
{
    v.get(key)
}

/// `serde_json::Value::as_array`: the elements when `v` is an array, `None`
/// otherwise. The answer is named as a function of `v`.
#[verifier::external_body]
pub(crate) fn json_array<'a>(v: &'a serde_json::Value) -> (r: Option<&'a Vec<serde_json::Value>>)
    ensures
        match r {
            Some(a) => json_array_spec(*v) == Some(a@),
            None => json_array_spec(*v) is None,
        },
{
    v.as_array()
}

/// `serde_json::Value::as_str`: the text when `v` is a string, `None`
/// otherwise. The answer is named as a function of `v`.
#[verifier::external_body]
pub(crate) fn json_text<'a>(v: &'a serde_json::Value) -> (r: Option<&'a str>)
    ensures
        match r {
            Some(t) => json_text_spec(*v) == Some(t@),
            None => json_text_spec(*v) is None,
        },
{
    v.as_str()
}

/// `c` is a lowercase hexadecimal digit.
pub open spec fn is_lower_hex(c: char) -> bool {
    ('0' <= c && c <= '9') || ('a' <= c && c <= 'f')
}

/// `t` has the shape of the hyphenated text of a random (version 4,
/// RFC 4122 variant) UUID: 36 characters, `-` at 8, 13, 18 and 23,
/// lowercase hexadecimal digits elsewhere, the version digit `4` at 14 and
/// one of `8`, `9`, `a`, `b` at 19.
pub open spec fn is_uuid_v4_text(t: Seq<char>) -> bool {
    &&& t.len() == 36
    &&& forall|i: int|
        0 <= i < 36 ==> (if i == 8 || i == 13 || i == 18 || i == 23 {
            t[i] == '-'
        } else {
            is_lower_hex(#[trigger] t[i])
        })
    &&& t[14] == '4'
    &&& (t[19] == '8' || t[19] == '9' || t[19] == 'a' || t[19] == 'b')
}

/// `getrandom::fill` on a 16-byte buffer: random bytes from the operating
/// system's source, or `None` when that source fails (`fill` returns an
/// error then; it does not panic). The bytes are random, so nothing more is
/// stated.
#[verifier::external_body]
pub(crate) fn random_bytes() -> (r: Option<[u8; 16]>) {
    let mut bytes = [0u8; 16];
    match getrandom::fill(&mut bytes) {
        Ok(()) => Some(bytes),
        Err(_) => None,
    }
}

/// The text of the random UUID that `uuid` builds from `bytes`.
pub uninterp spec fn uuid_text_from_random_bytes(bytes: Seq<u8>) -> Seq<char>;

/// `uuid::Builder::from_random_bytes(bytes)`, taken out with `into_uuid`
/// and rendered with `to_string`: the version 4, RFC 4122 variant UUID whose
/// other bits are those of `bytes`, in hyphenated lowercase hexadecimal. The
/// text is named as a function of the bytes, and its shape is stated.
#[verifier::external_body]
pub(crate) fn uuid_v4_text(bytes: [u8; 16]) -> (r: String)
    ensures
        r@ == uuid_text_from_random_bytes(bytes@),
        is_uuid_v4_text(r@),
{
    uuid::Builder::from_random_bytes(bytes).into_uuid().to_string()
}

} // verus!
