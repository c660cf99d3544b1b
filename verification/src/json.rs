//! Reading numbers out of JSON values.

use vstd::prelude::*;

verus! {

/// `serde_json::Value`, a JSON value of any kind. Nothing inside it is
/// visible here: it is read through the functions below.
#[verifier::external_type_specification]
#[verifier::external_body]
pub struct ExValue(serde_json::Value);

/// The member of a JSON value under a key, as `value[key]` gives it: the
/// value stored under `key` where `value` is an object that has the key, and
/// JSON null in every other case.
pub uninterp spec fn json_member(value: serde_json::Value, key: Seq<char>) -> serde_json::Value;

/// The unsigned integer that a JSON value is, as `Value::as_u64` gives it:
/// nothing where the value is no number, or a number that is negative or
/// written as a fraction.
pub uninterp spec fn json_unsigned(value: serde_json::Value) -> Option<u64>;

/// Indexing a `serde_json::Value` by a string, `&value[key]`. It never
/// panics and does not change the value; what it returns depends on the
/// value and the key alone.
#[verifier::external_body]
pub(crate) fn member<'a>(value: &'a serde_json::Value, key: &str) -> (found: &'a serde_json::Value)
    ensures
        *found == json_member(*value, key@),
{
    &value[key]
}

/// `serde_json::Value::as_u64`. What it returns depends on the value alone.
pub assume_specification[ serde_json::Value::as_u64 ](value: &serde_json::Value) -> (number:
    Option<u64>)
    ensures
        number == json_unsigned(*value),
;

/// `Clone` for `serde_json::Value`: the copy is the same JSON value.
pub assume_specification[ <serde_json::Value as Clone>::clone ](
    value: &serde_json::Value,
) -> (copy: serde_json::Value)
    ensures
        copy == *value,
;

/// The unsigned number stored in an object under a key.
pub open spec fn json_field(value: serde_json::Value, key: Seq<char>) -> Option<u64> {
    json_unsigned(json_member(value, key))
}

/// The number under a key, where it fits in 8 bits.
pub open spec fn json_field_u8(value: serde_json::Value, key: Seq<char>) -> Option<u8> {
    match json_field(value, key) {
        Some(number) => if number <= u8::MAX {
            Some(number as u8)
        } else {
            None
        },
        None => None,
    }
}

/// The number under a key, where it fits in 32 bits.
pub open spec fn json_field_u32(value: serde_json::Value, key: Seq<char>) -> Option<u32> {
    match json_field(value, key) {
        Some(number) => if number <= u32::MAX {
            Some(number as u32)
        } else {
            None
        },
        None => None,
    }
}

/// The number under a key, widened to 128 bits.
pub open spec fn json_field_u128(value: serde_json::Value, key: Seq<char>) -> Option<u128> {
    match json_field(value, key) {
        Some(number) => Some(number as u128),
        None => None,
    }
}

/// Reads the unsigned number stored under `key`.
pub fn field(value: &serde_json::Value, key: &str) -> (number: Option<u64>)
    ensures
        number == json_field(*value, key@),
{
    member(value, key).as_u64()
}

/// Reads the number stored under `key`, if it fits in 8 bits.
pub fn field_u8(value: &serde_json::Value, key: &str) -> (number: Option<u8>)
    ensures
        number == json_field_u8(*value, key@),
{
    match field(value, key) {
        Some(number) => if number <= 0xff {
            Some(number as u8)
        } else {
            None
        },
        None => None,
    }
}

/// Reads the number stored under `key`, if it fits in 32 bits.
pub fn field_u32(value: &serde_json::Value, key: &str) -> (number: Option<u32>)
    ensures
        number == json_field_u32(*value, key@),
{
    match field(value, key) {
        Some(number) => if number <= 0xffff_ffff {
            Some(number as u32)
        } else {
            None
        },
        None => None,
    }
}

/// Reads the number stored under `key`, widened to 128 bits.
pub fn field_u128(value: &serde_json::Value, key: &str) -> (number: Option<u128>)
    ensures
        number == json_field_u128(*value, key@),
{
    match field(value, key) {
        Some(number) => Some(number as u128),
        None => None,
    }
}

} // verus!
