//! Reading typed members out of a JSON object, as the row extractors do.
use vstd::prelude::*;
use crate::clock::{chrono_parse_naive, parse_naive_datetime, NaiveTimestamp, DATETIME_FORMAT};
use crate::ident::{parse_uuid, uuid_parse};
use crate::json::{opt_text, JsonMap};

verus! {

/// The text of a string member.
pub open spec fn field_str(m: JsonMap, key: Seq<char>) -> Option<Seq<char>> {
    match m.spec_get(key) {
        Some(v) => v.spec_as_str(),
        None => None,
    }
}

/// The value of an integer member that fits in `i64`.
pub open spec fn field_i64(m: JsonMap, key: Seq<char>) -> Option<i64> {
    match m.spec_get(key) {
        Some(v) => v.spec_as_i64(),
        None => None,
    }
}

/// The value of a non-negative integer member.
pub open spec fn field_u64(m: JsonMap, key: Seq<char>) -> Option<u64> {
    match m.spec_get(key) {
        Some(v) => v.spec_as_u64(),
        None => None,
    }
}

/// An `i64` member cut to its low 32 bits.
pub open spec fn field_i32(m: JsonMap, key: Seq<char>) -> Option<i32> {
    match field_i64(m, key) {
        Some(n) => Some(n as i32),
        None => None,
    }
}

/// An `i64` member cut to its low 16 bits.
pub open spec fn field_i16(m: JsonMap, key: Seq<char>) -> Option<i16> {
    match field_i64(m, key) {
        Some(n) => Some(n as i16),
        None => None,
    }
}

/// The value of a boolean member.
pub open spec fn field_bool(m: JsonMap, key: Seq<char>) -> Option<bool> {
    match m.spec_get(key) {
        Some(v) => v.spec_as_bool(),
        None => None,
    }
}

/// A string member read as a date and time in the request format.
pub open spec fn field_datetime(m: JsonMap, key: Seq<char>) -> Option<NaiveTimestamp> {
    match field_str(m, key) {
        Some(s) => chrono_parse_naive(s, DATETIME_FORMAT@),
        None => None,
    }
}

/// A string member read as a UUID.
pub open spec fn field_uuid(m: JsonMap, key: Seq<char>) -> Option<u128> {
    match field_str(m, key) {
        Some(s) => uuid_parse(s),
        None => None,
    }
}

/// A present member as an `i32`: its `i64` value cut to 32 bits, or 0 where
/// it is no such integer.
pub open spec fn field_i32_or_zero(m: JsonMap, key: Seq<char>) -> Option<i32> {
    match m.spec_get(key) {
        Some(v) => Some(
            match v.spec_as_i64() {
                Some(n) => n as i32,
                None => 0i32,
            },
        ),
        None => None,
    }
}

pub fn get_str(m: &JsonMap, key: &str) -> (r: Option<String>)
    ensures
        opt_text(r) == field_str(*m, key@),
{
    match m.get(key) {
        Some(v) => v.as_string(),
        None => None,
    }
}

pub fn get_i64(m: &JsonMap, key: &str) -> (r: Option<i64>)
    ensures
        r == field_i64(*m, key@),
{
    match m.get(key) {
        Some(v) => v.as_i64(),
        None => None,
    }
}

pub fn get_u64(m: &JsonMap, key: &str) -> (r: Option<u64>)
    ensures
        r == field_u64(*m, key@),
{
    match m.get(key) {
        Some(v) => v.as_u64(),
        None => None,
    }
}

pub fn get_i32(m: &JsonMap, key: &str) -> (r: Option<i32>)
    ensures
        r == field_i32(*m, key@),
{
    match get_i64(m, key) {
        Some(n) => Some(n as i32),
        None => None,
    }
}

pub fn get_i16(m: &JsonMap, key: &str) -> (r: Option<i16>)
    ensures
        r == field_i16(*m, key@),
{
    match get_i64(m, key) {
        Some(n) => Some(n as i16),
        None => None,
    }
}

pub fn get_bool(m: &JsonMap, key: &str) -> (r: Option<bool>)
    ensures
        r == field_bool(*m, key@),
{
    match m.get(key) {
        Some(v) => v.as_bool(),
        None => None,
    }
}

pub fn get_datetime(m: &JsonMap, key: &str) -> (r: Option<NaiveTimestamp>)
    ensures
        r == field_datetime(*m, key@),
{
    match get_str(m, key) {
        Some(s) => parse_naive_datetime(s.as_str(), DATETIME_FORMAT),
        None => None,
    }
}

pub fn get_uuid(m: &JsonMap, key: &str) -> (r: Option<u128>)
    ensures
        r == field_uuid(*m, key@),
{
    match get_str(m, key) {
        Some(s) => parse_uuid(s.as_str()),
        None => None,
    }
}

pub fn get_i32_or_zero(m: &JsonMap, key: &str) -> (r: Option<i32>)
    ensures
        r == field_i32_or_zero(*m, key@),
{
    match m.get(key) {
        Some(v) => Some(
            match v.as_i64() {
                Some(n) => n as i32,
                None => 0i32,
            },
        ),
        None => None,
    }
}

} // verus!

verus! {

/// A non-negative integer member that fits in `u32`.
pub open spec fn field_u32_checked(m: JsonMap, key: Seq<char>) -> Option<u32> {
    match field_u64(m, key) {
        Some(n) => if n <= 0xffff_ffffu64 {
            Some(n as u32)
        } else {
            None
        },
        None => None,
    }
}

/// An integer member that fits in `i8`.
pub open spec fn field_i8_checked(m: JsonMap, key: Seq<char>) -> Option<i8> {
    match field_i64(m, key) {
        Some(n) => if -128 <= n && n <= 127 {
            Some(n as i8)
        } else {
            None
        },
        None => None,
    }
}

/// A non-negative integer member cut to its low 32 bits.
pub open spec fn field_u32_low(m: JsonMap, key: Seq<char>) -> Option<u32> {
    match field_u64(m, key) {
        Some(n) => Some(n as u32),
        None => None,
    }
}

/// A non-negative integer member cut to its low 8 bits.
pub open spec fn field_u8_low(m: JsonMap, key: Seq<char>) -> Option<u8> {
    match field_u64(m, key) {
        Some(n) => Some(n as u8),
        None => None,
    }
}

/// Whether a member, where present, is a string.
pub open spec fn present_str(m: JsonMap, key: Seq<char>) -> bool {
    m.spec_get(key) is Some ==> field_str(m, key) is Some
}

/// Whether a member, where present, is a non-negative integer.
pub open spec fn present_u64(m: JsonMap, key: Seq<char>) -> bool {
    m.spec_get(key) is Some ==> field_u64(m, key) is Some
}

/// Whether a member, where present, is a boolean.
pub open spec fn present_bool(m: JsonMap, key: Seq<char>) -> bool {
    m.spec_get(key) is Some ==> field_bool(m, key) is Some
}

pub fn get_u32_checked(m: &JsonMap, key: &str) -> (r: Option<u32>)
    ensures
        r == field_u32_checked(*m, key@),
{
    match get_u64(m, key) {
        Some(n) => if n <= 0xffff_ffffu64 {
            Some(n as u32)
        } else {
            None
        },
        None => None,
    }
}

pub fn get_i8_checked(m: &JsonMap, key: &str) -> (r: Option<i8>)
    ensures
        r == field_i8_checked(*m, key@),
{
    match get_i64(m, key) {
        Some(n) => if -128 <= n && n <= 127 {
            Some(n as i8)
        } else {
            None
        },
        None => None,
    }
}

pub fn get_u32_low(m: &JsonMap, key: &str) -> (r: Option<u32>)
    ensures
        r == field_u32_low(*m, key@),
{
    match get_u64(m, key) {
        Some(n) => Some(n as u32),
        None => None,
    }
}

pub fn get_u8_low(m: &JsonMap, key: &str) -> (r: Option<u8>)
    ensures
        r == field_u8_low(*m, key@),
{
    match get_u64(m, key) {
        Some(n) => Some(n as u8),
        None => None,
    }
}

pub fn has_str(m: &JsonMap, key: &str) -> (r: bool)
    ensures
        r == present_str(*m, key@),
{
    match m.get(key) {
        Some(v) => v.is_string(),
        None => true,
    }
}

pub fn has_u64(m: &JsonMap, key: &str) -> (r: bool)
    ensures
        r == present_u64(*m, key@),
{
    match m.get(key) {
        Some(v) => v.as_u64().is_some(),
        None => true,
    }
}

pub fn has_bool(m: &JsonMap, key: &str) -> (r: bool)
    ensures
        r == present_bool(*m, key@),
{
    match m.get(key) {
        Some(v) => v.as_bool().is_some(),
        None => true,
    }
}

} // verus!
