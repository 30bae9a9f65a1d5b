//! The response envelopes of the services and the mapping of model outcomes
//! onto them.
use vstd::prelude::*;
use crate::json::JsonValue;
use crate::text::{concat2, concat3, decimal_digits, owned, usize_to_decimal};
use vstd::string::*;

verus! {

/// The code a model reports for a failure of the store itself.
pub const UNKNOW_ERROR_CODE: u8 = 0;

/// The code a model reports for a request that names nothing, or is wrong.
pub const BAD_REQUEST_CODE: u8 = 1;

/// A model failure: its code and its message.
pub type ModelError = (u8, String);

/// An error answer: an HTTP status code, a short key, an optional message
/// and a severity level.
#[derive(Debug)]
pub struct MailManErr {
    pub code: u16,
    pub key: String,
    pub msg: Option<String>,
    pub level: u8,
}

/// A success answer: an HTTP status code, a short key and optional data.
#[derive(Debug)]
pub struct MailManOk<T> {
    pub code: u16,
    pub key: String,
    pub data: Option<T>,
}

impl MailManErr {
    /// Whether the error has these parts.
    pub open spec fn is(self, code: u16, key: Seq<char>, msg: Option<Seq<char>>, level: u8) -> bool {
        &&& self.code == code
        &&& self.key@ == key
        &&& crate::json::opt_text(self.msg) == msg
        &&& self.level == level
    }

    pub fn new(code: u16, key: &str, msg: Option<String>, level: u8) -> (r: MailManErr)
        ensures
            r.code == code,
            r.key@ == key@,
            r.msg == msg,
            r.level == level,
    {
        MailManErr { code, key: owned(key), msg, level }
    }
}

impl<T> MailManOk<T> {
    pub fn new(code: u16, key: &str, data: Option<T>) -> (r: MailManOk<T>)
        ensures
            r.code == code,
            r.key@ == key@,
            r.data == data,
    {
        MailManOk { code, key: owned(key), data }
    }
}

/// How a service reads a model's failure code.
#[derive(Clone, Copy, PartialEq, Eq, Structural, Debug)]
pub enum FailureRule {
    /// Code 0 is a failure of the store (500); any other, a bad request (400).
    StoreFailureIsZero,
    /// Code 1 is a bad request (400); any other, a failure of the store (500).
    BadRequestIsOne,
}

/// The HTTP status a service gives a model failure.
pub open spec fn status_of(rule: FailureRule, kind: u8) -> u16 {
    match rule {
        FailureRule::StoreFailureIsZero => if kind == UNKNOW_ERROR_CODE {
            500
        } else {
            400
        },
        FailureRule::BadRequestIsOne => if kind == BAD_REQUEST_CODE {
            400
        } else {
            500
        },
    }
}

fn status_for(rule: FailureRule, kind: u8) -> (r: u16)
    ensures
        r == status_of(rule, kind),
{
    match rule {
        FailureRule::StoreFailureIsZero => if kind == UNKNOW_ERROR_CODE {
            500
        } else {
            400
        },
        FailureRule::BadRequestIsOne => if kind == BAD_REQUEST_CODE {
            400
        } else {
            500
        },
    }
}

/// The keys a service answers with: on success, on a store failure (500) and
/// on a bad request (400).
pub struct AnswerKeys {
    pub ok: &'static str,
    pub store_failure: &'static str,
    pub bad_request: &'static str,
}

impl AnswerKeys {
    /// One key for every answer.
    pub open spec fn spec_single(key: &'static str) -> AnswerKeys {
        AnswerKeys { ok: key, store_failure: key, bad_request: key }
    }

    pub fn single(key: &'static str) -> (r: AnswerKeys)
        ensures
            r == AnswerKeys::spec_single(key),
    {
        AnswerKeys { ok: key, store_failure: key, bad_request: key }
    }

    /// The key of the error answer with a status.
    pub open spec fn error_key(self, status: u16) -> Seq<char> {
        if status == 500 {
            self.store_failure@
        } else {
            self.bad_request@
        }
    }
}

/// The answer of a service to a model failure.
pub open spec fn spec_failure(err: MailManErr, keys: AnswerKeys, rule: FailureRule, e: ModelError) -> bool {
    err.is(status_of(rule, e.0), keys.error_key(status_of(rule, e.0)), Some(e.1@), 1)
}

pub(crate) fn failure(keys: &AnswerKeys, rule: FailureRule, e: ModelError) -> (r: MailManErr)
    ensures
        spec_failure(r, *keys, rule, e),
{
    let status = status_for(rule, e.0);
    let key = if status == 500 {
        keys.store_failure
    } else {
        keys.bad_request
    };
    MailManErr::new(status, key, Some(e.1), 1)
}

/// Whether a JSON value is the string `prefix` followed by the decimal text
/// of `n`.
pub open spec fn is_count_text(v: JsonValue, prefix: Seq<char>, n: usize) -> bool {
    (v matches JsonValue::Str(s) && s@ == prefix + decimal_digits(n as nat))
}

/// Whether a listing answer is the rows with the success key, or the model
/// failure under the rule.
pub open spec fn is_rows_answer(
    r: Result<MailManOk<Vec<JsonValue>>, MailManErr>,
    keys: AnswerKeys,
    rule: FailureRule,
    outcome: Result<Vec<JsonValue>, ModelError>,
) -> bool {
    match outcome {
        Ok(rows) => (r matches Ok(ok) && ok.code == 200 && ok.key@ == keys.ok@ && ok.data == Some(rows)),
        Err(e) => (r matches Err(err) && spec_failure(err, keys, rule, e)),
    }
}

/// Whether a writing answer is `prefix` and the count, as a JSON string with
/// the success key, or the model failure under the rule.
pub open spec fn is_count_answer(
    r: Result<MailManOk<JsonValue>, MailManErr>,
    keys: AnswerKeys,
    rule: FailureRule,
    prefix: Seq<char>,
    outcome: Result<usize, ModelError>,
) -> bool {
    match outcome {
        Ok(n) => (r matches Ok(ok) && ok.code == 200 && ok.key@ == keys.ok@ && (ok.data matches Some(v)
            && is_count_text(v, prefix, n))),
        Err(e) => (r matches Err(err) && spec_failure(err, keys, rule, e)),
    }
}

/// Whether a writing answer is `prefix` and the count, as plain text with the
/// success key, or the model failure under the rule.
pub open spec fn is_text_count_answer(
    r: Result<MailManOk<String>, MailManErr>,
    keys: AnswerKeys,
    rule: FailureRule,
    prefix: Seq<char>,
    outcome: Result<usize, ModelError>,
) -> bool {
    match outcome {
        Ok(n) => (r matches Ok(ok) && ok.code == 200 && ok.key@ == keys.ok@ && (ok.data matches Some(t) && t@
            == prefix + decimal_digits(n as nat))),
        Err(e) => (r matches Err(err) && spec_failure(err, keys, rule, e)),
    }
}

/// The answer of a listing service: the rows, or the model failure.
pub fn answer_rows(keys: &AnswerKeys, rule: FailureRule, outcome: Result<Vec<JsonValue>, ModelError>) -> (r:
    Result<MailManOk<Vec<JsonValue>>, MailManErr>)
    ensures
        is_rows_answer(r, *keys, rule, outcome),
{
    match outcome {
        Ok(rows) => Ok(MailManOk::new(200, keys.ok, Some(rows))),
        Err(e) => Err(failure(keys, rule, e)),
    }
}

/// The answer of a writing service: `prefix` and the number of rows
/// changed, as a JSON string, or the model failure.
pub fn answer_count(keys: &AnswerKeys, rule: FailureRule, prefix: &str, outcome: Result<usize, ModelError>) -> (r:
    Result<MailManOk<JsonValue>, MailManErr>)
    ensures
        is_count_answer(r, *keys, rule, prefix@, outcome),
{
    match outcome {
        Ok(n) => {
            let digits = usize_to_decimal(n);
            let text = concat2(prefix, digits.as_str());
            Ok(MailManOk::new(200, keys.ok, Some(JsonValue::Str(text))))
        },
        Err(e) => Err(failure(keys, rule, e)),
    }
}

/// The answer of a writing service: `prefix` and the number of rows
/// changed, as plain text, or the model failure.
pub fn answer_count_text(
    keys: &AnswerKeys,
    rule: FailureRule,
    prefix: &str,
    outcome: Result<usize, ModelError>,
) -> (r: Result<MailManOk<String>, MailManErr>)
    ensures
        is_text_count_answer(r, *keys, rule, prefix@, outcome),
{
    match outcome {
        Ok(n) => {
            let digits = usize_to_decimal(n);
            Ok(MailManOk::new(200, keys.ok, Some(concat2(prefix, digits.as_str()))))
        },
        Err(e) => Err(failure(keys, rule, e)),
    }
}

/// What a model makes of a store call that needs no row: its count, or the
/// store's failure as a store failure.
pub open spec fn spec_store_outcome(executed: Result<usize, String>) -> Result<usize, ModelError> {
    match executed {
        Ok(n) => Ok(n),
        Err(e) => Err((UNKNOW_ERROR_CODE, e)),
    }
}

pub fn store_outcome(executed: Result<usize, String>) -> (r: Result<usize, ModelError>)
    ensures
        r == spec_store_outcome(executed),
{
    match executed {
        Ok(n) => Ok(n),
        Err(e) => Err((UNKNOW_ERROR_CODE, e)),
    }
}

/// What a model makes of a store call that must touch a row: its count, a
/// bad request with `missing` when no row was touched, or the store's
/// failure as a store failure.
pub open spec fn spec_row_outcome(executed: Result<usize, String>, missing: Seq<char>) -> Result<
    usize,
    (u8, Seq<char>),
> {
    match executed {
        Ok(n) => if n == 0 {
            Err((BAD_REQUEST_CODE, missing))
        } else {
            Ok(n)
        },
        Err(e) => Err((UNKNOW_ERROR_CODE, e@)),
    }
}

/// The view of a model outcome.
pub open spec fn outcome_view(r: Result<usize, ModelError>) -> Result<usize, (u8, Seq<char>)> {
    match r {
        Ok(n) => Ok(n),
        Err(e) => Err((e.0, e.1@)),
    }
}

pub fn row_outcome(executed: Result<usize, String>, missing: String) -> (r: Result<usize, ModelError>)
    ensures
        outcome_view(r) == spec_row_outcome(executed, missing@),
{
    match executed {
        Ok(n) => if n == 0 {
            Err((BAD_REQUEST_CODE, missing))
        } else {
            Ok(n)
        },
        Err(e) => Err((UNKNOW_ERROR_CODE, e)),
    }
}

/// What is said when no row has the key: `label: key not found`.
pub open spec fn not_found_message(label: Seq<char>, key: Seq<char>) -> Seq<char> {
    label + ": "@ + key + " not found"@
}

pub fn not_found(label: &str, key: &str) -> (r: String)
    ensures
        r@ == not_found_message(label@, key@),
{
    let mut s = concat3(label, ": ", key);
    s.append(" not found");
    s
}

/// How a store lookup of one row can fail.
pub enum FetchError {
    /// No row has the key.
    NotFound,
    /// The store failed, with its message.
    Other(String),
}

/// What a model makes of a store query for rows: the rows, or the store's
/// failure as a store failure.
pub open spec fn spec_rows_outcome(fetched: Result<Vec<JsonValue>, String>) -> Result<
    Vec<JsonValue>,
    ModelError,
> {
    match fetched {
        Ok(rows) => Ok(rows),
        Err(e) => Err((UNKNOW_ERROR_CODE, e)),
    }
}

pub fn rows_outcome(fetched: Result<Vec<JsonValue>, String>) -> (r: Result<Vec<JsonValue>, ModelError>)
    ensures
        r == spec_rows_outcome(fetched),
{
    match fetched {
        Ok(rows) => Ok(rows),
        Err(e) => Err((UNKNOW_ERROR_CODE, e)),
    }
}

} // verus!
