//! The earlier cloud-account service: how the account model's outcomes are
//! answered.
use vstd::prelude::*;
use crate::fields::{field_u32_low, field_u64, get_u32_low};
use crate::json::{JsonMap, JsonValue};
use crate::mailman::{
    answer_count, answer_rows, is_count_answer, is_rows_answer, AnswerKeys, FailureRule, MailManErr, MailManOk,
    ModelError,
};
use crate::text::owned;

verus! {

/// The answer to a listing: the accounts, or the failure (500 for a store
/// failure, 400 otherwise).
pub fn get_all(outcome: Result<Vec<JsonValue>, ModelError>) -> (r: Result<MailManOk<Vec<JsonValue>>, MailManErr>)
    ensures
        is_rows_answer(r, AnswerKeys { ok: "All cloud account", store_failure: "Internal Server Error", bad_request: "Bad requests" }, FailureRule::StoreFailureIsZero, outcome),
{
    answer_rows(&AnswerKeys { ok: "All cloud account", store_failure: "Internal Server Error", bad_request: "Bad requests" }, FailureRule::StoreFailureIsZero, outcome)
}

/// The answer to an insertion: `New line: ` and the rows inserted, or the
/// failure.
pub fn new(outcome: Result<usize, ModelError>) -> (r: Result<MailManOk<JsonValue>, MailManErr>)
    ensures
        is_count_answer(r, AnswerKeys { ok: "New cloud account", store_failure: "Internal Server Error", bad_request: "Bad requests" }, FailureRule::StoreFailureIsZero, "New line: "@, outcome),
{
    answer_count(&AnswerKeys { ok: "New cloud account", store_failure: "Internal Server Error", bad_request: "Bad requests" }, FailureRule::StoreFailureIsZero, "New line: ", outcome)
}

/// The answer to an update: `Update line: ` and the rows updated, or the
/// failure.
pub fn update(outcome: Result<usize, ModelError>) -> (r: Result<MailManOk<JsonValue>, MailManErr>)
    ensures
        is_count_answer(r, AnswerKeys { ok: "Update cloud account", store_failure: "Internal Server Error", bad_request: "Bad requests" }, FailureRule::StoreFailureIsZero, "Update line: "@, outcome),
{
    answer_count(&AnswerKeys { ok: "Update cloud account", store_failure: "Internal Server Error", bad_request: "Bad requests" }, FailureRule::StoreFailureIsZero, "Update line: ", outcome)
}

/// The key of the account a delete request body names: its `id` member cut
/// to 32 bits, where it is a non-negative integer.
pub fn delete_id(data: &JsonMap) -> (r: Option<u32>)
    ensures
        r == field_u32_low(*data, "id"@),
{
    get_u32_low(data, "id")
}

/// The answer to a deletion: without a non-negative integer `id`, a bad
/// request saying so and no store call; otherwise `Delete line: ` and the
/// rows deleted, or the failure.
pub fn delete(data: &JsonMap, outcome: Option<Result<usize, ModelError>>) -> (r: Result<MailManOk<JsonValue>, MailManErr>)
    requires
        (field_u64(*data, "id"@) is Some) == (outcome is Some),
    ensures
        match outcome {
            None => (r matches Err(e) && e.is(400, "Bad requests"@, Some("id not found"@), 1)),
            Some(o) => is_count_answer(r, AnswerKeys { ok: "Delete cloud account", store_failure: "Internal Server Error", bad_request: "Bad requests" }, FailureRule::StoreFailureIsZero, "Delete line: "@, o),
        },
{
    match outcome {
        None => Err(MailManErr::new(400, "Bad requests", Some(owned("id not found")), 1)),
        Some(o) => answer_count(&AnswerKeys { ok: "Delete cloud account", store_failure: "Internal Server Error", bad_request: "Bad requests" }, FailureRule::StoreFailureIsZero, "Delete line: ", o),
    }
}

} // verus!
