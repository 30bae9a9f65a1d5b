//! The cloud-account service: how the account model's outcomes are
//! answered.
use vstd::prelude::*;
use crate::json::JsonValue;
use crate::mailman::{
    answer_count_text, answer_rows, is_rows_answer, is_text_count_answer, AnswerKeys, FailureRule, MailManErr, MailManOk,
    ModelError,
};

verus! {

/// The answer to a listing: the accounts, or the failure (400 for a bad
/// request, 500 otherwise).
pub fn get_all(outcome: Result<Vec<JsonValue>, ModelError>) -> (r: Result<MailManOk<Vec<JsonValue>>, MailManErr>)
    ensures
        is_rows_answer(r, AnswerKeys::spec_single("Service: All CloudAccount"), FailureRule::BadRequestIsOne, outcome),
{
    answer_rows(&AnswerKeys::single("Service: All CloudAccount"), FailureRule::BadRequestIsOne, outcome)
}

/// The answer to an insertion: `Line changed: ` and the rows inserted, or
/// the failure (500 for a store failure, 400 otherwise).
pub fn new(outcome: Result<usize, ModelError>) -> (r: Result<MailManOk<String>, MailManErr>)
    ensures
        is_text_count_answer(r, AnswerKeys::spec_single("Service: Create CloudAccount"), FailureRule::StoreFailureIsZero, "Line changed: "@, outcome),
{
    answer_count_text(&AnswerKeys::single("Service: Create CloudAccount"), FailureRule::StoreFailureIsZero, "Line changed: ", outcome)
}

/// The answer to an update: `Line changed: ` and the rows updated, or the
/// failure (400 for a bad request, 500 otherwise).
pub fn update(outcome: Result<usize, ModelError>) -> (r: Result<MailManOk<String>, MailManErr>)
    ensures
        is_text_count_answer(r, AnswerKeys::spec_single("Service: Update CloudAccount"), FailureRule::BadRequestIsOne, "Line changed: "@, outcome),
{
    answer_count_text(&AnswerKeys::single("Service: Update CloudAccount"), FailureRule::BadRequestIsOne, "Line changed: ", outcome)
}

/// The answer to a deletion: `Line changed: ` and the rows deleted, or the
/// failure (500 for a store failure, 400 otherwise).
pub fn delete(outcome: Result<usize, ModelError>) -> (r: Result<MailManOk<String>, MailManErr>)
    ensures
        is_text_count_answer(r, AnswerKeys::spec_single("Service: Delete CloudAccount"), FailureRule::StoreFailureIsZero, "Line changed: "@, outcome),
{
    answer_count_text(&AnswerKeys::single("Service: Delete CloudAccount"), FailureRule::StoreFailureIsZero, "Line changed: ", outcome)
}

} // verus!
