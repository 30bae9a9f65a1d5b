//! The `group_table` service: how the table's model outcomes are answered.
use vstd::prelude::*;
use crate::json::JsonValue;
use crate::mailman::{
    answer_count, answer_rows, is_count_answer, is_rows_answer, AnswerKeys, FailureRule, MailManErr, MailManOk,
    ModelError,
};

verus! {

/// The answer to a listing: the rows, or the failure (500 for a store
/// failure, 400 otherwise).
pub fn get_all(outcome: Result<Vec<JsonValue>, ModelError>) -> (r: Result<MailManOk<Vec<JsonValue>>, MailManErr>)
    ensures
        is_rows_answer(r, AnswerKeys::spec_single("Service: All group"), FailureRule::StoreFailureIsZero, outcome),
{
    answer_rows(&AnswerKeys::single("Service: All group"), FailureRule::StoreFailureIsZero, outcome)
}

/// The answer to an insertion: `New line: ` and the rows inserted, or the
/// failure.
pub fn new_table(outcome: Result<usize, ModelError>) -> (r: Result<MailManOk<JsonValue>, MailManErr>)
    ensures
        is_count_answer(
            r,
            AnswerKeys::spec_single("Service: Create group"),
            FailureRule::StoreFailureIsZero,
            "New line: "@,
            outcome,
        ),
{
    answer_count(&AnswerKeys::single("Service: Create group"), FailureRule::StoreFailureIsZero, "New line: ", outcome)
}

/// The answer to an update: `Update line: ` and the rows updated, or the
/// failure.
pub fn update_table(outcome: Result<usize, ModelError>) -> (r: Result<MailManOk<JsonValue>, MailManErr>)
    ensures
        is_count_answer(
            r,
            AnswerKeys::spec_single("Service: Update group"),
            FailureRule::StoreFailureIsZero,
            "Update line: "@,
            outcome,
        ),
{
    answer_count(
        &AnswerKeys::single("Service: Update group"),
        FailureRule::StoreFailureIsZero,
        "Update line: ",
        outcome,
    )
}

/// The answer to a deletion: `Delete line: ` and the rows deleted, or the
/// failure.
pub fn delete_table(outcome: Result<usize, ModelError>) -> (r: Result<MailManOk<JsonValue>, MailManErr>)
    ensures
        is_count_answer(
            r,
            AnswerKeys::spec_single("Service: Delete group"),
            FailureRule::StoreFailureIsZero,
            "Delete line: "@,
            outcome,
        ),
{
    answer_count(
        &AnswerKeys::single("Service: Delete group"),
        FailureRule::StoreFailureIsZero,
        "Delete line: ",
        outcome,
    )
}

} // verus!
