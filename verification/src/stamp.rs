//! Stamping rows read from the store with the time they were read.
use vstd::prelude::*;
use crate::clock::{chrono_naive_text, naive_datetime_text, now_naive_local, NaiveTimestamp};
use crate::json::{JsonMap, JsonValue};
use crate::text::owned;

verus! {

/// Whether a member is the text of some date and time.
pub open spec fn is_time_text(v: Option<JsonValue>) -> bool {
    (v matches Some(JsonValue::Str(s)) && exists|ts: NaiveTimestamp| s@ == chrono_naive_text(ts))
}

/// Whether `out` is the row with `create_at` and `update_at` set to texts of
/// dates and times, and every other member as it was.
pub open spec fn is_stamped(out: JsonValue, row: JsonMap) -> bool {
    (out matches JsonValue::Object(m) && {
        &&& is_time_text(m.spec_get("create_at"@))
        &&& is_time_text(m.spec_get("update_at"@))
        &&& forall|k: Seq<char>|
            k != "create_at"@ && k != "update_at"@ ==> #[trigger] m.spec_get(k) == row.spec_get(k)
    })
}

/// The row with its creation and update times set to the current local time.
pub fn stamp_row(row: JsonMap) -> (r: JsonValue)
    ensures
        is_stamped(r, row),
        row.has_distinct_keys() ==> (r matches JsonValue::Object(m) && m.has_distinct_keys()),
{
    proof {
        reveal_strlit("create_at");
        reveal_strlit("update_at");
        assert("create_at"@[0] != "update_at"@[0]);
    }
    let mut m = row;
    let created = now_naive_local();
    let created_text = naive_datetime_text(created);
    m.insert(owned("create_at"), JsonValue::Str(created_text));
    let updated = now_naive_local();
    let updated_text = naive_datetime_text(updated);
    m.insert(owned("update_at"), JsonValue::Str(updated_text));
    JsonValue::Object(m)
}

} // verus!
