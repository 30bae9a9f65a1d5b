//! The `access_table` table: its rows, the record a request body describes,
//! the filters it honours and what its store calls come to.
use vstd::prelude::*;
use crate::clock::{NaiveTimestamp, now_naive_local};
use crate::fields::{field_bool, field_i16, field_i32, field_str, get_bool, get_i16, get_i32, get_str};
use crate::json::{JsonMap, opt_text};
use crate::mailman::{ModelError, not_found, not_found_message, outcome_view, row_outcome, spec_row_outcome, spec_store_outcome, store_outcome};
use crate::query::{filters_view, plan_entries, plan_filters, ColumnFilter, FilterRules, MatchKind};
use crate::table::name_views;
use crate::text::{decimal_text, i64_to_decimal};

use crate::json::JsonValue;
use crate::query::{plan_member, ColumnFilterView, ConditionView};
use crate::table::{lemma_assoc_absent, lemma_assoc_at};
use vstd::string::*;

verus! {

/// A row of the `access_table` table.
pub struct AccessModel {
    pub id: i32,
    pub service_id: i32,
    pub group_id: i32,
    pub group_access: i16,
    pub is_enable: bool,
    pub update_time: NaiveTimestamp,
    pub comment: String,
}

/// A `access_table` record as a request body describes it: every column optional.
pub struct AccessInfo {
    pub id: Option<i32>,
    pub service_id: Option<i32>,
    pub group_id: Option<i32>,
    pub group_access: Option<i16>,
    pub is_enable: Option<bool>,
    pub update_time: Option<NaiveTimestamp>,
    pub comment: Option<String>,
}

impl AccessInfo {
    /// Whether the record is what reading the request body `map` gives.
    pub open spec fn read_from(self, map: JsonMap) -> bool {
        &&& self.id == field_i32(map, "id"@)
        &&& self.service_id == field_i32(map, "service_id"@)
        &&& self.group_id == field_i32(map, "group_id"@)
        &&& self.group_access == field_i16(map, "group_access"@)
        &&& self.is_enable == field_bool(map, "is_enable"@)
        &&& self.update_time is Some
        &&& opt_text(self.comment) == field_str(map, "comment"@)
    }

    /// The i32 columns of the record, each by its name.
    pub open spec fn i32_columns(self) -> Seq<(Seq<char>, Option<i32>)> {
        seq![
            ("id"@, self.id),
            ("service_id"@, self.service_id),
            ("group_id"@, self.group_id),
        ]
    }

    /// The i16 columns of the record, each by its name.
    pub open spec fn i16_columns(self) -> Seq<(Seq<char>, Option<i16>)> {
        seq![
            ("group_access"@, self.group_access),
        ]
    }

    /// The bool columns of the record, each by its name.
    pub open spec fn bool_columns(self) -> Seq<(Seq<char>, Option<bool>)> {
        seq![
            ("is_enable"@, self.is_enable),
        ]
    }

    /// The text columns of the record, each by its name.
    pub open spec fn text_columns(self) -> Seq<(Seq<char>, Option<Seq<char>>)> {
        seq![
            ("comment"@, opt_text(self.comment)),
        ]
    }

    /// Every column of the record holds the request member of its own name,
    /// read by the reader of its type.
    pub proof fn law_columns_read_by_name(self, map: JsonMap)
        requires
            self.read_from(map),
        ensures
            forall|i: int| 0 <= i < self.i32_columns().len() ==> #[trigger] self.i32_columns()[i].1 == field_i32(map, self.i32_columns()[i].0),
            forall|i: int| 0 <= i < self.i16_columns().len() ==> #[trigger] self.i16_columns()[i].1 == field_i16(map, self.i16_columns()[i].0),
            forall|i: int| 0 <= i < self.bool_columns().len() ==> #[trigger] self.bool_columns()[i].1 == field_bool(map, self.bool_columns()[i].0),
            forall|i: int| 0 <= i < self.text_columns().len() ==> #[trigger] self.text_columns()[i].1 == field_str(map, self.text_columns()[i].0),
    {
        assert forall|i: int| 0 <= i < self.i32_columns().len() implies #[trigger] self.i32_columns()[i].1 == field_i32(map, self.i32_columns()[i].0) by {
            if i == 0 {
            } else if i == 1 {
            } else if i == 2 {
            }
        }
        assert forall|i: int| 0 <= i < self.i16_columns().len() implies #[trigger] self.i16_columns()[i].1 == field_i16(map, self.i16_columns()[i].0) by {
            if i == 0 {
            }
        }
        assert forall|i: int| 0 <= i < self.bool_columns().len() implies #[trigger] self.bool_columns()[i].1 == field_bool(map, self.bool_columns()[i].0) by {
            if i == 0 {
            }
        }
        assert forall|i: int| 0 <= i < self.text_columns().len() implies #[trigger] self.text_columns()[i].1 == field_str(map, self.text_columns()[i].0) by {
            if i == 0 {
            }
        }
    }

    /// Reads the record a request body describes. A member of another type
    /// than its column's is read as absent; the update time is set to the
    /// current local time.
    pub fn from_map(map: JsonMap) -> (r: Result<AccessInfo, String>)
        ensures
            (r matches Ok(info) && info.read_from(map)),
    {
        let id = get_i32(&map, "id");
        let service_id = get_i32(&map, "service_id");
        let group_id = get_i32(&map, "group_id");
        let group_access = get_i16(&map, "group_access");
        let is_enable = get_bool(&map, "is_enable");
        let comment = get_str(&map, "comment");
        Ok(AccessInfo {
            id,
            service_id,
            group_id,
            group_access,
            is_enable,
            update_time: Some(now_naive_local()),
            comment,
        })
    }
}

impl AccessModel {
    /// The filter keys the table honours: the column each constrains, and how.
    pub open spec fn filter_rules() -> FilterRules {
        seq![
            ("service_id"@, ("service_id", MatchKind::ExactI32)),
            ("group_id"@, ("group_id", MatchKind::ExactI32)),
        ]
    }

    /// What each filter key asks of the rows: `service_id` asks `service_id` to equal the integer given, cut to 32 bits; `group_id` asks `group_id` to equal the integer given, cut to 32 bits. A member under another key, or whose value is of another type, asks nothing.
    pub proof fn law_filter_keys(member: (String, JsonValue))
        ensures
            member.0@ == "service_id"@ ==> plan_member(AccessModel::filter_rules(), member) == match member.1.spec_as_i64() {
                Some(n) => Some((ColumnFilterView { column: "service_id"@, condition: ConditionView::EqualsInt(n as i32) })),
                None => None,
            },
            member.0@ == "group_id"@ ==> plan_member(AccessModel::filter_rules(), member) == match member.1.spec_as_i64() {
                Some(n) => Some((ColumnFilterView { column: "group_id"@, condition: ConditionView::EqualsInt(n as i32) })),
                None => None,
            },
            member.0@ != "service_id"@ && member.0@ != "group_id"@ ==> plan_member(AccessModel::filter_rules(), member) is None,
    {
        reveal_strlit("group_id");
        reveal_strlit("service_id");
        assert("service_id"@.len() != "group_id"@.len());
        let rules = AccessModel::filter_rules();
        if member.0@ == "service_id"@ {
            lemma_assoc_at(rules, member.0@, 0);
        } else if member.0@ == "group_id"@ {
            assert forall|j: int| 0 <= j < 1 implies (#[trigger] rules[j]).0 != member.0@ by {
                if j == 0 {
                }
            }
            lemma_assoc_at(rules, member.0@, 1);
        } else {
            assert forall|j: int| 0 <= j < 2 implies (#[trigger] rules[j]).0 != member.0@ by {
                if j == 0 {
                } else if j == 1 {
                }
            }
            lemma_assoc_absent(rules, member.0@);
        }
    }

    fn filter_rules_of() -> (r: Vec<(&'static str, (&'static str, MatchKind))>)
        ensures
            name_views(r@) == AccessModel::filter_rules(),
    {
        let r = vec![
            ("service_id", ("service_id", MatchKind::ExactI32)),
            ("group_id", ("group_id", MatchKind::ExactI32)),
        ];
        assert(name_views(r@) =~= AccessModel::filter_rules());
        r
    }

    /// The conditions a filter puts on the table's rows; members under other
    /// keys, or with values of another type, are ignored.
    pub fn get_model_info_with_filter(filter: &JsonMap) -> (r: Vec<ColumnFilter>)
        ensures
            filters_view(r@) == plan_entries(AccessModel::filter_rules(), filter.entries@),
    {
        plan_filters(&AccessModel::filter_rules_of(), filter)
    }

    /// What inserting a record comes to: the rows inserted, or the store's
    /// failure.
    pub fn new(executed: Result<usize, String>) -> (r: Result<usize, ModelError>)
        ensures
            r == spec_store_outcome(executed),
    {
        store_outcome(executed)
    }

    /// What updating the row that a record's `id` names comes to: the
    /// rows updated, a bad request when no row has that key, or the store's
    /// failure.
    pub fn update(info: &AccessInfo, executed: Result<usize, String>) -> (r: Result<usize, ModelError>)
        requires
            info.id is Some,
        ensures
            outcome_view(r) == spec_row_outcome(executed, not_found_message("id"@, decimal_text(info.id.unwrap() as int))),
    {
        let key = i64_to_decimal(info.id.unwrap() as i64);
        row_outcome(executed, not_found("id", key.as_str()))
    }

    /// What deleting the row with the key comes to: the rows deleted, a bad
    /// request when no row has that key, or the store's failure.
    pub fn delete(_id: i32, executed: Result<usize, String>) -> (r: Result<usize, ModelError>)
        ensures
            outcome_view(r) == spec_row_outcome(executed, not_found_message("id"@, decimal_text(_id as int))),
    {
        let key = i64_to_decimal(_id as i64);
        row_outcome(executed, not_found("id", key.as_str()))
    }
}

} // verus!
