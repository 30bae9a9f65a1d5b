//! The `service_table` table: its rows, the record a request body describes,
//! the filters it honours and what its store calls come to.
use vstd::prelude::*;
use crate::clock::{NaiveTimestamp, now_naive_local};
use crate::fields::{field_bool, field_i32, field_str, get_bool, get_i32, get_str};
use crate::json::{JsonMap, opt_text};
use crate::mailman::{ModelError, not_found, not_found_message, outcome_view, row_outcome, spec_row_outcome, spec_store_outcome, store_outcome};
use crate::query::{filters_view, plan_entries, plan_filters, ColumnFilter, FilterRules, MatchKind};
use crate::table::name_views;
use crate::text::{decimal_text, i64_to_decimal};

use crate::json::JsonValue;
use crate::query::{plan_member, ColumnFilterView, ConditionView};
use crate::table::{lemma_assoc_absent, lemma_assoc_at};
use vstd::string::*;

verus! {

/// A row of the `service_table` table.
pub struct ServiceModel {
    pub id: i32,
    pub service_name: String,
    pub nick_name: String,
    pub service_point: String,
    pub is_enable: bool,
    pub update_time: NaiveTimestamp,
}

/// A `service_table` record as a request body describes it: every column optional.
pub struct ServiceInfo {
    pub id: Option<i32>,
    pub service_name: Option<String>,
    pub nick_name: Option<String>,
    pub service_point: Option<String>,
    pub is_enable: Option<bool>,
    pub update_time: Option<NaiveTimestamp>,
}

impl ServiceInfo {
    /// Whether the record is what reading the request body `map` gives.
    pub open spec fn read_from(self, map: JsonMap) -> bool {
        &&& self.id == field_i32(map, "id"@)
        &&& opt_text(self.service_name) == field_str(map, "service_name"@)
        &&& opt_text(self.nick_name) == field_str(map, "nick_name"@)
        &&& opt_text(self.service_point) == field_str(map, "service_point"@)
        &&& self.is_enable == field_bool(map, "is_enable"@)
        &&& self.update_time is Some
    }

    /// The i32 columns of the record, each by its name.
    pub open spec fn i32_columns(self) -> Seq<(Seq<char>, Option<i32>)> {
        seq![
            ("id"@, self.id),
        ]
    }

    /// The text columns of the record, each by its name.
    pub open spec fn text_columns(self) -> Seq<(Seq<char>, Option<Seq<char>>)> {
        seq![
            ("service_name"@, opt_text(self.service_name)),
            ("nick_name"@, opt_text(self.nick_name)),
            ("service_point"@, opt_text(self.service_point)),
        ]
    }

    /// The bool columns of the record, each by its name.
    pub open spec fn bool_columns(self) -> Seq<(Seq<char>, Option<bool>)> {
        seq![
            ("is_enable"@, self.is_enable),
        ]
    }

    /// Every column of the record holds the request member of its own name,
    /// read by the reader of its type.
    pub proof fn law_columns_read_by_name(self, map: JsonMap)
        requires
            self.read_from(map),
        ensures
            forall|i: int| 0 <= i < self.i32_columns().len() ==> #[trigger] self.i32_columns()[i].1 == field_i32(map, self.i32_columns()[i].0),
            forall|i: int| 0 <= i < self.text_columns().len() ==> #[trigger] self.text_columns()[i].1 == field_str(map, self.text_columns()[i].0),
            forall|i: int| 0 <= i < self.bool_columns().len() ==> #[trigger] self.bool_columns()[i].1 == field_bool(map, self.bool_columns()[i].0),
    {
        assert forall|i: int| 0 <= i < self.i32_columns().len() implies #[trigger] self.i32_columns()[i].1 == field_i32(map, self.i32_columns()[i].0) by {
            if i == 0 {
            }
        }
        assert forall|i: int| 0 <= i < self.text_columns().len() implies #[trigger] self.text_columns()[i].1 == field_str(map, self.text_columns()[i].0) by {
            if i == 0 {
            } else if i == 1 {
            } else if i == 2 {
            }
        }
        assert forall|i: int| 0 <= i < self.bool_columns().len() implies #[trigger] self.bool_columns()[i].1 == field_bool(map, self.bool_columns()[i].0) by {
            if i == 0 {
            }
        }
    }

    /// Reads the record a request body describes. A member of another type
    /// than its column's is read as absent; the update time is set to the
    /// current local time.
    pub fn from_map(map: JsonMap) -> (r: Result<ServiceInfo, String>)
        ensures
            (r matches Ok(info) && info.read_from(map)),
    {
        let id = get_i32(&map, "id");
        let service_name = get_str(&map, "service_name");
        let nick_name = get_str(&map, "nick_name");
        let service_point = get_str(&map, "service_point");
        let is_enable = get_bool(&map, "is_enable");
        Ok(ServiceInfo {
            id,
            service_name,
            nick_name,
            service_point,
            is_enable,
            update_time: Some(now_naive_local()),
        })
    }
}

impl ServiceModel {
    /// The filter keys the table honours: the column each constrains, and how.
    pub open spec fn filter_rules() -> FilterRules {
        seq![
            ("service_name"@, ("service_name", MatchKind::Exact)),
            ("service_point"@, ("service_point", MatchKind::Exact)),
        ]
    }

    /// What each filter key asks of the rows: `service_name` asks `service_name` to equal the text given; `service_point` asks `service_point` to equal the text given. A member under another key, or whose value is of another type, asks nothing.
    pub proof fn law_filter_keys(member: (String, JsonValue))
        ensures
            member.0@ == "service_name"@ ==> plan_member(ServiceModel::filter_rules(), member) == match member.1.spec_as_str() {
                Some(s) => Some((ColumnFilterView { column: "service_name"@, condition: ConditionView::Equals(s) })),
                None => None,
            },
            member.0@ == "service_point"@ ==> plan_member(ServiceModel::filter_rules(), member) == match member.1.spec_as_str() {
                Some(s) => Some((ColumnFilterView { column: "service_point"@, condition: ConditionView::Equals(s) })),
                None => None,
            },
            member.0@ != "service_name"@ && member.0@ != "service_point"@ ==> plan_member(ServiceModel::filter_rules(), member) is None,
    {
        reveal_strlit("service_name");
        reveal_strlit("service_point");
        assert("service_name"@.len() != "service_point"@.len());
        let rules = ServiceModel::filter_rules();
        if member.0@ == "service_name"@ {
            lemma_assoc_at(rules, member.0@, 0);
        } else if member.0@ == "service_point"@ {
            assert forall|j: int| 0 <= j < 1 implies (#[trigger] rules[j]).0 != member.0@ by {
                if j == 0 {
                }
            }
            lemma_assoc_at(rules, member.0@, 1);
        } else {
            assert forall|j: int| 0 <= j < 2 implies (#[trigger] rules[j]).0 != member.0@ by {
                if j == 0 {
                } else if j == 1 {
                }
            }
            lemma_assoc_absent(rules, member.0@);
        }
    }

    fn filter_rules_of() -> (r: Vec<(&'static str, (&'static str, MatchKind))>)
        ensures
            name_views(r@) == ServiceModel::filter_rules(),
    {
        let r = vec![
            ("service_name", ("service_name", MatchKind::Exact)),
            ("service_point", ("service_point", MatchKind::Exact)),
        ];
        assert(name_views(r@) =~= ServiceModel::filter_rules());
        r
    }

    /// The conditions a filter puts on the table's rows; members under other
    /// keys, or with values of another type, are ignored.
    pub fn get_model_info_with_filter(filter: &JsonMap) -> (r: Vec<ColumnFilter>)
        ensures
            filters_view(r@) == plan_entries(ServiceModel::filter_rules(), filter.entries@),
    {
        plan_filters(&ServiceModel::filter_rules_of(), filter)
    }

    /// What inserting a record comes to: the rows inserted, or the store's
    /// failure.
    pub fn new(executed: Result<usize, String>) -> (r: Result<usize, ModelError>)
        ensures
            r == spec_store_outcome(executed),
    {
        store_outcome(executed)
    }

    /// What updating the row that a record's `id` names comes to: the
    /// rows updated, a bad request when no row has that key, or the store's
    /// failure.
    pub fn update(info: &ServiceInfo, executed: Result<usize, String>) -> (r: Result<usize, ModelError>)
        requires
            info.id is Some,
        ensures
            outcome_view(r) == spec_row_outcome(executed, not_found_message("id"@, decimal_text(info.id.unwrap() as int))),
    {
        let key = i64_to_decimal(info.id.unwrap() as i64);
        row_outcome(executed, not_found("id", key.as_str()))
    }

    /// What deleting the row with the key comes to: the rows deleted, a bad
    /// request when no row has that key, or the store's failure.
    pub fn delete(_id: i32, executed: Result<usize, String>) -> (r: Result<usize, ModelError>)
        ensures
            outcome_view(r) == spec_row_outcome(executed, not_found_message("id"@, decimal_text(_id as int))),
    {
        let key = i64_to_decimal(_id as i64);
        row_outcome(executed, not_found("id", key.as_str()))
    }
}

} // verus!
