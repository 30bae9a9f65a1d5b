//! The `subsystem_table` table: its rows, the record a request body describes,
//! the filters it honours and what its store calls come to.
use vstd::prelude::*;
use crate::clock::{NaiveTimestamp, now_naive_local};
use crate::fields::{field_bool, field_i32, field_str, field_uuid, get_bool, get_i32, get_str, get_uuid};
use crate::json::{JsonMap, opt_text};
use crate::mailman::{ModelError, not_found, not_found_message, outcome_view, row_outcome, spec_row_outcome, spec_store_outcome, store_outcome};
use crate::query::{filters_view, plan_entries, plan_filters, ColumnFilter, FilterRules, MatchKind};
use crate::table::name_views;
use crate::text::{decimal_text, i64_to_decimal};

use crate::json::JsonValue;
use crate::query::{plan_member, ColumnFilterView, ConditionView};
use crate::table::{lemma_assoc_absent, lemma_assoc_at};
use vstd::string::*;

verus! {

/// A row of the `subsystem_table` table.
pub struct SubsystemModel {
    pub id: i32,
    pub subsys_name: String,
    pub url: String,
    pub is_enable: bool,
    pub relate_service_id: i32,
    pub token: u128,
    pub update_time: NaiveTimestamp,
}

/// A `subsystem_table` record as a request body describes it: every column optional.
pub struct SubsystemInfo {
    pub id: Option<i32>,
    pub subsys_name: Option<String>,
    pub url: Option<String>,
    pub is_enable: Option<bool>,
    pub relate_service_id: Option<i32>,
    pub token: Option<u128>,
    pub update_time: Option<NaiveTimestamp>,
}

impl SubsystemInfo {
    /// Whether the record is what reading the request body `map` gives.
    pub open spec fn read_from(self, map: JsonMap) -> bool {
        &&& self.id == field_i32(map, "id"@)
        &&& opt_text(self.subsys_name) == field_str(map, "subsys_name"@)
        &&& opt_text(self.url) == field_str(map, "url"@)
        &&& self.is_enable == field_bool(map, "is_enable"@)
        &&& self.relate_service_id == field_i32(map, "relate_service_id"@)
        &&& self.token == field_uuid(map, "token"@)
        &&& self.update_time is Some
    }

    /// The i32 columns of the record, each by its name.
    pub open spec fn i32_columns(self) -> Seq<(Seq<char>, Option<i32>)> {
        seq![
            ("id"@, self.id),
            ("relate_service_id"@, self.relate_service_id),
        ]
    }

    /// The text columns of the record, each by its name.
    pub open spec fn text_columns(self) -> Seq<(Seq<char>, Option<Seq<char>>)> {
        seq![
            ("subsys_name"@, opt_text(self.subsys_name)),
            ("url"@, opt_text(self.url)),
        ]
    }

    /// The bool columns of the record, each by its name.
    pub open spec fn bool_columns(self) -> Seq<(Seq<char>, Option<bool>)> {
        seq![
            ("is_enable"@, self.is_enable),
        ]
    }

    /// The uuid columns of the record, each by its name.
    pub open spec fn uuid_columns(self) -> Seq<(Seq<char>, Option<u128>)> {
        seq![
            ("token"@, self.token),
        ]
    }

    /// Every column of the record holds the request member of its own name,
    /// read by the reader of its type.
    pub proof fn law_columns_read_by_name(self, map: JsonMap)
        requires
            self.read_from(map),
        ensures
            forall|i: int| 0 <= i < self.i32_columns().len() ==> #[trigger] self.i32_columns()[i].1 == field_i32(map, self.i32_columns()[i].0),
            forall|i: int| 0 <= i < self.text_columns().len() ==> #[trigger] self.text_columns()[i].1 == field_str(map, self.text_columns()[i].0),
            forall|i: int| 0 <= i < self.bool_columns().len() ==> #[trigger] self.bool_columns()[i].1 == field_bool(map, self.bool_columns()[i].0),
            forall|i: int| 0 <= i < self.uuid_columns().len() ==> #[trigger] self.uuid_columns()[i].1 == field_uuid(map, self.uuid_columns()[i].0),
    {
        assert forall|i: int| 0 <= i < self.i32_columns().len() implies #[trigger] self.i32_columns()[i].1 == field_i32(map, self.i32_columns()[i].0) by {
            if i == 0 {
            } else if i == 1 {
            }
        }
        assert forall|i: int| 0 <= i < self.text_columns().len() implies #[trigger] self.text_columns()[i].1 == field_str(map, self.text_columns()[i].0) by {
            if i == 0 {
            } else if i == 1 {
            }
        }
        assert forall|i: int| 0 <= i < self.bool_columns().len() implies #[trigger] self.bool_columns()[i].1 == field_bool(map, self.bool_columns()[i].0) by {
            if i == 0 {
            }
        }
        assert forall|i: int| 0 <= i < self.uuid_columns().len() implies #[trigger] self.uuid_columns()[i].1 == field_uuid(map, self.uuid_columns()[i].0) by {
            if i == 0 {
            }
        }
    }

    /// Reads the record a request body describes. A member of another type
    /// than its column's is read as absent; the update time is set to the
    /// current local time.
    pub fn from_map(map: JsonMap) -> (r: Result<SubsystemInfo, String>)
        ensures
            (r matches Ok(info) && info.read_from(map)),
    {
        let id = get_i32(&map, "id");
        let subsys_name = get_str(&map, "subsys_name");
        let url = get_str(&map, "url");
        let is_enable = get_bool(&map, "is_enable");
        let relate_service_id = get_i32(&map, "relate_service_id");
        let token = get_uuid(&map, "token");
        Ok(SubsystemInfo {
            id,
            subsys_name,
            url,
            is_enable,
            relate_service_id,
            token,
            update_time: Some(now_naive_local()),
        })
    }
}

impl SubsystemModel {
    /// The filter keys the table honours: the column each constrains, and how.
    pub open spec fn filter_rules() -> FilterRules {
        seq![
            ("subsys_name"@, ("subsys_name", MatchKind::Exact)),
            ("url"@, ("url", MatchKind::Exact)),
        ]
    }

    /// What each filter key asks of the rows: `subsys_name` asks `subsys_name` to equal the text given; `url` asks `url` to equal the text given. A member under another key, or whose value is of another type, asks nothing.
    pub proof fn law_filter_keys(member: (String, JsonValue))
        ensures
            member.0@ == "subsys_name"@ ==> plan_member(SubsystemModel::filter_rules(), member) == match member.1.spec_as_str() {
                Some(s) => Some((ColumnFilterView { column: "subsys_name"@, condition: ConditionView::Equals(s) })),
                None => None,
            },
            member.0@ == "url"@ ==> plan_member(SubsystemModel::filter_rules(), member) == match member.1.spec_as_str() {
                Some(s) => Some((ColumnFilterView { column: "url"@, condition: ConditionView::Equals(s) })),
                None => None,
            },
            member.0@ != "subsys_name"@ && member.0@ != "url"@ ==> plan_member(SubsystemModel::filter_rules(), member) is None,
    {
        reveal_strlit("subsys_name");
        reveal_strlit("url");
        assert("subsys_name"@.len() != "url"@.len());
        let rules = SubsystemModel::filter_rules();
        if member.0@ == "subsys_name"@ {
            lemma_assoc_at(rules, member.0@, 0);
        } else if member.0@ == "url"@ {
            assert forall|j: int| 0 <= j < 1 implies (#[trigger] rules[j]).0 != member.0@ by {
                if j == 0 {
                }
            }
            lemma_assoc_at(rules, member.0@, 1);
        } else {
            assert forall|j: int| 0 <= j < 2 implies (#[trigger] rules[j]).0 != member.0@ by {
                if j == 0 {
                } else if j == 1 {
                }
            }
            lemma_assoc_absent(rules, member.0@);
        }
    }

    fn filter_rules_of() -> (r: Vec<(&'static str, (&'static str, MatchKind))>)
        ensures
            name_views(r@) == SubsystemModel::filter_rules(),
    {
        let r = vec![
            ("subsys_name", ("subsys_name", MatchKind::Exact)),
            ("url", ("url", MatchKind::Exact)),
        ];
        assert(name_views(r@) =~= SubsystemModel::filter_rules());
        r
    }

    /// The conditions a filter puts on the table's rows; members under other
    /// keys, or with values of another type, are ignored.
    pub fn get_model_info_with_filter(filter: &JsonMap) -> (r: Vec<ColumnFilter>)
        ensures
            filters_view(r@) == plan_entries(SubsystemModel::filter_rules(), filter.entries@),
    {
        plan_filters(&SubsystemModel::filter_rules_of(), filter)
    }

    /// What inserting a record comes to: the rows inserted, or the store's
    /// failure.
    pub fn new(executed: Result<usize, String>) -> (r: Result<usize, ModelError>)
        ensures
            r == spec_store_outcome(executed),
    {
        store_outcome(executed)
    }

    /// What updating the row that a record's `id` names comes to: the
    /// rows updated, a bad request when no row has that key, or the store's
    /// failure.
    pub fn update(info: &SubsystemInfo, executed: Result<usize, String>) -> (r: Result<usize, ModelError>)
        requires
            info.id is Some,
        ensures
            outcome_view(r) == spec_row_outcome(executed, not_found_message("id"@, decimal_text(info.id.unwrap() as int))),
    {
        let key = i64_to_decimal(info.id.unwrap() as i64);
        row_outcome(executed, not_found("id", key.as_str()))
    }

    /// What deleting the row with the key comes to: the rows deleted, a bad
    /// request when no row has that key, or the store's failure.
    pub fn delete(_id: i32, executed: Result<usize, String>) -> (r: Result<usize, ModelError>)
        ensures
            outcome_view(r) == spec_row_outcome(executed, not_found_message("id"@, decimal_text(_id as int))),
    {
        let key = i64_to_decimal(_id as i64);
        row_outcome(executed, not_found("id", key.as_str()))
    }
}

} // verus!
