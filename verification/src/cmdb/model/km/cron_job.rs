//! The `cron_job` table: its rows, the record a request body describes,
//! the filters it honours and what its store calls come to.
use vstd::prelude::*;
use crate::clock::{NaiveTimestamp, now_naive_local};
use crate::fields::{field_bool, field_datetime, field_i64, field_str, get_bool, get_datetime, get_i64, get_str};
use crate::json::{JsonMap, JsonValue, opt_text};
use crate::mailman::{ModelError, not_found, not_found_message, outcome_view, row_outcome, spec_row_outcome, spec_store_outcome, store_outcome};
use crate::query::{filters_view, plan_entries, plan_filters, ColumnFilter, FilterRules, MatchKind};
use crate::table::name_views;

use crate::query::{plan_member, ColumnFilterView, ConditionView};
use crate::table::{lemma_assoc_absent, lemma_assoc_at};
use vstd::string::*;

verus! {

/// A row of the `cron_job` table.
pub struct CronJobModel {
    pub id: String,
    pub script: String,
    pub frequency: i64,
    pub times: i64,
    pub params: JsonValue,
    pub comment: String,
    pub is_enable: bool,
    pub launch_at: NaiveTimestamp,
    pub update_time: NaiveTimestamp,
}

/// A `cron_job` record as a request body describes it: every column optional.
pub struct CronJobInfo {
    pub id: Option<String>,
    pub script: Option<String>,
    pub frequency: Option<i64>,
    pub times: Option<i64>,
    pub params: Option<JsonValue>,
    pub comment: Option<String>,
    pub is_enable: Option<bool>,
    pub launch_at: Option<NaiveTimestamp>,
    pub update_time: Option<NaiveTimestamp>,
}

impl CronJobInfo {
    /// Whether the record is what reading the request body `map` gives.
    pub open spec fn read_from(self, map: JsonMap) -> bool {
        &&& opt_text(self.id) == field_str(map, "id"@)
        &&& opt_text(self.script) == field_str(map, "script"@)
        &&& self.frequency == field_i64(map, "frequency"@)
        &&& self.times == field_i64(map, "times"@)
        &&& self.params == map.spec_get("params"@)
        &&& opt_text(self.comment) == field_str(map, "comment"@)
        &&& self.is_enable == field_bool(map, "is_enable"@)
        &&& self.launch_at == field_datetime(map, "launch_at"@)
        &&& self.update_time is Some
    }

    /// The text columns of the record, each by its name.
    pub open spec fn text_columns(self) -> Seq<(Seq<char>, Option<Seq<char>>)> {
        seq![
            ("id"@, opt_text(self.id)),
            ("script"@, opt_text(self.script)),
            ("comment"@, opt_text(self.comment)),
        ]
    }

    /// The i64 columns of the record, each by its name.
    pub open spec fn i64_columns(self) -> Seq<(Seq<char>, Option<i64>)> {
        seq![
            ("frequency"@, self.frequency),
            ("times"@, self.times),
        ]
    }

    /// The json columns of the record, each by its name.
    pub open spec fn json_columns(self) -> Seq<(Seq<char>, Option<JsonValue>)> {
        seq![
            ("params"@, self.params),
        ]
    }

    /// The bool columns of the record, each by its name.
    pub open spec fn bool_columns(self) -> Seq<(Seq<char>, Option<bool>)> {
        seq![
            ("is_enable"@, self.is_enable),
        ]
    }

    /// The datetime columns of the record, each by its name.
    pub open spec fn datetime_columns(self) -> Seq<(Seq<char>, Option<NaiveTimestamp>)> {
        seq![
            ("launch_at"@, self.launch_at),
        ]
    }

    /// Every column of the record holds the request member of its own name,
    /// read by the reader of its type.
    pub proof fn law_columns_read_by_name(self, map: JsonMap)
        requires
            self.read_from(map),
        ensures
            forall|i: int| 0 <= i < self.text_columns().len() ==> #[trigger] self.text_columns()[i].1 == field_str(map, self.text_columns()[i].0),
            forall|i: int| 0 <= i < self.i64_columns().len() ==> #[trigger] self.i64_columns()[i].1 == field_i64(map, self.i64_columns()[i].0),
            forall|i: int| 0 <= i < self.json_columns().len() ==> #[trigger] self.json_columns()[i].1 == map.spec_get(self.json_columns()[i].0),
            forall|i: int| 0 <= i < self.bool_columns().len() ==> #[trigger] self.bool_columns()[i].1 == field_bool(map, self.bool_columns()[i].0),
            forall|i: int| 0 <= i < self.datetime_columns().len() ==> #[trigger] self.datetime_columns()[i].1 == field_datetime(map, self.datetime_columns()[i].0),
    {
        assert forall|i: int| 0 <= i < self.text_columns().len() implies #[trigger] self.text_columns()[i].1 == field_str(map, self.text_columns()[i].0) by {
            if i == 0 {
            } else if i == 1 {
            } else if i == 2 {
            }
        }
        assert forall|i: int| 0 <= i < self.i64_columns().len() implies #[trigger] self.i64_columns()[i].1 == field_i64(map, self.i64_columns()[i].0) by {
            if i == 0 {
            } else if i == 1 {
            }
        }
        assert forall|i: int| 0 <= i < self.json_columns().len() implies #[trigger] self.json_columns()[i].1 == map.spec_get(self.json_columns()[i].0) by {
            if i == 0 {
            }
        }
        assert forall|i: int| 0 <= i < self.bool_columns().len() implies #[trigger] self.bool_columns()[i].1 == field_bool(map, self.bool_columns()[i].0) by {
            if i == 0 {
            }
        }
        assert forall|i: int| 0 <= i < self.datetime_columns().len() implies #[trigger] self.datetime_columns()[i].1 == field_datetime(map, self.datetime_columns()[i].0) by {
            if i == 0 {
            }
        }
    }

    /// Reads the record a request body describes. A member of another type
    /// than its column's is read as absent; JSON columns take the member as
    /// it is; the update time is set to the current local time.
    pub fn from_map(map: JsonMap) -> (r: Result<CronJobInfo, String>)
        ensures
            (r matches Ok(info) && info.read_from(map)),
    {
        let id = get_str(&map, "id");
        let script = get_str(&map, "script");
        let frequency = get_i64(&map, "frequency");
        let times = get_i64(&map, "times");
        let comment = get_str(&map, "comment");
        let is_enable = get_bool(&map, "is_enable");
        let launch_at = get_datetime(&map, "launch_at");
        let mut rest = map;
        let params = rest.take("params");
        Ok(CronJobInfo {
            id,
            script,
            frequency,
            times,
            params,
            comment,
            is_enable,
            launch_at,
            update_time: Some(now_naive_local()),
        })
    }
}

impl CronJobModel {
    /// The filter keys the table honours: the column each constrains, and how.
    pub open spec fn filter_rules() -> FilterRules {
        seq![
            ("id"@, ("id", MatchKind::Exact)),
            ("script"@, ("script", MatchKind::Contains)),
        ]
    }

    /// What each filter key asks of the rows: `id` asks `id` to equal the text given; `script` asks `script` to contain the text given. A member under another key, or whose value is of another type, asks nothing.
    pub proof fn law_filter_keys(member: (String, JsonValue))
        ensures
            member.0@ == "id"@ ==> plan_member(CronJobModel::filter_rules(), member) == match member.1.spec_as_str() {
                Some(s) => Some((ColumnFilterView { column: "id"@, condition: ConditionView::Equals(s) })),
                None => None,
            },
            member.0@ == "script"@ ==> plan_member(CronJobModel::filter_rules(), member) == match member.1.spec_as_str() {
                Some(s) => Some((ColumnFilterView { column: "script"@, condition: ConditionView::Like(seq!['%'] + s + seq!['%']) })),
                None => None,
            },
            member.0@ != "id"@ && member.0@ != "script"@ ==> plan_member(CronJobModel::filter_rules(), member) is None,
    {
        reveal_strlit("id");
        reveal_strlit("script");
        assert("id"@.len() != "script"@.len());
        let rules = CronJobModel::filter_rules();
        if member.0@ == "id"@ {
            lemma_assoc_at(rules, member.0@, 0);
        } else if member.0@ == "script"@ {
            assert forall|j: int| 0 <= j < 1 implies (#[trigger] rules[j]).0 != member.0@ by {
                if j == 0 {
                }
            }
            lemma_assoc_at(rules, member.0@, 1);
        } else {
            assert forall|j: int| 0 <= j < 2 implies (#[trigger] rules[j]).0 != member.0@ by {
                if j == 0 {
                } else if j == 1 {
                }
            }
            lemma_assoc_absent(rules, member.0@);
        }
    }

    fn filter_rules_of() -> (r: Vec<(&'static str, (&'static str, MatchKind))>)
        ensures
            name_views(r@) == CronJobModel::filter_rules(),
    {
        let r = vec![
            ("id", ("id", MatchKind::Exact)),
            ("script", ("script", MatchKind::Contains)),
        ];
        assert(name_views(r@) =~= CronJobModel::filter_rules());
        r
    }

    /// The conditions a filter puts on the table's rows; members under other
    /// keys, or with values of another type, are ignored.
    pub fn get_model_info_with_filter(filter: &JsonMap) -> (r: Vec<ColumnFilter>)
        ensures
            filters_view(r@) == plan_entries(CronJobModel::filter_rules(), filter.entries@),
    {
        plan_filters(&CronJobModel::filter_rules_of(), filter)
    }

    /// What inserting a record comes to: the rows inserted, or the store's
    /// failure.
    pub fn new(executed: Result<usize, String>) -> (r: Result<usize, ModelError>)
        ensures
            r == spec_store_outcome(executed),
    {
        store_outcome(executed)
    }

    /// What updating the row that a record's `id` names comes to: the
    /// rows updated, a bad request when no row has that key, or the store's
    /// failure.
    pub fn update(info: &CronJobInfo, executed: Result<usize, String>) -> (r: Result<usize, ModelError>)
        requires
            info.id is Some,
        ensures
            outcome_view(r) == spec_row_outcome(executed, not_found_message("id"@, opt_text(info.id).unwrap())),
    {
        row_outcome(executed, not_found("id", info.id.as_ref().unwrap().as_str()))
    }

    /// What deleting the row with the key comes to: the rows deleted, a bad
    /// request when no row has that key, or the store's failure.
    pub fn delete(_id: &str, executed: Result<usize, String>) -> (r: Result<usize, ModelError>)
        ensures
            outcome_view(r) == spec_row_outcome(executed, not_found_message("id"@, _id@)),
    {
        row_outcome(executed, not_found("id", _id))
    }
}

} // verus!
