//! The `job_log` table: its rows, the record a request body describes,
//! the filters it honours and what its store calls come to.
use vstd::prelude::*;
use crate::clock::{NaiveTimestamp, now_naive_local};
use crate::fields::{field_datetime, field_i16, field_str, get_datetime, get_i16, get_str};
use crate::json::{JsonMap, JsonValue, opt_text};
use crate::mailman::{ModelError, not_found, not_found_message, outcome_view, row_outcome, spec_row_outcome, spec_store_outcome, store_outcome};
use crate::query::{filters_view, plan_entries, plan_filters, ColumnFilter, FilterRules, MatchKind};
use crate::table::name_views;

use crate::query::{plan_member, ColumnFilterView, ConditionView};
use crate::table::{lemma_assoc_absent, lemma_assoc_at};
use vstd::string::*;

verus! {

/// A row of the `job_log` table.
pub struct JobLogModel {
    pub id: String,
    pub script: String,
    pub exec_type: String,
    pub commander: String,
    pub worker: String,
    pub status: i16,
    pub params: JsonValue,
    pub result: String,
    pub finish_time: NaiveTimestamp,
    pub update_time: NaiveTimestamp,
    pub comment: String,
}

/// A `job_log` record as a request body describes it: every column optional.
pub struct JobLogInfo {
    pub id: Option<String>,
    pub script: Option<String>,
    pub exec_type: Option<String>,
    pub commander: Option<String>,
    pub worker: Option<String>,
    pub status: Option<i16>,
    pub params: Option<JsonValue>,
    pub result: Option<String>,
    pub finish_time: Option<NaiveTimestamp>,
    pub update_time: Option<NaiveTimestamp>,
    pub comment: Option<String>,
}

impl JobLogInfo {
    /// Whether the record is what reading the request body `map` gives.
    pub open spec fn read_from(self, map: JsonMap) -> bool {
        &&& opt_text(self.id) == field_str(map, "id"@)
        &&& opt_text(self.script) == field_str(map, "script"@)
        &&& opt_text(self.exec_type) == field_str(map, "exec_type"@)
        &&& opt_text(self.commander) == field_str(map, "commander"@)
        &&& opt_text(self.worker) == field_str(map, "worker"@)
        &&& self.status == field_i16(map, "status"@)
        &&& self.params == map.spec_get("params"@)
        &&& opt_text(self.result) == field_str(map, "result"@)
        &&& self.finish_time == field_datetime(map, "finish_time"@)
        &&& self.update_time is Some
        &&& opt_text(self.comment) == field_str(map, "comment"@)
    }

    /// The text columns of the record, each by its name.
    pub open spec fn text_columns(self) -> Seq<(Seq<char>, Option<Seq<char>>)> {
        seq![
            ("id"@, opt_text(self.id)),
            ("script"@, opt_text(self.script)),
            ("exec_type"@, opt_text(self.exec_type)),
            ("commander"@, opt_text(self.commander)),
            ("worker"@, opt_text(self.worker)),
            ("result"@, opt_text(self.result)),
            ("comment"@, opt_text(self.comment)),
        ]
    }

    /// The i16 columns of the record, each by its name.
    pub open spec fn i16_columns(self) -> Seq<(Seq<char>, Option<i16>)> {
        seq![
            ("status"@, self.status),
        ]
    }

    /// The json columns of the record, each by its name.
    pub open spec fn json_columns(self) -> Seq<(Seq<char>, Option<JsonValue>)> {
        seq![
            ("params"@, self.params),
        ]
    }

    /// The datetime columns of the record, each by its name.
    pub open spec fn datetime_columns(self) -> Seq<(Seq<char>, Option<NaiveTimestamp>)> {
        seq![
            ("finish_time"@, self.finish_time),
        ]
    }

    /// Every column of the record holds the request member of its own name,
    /// read by the reader of its type.
    pub proof fn law_columns_read_by_name(self, map: JsonMap)
        requires
            self.read_from(map),
        ensures
            forall|i: int| 0 <= i < self.text_columns().len() ==> #[trigger] self.text_columns()[i].1 == field_str(map, self.text_columns()[i].0),
            forall|i: int| 0 <= i < self.i16_columns().len() ==> #[trigger] self.i16_columns()[i].1 == field_i16(map, self.i16_columns()[i].0),
            forall|i: int| 0 <= i < self.json_columns().len() ==> #[trigger] self.json_columns()[i].1 == map.spec_get(self.json_columns()[i].0),
            forall|i: int| 0 <= i < self.datetime_columns().len() ==> #[trigger] self.datetime_columns()[i].1 == field_datetime(map, self.datetime_columns()[i].0),
    {
        assert forall|i: int| 0 <= i < self.text_columns().len() implies #[trigger] self.text_columns()[i].1 == field_str(map, self.text_columns()[i].0) by {
            if i == 0 {
            } else if i == 1 {
            } else if i == 2 {
            } else if i == 3 {
            } else if i == 4 {
            } else if i == 5 {
            } else if i == 6 {
            }
        }
        assert forall|i: int| 0 <= i < self.i16_columns().len() implies #[trigger] self.i16_columns()[i].1 == field_i16(map, self.i16_columns()[i].0) by {
            if i == 0 {
            }
        }
        assert forall|i: int| 0 <= i < self.json_columns().len() implies #[trigger] self.json_columns()[i].1 == map.spec_get(self.json_columns()[i].0) by {
            if i == 0 {
            }
        }
        assert forall|i: int| 0 <= i < self.datetime_columns().len() implies #[trigger] self.datetime_columns()[i].1 == field_datetime(map, self.datetime_columns()[i].0) by {
            if i == 0 {
            }
        }
    }

    /// Reads the record a request body describes. A member of another type
    /// than its column's is read as absent; JSON columns take the member as
    /// it is; the update time is set to the current local time.
    pub fn from_map(map: JsonMap) -> (r: Result<JobLogInfo, String>)
        ensures
            (r matches Ok(info) && info.read_from(map)),
    {
        let id = get_str(&map, "id");
        let script = get_str(&map, "script");
        let exec_type = get_str(&map, "exec_type");
        let commander = get_str(&map, "commander");
        let worker = get_str(&map, "worker");
        let status = get_i16(&map, "status");
        let result = get_str(&map, "result");
        let finish_time = get_datetime(&map, "finish_time");
        let comment = get_str(&map, "comment");
        let mut rest = map;
        let params = rest.take("params");
        Ok(JobLogInfo {
            id,
            script,
            exec_type,
            commander,
            worker,
            status,
            params,
            result,
            finish_time,
            update_time: Some(now_naive_local()),
            comment,
        })
    }
}

impl JobLogModel {
    /// The filter keys the table honours: the column each constrains, and how.
    pub open spec fn filter_rules() -> FilterRules {
        seq![
            ("exec_type"@, ("exec_type", MatchKind::Exact)),
            ("worker"@, ("worker", MatchKind::Exact)),
        ]
    }

    /// What each filter key asks of the rows: `exec_type` asks `exec_type` to equal the text given; `worker` asks `worker` to equal the text given. A member under another key, or whose value is of another type, asks nothing.
    pub proof fn law_filter_keys(member: (String, JsonValue))
        ensures
            member.0@ == "exec_type"@ ==> plan_member(JobLogModel::filter_rules(), member) == match member.1.spec_as_str() {
                Some(s) => Some((ColumnFilterView { column: "exec_type"@, condition: ConditionView::Equals(s) })),
                None => None,
            },
            member.0@ == "worker"@ ==> plan_member(JobLogModel::filter_rules(), member) == match member.1.spec_as_str() {
                Some(s) => Some((ColumnFilterView { column: "worker"@, condition: ConditionView::Equals(s) })),
                None => None,
            },
            member.0@ != "exec_type"@ && member.0@ != "worker"@ ==> plan_member(JobLogModel::filter_rules(), member) is None,
    {
        reveal_strlit("exec_type");
        reveal_strlit("worker");
        assert("exec_type"@.len() != "worker"@.len());
        let rules = JobLogModel::filter_rules();
        if member.0@ == "exec_type"@ {
            lemma_assoc_at(rules, member.0@, 0);
        } else if member.0@ == "worker"@ {
            assert forall|j: int| 0 <= j < 1 implies (#[trigger] rules[j]).0 != member.0@ by {
                if j == 0 {
                }
            }
            lemma_assoc_at(rules, member.0@, 1);
        } else {
            assert forall|j: int| 0 <= j < 2 implies (#[trigger] rules[j]).0 != member.0@ by {
                if j == 0 {
                } else if j == 1 {
                }
            }
            lemma_assoc_absent(rules, member.0@);
        }
    }

    fn filter_rules_of() -> (r: Vec<(&'static str, (&'static str, MatchKind))>)
        ensures
            name_views(r@) == JobLogModel::filter_rules(),
    {
        let r = vec![
            ("exec_type", ("exec_type", MatchKind::Exact)),
            ("worker", ("worker", MatchKind::Exact)),
        ];
        assert(name_views(r@) =~= JobLogModel::filter_rules());
        r
    }

    /// The conditions a filter puts on the table's rows; members under other
    /// keys, or with values of another type, are ignored.
    pub fn get_model_info_with_filter(filter: &JsonMap) -> (r: Vec<ColumnFilter>)
        ensures
            filters_view(r@) == plan_entries(JobLogModel::filter_rules(), filter.entries@),
    {
        plan_filters(&JobLogModel::filter_rules_of(), filter)
    }

    /// What inserting a record comes to: the rows inserted, or the store's
    /// failure.
    pub fn new(executed: Result<usize, String>) -> (r: Result<usize, ModelError>)
        ensures
            r == spec_store_outcome(executed),
    {
        store_outcome(executed)
    }

    /// What updating the row that a record's `id` names comes to: the
    /// rows updated, a bad request when no row has that key, or the store's
    /// failure.
    pub fn update(info: &JobLogInfo, executed: Result<usize, String>) -> (r: Result<usize, ModelError>)
        requires
            info.id is Some,
        ensures
            outcome_view(r) == spec_row_outcome(executed, not_found_message("id"@, opt_text(info.id).unwrap())),
    {
        row_outcome(executed, not_found("id", info.id.as_ref().unwrap().as_str()))
    }

    /// What deleting the row with the key comes to: the rows deleted, a bad
    /// request when no row has that key, or the store's failure.
    pub fn delete(_id: &str, executed: Result<usize, String>) -> (r: Result<usize, ModelError>)
        ensures
            outcome_view(r) == spec_row_outcome(executed, not_found_message("id"@, _id@)),
    {
        row_outcome(executed, not_found("id", _id))
    }
}

} // verus!
