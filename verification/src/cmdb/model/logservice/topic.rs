//! The `logservice_topic` table: its rows, the record a request body describes,
//! the filters it honours and what its store calls come to.
use vstd::prelude::*;
use crate::clock::{NaiveTimestamp, now_naive_local};
use crate::fields::{field_bool, field_i32_or_zero, field_i64, field_str, get_bool, get_i32_or_zero, get_i64, get_str};
use crate::json::{JsonMap, JsonValue, opt_text};
use crate::mailman::{ModelError, not_found, not_found_message, outcome_view, row_outcome, spec_row_outcome, spec_store_outcome, store_outcome};
use crate::query::{filters_view, plan_entries, plan_filters, ColumnFilter, FilterRules, MatchKind};
use crate::table::name_views;
use crate::text::{decimal_text, i64_to_decimal};

use crate::query::{plan_member, ColumnFilterView, ConditionView};
use crate::table::{lemma_assoc_absent, lemma_assoc_at};
use vstd::string::*;

verus! {

/// A row of the `logservice_topic` table.
pub struct LogServiceTopicModel {
    pub id: i64,
    pub provider: String,
    pub set_id: String,
    pub topic_id: String,
    pub topic_name: String,
    pub status: String,
    pub hot_period: i32,
    pub period: i32,
    pub index: bool,
    pub describes: String,
    pub tag: JsonValue,
    pub full_info: JsonValue,
    pub attach_info: JsonValue,
    pub update_at: NaiveTimestamp,
}

/// A `logservice_topic` record as a request body describes it: every column optional.
pub struct LogServiceTopicInfo {
    pub id: Option<i64>,
    pub provider: Option<String>,
    pub set_id: Option<String>,
    pub topic_id: Option<String>,
    pub topic_name: Option<String>,
    pub status: Option<String>,
    pub hot_period: Option<i32>,
    pub period: Option<i32>,
    pub index: Option<bool>,
    pub describes: Option<String>,
    pub tag: Option<JsonValue>,
    pub full_info: Option<JsonValue>,
    pub attach_info: Option<JsonValue>,
    pub update_at: Option<NaiveTimestamp>,
}

impl LogServiceTopicInfo {
    /// Whether the record is what reading the request body `map` gives.
    pub open spec fn read_from(self, map: JsonMap) -> bool {
        &&& self.id == field_i64(map, "id"@)
        &&& opt_text(self.provider) == field_str(map, "provider"@)
        &&& opt_text(self.set_id) == field_str(map, "set_id"@)
        &&& opt_text(self.topic_id) == field_str(map, "topic_id"@)
        &&& opt_text(self.topic_name) == field_str(map, "topic_id"@)
        &&& opt_text(self.status) == field_str(map, "status"@)
        &&& self.hot_period == field_i32_or_zero(map, "hot_period"@)
        &&& self.period == field_i32_or_zero(map, "period"@)
        &&& self.index == field_bool(map, "index"@)
        &&& opt_text(self.describes) == field_str(map, "describes"@)
        &&& self.tag == map.spec_get("tag"@)
        &&& self.full_info == map.spec_get("full_info"@)
        &&& self.attach_info == map.spec_get("attach_info"@)
        &&& self.update_at is Some
    }

    /// The i64 columns of the record, each by its name.
    pub open spec fn i64_columns(self) -> Seq<(Seq<char>, Option<i64>)> {
        seq![
            ("id"@, self.id),
        ]
    }

    /// The text columns of the record, each by its name.
    pub open spec fn text_columns(self) -> Seq<(Seq<char>, Option<Seq<char>>)> {
        seq![
            ("provider"@, opt_text(self.provider)),
            ("set_id"@, opt_text(self.set_id)),
            ("topic_id"@, opt_text(self.topic_id)),
            ("status"@, opt_text(self.status)),
            ("describes"@, opt_text(self.describes)),
        ]
    }

    /// The i32 or zero columns of the record, each by its name.
    pub open spec fn i32_or_zero_columns(self) -> Seq<(Seq<char>, Option<i32>)> {
        seq![
            ("hot_period"@, self.hot_period),
            ("period"@, self.period),
        ]
    }

    /// The bool columns of the record, each by its name.
    pub open spec fn bool_columns(self) -> Seq<(Seq<char>, Option<bool>)> {
        seq![
            ("index"@, self.index),
        ]
    }

    /// The json columns of the record, each by its name.
    pub open spec fn json_columns(self) -> Seq<(Seq<char>, Option<JsonValue>)> {
        seq![
            ("tag"@, self.tag),
            ("full_info"@, self.full_info),
            ("attach_info"@, self.attach_info),
        ]
    }

    /// Every column of the record holds the request member of its own name,
    /// read by the reader of its type; the columns the original reads from
    /// another member hold that member.
    pub proof fn law_columns_read_by_name(self, map: JsonMap)
        requires
            self.read_from(map),
        ensures
            forall|i: int| 0 <= i < self.i64_columns().len() ==> #[trigger] self.i64_columns()[i].1 == field_i64(map, self.i64_columns()[i].0),
            forall|i: int| 0 <= i < self.text_columns().len() ==> #[trigger] self.text_columns()[i].1 == field_str(map, self.text_columns()[i].0),
            forall|i: int| 0 <= i < self.i32_or_zero_columns().len() ==> #[trigger] self.i32_or_zero_columns()[i].1 == field_i32_or_zero(map, self.i32_or_zero_columns()[i].0),
            forall|i: int| 0 <= i < self.bool_columns().len() ==> #[trigger] self.bool_columns()[i].1 == field_bool(map, self.bool_columns()[i].0),
            forall|i: int| 0 <= i < self.json_columns().len() ==> #[trigger] self.json_columns()[i].1 == map.spec_get(self.json_columns()[i].0),
            opt_text(self.topic_name) == field_str(map, "topic_id"@),
    {
        assert forall|i: int| 0 <= i < self.i64_columns().len() implies #[trigger] self.i64_columns()[i].1 == field_i64(map, self.i64_columns()[i].0) by {
            if i == 0 {
            }
        }
        assert forall|i: int| 0 <= i < self.text_columns().len() implies #[trigger] self.text_columns()[i].1 == field_str(map, self.text_columns()[i].0) by {
            if i == 0 {
            } else if i == 1 {
            } else if i == 2 {
            } else if i == 3 {
            } else if i == 4 {
            }
        }
        assert forall|i: int| 0 <= i < self.i32_or_zero_columns().len() implies #[trigger] self.i32_or_zero_columns()[i].1 == field_i32_or_zero(map, self.i32_or_zero_columns()[i].0) by {
            if i == 0 {
            } else if i == 1 {
            }
        }
        assert forall|i: int| 0 <= i < self.bool_columns().len() implies #[trigger] self.bool_columns()[i].1 == field_bool(map, self.bool_columns()[i].0) by {
            if i == 0 {
            }
        }
        assert forall|i: int| 0 <= i < self.json_columns().len() implies #[trigger] self.json_columns()[i].1 == map.spec_get(self.json_columns()[i].0) by {
            if i == 0 {
            } else if i == 1 {
            } else if i == 2 {
            }
        }
    }

    /// Reads the record a request body describes. A member of another type
    /// than its column's is read as absent; JSON columns take the member as
    /// it is; the update time is set to the current local time.
    pub fn from_map(map: JsonMap) -> (r: Result<LogServiceTopicInfo, String>)
        ensures
            (r matches Ok(info) && info.read_from(map)),
    {
        let id = get_i64(&map, "id");
        let provider = get_str(&map, "provider");
        let set_id = get_str(&map, "set_id");
        let topic_id = get_str(&map, "topic_id");
        let topic_name = get_str(&map, "topic_id");
        let status = get_str(&map, "status");
        let hot_period = get_i32_or_zero(&map, "hot_period");
        let period = get_i32_or_zero(&map, "period");
        let index = get_bool(&map, "index");
        let describes = get_str(&map, "describes");
        let mut rest = map;
        proof {
            reveal_strlit("tag");
            reveal_strlit("full_info");
            reveal_strlit("attach_info");
            assert("tag"@.len() != "full_info"@.len() || "tag"@ != "full_info"@);
            assert("tag"@ != "full_info"@);
            assert("tag"@.len() != "attach_info"@.len() || "tag"@ != "attach_info"@);
            assert("tag"@ != "attach_info"@);
            assert("full_info"@.len() != "attach_info"@.len() || "full_info"@ != "attach_info"@);
            assert("full_info"@ != "attach_info"@);
        }
        let tag = rest.take("tag");
        let full_info = rest.take("full_info");
        let attach_info = rest.take("attach_info");
        Ok(LogServiceTopicInfo {
            id,
            provider,
            set_id,
            topic_id,
            topic_name,
            status,
            hot_period,
            period,
            index,
            describes,
            tag,
            full_info,
            attach_info,
            update_at: Some(now_naive_local()),
        })
    }
}

impl LogServiceTopicModel {
    /// The filter keys the table honours: the column each constrains, and how.
    pub open spec fn filter_rules() -> FilterRules {
        seq![
            ("provider"@, ("provider", MatchKind::Exact)),
            ("set_id"@, ("set_id", MatchKind::Contains)),
            ("topic_id"@, ("topic_id", MatchKind::Contains)),
            ("topic_name"@, ("topic_name", MatchKind::Contains)),
            ("status"@, ("status", MatchKind::Exact)),
        ]
    }

    /// What each filter key asks of the rows: `provider` asks `provider` to equal the text given; `set_id` asks `set_id` to contain the text given; `topic_id` asks `topic_id` to contain the text given; `topic_name` asks `topic_name` to contain the text given; `status` asks `status` to equal the text given. A member under another key, or whose value is of another type, asks nothing.
    pub proof fn law_filter_keys(member: (String, JsonValue))
        ensures
            member.0@ == "provider"@ ==> plan_member(LogServiceTopicModel::filter_rules(), member) == match member.1.spec_as_str() {
                Some(s) => Some((ColumnFilterView { column: "provider"@, condition: ConditionView::Equals(s) })),
                None => None,
            },
            member.0@ == "set_id"@ ==> plan_member(LogServiceTopicModel::filter_rules(), member) == match member.1.spec_as_str() {
                Some(s) => Some((ColumnFilterView { column: "set_id"@, condition: ConditionView::Like(seq!['%'] + s + seq!['%']) })),
                None => None,
            },
            member.0@ == "topic_id"@ ==> plan_member(LogServiceTopicModel::filter_rules(), member) == match member.1.spec_as_str() {
                Some(s) => Some((ColumnFilterView { column: "topic_id"@, condition: ConditionView::Like(seq!['%'] + s + seq!['%']) })),
                None => None,
            },
            member.0@ == "topic_name"@ ==> plan_member(LogServiceTopicModel::filter_rules(), member) == match member.1.spec_as_str() {
                Some(s) => Some((ColumnFilterView { column: "topic_name"@, condition: ConditionView::Like(seq!['%'] + s + seq!['%']) })),
                None => None,
            },
            member.0@ == "status"@ ==> plan_member(LogServiceTopicModel::filter_rules(), member) == match member.1.spec_as_str() {
                Some(s) => Some((ColumnFilterView { column: "status"@, condition: ConditionView::Equals(s) })),
                None => None,
            },
            member.0@ != "provider"@ && member.0@ != "set_id"@ && member.0@ != "topic_id"@ && member.0@ != "topic_name"@ && member.0@ != "status"@ ==> plan_member(LogServiceTopicModel::filter_rules(), member) is None,
    {
        reveal_strlit("provider");
        reveal_strlit("set_id");
        reveal_strlit("status");
        reveal_strlit("topic_id");
        reveal_strlit("topic_name");
        assert("provider"@.len() != "set_id"@.len());
        assert("provider"@[0] != "topic_id"@[0]);
        assert("set_id"@.len() != "topic_id"@.len());
        assert("provider"@.len() != "topic_name"@.len());
        assert("set_id"@.len() != "topic_name"@.len());
        assert("topic_id"@.len() != "topic_name"@.len());
        assert("provider"@.len() != "status"@.len());
        assert("set_id"@[1] != "status"@[1]);
        assert("topic_id"@.len() != "status"@.len());
        assert("topic_name"@.len() != "status"@.len());
        let rules = LogServiceTopicModel::filter_rules();
        if member.0@ == "provider"@ {
            lemma_assoc_at(rules, member.0@, 0);
        } else if member.0@ == "set_id"@ {
            assert forall|j: int| 0 <= j < 1 implies (#[trigger] rules[j]).0 != member.0@ by {
                if j == 0 {
                }
            }
            lemma_assoc_at(rules, member.0@, 1);
        } else if member.0@ == "topic_id"@ {
            assert forall|j: int| 0 <= j < 2 implies (#[trigger] rules[j]).0 != member.0@ by {
                if j == 0 {
                } else if j == 1 {
                }
            }
            lemma_assoc_at(rules, member.0@, 2);
        } else if member.0@ == "topic_name"@ {
            assert forall|j: int| 0 <= j < 3 implies (#[trigger] rules[j]).0 != member.0@ by {
                if j == 0 {
                } else if j == 1 {
                } else if j == 2 {
                }
            }
            lemma_assoc_at(rules, member.0@, 3);
        } else if member.0@ == "status"@ {
            assert forall|j: int| 0 <= j < 4 implies (#[trigger] rules[j]).0 != member.0@ by {
                if j == 0 {
                } else if j == 1 {
                } else if j == 2 {
                } else if j == 3 {
                }
            }
            lemma_assoc_at(rules, member.0@, 4);
        } else {
            assert forall|j: int| 0 <= j < 5 implies (#[trigger] rules[j]).0 != member.0@ by {
                if j == 0 {
                } else if j == 1 {
                } else if j == 2 {
                } else if j == 3 {
                } else if j == 4 {
                }
            }
            lemma_assoc_absent(rules, member.0@);
        }
    }

    fn filter_rules_of() -> (r: Vec<(&'static str, (&'static str, MatchKind))>)
        ensures
            name_views(r@) == LogServiceTopicModel::filter_rules(),
    {
        let r = vec![
            ("provider", ("provider", MatchKind::Exact)),
            ("set_id", ("set_id", MatchKind::Contains)),
            ("topic_id", ("topic_id", MatchKind::Contains)),
            ("topic_name", ("topic_name", MatchKind::Contains)),
            ("status", ("status", MatchKind::Exact)),
        ];
        assert(name_views(r@) =~= LogServiceTopicModel::filter_rules());
        r
    }

    /// The conditions a filter puts on the table's rows; members under other
    /// keys, or with values of another type, are ignored.
    pub fn get_model_info_with_filter(filter: &JsonMap) -> (r: Vec<ColumnFilter>)
        ensures
            filters_view(r@) == plan_entries(LogServiceTopicModel::filter_rules(), filter.entries@),
    {
        plan_filters(&LogServiceTopicModel::filter_rules_of(), filter)
    }

    /// What inserting a record comes to: the rows inserted, or the store's
    /// failure.
    pub fn new(executed: Result<usize, String>) -> (r: Result<usize, ModelError>)
        ensures
            r == spec_store_outcome(executed),
    {
        store_outcome(executed)
    }

    /// What updating the row that a record's `id` names comes to: the
    /// rows updated, a bad request when no row has that key, or the store's
    /// failure.
    pub fn update(info: &LogServiceTopicInfo, executed: Result<usize, String>) -> (r: Result<usize, ModelError>)
        requires
            info.id is Some,
        ensures
            outcome_view(r) == spec_row_outcome(executed, not_found_message("id"@, decimal_text(info.id.unwrap() as int))),
    {
        let key = i64_to_decimal(info.id.unwrap() as i64);
        row_outcome(executed, not_found("id", key.as_str()))
    }

    /// What deleting the row with the key comes to: the rows deleted, a bad
    /// request when no row has that key, or the store's failure.
    pub fn delete(_id: i64, executed: Result<usize, String>) -> (r: Result<usize, ModelError>)
        ensures
            outcome_view(r) == spec_row_outcome(executed, not_found_message("id"@, decimal_text(_id as int))),
    {
        let key = i64_to_decimal(_id as i64);
        row_outcome(executed, not_found("id", key.as_str()))
    }
}

} // verus!
