//! The `logservice_topic` table: its rows, the record a request body describes,
//! the filters it honours and what its store calls come to.
use vstd::prelude::*;
use crate::clock::{NaiveTimestamp, now_naive_local};
use crate::fields::{field_i8_checked, field_str, field_u32_checked, field_u64, get_i8_checked, get_str, get_u32_checked, get_u64};
use crate::json::{JsonMap, opt_text};
use crate::mailman::{spec_store_outcome, store_outcome, ModelError};
use crate::query::{filters_view, plan_entries, plan_filters, ColumnFilter, FilterRules, MatchKind};
use crate::table::name_views;

use crate::json::JsonValue;
use crate::query::{plan_member, ColumnFilterView, ConditionView};
use crate::table::{lemma_assoc_absent, lemma_assoc_at};
use vstd::string::*;

verus! {

/// A row of the `logservice_topic` table.
pub struct LogServiceTopicModel {
    pub id: u64,
    pub provider: String,
    pub set_id: String,
    pub topic_id: String,
    pub topic_name: String,
    pub status: String,
    pub hot_period: u32,
    pub period: u32,
    pub index: i8,
    pub full_info: Option<String>,
    pub attach_info: Option<String>,
    pub update_at: Option<NaiveTimestamp>,
    pub describes: String,
}

/// A `logservice_topic` record as a request body describes it: every column optional.
pub struct LogServiceTopicInfo {
    pub id: Option<u64>,
    pub provider: Option<String>,
    pub set_id: Option<String>,
    pub topic_id: Option<String>,
    pub topic_name: Option<String>,
    pub status: Option<String>,
    pub hot_period: Option<u32>,
    pub period: Option<u32>,
    pub index: Option<i8>,
    pub full_info: Option<String>,
    pub attach_info: Option<String>,
    pub update_at: Option<NaiveTimestamp>,
    pub describes: Option<String>,
}

impl LogServiceTopicInfo {
    /// Whether the record is what reading the request body `map` gives.
    pub open spec fn read_from(self, map: JsonMap) -> bool {
        &&& self.id == field_u64(map, "id"@)
        &&& opt_text(self.provider) == field_str(map, "provider"@)
        &&& opt_text(self.set_id) == field_str(map, "provider"@)
        &&& opt_text(self.topic_id) == field_str(map, "provider"@)
        &&& opt_text(self.topic_name) == field_str(map, "provider"@)
        &&& opt_text(self.status) == field_str(map, "provider"@)
        &&& self.hot_period == field_u32_checked(map, "hot_period"@)
        &&& self.period == field_u32_checked(map, "hot_period"@)
        &&& self.index == field_i8_checked(map, "hot_period"@)
        &&& opt_text(self.full_info) == field_str(map, "full_info"@)
        &&& opt_text(self.attach_info) == field_str(map, "attach_info"@)
        &&& self.update_at is Some
        &&& opt_text(self.describes) == field_str(map, "describes"@)
    }

    /// The u64 columns of the record, each by its name.
    pub open spec fn u64_columns(self) -> Seq<(Seq<char>, Option<u64>)> {
        seq![
            ("id"@, self.id),
        ]
    }

    /// The text columns of the record, each by its name.
    pub open spec fn text_columns(self) -> Seq<(Seq<char>, Option<Seq<char>>)> {
        seq![
            ("provider"@, opt_text(self.provider)),
            ("full_info"@, opt_text(self.full_info)),
            ("attach_info"@, opt_text(self.attach_info)),
            ("describes"@, opt_text(self.describes)),
        ]
    }

    /// The u32 checked columns of the record, each by its name.
    pub open spec fn u32_checked_columns(self) -> Seq<(Seq<char>, Option<u32>)> {
        seq![
            ("hot_period"@, self.hot_period),
        ]
    }

    /// Every column of the record holds the request member of its own name,
    /// read by the reader of its type; the columns the original reads from
    /// another member hold that member.
    pub proof fn law_columns_read_by_name(self, map: JsonMap)
        requires
            self.read_from(map),
        ensures
            forall|i: int| 0 <= i < self.u64_columns().len() ==> #[trigger] self.u64_columns()[i].1 == field_u64(map, self.u64_columns()[i].0),
            forall|i: int| 0 <= i < self.text_columns().len() ==> #[trigger] self.text_columns()[i].1 == field_str(map, self.text_columns()[i].0),
            forall|i: int| 0 <= i < self.u32_checked_columns().len() ==> #[trigger] self.u32_checked_columns()[i].1 == field_u32_checked(map, self.u32_checked_columns()[i].0),
            opt_text(self.set_id) == field_str(map, "provider"@),
            opt_text(self.topic_id) == field_str(map, "provider"@),
            opt_text(self.topic_name) == field_str(map, "provider"@),
            opt_text(self.status) == field_str(map, "provider"@),
            self.period == field_u32_checked(map, "hot_period"@),
            self.index == field_i8_checked(map, "hot_period"@),
    {
        assert forall|i: int| 0 <= i < self.u64_columns().len() implies #[trigger] self.u64_columns()[i].1 == field_u64(map, self.u64_columns()[i].0) by {
            if i == 0 {
            }
        }
        assert forall|i: int| 0 <= i < self.text_columns().len() implies #[trigger] self.text_columns()[i].1 == field_str(map, self.text_columns()[i].0) by {
            if i == 0 {
            } else if i == 1 {
            } else if i == 2 {
            } else if i == 3 {
            }
        }
        assert forall|i: int| 0 <= i < self.u32_checked_columns().len() implies #[trigger] self.u32_checked_columns()[i].1 == field_u32_checked(map, self.u32_checked_columns()[i].0) by {
            if i == 0 {
            }
        }
    }

    /// Reads the record a request body describes. A member of another type
    /// than its column's is read as absent; the update time is set to the
    /// current local time.
    pub fn from_map(map: JsonMap) -> (r: Result<LogServiceTopicInfo, String>)
        ensures
            (r matches Ok(info) && info.read_from(map)),
    {
        let id = get_u64(&map, "id");
        let provider = get_str(&map, "provider");
        let set_id = get_str(&map, "provider");
        let topic_id = get_str(&map, "provider");
        let topic_name = get_str(&map, "provider");
        let status = get_str(&map, "provider");
        let hot_period = get_u32_checked(&map, "hot_period");
        let period = get_u32_checked(&map, "hot_period");
        let index = get_i8_checked(&map, "hot_period");
        let full_info = get_str(&map, "full_info");
        let attach_info = get_str(&map, "attach_info");
        let describes = get_str(&map, "describes");
        Ok(LogServiceTopicInfo {
            id,
            provider,
            set_id,
            topic_id,
            topic_name,
            status,
            hot_period,
            period,
            index,
            full_info,
            attach_info,
            update_at: Some(now_naive_local()),
            describes,
        })
    }
}

impl LogServiceTopicModel {
    /// The filter keys the table honours: the column each constrains, and how.
    pub open spec fn filter_rules() -> FilterRules {
        seq![
            ("provider"@, ("provider", MatchKind::Exact)),
            ("set_id"@, ("set_id", MatchKind::Contains)),
            ("topic_id"@, ("set_id", MatchKind::Contains)),
            ("topic_name"@, ("set_id", MatchKind::Contains)),
            ("status"@, ("status", MatchKind::Exact)),
        ]
    }

    /// What each filter key asks of the rows: `provider` asks `provider` to equal the text given; `set_id` asks `set_id` to contain the text given; `topic_id` asks `set_id` to contain the text given; `topic_name` asks `set_id` to contain the text given; `status` asks `status` to equal the text given. A member under another key, or whose value is of another type, asks nothing.
    pub proof fn law_filter_keys(member: (String, JsonValue))
        ensures
            member.0@ == "provider"@ ==> plan_member(LogServiceTopicModel::filter_rules(), member) == match member.1.spec_as_str() {
                Some(s) => Some((ColumnFilterView { column: "provider"@, condition: ConditionView::Equals(s) })),
                None => None,
            },
            member.0@ == "set_id"@ ==> plan_member(LogServiceTopicModel::filter_rules(), member) == match member.1.spec_as_str() {
                Some(s) => Some((ColumnFilterView { column: "set_id"@, condition: ConditionView::Like(seq!['%'] + s + seq!['%']) })),
                None => None,
            },
            member.0@ == "topic_id"@ ==> plan_member(LogServiceTopicModel::filter_rules(), member) == match member.1.spec_as_str() {
                Some(s) => Some((ColumnFilterView { column: "set_id"@, condition: ConditionView::Like(seq!['%'] + s + seq!['%']) })),
                None => None,
            },
            member.0@ == "topic_name"@ ==> plan_member(LogServiceTopicModel::filter_rules(), member) == match member.1.spec_as_str() {
                Some(s) => Some((ColumnFilterView { column: "set_id"@, condition: ConditionView::Like(seq!['%'] + s + seq!['%']) })),
                None => None,
            },
            member.0@ == "status"@ ==> plan_member(LogServiceTopicModel::filter_rules(), member) == match member.1.spec_as_str() {
                Some(s) => Some((ColumnFilterView { column: "status"@, condition: ConditionView::Equals(s) })),
                None => None,
            },
            member.0@ != "provider"@ && member.0@ != "set_id"@ && member.0@ != "topic_id"@ && member.0@ != "topic_name"@ && member.0@ != "status"@ ==> plan_member(LogServiceTopicModel::filter_rules(), member) is None,
    {
        reveal_strlit("provider");
        reveal_strlit("set_id");
        reveal_strlit("status");
        reveal_strlit("topic_id");
        reveal_strlit("topic_name");
        assert("provider"@.len() != "set_id"@.len());
        assert("provider"@[0] != "topic_id"@[0]);
        assert("set_id"@.len() != "topic_id"@.len());
        assert("provider"@.len() != "topic_name"@.len());
        assert("set_id"@.len() != "topic_name"@.len());
        assert("topic_id"@.len() != "topic_name"@.len());
        assert("provider"@.len() != "status"@.len());
        assert("set_id"@[1] != "status"@[1]);
        assert("topic_id"@.len() != "status"@.len());
        assert("topic_name"@.len() != "status"@.len());
        let rules = LogServiceTopicModel::filter_rules();
        if member.0@ == "provider"@ {
            lemma_assoc_at(rules, member.0@, 0);
        } else if member.0@ == "set_id"@ {
            assert forall|j: int| 0 <= j < 1 implies (#[trigger] rules[j]).0 != member.0@ by {
                if j == 0 {
                }
            }
            lemma_assoc_at(rules, member.0@, 1);
        } else if member.0@ == "topic_id"@ {
            assert forall|j: int| 0 <= j < 2 implies (#[trigger] rules[j]).0 != member.0@ by {
                if j == 0 {
                } else if j == 1 {
                }
            }
            lemma_assoc_at(rules, member.0@, 2);
        } else if member.0@ == "topic_name"@ {
            assert forall|j: int| 0 <= j < 3 implies (#[trigger] rules[j]).0 != member.0@ by {
                if j == 0 {
                } else if j == 1 {
                } else if j == 2 {
                }
            }
            lemma_assoc_at(rules, member.0@, 3);
        } else if member.0@ == "status"@ {
            assert forall|j: int| 0 <= j < 4 implies (#[trigger] rules[j]).0 != member.0@ by {
                if j == 0 {
                } else if j == 1 {
                } else if j == 2 {
                } else if j == 3 {
                }
            }
            lemma_assoc_at(rules, member.0@, 4);
        } else {
            assert forall|j: int| 0 <= j < 5 implies (#[trigger] rules[j]).0 != member.0@ by {
                if j == 0 {
                } else if j == 1 {
                } else if j == 2 {
                } else if j == 3 {
                } else if j == 4 {
                }
            }
            lemma_assoc_absent(rules, member.0@);
        }
    }

    fn filter_rules_of() -> (r: Vec<(&'static str, (&'static str, MatchKind))>)
        ensures
            name_views(r@) == LogServiceTopicModel::filter_rules(),
    {
        let r = vec![
            ("provider", ("provider", MatchKind::Exact)),
            ("set_id", ("set_id", MatchKind::Contains)),
            ("topic_id", ("set_id", MatchKind::Contains)),
            ("topic_name", ("set_id", MatchKind::Contains)),
            ("status", ("status", MatchKind::Exact)),
        ];
        assert(name_views(r@) =~= LogServiceTopicModel::filter_rules());
        r
    }

    /// The conditions a filter puts on the table's rows; members under other
    /// keys, or with values of another type, are ignored.
    pub fn get_model_info_with_filter(filter: &JsonMap) -> (r: Vec<ColumnFilter>)
        ensures
            filters_view(r@) == plan_entries(LogServiceTopicModel::filter_rules(), filter.entries@),
    {
        plan_filters(&LogServiceTopicModel::filter_rules_of(), filter)
    }

    /// What inserting a record comes to: the rows touched, or the store's failure.
    pub fn new(executed: Result<usize, String>) -> (r: Result<usize, ModelError>)
        ensures
            r == spec_store_outcome(executed),
    {
        store_outcome(executed)
    }

    /// What updating the row that a record's `id` names comes to: the rows
    /// updated, or the store's failure.
    pub fn update(info: &LogServiceTopicInfo, executed: Result<usize, String>) -> (r: Result<usize, ModelError>)
        requires
            info.id is Some,
        ensures
            r == spec_store_outcome(executed),
    {
        store_outcome(executed)
    }

    /// The key of the row a delete request body names: its `id` member.
    pub fn delete_key(info: &JsonMap) -> (r: u64)
        requires
            field_u64(*info, "id"@) is Some,
        ensures
            Some(r) == field_u64(*info, "id"@),
    {
        get_u64(info, "id").unwrap()
    }

    /// What deleting the row with the key comes to: the rows touched, or the store's failure.
    pub fn delete(executed: Result<usize, String>) -> (r: Result<usize, ModelError>)
        ensures
            r == spec_store_outcome(executed),
    {
        store_outcome(executed)
    }

}

} // verus!
