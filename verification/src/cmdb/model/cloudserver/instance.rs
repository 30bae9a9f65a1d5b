//! The `cloudserver_instance` table: its rows, the record a request body describes,
//! the filters it honours and what its store calls come to.
use vstd::prelude::*;
use crate::clock::{NaiveTimestamp, now_naive_local};
use crate::fields::{field_i64, field_str, get_i64, get_str};
use crate::json::{JsonMap, JsonValue, opt_text};
use crate::mailman::{ModelError, not_found, not_found_message, outcome_view, row_outcome, spec_row_outcome, spec_store_outcome, store_outcome};
use crate::query::{filters_view, plan_entries, plan_filters, ColumnFilter, FilterRules, MatchKind};
use crate::table::name_views;
use crate::text::{decimal_text, i64_to_decimal};

use crate::query::{plan_member, ColumnFilterView, ConditionView};
use crate::table::{lemma_assoc_absent, lemma_assoc_at};
use vstd::string::*;

verus! {

/// A row of the `cloudserver_instance` table.
pub struct CloudserverInstanceModel {
    pub id: i64,
    pub provider: String,
    pub zone: String,
    pub instance_id: String,
    pub instance_name: String,
    pub platform: String,
    pub status: String,
    pub private_ip: String,
    pub tag: JsonValue,
    pub full_info: JsonValue,
    pub attach_info: JsonValue,
    pub update_at: NaiveTimestamp,
}

/// A `cloudserver_instance` record as a request body describes it: every column optional.
pub struct CloudserverInstanceInfo {
    pub id: Option<i64>,
    pub provider: Option<String>,
    pub zone: Option<String>,
    pub instance_id: Option<String>,
    pub instance_name: Option<String>,
    pub platform: Option<String>,
    pub status: Option<String>,
    pub private_ip: Option<String>,
    pub tag: Option<JsonValue>,
    pub full_info: Option<JsonValue>,
    pub attach_info: Option<JsonValue>,
    pub update_at: Option<NaiveTimestamp>,
}

impl CloudserverInstanceInfo {
    /// Whether the record is what reading the request body `map` gives.
    pub open spec fn read_from(self, map: JsonMap) -> bool {
        &&& self.id == field_i64(map, "id"@)
        &&& opt_text(self.provider) == field_str(map, "provider"@)
        &&& opt_text(self.zone) == field_str(map, "zone"@)
        &&& opt_text(self.instance_id) == field_str(map, "instance_id"@)
        &&& opt_text(self.instance_name) == field_str(map, "instance_name"@)
        &&& opt_text(self.platform) == field_str(map, "platform"@)
        &&& opt_text(self.status) == field_str(map, "status"@)
        &&& opt_text(self.private_ip) == field_str(map, "private_ip"@)
        &&& self.tag == map.spec_get("tag"@)
        &&& self.full_info == map.spec_get("full_info"@)
        &&& self.attach_info == map.spec_get("attach_info"@)
        &&& self.update_at is Some
    }

    /// The i64 columns of the record, each by its name.
    pub open spec fn i64_columns(self) -> Seq<(Seq<char>, Option<i64>)> {
        seq![
            ("id"@, self.id),
        ]
    }

    /// The text columns of the record, each by its name.
    pub open spec fn text_columns(self) -> Seq<(Seq<char>, Option<Seq<char>>)> {
        seq![
            ("provider"@, opt_text(self.provider)),
            ("zone"@, opt_text(self.zone)),
            ("instance_id"@, opt_text(self.instance_id)),
            ("instance_name"@, opt_text(self.instance_name)),
            ("platform"@, opt_text(self.platform)),
            ("status"@, opt_text(self.status)),
            ("private_ip"@, opt_text(self.private_ip)),
        ]
    }

    /// The json columns of the record, each by its name.
    pub open spec fn json_columns(self) -> Seq<(Seq<char>, Option<JsonValue>)> {
        seq![
            ("tag"@, self.tag),
            ("full_info"@, self.full_info),
            ("attach_info"@, self.attach_info),
        ]
    }

    /// Every column of the record holds the request member of its own name,
    /// read by the reader of its type.
    pub proof fn law_columns_read_by_name(self, map: JsonMap)
        requires
            self.read_from(map),
        ensures
            forall|i: int| 0 <= i < self.i64_columns().len() ==> #[trigger] self.i64_columns()[i].1 == field_i64(map, self.i64_columns()[i].0),
            forall|i: int| 0 <= i < self.text_columns().len() ==> #[trigger] self.text_columns()[i].1 == field_str(map, self.text_columns()[i].0),
            forall|i: int| 0 <= i < self.json_columns().len() ==> #[trigger] self.json_columns()[i].1 == map.spec_get(self.json_columns()[i].0),
    {
        assert forall|i: int| 0 <= i < self.i64_columns().len() implies #[trigger] self.i64_columns()[i].1 == field_i64(map, self.i64_columns()[i].0) by {
            if i == 0 {
            }
        }
        assert forall|i: int| 0 <= i < self.text_columns().len() implies #[trigger] self.text_columns()[i].1 == field_str(map, self.text_columns()[i].0) by {
            if i == 0 {
            } else if i == 1 {
            } else if i == 2 {
            } else if i == 3 {
            } else if i == 4 {
            } else if i == 5 {
            } else if i == 6 {
            }
        }
        assert forall|i: int| 0 <= i < self.json_columns().len() implies #[trigger] self.json_columns()[i].1 == map.spec_get(self.json_columns()[i].0) by {
            if i == 0 {
            } else if i == 1 {
            } else if i == 2 {
            }
        }
    }

    /// Reads the record a request body describes. A member of another type
    /// than its column's is read as absent; JSON columns take the member as
    /// it is; the update time is set to the current local time.
    pub fn from_map(map: JsonMap) -> (r: Result<CloudserverInstanceInfo, String>)
        ensures
            (r matches Ok(info) && info.read_from(map)),
    {
        let id = get_i64(&map, "id");
        let provider = get_str(&map, "provider");
        let zone = get_str(&map, "zone");
        let instance_id = get_str(&map, "instance_id");
        let instance_name = get_str(&map, "instance_name");
        let platform = get_str(&map, "platform");
        let status = get_str(&map, "status");
        let private_ip = get_str(&map, "private_ip");
        let mut rest = map;
        proof {
            reveal_strlit("tag");
            reveal_strlit("full_info");
            reveal_strlit("attach_info");
            assert("tag"@.len() != "full_info"@.len() || "tag"@ != "full_info"@);
            assert("tag"@ != "full_info"@);
            assert("tag"@.len() != "attach_info"@.len() || "tag"@ != "attach_info"@);
            assert("tag"@ != "attach_info"@);
            assert("full_info"@.len() != "attach_info"@.len() || "full_info"@ != "attach_info"@);
            assert("full_info"@ != "attach_info"@);
        }
        let tag = rest.take("tag");
        let full_info = rest.take("full_info");
        let attach_info = rest.take("attach_info");
        Ok(CloudserverInstanceInfo {
            id,
            provider,
            zone,
            instance_id,
            instance_name,
            platform,
            status,
            private_ip,
            tag,
            full_info,
            attach_info,
            update_at: Some(now_naive_local()),
        })
    }
}

impl CloudserverInstanceModel {
    /// The filter keys the table honours: the column each constrains, and how.
    pub open spec fn filter_rules() -> FilterRules {
        seq![
            ("provider"@, ("provider", MatchKind::Exact)),
            ("zone"@, ("zone", MatchKind::Contains)),
            ("platform"@, ("platform", MatchKind::Exact)),
            ("instance_id"@, ("instance_id", MatchKind::Exact)),
            ("status"@, ("status", MatchKind::Exact)),
            ("instance_name"@, ("instance_name", MatchKind::Contains)),
        ]
    }

    /// What each filter key asks of the rows: `provider` asks `provider` to equal the text given; `zone` asks `zone` to contain the text given; `platform` asks `platform` to equal the text given; `instance_id` asks `instance_id` to equal the text given; `status` asks `status` to equal the text given; `instance_name` asks `instance_name` to contain the text given. A member under another key, or whose value is of another type, asks nothing.
    pub proof fn law_filter_keys(member: (String, JsonValue))
        ensures
            member.0@ == "provider"@ ==> plan_member(CloudserverInstanceModel::filter_rules(), member) == match member.1.spec_as_str() {
                Some(s) => Some((ColumnFilterView { column: "provider"@, condition: ConditionView::Equals(s) })),
                None => None,
            },
            member.0@ == "zone"@ ==> plan_member(CloudserverInstanceModel::filter_rules(), member) == match member.1.spec_as_str() {
                Some(s) => Some((ColumnFilterView { column: "zone"@, condition: ConditionView::Like(seq!['%'] + s + seq!['%']) })),
                None => None,
            },
            member.0@ == "platform"@ ==> plan_member(CloudserverInstanceModel::filter_rules(), member) == match member.1.spec_as_str() {
                Some(s) => Some((ColumnFilterView { column: "platform"@, condition: ConditionView::Equals(s) })),
                None => None,
            },
            member.0@ == "instance_id"@ ==> plan_member(CloudserverInstanceModel::filter_rules(), member) == match member.1.spec_as_str() {
                Some(s) => Some((ColumnFilterView { column: "instance_id"@, condition: ConditionView::Equals(s) })),
                None => None,
            },
            member.0@ == "status"@ ==> plan_member(CloudserverInstanceModel::filter_rules(), member) == match member.1.spec_as_str() {
                Some(s) => Some((ColumnFilterView { column: "status"@, condition: ConditionView::Equals(s) })),
                None => None,
            },
            member.0@ == "instance_name"@ ==> plan_member(CloudserverInstanceModel::filter_rules(), member) == match member.1.spec_as_str() {
                Some(s) => Some((ColumnFilterView { column: "instance_name"@, condition: ConditionView::Like(seq!['%'] + s + seq!['%']) })),
                None => None,
            },
            member.0@ != "provider"@ && member.0@ != "zone"@ && member.0@ != "platform"@ && member.0@ != "instance_id"@ && member.0@ != "status"@ && member.0@ != "instance_name"@ ==> plan_member(CloudserverInstanceModel::filter_rules(), member) is None,
    {
        reveal_strlit("instance_id");
        reveal_strlit("instance_name");
        reveal_strlit("platform");
        reveal_strlit("provider");
        reveal_strlit("status");
        reveal_strlit("zone");
        assert("provider"@.len() != "zone"@.len());
        assert("provider"@[1] != "platform"@[1]);
        assert("zone"@.len() != "platform"@.len());
        assert("provider"@.len() != "instance_id"@.len());
        assert("zone"@.len() != "instance_id"@.len());
        assert("platform"@.len() != "instance_id"@.len());
        assert("provider"@.len() != "status"@.len());
        assert("zone"@.len() != "status"@.len());
        assert("platform"@.len() != "status"@.len());
        assert("instance_id"@.len() != "status"@.len());
        assert("provider"@.len() != "instance_name"@.len());
        assert("zone"@.len() != "instance_name"@.len());
        assert("platform"@.len() != "instance_name"@.len());
        assert("instance_id"@.len() != "instance_name"@.len());
        assert("status"@.len() != "instance_name"@.len());
        let rules = CloudserverInstanceModel::filter_rules();
        if member.0@ == "provider"@ {
            lemma_assoc_at(rules, member.0@, 0);
        } else if member.0@ == "zone"@ {
            assert forall|j: int| 0 <= j < 1 implies (#[trigger] rules[j]).0 != member.0@ by {
                if j == 0 {
                }
            }
            lemma_assoc_at(rules, member.0@, 1);
        } else if member.0@ == "platform"@ {
            assert forall|j: int| 0 <= j < 2 implies (#[trigger] rules[j]).0 != member.0@ by {
                if j == 0 {
                } else if j == 1 {
                }
            }
            lemma_assoc_at(rules, member.0@, 2);
        } else if member.0@ == "instance_id"@ {
            assert forall|j: int| 0 <= j < 3 implies (#[trigger] rules[j]).0 != member.0@ by {
                if j == 0 {
                } else if j == 1 {
                } else if j == 2 {
                }
            }
            lemma_assoc_at(rules, member.0@, 3);
        } else if member.0@ == "status"@ {
            assert forall|j: int| 0 <= j < 4 implies (#[trigger] rules[j]).0 != member.0@ by {
                if j == 0 {
                } else if j == 1 {
                } else if j == 2 {
                } else if j == 3 {
                }
            }
            lemma_assoc_at(rules, member.0@, 4);
        } else if member.0@ == "instance_name"@ {
            assert forall|j: int| 0 <= j < 5 implies (#[trigger] rules[j]).0 != member.0@ by {
                if j == 0 {
                } else if j == 1 {
                } else if j == 2 {
                } else if j == 3 {
                } else if j == 4 {
                }
            }
            lemma_assoc_at(rules, member.0@, 5);
        } else {
            assert forall|j: int| 0 <= j < 6 implies (#[trigger] rules[j]).0 != member.0@ by {
                if j == 0 {
                } else if j == 1 {
                } else if j == 2 {
                } else if j == 3 {
                } else if j == 4 {
                } else if j == 5 {
                }
            }
            lemma_assoc_absent(rules, member.0@);
        }
    }

    fn filter_rules_of() -> (r: Vec<(&'static str, (&'static str, MatchKind))>)
        ensures
            name_views(r@) == CloudserverInstanceModel::filter_rules(),
    {
        let r = vec![
            ("provider", ("provider", MatchKind::Exact)),
            ("zone", ("zone", MatchKind::Contains)),
            ("platform", ("platform", MatchKind::Exact)),
            ("instance_id", ("instance_id", MatchKind::Exact)),
            ("status", ("status", MatchKind::Exact)),
            ("instance_name", ("instance_name", MatchKind::Contains)),
        ];
        assert(name_views(r@) =~= CloudserverInstanceModel::filter_rules());
        r
    }

    /// The conditions a filter puts on the table's rows; members under other
    /// keys, or with values of another type, are ignored.
    pub fn get_model_info_with_filter(filter: &JsonMap) -> (r: Vec<ColumnFilter>)
        ensures
            filters_view(r@) == plan_entries(CloudserverInstanceModel::filter_rules(), filter.entries@),
    {
        plan_filters(&CloudserverInstanceModel::filter_rules_of(), filter)
    }

    /// What inserting a record comes to: the rows inserted, or the store's
    /// failure.
    pub fn new(executed: Result<usize, String>) -> (r: Result<usize, ModelError>)
        ensures
            r == spec_store_outcome(executed),
    {
        store_outcome(executed)
    }

    /// What updating the row that a record's `id` names comes to: the
    /// rows updated, a bad request when no row has that key, or the store's
    /// failure.
    pub fn update(info: &CloudserverInstanceInfo, executed: Result<usize, String>) -> (r: Result<usize, ModelError>)
        requires
            info.id is Some,
        ensures
            outcome_view(r) == spec_row_outcome(executed, not_found_message("id"@, decimal_text(info.id.unwrap() as int))),
    {
        let key = i64_to_decimal(info.id.unwrap() as i64);
        row_outcome(executed, not_found("id", key.as_str()))
    }

    /// What deleting the row with the key comes to: the rows deleted, a bad
    /// request when no row has that key, or the store's failure.
    pub fn delete(_id: i64, executed: Result<usize, String>) -> (r: Result<usize, ModelError>)
        ensures
            outcome_view(r) == spec_row_outcome(executed, not_found_message("id"@, decimal_text(_id as int))),
    {
        let key = i64_to_decimal(_id as i64);
        row_outcome(executed, not_found("id", key.as_str()))
    }
}

} // verus!
