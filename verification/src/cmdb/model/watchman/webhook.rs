//! The `webhook_table` table: its rows, the record a request body describes,
//! the filters it honours and what its store calls come to.
use vstd::prelude::*;
use crate::clock::{NaiveTimestamp, now_naive_local};
use crate::fields::{field_bool, field_i32, field_i64, field_str, get_bool, get_i32, get_i64, get_str};
use crate::json::{JsonMap, JsonValue, opt_text};
use crate::mailman::{ModelError, not_found, not_found_message, outcome_view, row_outcome, spec_row_outcome, spec_store_outcome, store_outcome};
use crate::query::{filters_view, plan_entries, plan_filters, ColumnFilter, FilterRules, MatchKind};
use crate::table::name_views;
use crate::text::{decimal_text, i64_to_decimal};

use crate::query::{plan_member, ColumnFilterView, ConditionView};
use crate::table::{lemma_assoc_absent, lemma_assoc_at};
use vstd::string::*;

verus! {

/// A row of the `webhook_table` table.
pub struct WebhookModel {
    pub id: i32,
    pub token: String,
    pub hook_name: String,
    pub method_type: String,
    pub target_url: String,
    pub query_json: JsonValue,
    pub header_json: JsonValue,
    pub body_json: JsonValue,
    pub ttl: i64,
    pub is_enable: bool,
    pub update_time: NaiveTimestamp,
}

/// A `webhook_table` record as a request body describes it: every column optional.
pub struct WebhookInfo {
    pub id: Option<i32>,
    pub token: Option<String>,
    pub hook_name: Option<String>,
    pub method_type: Option<String>,
    pub target_url: Option<String>,
    pub query_json: Option<JsonValue>,
    pub header_json: Option<JsonValue>,
    pub body_json: Option<JsonValue>,
    pub ttl: Option<i64>,
    pub is_enable: Option<bool>,
    pub update_time: Option<NaiveTimestamp>,
}

impl WebhookInfo {
    /// Whether the record is what reading the request body `map` gives.
    pub open spec fn read_from(self, map: JsonMap) -> bool {
        &&& self.id == field_i32(map, "id"@)
        &&& opt_text(self.token) == field_str(map, "token"@)
        &&& opt_text(self.hook_name) == field_str(map, "hook_name"@)
        &&& opt_text(self.method_type) == field_str(map, "method_type"@)
        &&& opt_text(self.target_url) == field_str(map, "target_url"@)
        &&& self.query_json == map.spec_get("query_json"@)
        &&& self.header_json == map.spec_get("header_json"@)
        &&& self.body_json == map.spec_get("body_json"@)
        &&& self.ttl == field_i64(map, "ttl"@)
        &&& self.is_enable == field_bool(map, "is_enable"@)
        &&& self.update_time is Some
    }

    /// The i32 columns of the record, each by its name.
    pub open spec fn i32_columns(self) -> Seq<(Seq<char>, Option<i32>)> {
        seq![
            ("id"@, self.id),
        ]
    }

    /// The text columns of the record, each by its name.
    pub open spec fn text_columns(self) -> Seq<(Seq<char>, Option<Seq<char>>)> {
        seq![
            ("token"@, opt_text(self.token)),
            ("hook_name"@, opt_text(self.hook_name)),
            ("method_type"@, opt_text(self.method_type)),
            ("target_url"@, opt_text(self.target_url)),
        ]
    }

    /// The json columns of the record, each by its name.
    pub open spec fn json_columns(self) -> Seq<(Seq<char>, Option<JsonValue>)> {
        seq![
            ("query_json"@, self.query_json),
            ("header_json"@, self.header_json),
            ("body_json"@, self.body_json),
        ]
    }

    /// The i64 columns of the record, each by its name.
    pub open spec fn i64_columns(self) -> Seq<(Seq<char>, Option<i64>)> {
        seq![
            ("ttl"@, self.ttl),
        ]
    }

    /// The bool columns of the record, each by its name.
    pub open spec fn bool_columns(self) -> Seq<(Seq<char>, Option<bool>)> {
        seq![
            ("is_enable"@, self.is_enable),
        ]
    }

    /// Every column of the record holds the request member of its own name,
    /// read by the reader of its type.
    pub proof fn law_columns_read_by_name(self, map: JsonMap)
        requires
            self.read_from(map),
        ensures
            forall|i: int| 0 <= i < self.i32_columns().len() ==> #[trigger] self.i32_columns()[i].1 == field_i32(map, self.i32_columns()[i].0),
            forall|i: int| 0 <= i < self.text_columns().len() ==> #[trigger] self.text_columns()[i].1 == field_str(map, self.text_columns()[i].0),
            forall|i: int| 0 <= i < self.json_columns().len() ==> #[trigger] self.json_columns()[i].1 == map.spec_get(self.json_columns()[i].0),
            forall|i: int| 0 <= i < self.i64_columns().len() ==> #[trigger] self.i64_columns()[i].1 == field_i64(map, self.i64_columns()[i].0),
            forall|i: int| 0 <= i < self.bool_columns().len() ==> #[trigger] self.bool_columns()[i].1 == field_bool(map, self.bool_columns()[i].0),
    {
        assert forall|i: int| 0 <= i < self.i32_columns().len() implies #[trigger] self.i32_columns()[i].1 == field_i32(map, self.i32_columns()[i].0) by {
            if i == 0 {
            }
        }
        assert forall|i: int| 0 <= i < self.text_columns().len() implies #[trigger] self.text_columns()[i].1 == field_str(map, self.text_columns()[i].0) by {
            if i == 0 {
            } else if i == 1 {
            } else if i == 2 {
            } else if i == 3 {
            }
        }
        assert forall|i: int| 0 <= i < self.json_columns().len() implies #[trigger] self.json_columns()[i].1 == map.spec_get(self.json_columns()[i].0) by {
            if i == 0 {
            } else if i == 1 {
            } else if i == 2 {
            }
        }
        assert forall|i: int| 0 <= i < self.i64_columns().len() implies #[trigger] self.i64_columns()[i].1 == field_i64(map, self.i64_columns()[i].0) by {
            if i == 0 {
            }
        }
        assert forall|i: int| 0 <= i < self.bool_columns().len() implies #[trigger] self.bool_columns()[i].1 == field_bool(map, self.bool_columns()[i].0) by {
            if i == 0 {
            }
        }
    }

    /// Reads the record a request body describes. A member of another type
    /// than its column's is read as absent; JSON columns take the member as
    /// it is; the update time is set to the current local time.
    pub fn from_map(map: JsonMap) -> (r: Result<WebhookInfo, String>)
        ensures
            (r matches Ok(info) && info.read_from(map)),
    {
        let id = get_i32(&map, "id");
        let token = get_str(&map, "token");
        let hook_name = get_str(&map, "hook_name");
        let method_type = get_str(&map, "method_type");
        let target_url = get_str(&map, "target_url");
        let ttl = get_i64(&map, "ttl");
        let is_enable = get_bool(&map, "is_enable");
        let mut rest = map;
        proof {
            reveal_strlit("query_json");
            reveal_strlit("header_json");
            reveal_strlit("body_json");
            assert("query_json"@.len() != "header_json"@.len() || "query_json"@ != "header_json"@);
            assert("query_json"@ != "header_json"@);
            assert("query_json"@.len() != "body_json"@.len() || "query_json"@ != "body_json"@);
            assert("query_json"@ != "body_json"@);
            assert("header_json"@.len() != "body_json"@.len() || "header_json"@ != "body_json"@);
            assert("header_json"@ != "body_json"@);
        }
        let query_json = rest.take("query_json");
        let header_json = rest.take("header_json");
        let body_json = rest.take("body_json");
        Ok(WebhookInfo {
            id,
            token,
            hook_name,
            method_type,
            target_url,
            query_json,
            header_json,
            body_json,
            ttl,
            is_enable,
            update_time: Some(now_naive_local()),
        })
    }
}

impl WebhookModel {
    /// The filter keys the table honours: the column each constrains, and how.
    pub open spec fn filter_rules() -> FilterRules {
        seq![
            ("hook_name"@, ("hook_name", MatchKind::Exact)),
            ("method_type"@, ("method_type", MatchKind::Exact)),
        ]
    }

    /// What each filter key asks of the rows: `hook_name` asks `hook_name` to equal the text given; `method_type` asks `method_type` to equal the text given. A member under another key, or whose value is of another type, asks nothing.
    pub proof fn law_filter_keys(member: (String, JsonValue))
        ensures
            member.0@ == "hook_name"@ ==> plan_member(WebhookModel::filter_rules(), member) == match member.1.spec_as_str() {
                Some(s) => Some((ColumnFilterView { column: "hook_name"@, condition: ConditionView::Equals(s) })),
                None => None,
            },
            member.0@ == "method_type"@ ==> plan_member(WebhookModel::filter_rules(), member) == match member.1.spec_as_str() {
                Some(s) => Some((ColumnFilterView { column: "method_type"@, condition: ConditionView::Equals(s) })),
                None => None,
            },
            member.0@ != "hook_name"@ && member.0@ != "method_type"@ ==> plan_member(WebhookModel::filter_rules(), member) is None,
    {
        reveal_strlit("hook_name");
        reveal_strlit("method_type");
        assert("hook_name"@.len() != "method_type"@.len());
        let rules = WebhookModel::filter_rules();
        if member.0@ == "hook_name"@ {
            lemma_assoc_at(rules, member.0@, 0);
        } else if member.0@ == "method_type"@ {
            assert forall|j: int| 0 <= j < 1 implies (#[trigger] rules[j]).0 != member.0@ by {
                if j == 0 {
                }
            }
            lemma_assoc_at(rules, member.0@, 1);
        } else {
            assert forall|j: int| 0 <= j < 2 implies (#[trigger] rules[j]).0 != member.0@ by {
                if j == 0 {
                } else if j == 1 {
                }
            }
            lemma_assoc_absent(rules, member.0@);
        }
    }

    fn filter_rules_of() -> (r: Vec<(&'static str, (&'static str, MatchKind))>)
        ensures
            name_views(r@) == WebhookModel::filter_rules(),
    {
        let r = vec![
            ("hook_name", ("hook_name", MatchKind::Exact)),
            ("method_type", ("method_type", MatchKind::Exact)),
        ];
        assert(name_views(r@) =~= WebhookModel::filter_rules());
        r
    }

    /// The conditions a filter puts on the table's rows; members under other
    /// keys, or with values of another type, are ignored.
    pub fn get_model_info_with_filter(filter: &JsonMap) -> (r: Vec<ColumnFilter>)
        ensures
            filters_view(r@) == plan_entries(WebhookModel::filter_rules(), filter.entries@),
    {
        plan_filters(&WebhookModel::filter_rules_of(), filter)
    }

    /// What inserting a record comes to: the rows inserted, or the store's
    /// failure.
    pub fn new(executed: Result<usize, String>) -> (r: Result<usize, ModelError>)
        ensures
            r == spec_store_outcome(executed),
    {
        store_outcome(executed)
    }

    /// What updating the row that a record's `id` names comes to: the
    /// rows updated, a bad request when no row has that key, or the store's
    /// failure.
    pub fn update(info: &WebhookInfo, executed: Result<usize, String>) -> (r: Result<usize, ModelError>)
        requires
            info.id is Some,
        ensures
            outcome_view(r) == spec_row_outcome(executed, not_found_message("id"@, decimal_text(info.id.unwrap() as int))),
    {
        let key = i64_to_decimal(info.id.unwrap() as i64);
        row_outcome(executed, not_found("id", key.as_str()))
    }

    /// What deleting the row with the key comes to: the rows deleted, a bad
    /// request when no row has that key, or the store's failure.
    pub fn delete(_id: i32, executed: Result<usize, String>) -> (r: Result<usize, ModelError>)
        ensures
            outcome_view(r) == spec_row_outcome(executed, not_found_message("id"@, decimal_text(_id as int))),
    {
        let key = i64_to_decimal(_id as i64);
        row_outcome(executed, not_found("id", key.as_str()))
    }
}

} // verus!
