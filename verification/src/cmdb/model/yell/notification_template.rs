//! The `notification_templates` table: its rows, the record a request body describes,
//! the filters it honours and what its store calls come to.
use vstd::prelude::*;
use crate::clock::{NaiveTimestamp, now_naive_local};
use crate::fields::{field_bool, field_i32, field_str, get_bool, get_i32, get_str};
use crate::json::{JsonMap, opt_text};
use crate::mailman::{ModelError, not_found, not_found_message, outcome_view, row_outcome, spec_row_outcome, spec_store_outcome, store_outcome};
use crate::query::{filters_view, plan_entries, plan_filters, ColumnFilter, FilterRules, MatchKind};
use crate::table::name_views;
use crate::text::{decimal_text, i64_to_decimal};

use crate::json::JsonValue;
use crate::query::{plan_member, ColumnFilterView, ConditionView};
use crate::table::{lemma_assoc_absent, lemma_assoc_at};
use vstd::string::*;

verus! {

/// A row of the `notification_templates` table.
pub struct NotificationTemplateModel {
    pub id: i32,
    pub name: String,
    pub description: Option<String>,
    pub channel_type: String,
    pub subject_template: Option<String>,
    pub content_template: String,
    pub content_format: Option<String>,
    pub is_enabled: Option<bool>,
    pub created_at: Option<NaiveTimestamp>,
    pub updated_at: Option<NaiveTimestamp>,
}

/// A `notification_templates` record as a request body describes it: every column optional.
pub struct NotificationTemplateInfo {
    pub id: Option<i32>,
    pub name: Option<String>,
    pub description: Option<String>,
    pub channel_type: Option<String>,
    pub subject_template: Option<String>,
    pub content_template: Option<String>,
    pub content_format: Option<String>,
    pub is_enabled: Option<bool>,
    pub created_at: Option<NaiveTimestamp>,
    pub updated_at: Option<NaiveTimestamp>,
}

impl NotificationTemplateInfo {
    /// Whether the record is what reading the request body `map` gives.
    pub open spec fn read_from(self, map: JsonMap) -> bool {
        &&& self.id == field_i32(map, "id"@)
        &&& opt_text(self.name) == field_str(map, "name"@)
        &&& opt_text(self.description) == field_str(map, "description"@)
        &&& opt_text(self.channel_type) == field_str(map, "channel_type"@)
        &&& opt_text(self.subject_template) == field_str(map, "subject_template"@)
        &&& opt_text(self.content_template) == field_str(map, "content_template"@)
        &&& opt_text(self.content_format) == field_str(map, "content_format"@)
        &&& self.is_enabled == field_bool(map, "is_enabled"@)
        &&& self.created_at is None
        &&& self.updated_at is Some
    }

    /// The i32 columns of the record, each by its name.
    pub open spec fn i32_columns(self) -> Seq<(Seq<char>, Option<i32>)> {
        seq![
            ("id"@, self.id),
        ]
    }

    /// The text columns of the record, each by its name.
    pub open spec fn text_columns(self) -> Seq<(Seq<char>, Option<Seq<char>>)> {
        seq![
            ("name"@, opt_text(self.name)),
            ("description"@, opt_text(self.description)),
            ("channel_type"@, opt_text(self.channel_type)),
            ("subject_template"@, opt_text(self.subject_template)),
            ("content_template"@, opt_text(self.content_template)),
            ("content_format"@, opt_text(self.content_format)),
        ]
    }

    /// The bool columns of the record, each by its name.
    pub open spec fn bool_columns(self) -> Seq<(Seq<char>, Option<bool>)> {
        seq![
            ("is_enabled"@, self.is_enabled),
        ]
    }

    /// Every column of the record holds the request member of its own name,
    /// read by the reader of its type.
    pub proof fn law_columns_read_by_name(self, map: JsonMap)
        requires
            self.read_from(map),
        ensures
            forall|i: int| 0 <= i < self.i32_columns().len() ==> #[trigger] self.i32_columns()[i].1 == field_i32(map, self.i32_columns()[i].0),
            forall|i: int| 0 <= i < self.text_columns().len() ==> #[trigger] self.text_columns()[i].1 == field_str(map, self.text_columns()[i].0),
            forall|i: int| 0 <= i < self.bool_columns().len() ==> #[trigger] self.bool_columns()[i].1 == field_bool(map, self.bool_columns()[i].0),
    {
        assert forall|i: int| 0 <= i < self.i32_columns().len() implies #[trigger] self.i32_columns()[i].1 == field_i32(map, self.i32_columns()[i].0) by {
            if i == 0 {
            }
        }
        assert forall|i: int| 0 <= i < self.text_columns().len() implies #[trigger] self.text_columns()[i].1 == field_str(map, self.text_columns()[i].0) by {
            if i == 0 {
            } else if i == 1 {
            } else if i == 2 {
            } else if i == 3 {
            } else if i == 4 {
            } else if i == 5 {
            }
        }
        assert forall|i: int| 0 <= i < self.bool_columns().len() implies #[trigger] self.bool_columns()[i].1 == field_bool(map, self.bool_columns()[i].0) by {
            if i == 0 {
            }
        }
    }

    /// Reads the record a request body describes. A member of another type
    /// than its column's is read as absent; the update time is set to the
    /// current local time.
    pub fn from_map(map: JsonMap) -> (r: Result<NotificationTemplateInfo, String>)
        ensures
            (r matches Ok(info) && info.read_from(map)),
    {
        let id = get_i32(&map, "id");
        let name = get_str(&map, "name");
        let description = get_str(&map, "description");
        let channel_type = get_str(&map, "channel_type");
        let subject_template = get_str(&map, "subject_template");
        let content_template = get_str(&map, "content_template");
        let content_format = get_str(&map, "content_format");
        let is_enabled = get_bool(&map, "is_enabled");
        Ok(NotificationTemplateInfo {
            id,
            name,
            description,
            channel_type,
            subject_template,
            content_template,
            content_format,
            is_enabled,
            created_at: None,
            updated_at: Some(now_naive_local()),
        })
    }
}

impl NotificationTemplateModel {
    /// The filter keys the table honours: the column each constrains, and how.
    pub open spec fn filter_rules() -> FilterRules {
        seq![
            ("channel_type"@, ("channel_type", MatchKind::Exact)),
            ("name"@, ("name", MatchKind::Exact)),
        ]
    }

    /// What each filter key asks of the rows: `channel_type` asks `channel_type` to equal the text given; `name` asks `name` to equal the text given. A member under another key, or whose value is of another type, asks nothing.
    pub proof fn law_filter_keys(member: (String, JsonValue))
        ensures
            member.0@ == "channel_type"@ ==> plan_member(NotificationTemplateModel::filter_rules(), member) == match member.1.spec_as_str() {
                Some(s) => Some((ColumnFilterView { column: "channel_type"@, condition: ConditionView::Equals(s) })),
                None => None,
            },
            member.0@ == "name"@ ==> plan_member(NotificationTemplateModel::filter_rules(), member) == match member.1.spec_as_str() {
                Some(s) => Some((ColumnFilterView { column: "name"@, condition: ConditionView::Equals(s) })),
                None => None,
            },
            member.0@ != "channel_type"@ && member.0@ != "name"@ ==> plan_member(NotificationTemplateModel::filter_rules(), member) is None,
    {
        reveal_strlit("channel_type");
        reveal_strlit("name");
        assert("channel_type"@.len() != "name"@.len());
        let rules = NotificationTemplateModel::filter_rules();
        if member.0@ == "channel_type"@ {
            lemma_assoc_at(rules, member.0@, 0);
        } else if member.0@ == "name"@ {
            assert forall|j: int| 0 <= j < 1 implies (#[trigger] rules[j]).0 != member.0@ by {
                if j == 0 {
                }
            }
            lemma_assoc_at(rules, member.0@, 1);
        } else {
            assert forall|j: int| 0 <= j < 2 implies (#[trigger] rules[j]).0 != member.0@ by {
                if j == 0 {
                } else if j == 1 {
                }
            }
            lemma_assoc_absent(rules, member.0@);
        }
    }

    fn filter_rules_of() -> (r: Vec<(&'static str, (&'static str, MatchKind))>)
        ensures
            name_views(r@) == NotificationTemplateModel::filter_rules(),
    {
        let r = vec![
            ("channel_type", ("channel_type", MatchKind::Exact)),
            ("name", ("name", MatchKind::Exact)),
        ];
        assert(name_views(r@) =~= NotificationTemplateModel::filter_rules());
        r
    }

    /// The conditions a filter puts on the table's rows; members under other
    /// keys, or with values of another type, are ignored.
    pub fn get_model_info_with_filter(filter: &JsonMap) -> (r: Vec<ColumnFilter>)
        ensures
            filters_view(r@) == plan_entries(NotificationTemplateModel::filter_rules(), filter.entries@),
    {
        plan_filters(&NotificationTemplateModel::filter_rules_of(), filter)
    }

    /// What inserting a record comes to: the rows inserted, or the store's
    /// failure.
    pub fn new(executed: Result<usize, String>) -> (r: Result<usize, ModelError>)
        ensures
            r == spec_store_outcome(executed),
    {
        store_outcome(executed)
    }

    /// What updating the row that a record's `id` names comes to: the
    /// rows updated, a bad request when no row has that key, or the store's
    /// failure.
    pub fn update(info: &NotificationTemplateInfo, executed: Result<usize, String>) -> (r: Result<usize, ModelError>)
        requires
            info.id is Some,
        ensures
            outcome_view(r) == spec_row_outcome(executed, not_found_message("id"@, decimal_text(info.id.unwrap() as int))),
    {
        let key = i64_to_decimal(info.id.unwrap() as i64);
        row_outcome(executed, not_found("id", key.as_str()))
    }

    /// What deleting the row with the key comes to: the rows deleted, a bad
    /// request when no row has that key, or the store's failure.
    pub fn delete(_id: i32, executed: Result<usize, String>) -> (r: Result<usize, ModelError>)
        ensures
            outcome_view(r) == spec_row_outcome(executed, not_found_message("id"@, decimal_text(_id as int))),
    {
        let key = i64_to_decimal(_id as i64);
        row_outcome(executed, not_found("id", key.as_str()))
    }
}

} // verus!
