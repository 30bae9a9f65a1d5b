//! The `user_table` table: its rows, the record a request body describes,
//! the filters it honours and what its store calls come to.
use vstd::prelude::*;
use crate::clock::{NaiveTimestamp, now_naive_local};
use crate::fields::{field_bool, field_datetime, field_i32, field_str, get_bool, get_datetime, get_i32, get_str};
use crate::json::{JsonMap, JsonValue, opt_text};
use crate::mailman::{ModelError, not_found, not_found_message, outcome_view, row_outcome, spec_row_outcome, spec_store_outcome, store_outcome};
use crate::query::{filters_view, plan_entries, plan_filters, ColumnFilter, FilterRules, MatchKind};
use crate::table::name_views;
use crate::text::{decimal_text, i64_to_decimal};

use crate::query::{plan_member, ColumnFilterView, ConditionView};
use crate::table::{lemma_assoc_absent, lemma_assoc_at};
use vstd::string::*;

verus! {

/// A row of the `user_table` table.
pub struct UserModel {
    pub id: i32,
    pub username: String,
    pub passwd: String,
    pub is_enable: bool,
    pub full_name: String,
    pub contact: JsonValue,
    pub last_login: NaiveTimestamp,
    pub update_time: NaiveTimestamp,
}

/// A `user_table` record as a request body describes it: every column optional.
pub struct UserInfo {
    pub id: Option<i32>,
    pub username: Option<String>,
    pub passwd: Option<String>,
    pub is_enable: Option<bool>,
    pub full_name: Option<String>,
    pub contact: Option<JsonValue>,
    pub last_login: Option<NaiveTimestamp>,
    pub update_time: Option<NaiveTimestamp>,
}

impl UserInfo {
    /// Whether the record is what reading the request body `map` gives.
    pub open spec fn read_from(self, map: JsonMap) -> bool {
        &&& self.id == field_i32(map, "id"@)
        &&& opt_text(self.username) == field_str(map, "username"@)
        &&& opt_text(self.passwd) == field_str(map, "passwd"@)
        &&& self.is_enable == field_bool(map, "is_enable"@)
        &&& opt_text(self.full_name) == field_str(map, "full_name"@)
        &&& self.contact == map.spec_get("contact"@)
        &&& self.last_login == field_datetime(map, "last_login"@)
        &&& self.update_time is Some
    }

    /// The i32 columns of the record, each by its name.
    pub open spec fn i32_columns(self) -> Seq<(Seq<char>, Option<i32>)> {
        seq![
            ("id"@, self.id),
        ]
    }

    /// The text columns of the record, each by its name.
    pub open spec fn text_columns(self) -> Seq<(Seq<char>, Option<Seq<char>>)> {
        seq![
            ("username"@, opt_text(self.username)),
            ("passwd"@, opt_text(self.passwd)),
            ("full_name"@, opt_text(self.full_name)),
        ]
    }

    /// The bool columns of the record, each by its name.
    pub open spec fn bool_columns(self) -> Seq<(Seq<char>, Option<bool>)> {
        seq![
            ("is_enable"@, self.is_enable),
        ]
    }

    /// The json columns of the record, each by its name.
    pub open spec fn json_columns(self) -> Seq<(Seq<char>, Option<JsonValue>)> {
        seq![
            ("contact"@, self.contact),
        ]
    }

    /// The datetime columns of the record, each by its name.
    pub open spec fn datetime_columns(self) -> Seq<(Seq<char>, Option<NaiveTimestamp>)> {
        seq![
            ("last_login"@, self.last_login),
        ]
    }

    /// Every column of the record holds the request member of its own name,
    /// read by the reader of its type.
    pub proof fn law_columns_read_by_name(self, map: JsonMap)
        requires
            self.read_from(map),
        ensures
            forall|i: int| 0 <= i < self.i32_columns().len() ==> #[trigger] self.i32_columns()[i].1 == field_i32(map, self.i32_columns()[i].0),
            forall|i: int| 0 <= i < self.text_columns().len() ==> #[trigger] self.text_columns()[i].1 == field_str(map, self.text_columns()[i].0),
            forall|i: int| 0 <= i < self.bool_columns().len() ==> #[trigger] self.bool_columns()[i].1 == field_bool(map, self.bool_columns()[i].0),
            forall|i: int| 0 <= i < self.json_columns().len() ==> #[trigger] self.json_columns()[i].1 == map.spec_get(self.json_columns()[i].0),
            forall|i: int| 0 <= i < self.datetime_columns().len() ==> #[trigger] self.datetime_columns()[i].1 == field_datetime(map, self.datetime_columns()[i].0),
    {
        assert forall|i: int| 0 <= i < self.i32_columns().len() implies #[trigger] self.i32_columns()[i].1 == field_i32(map, self.i32_columns()[i].0) by {
            if i == 0 {
            }
        }
        assert forall|i: int| 0 <= i < self.text_columns().len() implies #[trigger] self.text_columns()[i].1 == field_str(map, self.text_columns()[i].0) by {
            if i == 0 {
            } else if i == 1 {
            } else if i == 2 {
            }
        }
        assert forall|i: int| 0 <= i < self.bool_columns().len() implies #[trigger] self.bool_columns()[i].1 == field_bool(map, self.bool_columns()[i].0) by {
            if i == 0 {
            }
        }
        assert forall|i: int| 0 <= i < self.json_columns().len() implies #[trigger] self.json_columns()[i].1 == map.spec_get(self.json_columns()[i].0) by {
            if i == 0 {
            }
        }
        assert forall|i: int| 0 <= i < self.datetime_columns().len() implies #[trigger] self.datetime_columns()[i].1 == field_datetime(map, self.datetime_columns()[i].0) by {
            if i == 0 {
            }
        }
    }

    /// Reads the record a request body describes. A member of another type
    /// than its column's is read as absent; JSON columns take the member as
    /// it is; the update time is set to the current local time.
    pub fn from_map(map: JsonMap) -> (r: Result<UserInfo, String>)
        ensures
            (r matches Ok(info) && info.read_from(map)),
    {
        let id = get_i32(&map, "id");
        let username = get_str(&map, "username");
        let passwd = get_str(&map, "passwd");
        let is_enable = get_bool(&map, "is_enable");
        let full_name = get_str(&map, "full_name");
        let last_login = get_datetime(&map, "last_login");
        let mut rest = map;
        let contact = rest.take("contact");
        Ok(UserInfo {
            id,
            username,
            passwd,
            is_enable,
            full_name,
            contact,
            last_login,
            update_time: Some(now_naive_local()),
        })
    }
}

impl UserModel {
    /// The filter keys the table honours: the column each constrains, and how.
    pub open spec fn filter_rules() -> FilterRules {
        seq![
            ("username"@, ("username", MatchKind::Exact)),
            ("full_name"@, ("full_name", MatchKind::Contains)),
        ]
    }

    /// What each filter key asks of the rows: `username` asks `username` to equal the text given; `full_name` asks `full_name` to contain the text given. A member under another key, or whose value is of another type, asks nothing.
    pub proof fn law_filter_keys(member: (String, JsonValue))
        ensures
            member.0@ == "username"@ ==> plan_member(UserModel::filter_rules(), member) == match member.1.spec_as_str() {
                Some(s) => Some((ColumnFilterView { column: "username"@, condition: ConditionView::Equals(s) })),
                None => None,
            },
            member.0@ == "full_name"@ ==> plan_member(UserModel::filter_rules(), member) == match member.1.spec_as_str() {
                Some(s) => Some((ColumnFilterView { column: "full_name"@, condition: ConditionView::Like(seq!['%'] + s + seq!['%']) })),
                None => None,
            },
            member.0@ != "username"@ && member.0@ != "full_name"@ ==> plan_member(UserModel::filter_rules(), member) is None,
    {
        reveal_strlit("full_name");
        reveal_strlit("username");
        assert("username"@.len() != "full_name"@.len());
        let rules = UserModel::filter_rules();
        if member.0@ == "username"@ {
            lemma_assoc_at(rules, member.0@, 0);
        } else if member.0@ == "full_name"@ {
            assert forall|j: int| 0 <= j < 1 implies (#[trigger] rules[j]).0 != member.0@ by {
                if j == 0 {
                }
            }
            lemma_assoc_at(rules, member.0@, 1);
        } else {
            assert forall|j: int| 0 <= j < 2 implies (#[trigger] rules[j]).0 != member.0@ by {
                if j == 0 {
                } else if j == 1 {
                }
            }
            lemma_assoc_absent(rules, member.0@);
        }
    }

    fn filter_rules_of() -> (r: Vec<(&'static str, (&'static str, MatchKind))>)
        ensures
            name_views(r@) == UserModel::filter_rules(),
    {
        let r = vec![
            ("username", ("username", MatchKind::Exact)),
            ("full_name", ("full_name", MatchKind::Contains)),
        ];
        assert(name_views(r@) =~= UserModel::filter_rules());
        r
    }

    /// The conditions a filter puts on the table's rows; members under other
    /// keys, or with values of another type, are ignored.
    pub fn get_model_info_with_filter(filter: &JsonMap) -> (r: Vec<ColumnFilter>)
        ensures
            filters_view(r@) == plan_entries(UserModel::filter_rules(), filter.entries@),
    {
        plan_filters(&UserModel::filter_rules_of(), filter)
    }

    /// What inserting a record comes to: the rows inserted, or the store's
    /// failure.
    pub fn new(executed: Result<usize, String>) -> (r: Result<usize, ModelError>)
        ensures
            r == spec_store_outcome(executed),
    {
        store_outcome(executed)
    }

    /// What updating the row that a record's `id` names comes to: the
    /// rows updated, a bad request when no row has that key, or the store's
    /// failure.
    pub fn update(info: &UserInfo, executed: Result<usize, String>) -> (r: Result<usize, ModelError>)
        requires
            info.id is Some,
        ensures
            outcome_view(r) == spec_row_outcome(executed, not_found_message("id"@, decimal_text(info.id.unwrap() as int))),
    {
        let key = i64_to_decimal(info.id.unwrap() as i64);
        row_outcome(executed, not_found("id", key.as_str()))
    }

    /// What deleting the row with the key comes to: the rows deleted, a bad
    /// request when no row has that key, or the store's failure.
    pub fn delete(_id: i32, executed: Result<usize, String>) -> (r: Result<usize, ModelError>)
        ensures
            outcome_view(r) == spec_row_outcome(executed, not_found_message("id"@, decimal_text(_id as int))),
    {
        let key = i64_to_decimal(_id as i64);
        row_outcome(executed, not_found("id", key.as_str()))
    }
}

} // verus!
