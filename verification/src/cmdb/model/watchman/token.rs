//! The `token_table` table: its rows, the record a request body describes,
//! the filters it honours and what its store calls come to.
use vstd::prelude::*;
use crate::clock::{NaiveTimestamp};
use crate::fields::{field_datetime, field_str, get_datetime, get_str};
use crate::json::{JsonMap, opt_text};
use crate::mailman::{ModelError, not_found, not_found_message, outcome_view, row_outcome, spec_row_outcome, spec_store_outcome, store_outcome};
use crate::query::{filters_view, plan_entries, plan_filters, ColumnFilter, FilterRules, MatchKind};
use crate::table::name_views;

use crate::json::JsonValue;
use crate::query::{plan_member, ColumnFilterView, ConditionView};
use crate::table::{lemma_assoc_absent, lemma_assoc_at};
use vstd::string::*;

verus! {

/// A row of the `token_table` table.
pub struct TokenModel {
    pub tokenid: String,
    pub username: String,
    pub exp_time: NaiveTimestamp,
}

/// A `token_table` record as a request body describes it: every column optional.
pub struct TokenInfo {
    pub tokenid: Option<String>,
    pub username: Option<String>,
    pub exp_time: Option<NaiveTimestamp>,
}

impl TokenInfo {
    /// Whether the record is what reading the request body `map` gives.
    pub open spec fn read_from(self, map: JsonMap) -> bool {
        &&& opt_text(self.tokenid) == field_str(map, "tokenid"@)
        &&& opt_text(self.username) == field_str(map, "username"@)
        &&& self.exp_time == field_datetime(map, "exp_time"@)
    }

    /// The text columns of the record, each by its name.
    pub open spec fn text_columns(self) -> Seq<(Seq<char>, Option<Seq<char>>)> {
        seq![
            ("tokenid"@, opt_text(self.tokenid)),
            ("username"@, opt_text(self.username)),
        ]
    }

    /// The datetime columns of the record, each by its name.
    pub open spec fn datetime_columns(self) -> Seq<(Seq<char>, Option<NaiveTimestamp>)> {
        seq![
            ("exp_time"@, self.exp_time),
        ]
    }

    /// Every column of the record holds the request member of its own name,
    /// read by the reader of its type.
    pub proof fn law_columns_read_by_name(self, map: JsonMap)
        requires
            self.read_from(map),
        ensures
            forall|i: int| 0 <= i < self.text_columns().len() ==> #[trigger] self.text_columns()[i].1 == field_str(map, self.text_columns()[i].0),
            forall|i: int| 0 <= i < self.datetime_columns().len() ==> #[trigger] self.datetime_columns()[i].1 == field_datetime(map, self.datetime_columns()[i].0),
    {
        assert forall|i: int| 0 <= i < self.text_columns().len() implies #[trigger] self.text_columns()[i].1 == field_str(map, self.text_columns()[i].0) by {
            if i == 0 {
            } else if i == 1 {
            }
        }
        assert forall|i: int| 0 <= i < self.datetime_columns().len() implies #[trigger] self.datetime_columns()[i].1 == field_datetime(map, self.datetime_columns()[i].0) by {
            if i == 0 {
            }
        }
    }

    /// Reads the record a request body describes. A member of another type
    /// than its column's is read as absent.
    pub fn from_map(map: JsonMap) -> (r: Result<TokenInfo, String>)
        ensures
            (r matches Ok(info) && info.read_from(map)),
    {
        let tokenid = get_str(&map, "tokenid");
        let username = get_str(&map, "username");
        let exp_time = get_datetime(&map, "exp_time");
        Ok(TokenInfo {
            tokenid,
            username,
            exp_time,
        })
    }
}

impl TokenModel {
    /// The filter keys the table honours: the column each constrains, and how.
    pub open spec fn filter_rules() -> FilterRules {
        seq![
            ("username"@, ("username", MatchKind::Exact)),
        ]
    }

    /// What each filter key asks of the rows: `username` asks `username` to equal the text given. A member under another key, or whose value is of another type, asks nothing.
    pub proof fn law_filter_keys(member: (String, JsonValue))
        ensures
            member.0@ == "username"@ ==> plan_member(TokenModel::filter_rules(), member) == match member.1.spec_as_str() {
                Some(s) => Some((ColumnFilterView { column: "username"@, condition: ConditionView::Equals(s) })),
                None => None,
            },
            member.0@ != "username"@ ==> plan_member(TokenModel::filter_rules(), member) is None,
    {
        reveal_strlit("username");
        let rules = TokenModel::filter_rules();
        if member.0@ == "username"@ {
            lemma_assoc_at(rules, member.0@, 0);
        } else {
            assert forall|j: int| 0 <= j < 1 implies (#[trigger] rules[j]).0 != member.0@ by {
                if j == 0 {
                }
            }
            lemma_assoc_absent(rules, member.0@);
        }
    }

    fn filter_rules_of() -> (r: Vec<(&'static str, (&'static str, MatchKind))>)
        ensures
            name_views(r@) == TokenModel::filter_rules(),
    {
        let r = vec![
            ("username", ("username", MatchKind::Exact)),
        ];
        assert(name_views(r@) =~= TokenModel::filter_rules());
        r
    }

    /// The conditions a filter puts on the table's rows; members under other
    /// keys, or with values of another type, are ignored.
    pub fn get_model_info_with_filter(filter: &JsonMap) -> (r: Vec<ColumnFilter>)
        ensures
            filters_view(r@) == plan_entries(TokenModel::filter_rules(), filter.entries@),
    {
        plan_filters(&TokenModel::filter_rules_of(), filter)
    }

    /// What inserting a record comes to: the rows inserted, or the store's
    /// failure.
    pub fn new(executed: Result<usize, String>) -> (r: Result<usize, ModelError>)
        ensures
            r == spec_store_outcome(executed),
    {
        store_outcome(executed)
    }

    /// What updating the row that a record's `tokenid` names comes to: the
    /// rows updated, a bad request when no row has that key, or the store's
    /// failure.
    pub fn update(info: &TokenInfo, executed: Result<usize, String>) -> (r: Result<usize, ModelError>)
        requires
            info.tokenid is Some,
        ensures
            outcome_view(r) == spec_row_outcome(executed, not_found_message("tokenid"@, opt_text(info.tokenid).unwrap())),
    {
        row_outcome(executed, not_found("tokenid", info.tokenid.as_ref().unwrap().as_str()))
    }

    /// What deleting the row with the key comes to: the rows deleted, a bad
    /// request when no row has that key, or the store's failure.
    pub fn delete(_tokenid: &str, executed: Result<usize, String>) -> (r: Result<usize, ModelError>)
        ensures
            outcome_view(r) == spec_row_outcome(executed, not_found_message("tokenid"@, _tokenid@)),
    {
        row_outcome(executed, not_found("tokenid", _tokenid))
    }
}

} // verus!
