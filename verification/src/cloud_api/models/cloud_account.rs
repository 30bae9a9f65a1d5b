//! The `cloud_account` table: its rows, the record a request body describes,
//! the filters it honours and what its store calls come to.
use vstd::prelude::*;
use crate::clock::{NaiveTimestamp, now_naive_local};
use crate::fields::{field_str, field_u32_low, field_u8_low, get_str, get_u32_low, get_u8_low, has_str, has_u64, present_str, present_u64};
use crate::json::{JsonMap, opt_text};
use crate::mailman::{spec_store_outcome, store_outcome, FetchError, ModelError, BAD_REQUEST_CODE, UNKNOW_ERROR_CODE};
use crate::query::{filters_view, plan_entries, plan_filters, ColumnFilter, FilterRules, MatchKind};
use crate::table::name_views;
use crate::text::{concat2, owned};

use crate::json::JsonValue;
use crate::query::{plan_member, ColumnFilterView, ConditionView};
use crate::table::{lemma_assoc_absent, lemma_assoc_at};
use vstd::string::*;

verus! {

/// A row of the `cloud_account` table.
pub struct CloudAccountModel {
    pub id: u32,
    pub cloud_provider: String,
    pub nick_name: String,
    pub ak: String,
    pub sk: String,
    pub is_enable: u8,
    pub update_time: Option<NaiveTimestamp>,
    pub comment: Option<String>,
}

/// A `cloud_account` record as a request body describes it: every column optional.
pub struct CloudAccountInfo {
    pub id: Option<u32>,
    pub cloud_provider: Option<String>,
    pub nick_name: Option<String>,
    pub ak: Option<String>,
    pub sk: Option<String>,
    pub is_enable: Option<u8>,
    pub update_time: Option<NaiveTimestamp>,
    pub comment: Option<String>,
}

impl CloudAccountInfo {
    /// Whether the record is what reading the request body `map` gives.
    pub open spec fn read_from(self, map: JsonMap) -> bool {
        &&& self.id == field_u32_low(map, "id"@)
        &&& opt_text(self.cloud_provider) == field_str(map, "cloud_provider"@)
        &&& opt_text(self.nick_name) == field_str(map, "nick_name"@)
        &&& opt_text(self.ak) == field_str(map, "ak"@)
        &&& opt_text(self.sk) == field_str(map, "sk"@)
        &&& self.is_enable == field_u8_low(map, "is_enable"@)
        &&& self.update_time is Some
        &&& opt_text(self.comment) == field_str(map, "comment"@)
    }

    /// The u32 low columns of the record, each by its name.
    pub open spec fn u32_low_columns(self) -> Seq<(Seq<char>, Option<u32>)> {
        seq![
            ("id"@, self.id),
        ]
    }

    /// The text columns of the record, each by its name.
    pub open spec fn text_columns(self) -> Seq<(Seq<char>, Option<Seq<char>>)> {
        seq![
            ("cloud_provider"@, opt_text(self.cloud_provider)),
            ("nick_name"@, opt_text(self.nick_name)),
            ("ak"@, opt_text(self.ak)),
            ("sk"@, opt_text(self.sk)),
            ("comment"@, opt_text(self.comment)),
        ]
    }

    /// The u8 low columns of the record, each by its name.
    pub open spec fn u8_low_columns(self) -> Seq<(Seq<char>, Option<u8>)> {
        seq![
            ("is_enable"@, self.is_enable),
        ]
    }

    /// Every column of the record holds the request member of its own name,
    /// read by the reader of its type.
    pub proof fn law_columns_read_by_name(self, map: JsonMap)
        requires
            self.read_from(map),
        ensures
            forall|i: int| 0 <= i < self.u32_low_columns().len() ==> #[trigger] self.u32_low_columns()[i].1 == field_u32_low(map, self.u32_low_columns()[i].0),
            forall|i: int| 0 <= i < self.text_columns().len() ==> #[trigger] self.text_columns()[i].1 == field_str(map, self.text_columns()[i].0),
            forall|i: int| 0 <= i < self.u8_low_columns().len() ==> #[trigger] self.u8_low_columns()[i].1 == field_u8_low(map, self.u8_low_columns()[i].0),
    {
        assert forall|i: int| 0 <= i < self.u32_low_columns().len() implies #[trigger] self.u32_low_columns()[i].1 == field_u32_low(map, self.u32_low_columns()[i].0) by {
            if i == 0 {
            }
        }
        assert forall|i: int| 0 <= i < self.text_columns().len() implies #[trigger] self.text_columns()[i].1 == field_str(map, self.text_columns()[i].0) by {
            if i == 0 {
            } else if i == 1 {
            } else if i == 2 {
            } else if i == 3 {
            } else if i == 4 {
            }
        }
        assert forall|i: int| 0 <= i < self.u8_low_columns().len() implies #[trigger] self.u8_low_columns()[i].1 == field_u8_low(map, self.u8_low_columns()[i].0) by {
            if i == 0 {
            }
        }
    }

    /// Whether every member the record reads is, where present, of its
    /// column's type.
    pub open spec fn well_typed(map: JsonMap) -> bool {
        &&& present_u64(map, "id"@)
        &&& present_str(map, "cloud_provider"@)
        &&& present_str(map, "nick_name"@)
        &&& present_str(map, "ak"@)
        &&& present_str(map, "sk"@)
        &&& present_u64(map, "is_enable"@)
        &&& present_str(map, "comment"@)
    }

    pub fn is_well_typed(map: &JsonMap) -> (r: bool)
        ensures
            r == CloudAccountInfo::well_typed(*map),
    {
        has_u64(map, "id") && has_str(map, "cloud_provider") && has_str(map, "nick_name") && has_str(map, "ak") && has_str(map, "sk") && has_u64(map, "is_enable") && has_str(map, "comment")
    }

    /// Reads the record a request body describes, whose members each have,
    /// where present, their column's type; the update time is set to the
    /// current local time.
    pub fn from_map(map: JsonMap) -> (r: Result<CloudAccountInfo, String>)
        requires
            CloudAccountInfo::well_typed(map),
        ensures
            (r matches Ok(info) && info.read_from(map)),
    {
        let id = get_u32_low(&map, "id");
        let cloud_provider = get_str(&map, "cloud_provider");
        let nick_name = get_str(&map, "nick_name");
        let ak = get_str(&map, "ak");
        let sk = get_str(&map, "sk");
        let is_enable = get_u8_low(&map, "is_enable");
        let comment = get_str(&map, "comment");
        Ok(CloudAccountInfo {
            id,
            cloud_provider,
            nick_name,
            ak,
            sk,
            is_enable,
            update_time: Some(now_naive_local()),
            comment,
        })
    }
}

impl CloudAccountModel {
    /// The account a lookup by key gives; a bad request when no account has
    /// the key; or the store's failure.
    pub fn get_account_by_id(fetched: Result<CloudAccountModel, FetchError>) -> (r: Result<CloudAccountModel, ModelError>)
        ensures
            match fetched {
                Ok(row) => r == Ok::<CloudAccountModel, ModelError>(row),
                Err(FetchError::NotFound) => (r matches Err(e) && e.0 == BAD_REQUEST_CODE && e.1@
                    == "account not found"@),
                Err(FetchError::Other(m)) => (r matches Err(e) && e.0 == UNKNOW_ERROR_CODE && e.1@
                    == "get account error: "@ + m@),
            },
    {
        match fetched {
            Ok(row) => Ok(row),
            Err(FetchError::NotFound) => Err((BAD_REQUEST_CODE, owned("account not found"))),
            Err(FetchError::Other(m)) => Err((UNKNOW_ERROR_CODE, concat2("get account error: ", m.as_str()))),
        }
    }

    /// What inserting an account comes to: the rows touched, or the store's failure.
    pub fn new_account(executed: Result<usize, String>) -> (r: Result<usize, ModelError>)
        ensures
            r == spec_store_outcome(executed),
    {
        store_outcome(executed)
    }

    /// What updating the account that a record's `id` names comes to: without
    /// an `id`, a failure saying so and no store call; otherwise the rows
    /// updated, or the store's failure.
    pub fn update_account(info: &CloudAccountInfo, executed: Option<Result<usize, String>>) -> (r: Result<
        usize,
        ModelError,
    >)
        requires
            (info.id is Some) == (executed is Some),
        ensures
            match executed {
                None => (r matches Err(e) && e.0 == UNKNOW_ERROR_CODE && e.1@ == "id is required"@),
                Some(x) => r == spec_store_outcome(x),
            },
    {
        match executed {
            None => Err((UNKNOW_ERROR_CODE, owned("id is required"))),
            Some(x) => store_outcome(x),
        }
    }

    /// What deleting the account with the key comes to: the rows touched, or the store's failure.
    pub fn delete_account(executed: Result<usize, String>) -> (r: Result<usize, ModelError>)
        ensures
            r == spec_store_outcome(executed),
    {
        store_outcome(executed)
    }

    /// The filter keys the table honours: the column each constrains, and how.
    pub open spec fn filter_rules() -> FilterRules {
        seq![
            ("cloud_provider"@, ("cloud_provider", MatchKind::Exact)),
            ("nick_name"@, ("nick_name", MatchKind::Exact)),
        ]
    }

    /// What each filter key asks of the rows: `cloud_provider` asks `cloud_provider` to equal the text given; `nick_name` asks `nick_name` to equal the text given. A member under another key, or whose value is of another type, asks nothing.
    pub proof fn law_filter_keys(member: (String, JsonValue))
        ensures
            member.0@ == "cloud_provider"@ ==> plan_member(CloudAccountModel::filter_rules(), member) == match member.1.spec_as_str() {
                Some(s) => Some((ColumnFilterView { column: "cloud_provider"@, condition: ConditionView::Equals(s) })),
                None => None,
            },
            member.0@ == "nick_name"@ ==> plan_member(CloudAccountModel::filter_rules(), member) == match member.1.spec_as_str() {
                Some(s) => Some((ColumnFilterView { column: "nick_name"@, condition: ConditionView::Equals(s) })),
                None => None,
            },
            member.0@ != "cloud_provider"@ && member.0@ != "nick_name"@ ==> plan_member(CloudAccountModel::filter_rules(), member) is None,
    {
        reveal_strlit("cloud_provider");
        reveal_strlit("nick_name");
        assert("cloud_provider"@.len() != "nick_name"@.len());
        let rules = CloudAccountModel::filter_rules();
        if member.0@ == "cloud_provider"@ {
            lemma_assoc_at(rules, member.0@, 0);
        } else if member.0@ == "nick_name"@ {
            assert forall|j: int| 0 <= j < 1 implies (#[trigger] rules[j]).0 != member.0@ by {
                if j == 0 {
                }
            }
            lemma_assoc_at(rules, member.0@, 1);
        } else {
            assert forall|j: int| 0 <= j < 2 implies (#[trigger] rules[j]).0 != member.0@ by {
                if j == 0 {
                } else if j == 1 {
                }
            }
            lemma_assoc_absent(rules, member.0@);
        }
    }

    fn filter_rules_of() -> (r: Vec<(&'static str, (&'static str, MatchKind))>)
        ensures
            name_views(r@) == CloudAccountModel::filter_rules(),
    {
        let r = vec![
            ("cloud_provider", ("cloud_provider", MatchKind::Exact)),
            ("nick_name", ("nick_name", MatchKind::Exact)),
        ];
        assert(name_views(r@) =~= CloudAccountModel::filter_rules());
        r
    }

    /// The conditions a filter puts on the table's rows; members under other
    /// keys, or with values of another type, are ignored.
    pub fn get_user_info_with_filter(filter: &JsonMap) -> (r: Vec<ColumnFilter>)
        ensures
            filters_view(r@) == plan_entries(CloudAccountModel::filter_rules(), filter.entries@),
    {
        plan_filters(&CloudAccountModel::filter_rules_of(), filter)
    }

}

} // verus!
