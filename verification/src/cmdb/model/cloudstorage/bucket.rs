//! The `cloudstorage_bucket` table: its rows, the record a request body describes,
//! the filters it honours and what its store calls come to.
use vstd::prelude::*;
use crate::clock::{NaiveTimestamp, now_naive_local};
use crate::fields::{field_i64, field_str, get_i64, get_str};
use crate::json::{JsonMap, JsonValue, opt_text};
use crate::mailman::{ModelError, not_found, not_found_message, outcome_view, row_outcome, spec_row_outcome, spec_store_outcome, store_outcome};
use crate::query::{filters_view, plan_entries, plan_filters, ColumnFilter, FilterRules, MatchKind};
use crate::table::name_views;
use crate::text::{decimal_text, i64_to_decimal};

use crate::query::{plan_member, ColumnFilterView, ConditionView};
use crate::table::{lemma_assoc_absent, lemma_assoc_at};
use vstd::string::*;

verus! {

/// A row of the `cloudstorage_bucket` table.
pub struct BucketModel {
    pub id: i64,
    pub provider: String,
    pub bucket_name: String,
    pub bucket_type: String,
    pub location: String,
    pub creation_date: String,
    pub describes: String,
    pub tag: JsonValue,
    pub full_info: JsonValue,
    pub attach_info: JsonValue,
    pub update_at: NaiveTimestamp,
}

/// A `cloudstorage_bucket` record as a request body describes it: every column optional.
pub struct BucketInfo {
    pub id: Option<i64>,
    pub provider: Option<String>,
    pub bucket_name: Option<String>,
    pub bucket_type: Option<String>,
    pub location: Option<String>,
    pub creation_date: Option<String>,
    pub describes: Option<String>,
    pub tag: Option<JsonValue>,
    pub full_info: Option<JsonValue>,
    pub attach_info: Option<JsonValue>,
    pub update_at: Option<NaiveTimestamp>,
}

impl BucketInfo {
    /// Whether the record is what reading the request body `map` gives.
    pub open spec fn read_from(self, map: JsonMap) -> bool {
        &&& self.id == field_i64(map, "id"@)
        &&& opt_text(self.provider) == field_str(map, "provider"@)
        &&& opt_text(self.bucket_name) == field_str(map, "bucket_name"@)
        &&& opt_text(self.bucket_type) == field_str(map, "bucket_type"@)
        &&& opt_text(self.location) == field_str(map, "location"@)
        &&& opt_text(self.creation_date) == field_str(map, "creation_date"@)
        &&& opt_text(self.describes) == field_str(map, "describes"@)
        &&& self.tag == map.spec_get("tag"@)
        &&& self.full_info == map.spec_get("full_info"@)
        &&& self.attach_info == map.spec_get("attach_info"@)
        &&& self.update_at is Some
    }

    /// The i64 columns of the record, each by its name.
    pub open spec fn i64_columns(self) -> Seq<(Seq<char>, Option<i64>)> {
        seq![
            ("id"@, self.id),
        ]
    }

    /// The text columns of the record, each by its name.
    pub open spec fn text_columns(self) -> Seq<(Seq<char>, Option<Seq<char>>)> {
        seq![
            ("provider"@, opt_text(self.provider)),
            ("bucket_name"@, opt_text(self.bucket_name)),
            ("bucket_type"@, opt_text(self.bucket_type)),
            ("location"@, opt_text(self.location)),
            ("creation_date"@, opt_text(self.creation_date)),
            ("describes"@, opt_text(self.describes)),
        ]
    }

    /// The json columns of the record, each by its name.
    pub open spec fn json_columns(self) -> Seq<(Seq<char>, Option<JsonValue>)> {
        seq![
            ("tag"@, self.tag),
            ("full_info"@, self.full_info),
            ("attach_info"@, self.attach_info),
        ]
    }

    /// Every column of the record holds the request member of its own name,
    /// read by the reader of its type.
    pub proof fn law_columns_read_by_name(self, map: JsonMap)
        requires
            self.read_from(map),
        ensures
            forall|i: int| 0 <= i < self.i64_columns().len() ==> #[trigger] self.i64_columns()[i].1 == field_i64(map, self.i64_columns()[i].0),
            forall|i: int| 0 <= i < self.text_columns().len() ==> #[trigger] self.text_columns()[i].1 == field_str(map, self.text_columns()[i].0),
            forall|i: int| 0 <= i < self.json_columns().len() ==> #[trigger] self.json_columns()[i].1 == map.spec_get(self.json_columns()[i].0),
    {
        assert forall|i: int| 0 <= i < self.i64_columns().len() implies #[trigger] self.i64_columns()[i].1 == field_i64(map, self.i64_columns()[i].0) by {
            if i == 0 {
            }
        }
        assert forall|i: int| 0 <= i < self.text_columns().len() implies #[trigger] self.text_columns()[i].1 == field_str(map, self.text_columns()[i].0) by {
            if i == 0 {
            } else if i == 1 {
            } else if i == 2 {
            } else if i == 3 {
            } else if i == 4 {
            } else if i == 5 {
            }
        }
        assert forall|i: int| 0 <= i < self.json_columns().len() implies #[trigger] self.json_columns()[i].1 == map.spec_get(self.json_columns()[i].0) by {
            if i == 0 {
            } else if i == 1 {
            } else if i == 2 {
            }
        }
    }

    /// Reads the record a request body describes. A member of another type
    /// than its column's is read as absent; JSON columns take the member as
    /// it is; the update time is set to the current local time.
    pub fn from_map(map: JsonMap) -> (r: Result<BucketInfo, String>)
        ensures
            (r matches Ok(info) && info.read_from(map)),
    {
        let id = get_i64(&map, "id");
        let provider = get_str(&map, "provider");
        let bucket_name = get_str(&map, "bucket_name");
        let bucket_type = get_str(&map, "bucket_type");
        let location = get_str(&map, "location");
        let creation_date = get_str(&map, "creation_date");
        let describes = get_str(&map, "describes");
        let mut rest = map;
        proof {
            reveal_strlit("tag");
            reveal_strlit("full_info");
            reveal_strlit("attach_info");
            assert("tag"@.len() != "full_info"@.len() || "tag"@ != "full_info"@);
            assert("tag"@ != "full_info"@);
            assert("tag"@.len() != "attach_info"@.len() || "tag"@ != "attach_info"@);
            assert("tag"@ != "attach_info"@);
            assert("full_info"@.len() != "attach_info"@.len() || "full_info"@ != "attach_info"@);
            assert("full_info"@ != "attach_info"@);
        }
        let tag = rest.take("tag");
        let full_info = rest.take("full_info");
        let attach_info = rest.take("attach_info");
        Ok(BucketInfo {
            id,
            provider,
            bucket_name,
            bucket_type,
            location,
            creation_date,
            describes,
            tag,
            full_info,
            attach_info,
            update_at: Some(now_naive_local()),
        })
    }
}

impl BucketModel {
    /// The filter keys the table honours: the column each constrains, and how.
    pub open spec fn filter_rules() -> FilterRules {
        seq![
            ("provider"@, ("provider", MatchKind::Exact)),
            ("bucket_name"@, ("bucket_name", MatchKind::Contains)),
        ]
    }

    /// What each filter key asks of the rows: `provider` asks `provider` to equal the text given; `bucket_name` asks `bucket_name` to contain the text given. A member under another key, or whose value is of another type, asks nothing.
    pub proof fn law_filter_keys(member: (String, JsonValue))
        ensures
            member.0@ == "provider"@ ==> plan_member(BucketModel::filter_rules(), member) == match member.1.spec_as_str() {
                Some(s) => Some((ColumnFilterView { column: "provider"@, condition: ConditionView::Equals(s) })),
                None => None,
            },
            member.0@ == "bucket_name"@ ==> plan_member(BucketModel::filter_rules(), member) == match member.1.spec_as_str() {
                Some(s) => Some((ColumnFilterView { column: "bucket_name"@, condition: ConditionView::Like(seq!['%'] + s + seq!['%']) })),
                None => None,
            },
            member.0@ != "provider"@ && member.0@ != "bucket_name"@ ==> plan_member(BucketModel::filter_rules(), member) is None,
    {
        reveal_strlit("bucket_name");
        reveal_strlit("provider");
        assert("provider"@.len() != "bucket_name"@.len());
        let rules = BucketModel::filter_rules();
        if member.0@ == "provider"@ {
            lemma_assoc_at(rules, member.0@, 0);
        } else if member.0@ == "bucket_name"@ {
            assert forall|j: int| 0 <= j < 1 implies (#[trigger] rules[j]).0 != member.0@ by {
                if j == 0 {
                }
            }
            lemma_assoc_at(rules, member.0@, 1);
        } else {
            assert forall|j: int| 0 <= j < 2 implies (#[trigger] rules[j]).0 != member.0@ by {
                if j == 0 {
                } else if j == 1 {
                }
            }
            lemma_assoc_absent(rules, member.0@);
        }
    }

    fn filter_rules_of() -> (r: Vec<(&'static str, (&'static str, MatchKind))>)
        ensures
            name_views(r@) == BucketModel::filter_rules(),
    {
        let r = vec![
            ("provider", ("provider", MatchKind::Exact)),
            ("bucket_name", ("bucket_name", MatchKind::Contains)),
        ];
        assert(name_views(r@) =~= BucketModel::filter_rules());
        r
    }

    /// The conditions a filter puts on the table's rows; members under other
    /// keys, or with values of another type, are ignored.
    pub fn get_model_info_with_filter(filter: &JsonMap) -> (r: Vec<ColumnFilter>)
        ensures
            filters_view(r@) == plan_entries(BucketModel::filter_rules(), filter.entries@),
    {
        plan_filters(&BucketModel::filter_rules_of(), filter)
    }

    /// What inserting a record comes to: the rows inserted, or the store's
    /// failure.
    pub fn new(executed: Result<usize, String>) -> (r: Result<usize, ModelError>)
        ensures
            r == spec_store_outcome(executed),
    {
        store_outcome(executed)
    }

    /// What updating the row that a record's `id` names comes to: the
    /// rows updated, a bad request when no row has that key, or the store's
    /// failure.
    pub fn update(info: &BucketInfo, executed: Result<usize, String>) -> (r: Result<usize, ModelError>)
        requires
            info.id is Some,
        ensures
            outcome_view(r) == spec_row_outcome(executed, not_found_message("id"@, decimal_text(info.id.unwrap() as int))),
    {
        let key = i64_to_decimal(info.id.unwrap() as i64);
        row_outcome(executed, not_found("id", key.as_str()))
    }

    /// What deleting the row with the key comes to: the rows deleted, a bad
    /// request when no row has that key, or the store's failure.
    pub fn delete(_id: i64, executed: Result<usize, String>) -> (r: Result<usize, ModelError>)
        ensures
            outcome_view(r) == spec_row_outcome(executed, not_found_message("id"@, decimal_text(_id as int))),
    {
        let key = i64_to_decimal(_id as i64);
        row_outcome(executed, not_found("id", key.as_str()))
    }
}

} // verus!
