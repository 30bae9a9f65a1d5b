//! The `light_ecs_table` table: its rows, the record a request body describes,
//! the filters it honours and what its store calls come to.
use vstd::prelude::*;
use crate::clock::{NaiveTimestamp, now_naive_local};
use crate::fields::{field_bool, field_str, field_u64, get_bool, get_str, get_u64, has_bool, has_str, has_u64, present_bool, present_str, present_u64};
use crate::json::{JsonMap, JsonValue, opt_text};
use crate::mailman::{spec_store_outcome, store_outcome, FetchError, ModelError, BAD_REQUEST_CODE, UNKNOW_ERROR_CODE};
use crate::query::{filters_view, plan_entries, plan_filters, ColumnFilter, FilterRules, MatchKind};
use crate::stamp::{is_stamped, stamp_row};
use crate::table::name_views;
use crate::text::owned;

use crate::query::{plan_member, ColumnFilterView, ConditionView};
use crate::table::{lemma_assoc_absent, lemma_assoc_at};
use vstd::string::*;

verus! {

/// A row of the `light_ecs_table` table.
pub struct LightEcsModel {
    pub id: u64,
    pub project: String,
    pub cloud_name: String,
    pub region: String,
    pub zone: String,
    pub instance_id: String,
    pub instance_name: String,
    pub wip: Option<String>,
    pub nip: String,
    pub vpc_id: Option<String>,
    pub subnet_id: Option<String>,
    pub instance_type: Option<String>,
    pub internet_charge_type: String,
    pub status: String,
    pub os_name: String,
    pub os_type: String,
    pub image_id: String,
    pub bandwidth: String,
    pub cloud_account: String,
    pub is_link_server: bool,
    pub create_at: Option<NaiveTimestamp>,
    pub update_at: Option<NaiveTimestamp>,
}

/// A `light_ecs_table` record as a request body describes it: every column optional.
pub struct LightEcsInfo {
    pub id: Option<u64>,
    pub project: Option<String>,
    pub cloud_name: Option<String>,
    pub region: Option<String>,
    pub zone: Option<String>,
    pub instance_id: Option<String>,
    pub instance_name: Option<String>,
    pub wip: Option<String>,
    pub nip: Option<String>,
    pub vpc_id: Option<String>,
    pub subnet_id: Option<String>,
    pub instance_type: Option<String>,
    pub internet_charge_type: Option<String>,
    pub status: Option<String>,
    pub os_name: Option<String>,
    pub os_type: Option<String>,
    pub image_id: Option<String>,
    pub bandwidth: Option<String>,
    pub cloud_account: Option<String>,
    pub is_link_server: Option<bool>,
    pub create_at: Option<NaiveTimestamp>,
    pub update_at: Option<NaiveTimestamp>,
}

impl LightEcsInfo {
    /// Whether the record is what reading the request body `map` gives.
    pub open spec fn read_from(self, map: JsonMap) -> bool {
        &&& self.id == field_u64(map, "id"@)
        &&& opt_text(self.project) == field_str(map, "project"@)
        &&& opt_text(self.cloud_name) == field_str(map, "cloud_name"@)
        &&& opt_text(self.region) == field_str(map, "region"@)
        &&& opt_text(self.zone) == field_str(map, "zone"@)
        &&& opt_text(self.instance_id) == field_str(map, "instance_id"@)
        &&& opt_text(self.instance_name) == field_str(map, "instance_name"@)
        &&& opt_text(self.wip) == field_str(map, "wip"@)
        &&& opt_text(self.nip) == field_str(map, "nip"@)
        &&& opt_text(self.vpc_id) == field_str(map, "vpc_id"@)
        &&& opt_text(self.subnet_id) == field_str(map, "subnet_id"@)
        &&& opt_text(self.instance_type) == field_str(map, "instance_type"@)
        &&& opt_text(self.internet_charge_type) == field_str(map, "internet_charge_type"@)
        &&& opt_text(self.status) == field_str(map, "status"@)
        &&& opt_text(self.os_name) == field_str(map, "os_name"@)
        &&& opt_text(self.os_type) == field_str(map, "os_type"@)
        &&& opt_text(self.image_id) == field_str(map, "image_id"@)
        &&& opt_text(self.bandwidth) == field_str(map, "bandwidth"@)
        &&& opt_text(self.cloud_account) == field_str(map, "cloud_account"@)
        &&& self.is_link_server == field_bool(map, "is_link_server"@)
        &&& self.create_at is None
        &&& self.update_at is Some
    }

    /// The u64 columns of the record, each by its name.
    pub open spec fn u64_columns(self) -> Seq<(Seq<char>, Option<u64>)> {
        seq![
            ("id"@, self.id),
        ]
    }

    /// The text columns of the record, each by its name.
    pub open spec fn text_columns(self) -> Seq<(Seq<char>, Option<Seq<char>>)> {
        seq![
            ("project"@, opt_text(self.project)),
            ("cloud_name"@, opt_text(self.cloud_name)),
            ("region"@, opt_text(self.region)),
            ("zone"@, opt_text(self.zone)),
            ("instance_id"@, opt_text(self.instance_id)),
            ("instance_name"@, opt_text(self.instance_name)),
            ("wip"@, opt_text(self.wip)),
            ("nip"@, opt_text(self.nip)),
            ("vpc_id"@, opt_text(self.vpc_id)),
            ("subnet_id"@, opt_text(self.subnet_id)),
            ("instance_type"@, opt_text(self.instance_type)),
            ("internet_charge_type"@, opt_text(self.internet_charge_type)),
            ("status"@, opt_text(self.status)),
            ("os_name"@, opt_text(self.os_name)),
            ("os_type"@, opt_text(self.os_type)),
            ("image_id"@, opt_text(self.image_id)),
            ("bandwidth"@, opt_text(self.bandwidth)),
            ("cloud_account"@, opt_text(self.cloud_account)),
        ]
    }

    /// The bool columns of the record, each by its name.
    pub open spec fn bool_columns(self) -> Seq<(Seq<char>, Option<bool>)> {
        seq![
            ("is_link_server"@, self.is_link_server),
        ]
    }

    /// Every column of the record holds the request member of its own name,
    /// read by the reader of its type.
    pub proof fn law_columns_read_by_name(self, map: JsonMap)
        requires
            self.read_from(map),
        ensures
            forall|i: int| 0 <= i < self.u64_columns().len() ==> #[trigger] self.u64_columns()[i].1 == field_u64(map, self.u64_columns()[i].0),
            forall|i: int| 0 <= i < self.text_columns().len() ==> #[trigger] self.text_columns()[i].1 == field_str(map, self.text_columns()[i].0),
            forall|i: int| 0 <= i < self.bool_columns().len() ==> #[trigger] self.bool_columns()[i].1 == field_bool(map, self.bool_columns()[i].0),
    {
        assert forall|i: int| 0 <= i < self.u64_columns().len() implies #[trigger] self.u64_columns()[i].1 == field_u64(map, self.u64_columns()[i].0) by {
            if i == 0 {
            }
        }
        assert forall|i: int| 0 <= i < self.text_columns().len() implies #[trigger] self.text_columns()[i].1 == field_str(map, self.text_columns()[i].0) by {
            if i == 0 {
            } else if i == 1 {
            } else if i == 2 {
            } else if i == 3 {
            } else if i == 4 {
            } else if i == 5 {
            } else if i == 6 {
            } else if i == 7 {
            } else if i == 8 {
            } else if i == 9 {
            } else if i == 10 {
            } else if i == 11 {
            } else if i == 12 {
            } else if i == 13 {
            } else if i == 14 {
            } else if i == 15 {
            } else if i == 16 {
            } else if i == 17 {
            }
        }
        assert forall|i: int| 0 <= i < self.bool_columns().len() implies #[trigger] self.bool_columns()[i].1 == field_bool(map, self.bool_columns()[i].0) by {
            if i == 0 {
            }
        }
    }

    /// Whether every member the record reads is, where present, of its
    /// column's type.
    pub open spec fn well_typed(map: JsonMap) -> bool {
        &&& present_u64(map, "id"@)
        &&& present_str(map, "project"@)
        &&& present_str(map, "cloud_name"@)
        &&& present_str(map, "region"@)
        &&& present_str(map, "zone"@)
        &&& present_str(map, "instance_id"@)
        &&& present_str(map, "instance_name"@)
        &&& present_str(map, "wip"@)
        &&& present_str(map, "nip"@)
        &&& present_str(map, "vpc_id"@)
        &&& present_str(map, "subnet_id"@)
        &&& present_str(map, "instance_type"@)
        &&& present_str(map, "internet_charge_type"@)
        &&& present_str(map, "status"@)
        &&& present_str(map, "os_name"@)
        &&& present_str(map, "os_type"@)
        &&& present_str(map, "image_id"@)
        &&& present_str(map, "bandwidth"@)
        &&& present_str(map, "cloud_account"@)
        &&& present_bool(map, "is_link_server"@)
    }

    pub fn is_well_typed(map: &JsonMap) -> (r: bool)
        ensures
            r == LightEcsInfo::well_typed(*map),
    {
        has_u64(map, "id") && has_str(map, "project") && has_str(map, "cloud_name") && has_str(map, "region") && has_str(map, "zone") && has_str(map, "instance_id") && has_str(map, "instance_name") && has_str(map, "wip") && has_str(map, "nip") && has_str(map, "vpc_id") && has_str(map, "subnet_id") && has_str(map, "instance_type") && has_str(map, "internet_charge_type") && has_str(map, "status") && has_str(map, "os_name") && has_str(map, "os_type") && has_str(map, "image_id") && has_str(map, "bandwidth") && has_str(map, "cloud_account") && has_bool(map, "is_link_server")
    }

    /// Reads the record a request body describes, whose members each have,
    /// where present, their column's type; the update time is set to the
    /// current local time.
    pub fn from_map(map: JsonMap) -> (r: Result<LightEcsInfo, String>)
        requires
            LightEcsInfo::well_typed(map),
        ensures
            (r matches Ok(info) && info.read_from(map)),
    {
        let id = get_u64(&map, "id");
        let project = get_str(&map, "project");
        let cloud_name = get_str(&map, "cloud_name");
        let region = get_str(&map, "region");
        let zone = get_str(&map, "zone");
        let instance_id = get_str(&map, "instance_id");
        let instance_name = get_str(&map, "instance_name");
        let wip = get_str(&map, "wip");
        let nip = get_str(&map, "nip");
        let vpc_id = get_str(&map, "vpc_id");
        let subnet_id = get_str(&map, "subnet_id");
        let instance_type = get_str(&map, "instance_type");
        let internet_charge_type = get_str(&map, "internet_charge_type");
        let status = get_str(&map, "status");
        let os_name = get_str(&map, "os_name");
        let os_type = get_str(&map, "os_type");
        let image_id = get_str(&map, "image_id");
        let bandwidth = get_str(&map, "bandwidth");
        let cloud_account = get_str(&map, "cloud_account");
        let is_link_server = get_bool(&map, "is_link_server");
        Ok(LightEcsInfo {
            id,
            project,
            cloud_name,
            region,
            zone,
            instance_id,
            instance_name,
            wip,
            nip,
            vpc_id,
            subnet_id,
            instance_type,
            internet_charge_type,
            status,
            os_name,
            os_type,
            image_id,
            bandwidth,
            cloud_account,
            is_link_server,
            create_at: None,
            update_at: Some(now_naive_local()),
        })
    }
}

impl LightEcsModel {
    /// The filter keys the table honours: the column each constrains, and how.
    pub open spec fn filter_rules() -> FilterRules {
        seq![
            ("cloud_name"@, ("cloud_name", MatchKind::Exact)),
            ("region"@, ("cloud_name", MatchKind::Exact)),
            ("os_type"@, ("os_type", MatchKind::Exact)),
            ("instance_id"@, ("instance_id", MatchKind::Exact)),
            ("instance_name"@, ("instance_name", MatchKind::Contains)),
        ]
    }

    /// What each filter key asks of the rows: `cloud_name` asks `cloud_name` to equal the text given; `region` asks `cloud_name` to equal the text given; `os_type` asks `os_type` to equal the text given; `instance_id` asks `instance_id` to equal the text given; `instance_name` asks `instance_name` to contain the text given. A member under another key, or whose value is of another type, asks nothing.
    pub proof fn law_filter_keys(member: (String, JsonValue))
        ensures
            member.0@ == "cloud_name"@ ==> plan_member(LightEcsModel::filter_rules(), member) == match member.1.spec_as_str() {
                Some(s) => Some((ColumnFilterView { column: "cloud_name"@, condition: ConditionView::Equals(s) })),
                None => None,
            },
            member.0@ == "region"@ ==> plan_member(LightEcsModel::filter_rules(), member) == match member.1.spec_as_str() {
                Some(s) => Some((ColumnFilterView { column: "cloud_name"@, condition: ConditionView::Equals(s) })),
                None => None,
            },
            member.0@ == "os_type"@ ==> plan_member(LightEcsModel::filter_rules(), member) == match member.1.spec_as_str() {
                Some(s) => Some((ColumnFilterView { column: "os_type"@, condition: ConditionView::Equals(s) })),
                None => None,
            },
            member.0@ == "instance_id"@ ==> plan_member(LightEcsModel::filter_rules(), member) == match member.1.spec_as_str() {
                Some(s) => Some((ColumnFilterView { column: "instance_id"@, condition: ConditionView::Equals(s) })),
                None => None,
            },
            member.0@ == "instance_name"@ ==> plan_member(LightEcsModel::filter_rules(), member) == match member.1.spec_as_str() {
                Some(s) => Some((ColumnFilterView { column: "instance_name"@, condition: ConditionView::Like(seq!['%'] + s + seq!['%']) })),
                None => None,
            },
            member.0@ != "cloud_name"@ && member.0@ != "region"@ && member.0@ != "os_type"@ && member.0@ != "instance_id"@ && member.0@ != "instance_name"@ ==> plan_member(LightEcsModel::filter_rules(), member) is None,
    {
        reveal_strlit("cloud_name");
        reveal_strlit("instance_id");
        reveal_strlit("instance_name");
        reveal_strlit("os_type");
        reveal_strlit("region");
        assert("cloud_name"@.len() != "region"@.len());
        assert("cloud_name"@.len() != "os_type"@.len());
        assert("region"@.len() != "os_type"@.len());
        assert("cloud_name"@.len() != "instance_id"@.len());
        assert("region"@.len() != "instance_id"@.len());
        assert("os_type"@.len() != "instance_id"@.len());
        assert("cloud_name"@.len() != "instance_name"@.len());
        assert("region"@.len() != "instance_name"@.len());
        assert("os_type"@.len() != "instance_name"@.len());
        assert("instance_id"@.len() != "instance_name"@.len());
        let rules = LightEcsModel::filter_rules();
        if member.0@ == "cloud_name"@ {
            lemma_assoc_at(rules, member.0@, 0);
        } else if member.0@ == "region"@ {
            assert forall|j: int| 0 <= j < 1 implies (#[trigger] rules[j]).0 != member.0@ by {
                if j == 0 {
                }
            }
            lemma_assoc_at(rules, member.0@, 1);
        } else if member.0@ == "os_type"@ {
            assert forall|j: int| 0 <= j < 2 implies (#[trigger] rules[j]).0 != member.0@ by {
                if j == 0 {
                } else if j == 1 {
                }
            }
            lemma_assoc_at(rules, member.0@, 2);
        } else if member.0@ == "instance_id"@ {
            assert forall|j: int| 0 <= j < 3 implies (#[trigger] rules[j]).0 != member.0@ by {
                if j == 0 {
                } else if j == 1 {
                } else if j == 2 {
                }
            }
            lemma_assoc_at(rules, member.0@, 3);
        } else if member.0@ == "instance_name"@ {
            assert forall|j: int| 0 <= j < 4 implies (#[trigger] rules[j]).0 != member.0@ by {
                if j == 0 {
                } else if j == 1 {
                } else if j == 2 {
                } else if j == 3 {
                }
            }
            lemma_assoc_at(rules, member.0@, 4);
        } else {
            assert forall|j: int| 0 <= j < 5 implies (#[trigger] rules[j]).0 != member.0@ by {
                if j == 0 {
                } else if j == 1 {
                } else if j == 2 {
                } else if j == 3 {
                } else if j == 4 {
                }
            }
            lemma_assoc_absent(rules, member.0@);
        }
    }

    fn filter_rules_of() -> (r: Vec<(&'static str, (&'static str, MatchKind))>)
        ensures
            name_views(r@) == LightEcsModel::filter_rules(),
    {
        let r = vec![
            ("cloud_name", ("cloud_name", MatchKind::Exact)),
            ("region", ("cloud_name", MatchKind::Exact)),
            ("os_type", ("os_type", MatchKind::Exact)),
            ("instance_id", ("instance_id", MatchKind::Exact)),
            ("instance_name", ("instance_name", MatchKind::Contains)),
        ];
        assert(name_views(r@) =~= LightEcsModel::filter_rules());
        r
    }

    /// The conditions a filter puts on the table's rows; members under other
    /// keys, or with values of another type, are ignored.
    pub fn get_user_info_with_filter(filter: &JsonMap) -> (r: Vec<ColumnFilter>)
        ensures
            filters_view(r@) == plan_entries(LightEcsModel::filter_rules(), filter.entries@),
    {
        plan_filters(&LightEcsModel::filter_rules_of(), filter)
    }

    /// The rows a listing gives, each stamped with the current local time as
    /// its creation and update times; or the store's failure.
    pub fn listed_rows(fetched: Result<Vec<JsonMap>, String>) -> (r: Result<Vec<JsonValue>, ModelError>)
        ensures
            match fetched {
                Ok(rows) => (r matches Ok(out) && out@.len() == rows@.len() && forall|i: int|
                    0 <= i < rows@.len() ==> is_stamped(#[trigger] out@[i], rows@[i])),
                Err(e) => r == Err::<Vec<JsonValue>, ModelError>((UNKNOW_ERROR_CODE, e)),
            },
    {
        match fetched {
            Ok(rows) => {
                let ghost orig = rows@;
                let mut rest = rows;
                let mut out: Vec<JsonValue> = Vec::new();
                let ghost mut done: int = 0;
                while rest.len() > 0
                    invariant
                        0 <= done <= orig.len(),
                        rest@ == orig.skip(done),
                        out@.len() == done,
                        forall|i: int| 0 <= i < done ==> is_stamped(#[trigger] out@[i], orig[i]),
                    decreases rest@.len(),
                {
                    let row = rest.remove(0);
                    assert(row == orig[done]);
                    out.push(stamp_row(row));
                    proof {
                        done = done + 1;
                        assert(rest@ =~= orig.skip(done));
                    }
                }
                Ok(out)
            },
            Err(e) => Err((UNKNOW_ERROR_CODE, e)),
        }
    }

    /// The row a lookup by key gives, stamped with the current local time as
    /// its creation and update times; a bad request when no row has the key;
    /// or the store's failure.
    pub fn get_user_by_id(fetched: Result<JsonMap, FetchError>) -> (r: Result<JsonValue, ModelError>)
        ensures
            match fetched {
                Ok(row) => (r matches Ok(v) && is_stamped(v, row)),
                Err(FetchError::NotFound) => (r matches Err(e) && e.0 == BAD_REQUEST_CODE && e.1@
                    == "Item not found"@),
                Err(FetchError::Other(m)) => r == Err::<JsonValue, ModelError>((UNKNOW_ERROR_CODE, m)),
            },
    {
        match fetched {
            Ok(row) => Ok(stamp_row(row)),
            Err(FetchError::NotFound) => Err((BAD_REQUEST_CODE, owned("Item not found"))),
            Err(FetchError::Other(m)) => Err((UNKNOW_ERROR_CODE, m)),
        }
    }

    /// What inserting a record comes to: the rows touched, or the store's failure.
    pub fn new_ecs(executed: Result<usize, String>) -> (r: Result<usize, ModelError>)
        ensures
            r == spec_store_outcome(executed),
    {
        store_outcome(executed)
    }

    /// What updating the row that a record's `id` names comes to: the rows
    /// updated, or the store's failure.
    pub fn update_ecs(info: &LightEcsInfo, executed: Result<usize, String>) -> (r: Result<usize, ModelError>)
        requires
            info.id is Some,
        ensures
            r == spec_store_outcome(executed),
    {
        store_outcome(executed)
    }

    /// The key of the row a delete request body names: its `id` member.
    pub fn delete_key(info: &JsonMap) -> (r: u64)
        requires
            field_u64(*info, "id"@) is Some,
        ensures
            Some(r) == field_u64(*info, "id"@),
    {
        get_u64(info, "id").unwrap()
    }

    /// What deleting the row with the key comes to: the rows touched, or the store's failure.
    pub fn delete_ecs(executed: Result<usize, String>) -> (r: Result<usize, ModelError>)
        ensures
            r == spec_store_outcome(executed),
    {
        store_outcome(executed)
    }

}

} // verus!
