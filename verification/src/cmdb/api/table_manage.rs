//! The decisions of the `api/table/*` endpoints: which table a request
//! names, whether its payload is there, and what filter, record or key it
//! carries to the table's service.
use vstd::prelude::*;
use vstd::string::*;
use crate::cmdb::api::filter::{clean_entries, clean_query_filter, clean_member, spec_clean_query_filter, whitelist, FilterValueType};
use crate::fields::field_str;
use crate::json::{opt_text, JsonMap, JsonNumber, JsonValue};
use crate::mailman::MailManErr;
use crate::query::{plan_entries, plan_member, FilterRules, MatchKind};
use crate::table::{assoc_lookup, lemma_assoc_at, table_catalog, Table};
use crate::text::{concat2, decimal_text, i64_to_decimal, owned, spec_parse_i64};
use crate::cmdb::model::lighthouse::instance::{LightEcsInfo, LightEcsModel};
use crate::cmdb::model::cloudserver::instance::{CloudserverInstanceInfo, CloudserverInstanceModel};
use crate::cmdb::model::logservice::topic::{LogServiceTopicInfo, LogServiceTopicModel};
use crate::cmdb::model::km::cloud_account::{CloudAccountInfo, CloudAccountModel};
use crate::cmdb::model::km::job_log::{JobLogInfo, JobLogModel};
use crate::cmdb::model::km::cron_job::{CronJobInfo, CronJobModel};
use crate::cmdb::model::cloudstorage::bucket::{BucketInfo, BucketModel};
use crate::cmdb::model::watchman::access::{AccessInfo, AccessModel};
use crate::cmdb::model::watchman::service::{ServiceInfo, ServiceModel};
use crate::cmdb::model::watchman::subsystem::{SubsystemInfo, SubsystemModel};
use crate::cmdb::model::watchman::token::{TokenInfo, TokenModel};
use crate::cmdb::model::watchman::user::{UserInfo, UserModel};
use crate::cmdb::model::watchman::webhook::{WebhookInfo, WebhookModel};
use crate::cmdb::model::yell::channel_config::{ChannelConfigInfo, ChannelConfigModel};
use crate::cmdb::model::yell::notification_record::{NotificationRecordInfo, NotificationRecordModel};
use crate::cmdb::model::yell::notification_template::{NotificationTemplateInfo, NotificationTemplateModel};

verus! {

/// Whether an error is a bad request with this message: 400, `Bad request`,
/// level 1.
pub open spec fn is_bad_request(e: MailManErr, msg: Seq<char>) -> bool {
    e.is(400, "Bad request"@, Some(msg), 1)
}

fn bad_request(msg: String) -> (r: MailManErr)
    ensures
        is_bad_request(r, msg@),
{
    MailManErr::new(400, "Bad request", Some(msg), 1)
}

/// What is said of a name that denotes no table this build serves.
pub open spec fn no_such_table(name: Seq<char>) -> Seq<char> {
    "No such table: "@ + name
}

/// The table a name denotes, where this build serves it: the CMDB's own
/// tables always, the cross-subsystem ones only in a full-schema build.
pub open spec fn served_table(name: Seq<char>, full_schema: bool) -> Option<Table> {
    match Table::spec_from_name(name) {
        Some(t) => if full_schema || t.spec_is_native() {
            Some(t)
        } else {
            None
        },
        None => None,
    }
}

fn served(name: &str, full_schema: bool) -> (r: Option<Table>)
    ensures
        r == served_table(name@, full_schema),
{
    match Table::from_name(name) {
        Some(t) => if full_schema || t.is_native() {
            Some(t)
        } else {
            None
        },
        None => None,
    }
}

/// The name of the table a request body names: its `table` member.
pub fn table_name_of(data: &JsonMap) -> (r: Option<String>)
    ensures
        opt_text(r) == field_str(*data, "table"@),
{
    crate::fields::get_str(data, "table")
}

/// The `id` member of the `delete` member of a request body.
pub fn delete_id_member(data: &JsonMap) -> (r: Option<&JsonValue>)
    ensures
        match r {
            Some(v) => (data.spec_get("delete"@) matches Some(JsonValue::Object(d)) && d.spec_get("id"@) == Some(
                *v,
            )),
            None => !(data.spec_get("delete"@) matches Some(JsonValue::Object(d)) && d.spec_get("id"@) is Some),
        },
{
    match data.get("delete") {
        Some(v) => match v {
            JsonValue::Object(d) => d.get("id"),
            _ => None,
        },
        None => None,
    }
}

/// Decides a query request: its filter payload must be there and be an
/// object, and the name must denote a table this build serves; the filter
/// handed on is the cleaned one.
pub fn query_table(table_name: &str, query: Option<Result<JsonMap, String>>, full_schema: bool) -> (r: Result<
    (Table, JsonMap),
    MailManErr,
>)
    ensures
        match query {
            None => (r matches Err(e) && is_bad_request(e, "Query operation must have `query` field"@)),
            Some(Err(m)) => (r matches Err(e) && is_bad_request(e, m@)),
            Some(Ok(q)) => match served_table(table_name@, full_schema) {
                Some(t) => (r matches Ok(p) && p.0 == t && p.1.entries@ == spec_clean_query_filter(
                    table_name@,
                    q.entries@,
                )),
                None => (r matches Err(e) && is_bad_request(e, no_such_table(table_name@))),
            },
        },
{
    let query = match query {
        None => {
            return Err(bad_request(owned("Query operation must have `query` field")));
        },
        Some(Err(m)) => {
            return Err(bad_request(m));
        },
        Some(Ok(q)) => q,
    };
    match served(table_name, full_schema) {
        Some(t) => Ok((t, clean_query_filter(table_name, query))),
        None => Err(bad_request(concat2("No such table: ", table_name))),
    }
}

/// The record a create or update request carries, by table. For the tables
/// whose record layout this crate does not hold, the request body itself.
pub enum TableRecord {
    Lighthouse(LightEcsInfo),
    CloudserverInstance(CloudserverInstanceInfo),
    LogserviceTopic(LogServiceTopicInfo),
    CloudAccount(CloudAccountInfo),
    JobLog(JobLogInfo),
    CronJob(CronJobInfo),
    CloudstorageBucket(BucketInfo),
    AccessTable(AccessInfo),
    GroupTable(JsonMap),
    ServiceTable(ServiceInfo),
    SubsystemTable(SubsystemInfo),
    TokenTable(TokenInfo),
    UserTable(UserInfo),
    WebhookTable(WebhookInfo),
    ChannelConfigs(ChannelConfigInfo),
    NotificationRecords(NotificationRecordInfo),
    NotificationTemplates(NotificationTemplateInfo),
    NotificationGroups(JsonMap),
    NotificationGroupMembers(JsonMap),
}

/// The table a record is for.
pub open spec fn record_table(record: TableRecord) -> Table {
    match record {
        TableRecord::Lighthouse(_) => Table::Lighthouse,
        TableRecord::CloudserverInstance(_) => Table::CloudserverInstance,
        TableRecord::LogserviceTopic(_) => Table::LogserviceTopic,
        TableRecord::CloudAccount(_) => Table::CloudAccount,
        TableRecord::JobLog(_) => Table::JobLog,
        TableRecord::CronJob(_) => Table::CronJob,
        TableRecord::CloudstorageBucket(_) => Table::CloudstorageBucket,
        TableRecord::AccessTable(_) => Table::AccessTable,
        TableRecord::GroupTable(_) => Table::GroupTable,
        TableRecord::ServiceTable(_) => Table::ServiceTable,
        TableRecord::SubsystemTable(_) => Table::SubsystemTable,
        TableRecord::TokenTable(_) => Table::TokenTable,
        TableRecord::UserTable(_) => Table::UserTable,
        TableRecord::WebhookTable(_) => Table::WebhookTable,
        TableRecord::ChannelConfigs(_) => Table::ChannelConfigs,
        TableRecord::NotificationRecords(_) => Table::NotificationRecords,
        TableRecord::NotificationTemplates(_) => Table::NotificationTemplates,
        TableRecord::NotificationGroups(_) => Table::NotificationGroups,
        TableRecord::NotificationGroupMembers(_) => Table::NotificationGroupMembers,
    }
}

/// The table a record is for.
pub fn table_of(record: &TableRecord) -> (r: Table)
    ensures
        r == record_table(*record),
{
    match record {
        TableRecord::Lighthouse(_) => Table::Lighthouse,
        TableRecord::CloudserverInstance(_) => Table::CloudserverInstance,
        TableRecord::LogserviceTopic(_) => Table::LogserviceTopic,
        TableRecord::CloudAccount(_) => Table::CloudAccount,
        TableRecord::JobLog(_) => Table::JobLog,
        TableRecord::CronJob(_) => Table::CronJob,
        TableRecord::CloudstorageBucket(_) => Table::CloudstorageBucket,
        TableRecord::AccessTable(_) => Table::AccessTable,
        TableRecord::GroupTable(_) => Table::GroupTable,
        TableRecord::ServiceTable(_) => Table::ServiceTable,
        TableRecord::SubsystemTable(_) => Table::SubsystemTable,
        TableRecord::TokenTable(_) => Table::TokenTable,
        TableRecord::UserTable(_) => Table::UserTable,
        TableRecord::WebhookTable(_) => Table::WebhookTable,
        TableRecord::ChannelConfigs(_) => Table::ChannelConfigs,
        TableRecord::NotificationRecords(_) => Table::NotificationRecords,
        TableRecord::NotificationTemplates(_) => Table::NotificationTemplates,
        TableRecord::NotificationGroups(_) => Table::NotificationGroups,
        TableRecord::NotificationGroupMembers(_) => Table::NotificationGroupMembers,
    }
}

/// Whether a record is what reading the request body `map` for table `t`
/// gives.
pub open spec fn record_read_from(record: TableRecord, t: Table, map: JsonMap) -> bool {
    match (t, record) {
        (Table::Lighthouse, TableRecord::Lighthouse(info)) => info.read_from(map),
        (Table::CloudserverInstance, TableRecord::CloudserverInstance(info)) => info.read_from(map),
        (Table::LogserviceTopic, TableRecord::LogserviceTopic(info)) => info.read_from(map),
        (Table::CloudAccount, TableRecord::CloudAccount(info)) => info.read_from(map),
        (Table::JobLog, TableRecord::JobLog(info)) => info.read_from(map),
        (Table::CronJob, TableRecord::CronJob(info)) => info.read_from(map),
        (Table::CloudstorageBucket, TableRecord::CloudstorageBucket(info)) => info.read_from(map),
        (Table::AccessTable, TableRecord::AccessTable(info)) => info.read_from(map),
        (Table::GroupTable, TableRecord::GroupTable(m)) => m == map,
        (Table::ServiceTable, TableRecord::ServiceTable(info)) => info.read_from(map),
        (Table::SubsystemTable, TableRecord::SubsystemTable(info)) => info.read_from(map),
        (Table::TokenTable, TableRecord::TokenTable(info)) => info.read_from(map),
        (Table::UserTable, TableRecord::UserTable(info)) => info.read_from(map),
        (Table::WebhookTable, TableRecord::WebhookTable(info)) => info.read_from(map),
        (Table::ChannelConfigs, TableRecord::ChannelConfigs(info)) => info.read_from(map),
        (Table::NotificationRecords, TableRecord::NotificationRecords(info)) => info.read_from(map),
        (Table::NotificationTemplates, TableRecord::NotificationTemplates(info)) => info.read_from(map),
        (Table::NotificationGroups, TableRecord::NotificationGroups(m)) => m == map,
        (Table::NotificationGroupMembers, TableRecord::NotificationGroupMembers(m)) => m == map,
        _ => false,
    }
}

fn read_record(t: Table, map: JsonMap) -> (r: Result<TableRecord, String>)
    ensures
        (r matches Ok(record) && record_read_from(record, t, map)),
{
    match t {
        Table::Lighthouse => match LightEcsInfo::from_map(map) {
            Ok(info) => Ok(TableRecord::Lighthouse(info)),
            Err(e) => Err(e),
        },
        Table::CloudserverInstance => match CloudserverInstanceInfo::from_map(map) {
            Ok(info) => Ok(TableRecord::CloudserverInstance(info)),
            Err(e) => Err(e),
        },
        Table::LogserviceTopic => match LogServiceTopicInfo::from_map(map) {
            Ok(info) => Ok(TableRecord::LogserviceTopic(info)),
            Err(e) => Err(e),
        },
        Table::CloudAccount => match CloudAccountInfo::from_map(map) {
            Ok(info) => Ok(TableRecord::CloudAccount(info)),
            Err(e) => Err(e),
        },
        Table::JobLog => match JobLogInfo::from_map(map) {
            Ok(info) => Ok(TableRecord::JobLog(info)),
            Err(e) => Err(e),
        },
        Table::CronJob => match CronJobInfo::from_map(map) {
            Ok(info) => Ok(TableRecord::CronJob(info)),
            Err(e) => Err(e),
        },
        Table::CloudstorageBucket => match BucketInfo::from_map(map) {
            Ok(info) => Ok(TableRecord::CloudstorageBucket(info)),
            Err(e) => Err(e),
        },
        Table::AccessTable => match AccessInfo::from_map(map) {
            Ok(info) => Ok(TableRecord::AccessTable(info)),
            Err(e) => Err(e),
        },
        Table::GroupTable => Ok(TableRecord::GroupTable(map)),
        Table::ServiceTable => match ServiceInfo::from_map(map) {
            Ok(info) => Ok(TableRecord::ServiceTable(info)),
            Err(e) => Err(e),
        },
        Table::SubsystemTable => match SubsystemInfo::from_map(map) {
            Ok(info) => Ok(TableRecord::SubsystemTable(info)),
            Err(e) => Err(e),
        },
        Table::TokenTable => match TokenInfo::from_map(map) {
            Ok(info) => Ok(TableRecord::TokenTable(info)),
            Err(e) => Err(e),
        },
        Table::UserTable => match UserInfo::from_map(map) {
            Ok(info) => Ok(TableRecord::UserTable(info)),
            Err(e) => Err(e),
        },
        Table::WebhookTable => match WebhookInfo::from_map(map) {
            Ok(info) => Ok(TableRecord::WebhookTable(info)),
            Err(e) => Err(e),
        },
        Table::ChannelConfigs => match ChannelConfigInfo::from_map(map) {
            Ok(info) => Ok(TableRecord::ChannelConfigs(info)),
            Err(e) => Err(e),
        },
        Table::NotificationRecords => match NotificationRecordInfo::from_map(map) {
            Ok(info) => Ok(TableRecord::NotificationRecords(info)),
            Err(e) => Err(e),
        },
        Table::NotificationTemplates => match NotificationTemplateInfo::from_map(map) {
            Ok(info) => Ok(TableRecord::NotificationTemplates(info)),
            Err(e) => Err(e),
        },
        Table::NotificationGroups => Ok(TableRecord::NotificationGroups(map)),
        Table::NotificationGroupMembers => Ok(TableRecord::NotificationGroupMembers(map)),
    }
}

/// Decides a request that carries a record: the payload must be there and
/// be an object, and the name must denote a table this build serves.
fn record_request(
    table_name: &str,
    payload: Option<Result<JsonMap, String>>,
    full_schema: bool,
    missing: &str,
) -> (r: Result<TableRecord, MailManErr>)
    ensures
        match payload {
            None => (r matches Err(e) && is_bad_request(e, missing@)),
            Some(Err(m)) => (r matches Err(e) && is_bad_request(e, m@)),
            Some(Ok(m)) => match served_table(table_name@, full_schema) {
                Some(t) => (r matches Ok(record) && record_read_from(record, t, m) && record_table(record) == t),
                None => (r matches Err(e) && is_bad_request(e, no_such_table(table_name@))),
            },
        },
{
    let map = match payload {
        None => {
            return Err(bad_request(owned(missing)));
        },
        Some(Err(m)) => {
            return Err(bad_request(m));
        },
        Some(Ok(m)) => m,
    };
    match served(table_name, full_schema) {
        Some(t) => match read_record(t, map) {
            Ok(record) => Ok(record),
            Err(e) => Err(MailManErr::new(400, "Bad Request", Some(e), 1)),
        },
        None => Err(bad_request(concat2("No such table: ", table_name))),
    }
}

/// Decides a create request: its `new` payload must be there and be an
/// object, and the name must denote a table this build serves; the record is
/// read from the payload.
pub fn new_table(table_name: &str, new: Option<Result<JsonMap, String>>, full_schema: bool) -> (r: Result<
    TableRecord,
    MailManErr,
>)
    ensures
        match new {
            None => (r matches Err(e) && is_bad_request(e, "Creat operation must have `new` field"@)),
            Some(Err(m)) => (r matches Err(e) && is_bad_request(e, m@)),
            Some(Ok(m)) => match served_table(table_name@, full_schema) {
                Some(t) => (r matches Ok(record) && record_read_from(record, t, m) && record_table(record) == t),
                None => (r matches Err(e) && is_bad_request(e, no_such_table(table_name@))),
            },
        },
{
    record_request(table_name, new, full_schema, "Creat operation must have `new` field")
}

/// Decides an update request: its `update` payload must be there and be an
/// object, and the name must denote a table this build serves; the record is
/// read from the payload.
pub fn update_table(table_name: &str, update: Option<Result<JsonMap, String>>, full_schema: bool) -> (r: Result<
    TableRecord,
    MailManErr,
>)
    ensures
        match update {
            None => (r matches Err(e) && is_bad_request(e, "Update operation must have `update` field"@)),
            Some(Err(m)) => (r matches Err(e) && is_bad_request(e, m@)),
            Some(Ok(m)) => match served_table(table_name@, full_schema) {
                Some(t) => (r matches Ok(record) && record_read_from(record, t, m) && record_table(record) == t),
                None => (r matches Err(e) && is_bad_request(e, no_such_table(table_name@))),
            },
        },
{
    record_request(table_name, update, full_schema, "Update operation must have `update` field")
}

/// The key of the row a delete request names, in the type of the table's key.
pub enum RowKey {
    Int64(i64),
    Int32(i32),
    Text(String),
}

pub enum RowKeyView {
    Int64(i64),
    Int32(i32),
    Text(Seq<char>),
}

impl View for RowKey {
    type V = RowKeyView;

    open spec fn view(&self) -> RowKeyView {
        match self {
            RowKey::Int64(n) => RowKeyView::Int64(*n),
            RowKey::Int32(n) => RowKeyView::Int32(*n),
            RowKey::Text(s) => RowKeyView::Text(s@),
        }
    }
}

/// The key of a table's row with the requested id: the id itself for 64-bit
/// keys, cut to 32 bits for 32-bit keys, its decimal text for text keys.
pub open spec fn row_key(t: Table, id: i64) -> RowKeyView {
    match t {
        Table::Lighthouse => RowKeyView::Int64(id),
        Table::CloudserverInstance => RowKeyView::Int64(id),
        Table::LogserviceTopic => RowKeyView::Int64(id),
        Table::CloudAccount => RowKeyView::Int32(id as i32),
        Table::JobLog => RowKeyView::Text(decimal_text(id as int)),
        Table::CronJob => RowKeyView::Text(decimal_text(id as int)),
        Table::CloudstorageBucket => RowKeyView::Int64(id),
        Table::AccessTable => RowKeyView::Int32(id as i32),
        Table::GroupTable => RowKeyView::Int32(id as i32),
        Table::ServiceTable => RowKeyView::Int32(id as i32),
        Table::SubsystemTable => RowKeyView::Int32(id as i32),
        Table::TokenTable => RowKeyView::Text(decimal_text(id as int)),
        Table::UserTable => RowKeyView::Int32(id as i32),
        Table::WebhookTable => RowKeyView::Int32(id as i32),
        Table::ChannelConfigs => RowKeyView::Int32(id as i32),
        Table::NotificationRecords => RowKeyView::Int32(id as i32),
        Table::NotificationTemplates => RowKeyView::Int32(id as i32),
        Table::NotificationGroups => RowKeyView::Int32(id as i32),
        Table::NotificationGroupMembers => RowKeyView::Int32(id as i32),
    }
}

fn key_of(t: Table, id: i64) -> (r: RowKey)
    ensures
        r@ == row_key(t, id),
{
    match t {
        Table::Lighthouse => RowKey::Int64(id),
        Table::CloudserverInstance => RowKey::Int64(id),
        Table::LogserviceTopic => RowKey::Int64(id),
        Table::CloudAccount => RowKey::Int32(id as i32),
        Table::JobLog => RowKey::Text(i64_to_decimal(id)),
        Table::CronJob => RowKey::Text(i64_to_decimal(id)),
        Table::CloudstorageBucket => RowKey::Int64(id),
        Table::AccessTable => RowKey::Int32(id as i32),
        Table::GroupTable => RowKey::Int32(id as i32),
        Table::ServiceTable => RowKey::Int32(id as i32),
        Table::SubsystemTable => RowKey::Int32(id as i32),
        Table::TokenTable => RowKey::Text(i64_to_decimal(id)),
        Table::UserTable => RowKey::Int32(id as i32),
        Table::WebhookTable => RowKey::Int32(id as i32),
        Table::ChannelConfigs => RowKey::Int32(id as i32),
        Table::NotificationRecords => RowKey::Int32(id as i32),
        Table::NotificationTemplates => RowKey::Int32(id as i32),
        Table::NotificationGroups => RowKey::Int32(id as i32),
        Table::NotificationGroupMembers => RowKey::Int32(id as i32),
    }
}

/// Decides a delete request: its `delete.id` must be there and be an `i64`,
/// and the name must denote a table this build serves; the key is the id in
/// the type of the table's key.
pub fn delete_table(table_name: &str, id: Option<Result<i64, String>>, full_schema: bool) -> (r: Result<
    (Table, RowKey),
    MailManErr,
>)
    ensures
        match id {
            None => (r matches Err(e) && is_bad_request(e, "Delete operation must have `Delete.id` field"@)),
            Some(Err(m)) => (r matches Err(e) && is_bad_request(e, m@)),
            Some(Ok(n)) => match served_table(table_name@, full_schema) {
                Some(t) => (r matches Ok(p) && p.0 == t && p.1@ == row_key(t, n)),
                None => (r matches Err(e) && is_bad_request(e, no_such_table(table_name@))),
            },
        },
{
    let n = match id {
        None => {
            return Err(bad_request(owned("Delete operation must have `Delete.id` field")));
        },
        Some(Err(m)) => {
            return Err(bad_request(m));
        },
        Some(Ok(n)) => n,
    };
    match served(table_name, full_schema) {
        Some(t) => Ok((t, key_of(t, n))),
        None => Err(bad_request(concat2("No such table: ", table_name))),
    }
}

/// The filter rules of the model that serves a table, where this crate holds
/// it.
pub open spec fn model_filter_rules(t: Table) -> Option<FilterRules> {
    match t {
        Table::Lighthouse => Some(LightEcsModel::filter_rules()),
        Table::CloudserverInstance => Some(CloudserverInstanceModel::filter_rules()),
        Table::LogserviceTopic => Some(LogServiceTopicModel::filter_rules()),
        Table::CloudAccount => Some(CloudAccountModel::filter_rules()),
        Table::JobLog => Some(JobLogModel::filter_rules()),
        Table::CronJob => Some(CronJobModel::filter_rules()),
        Table::CloudstorageBucket => Some(BucketModel::filter_rules()),
        Table::AccessTable => Some(AccessModel::filter_rules()),
        Table::GroupTable => None,
        Table::ServiceTable => Some(ServiceModel::filter_rules()),
        Table::SubsystemTable => Some(SubsystemModel::filter_rules()),
        Table::TokenTable => Some(TokenModel::filter_rules()),
        Table::UserTable => Some(UserModel::filter_rules()),
        Table::WebhookTable => Some(WebhookModel::filter_rules()),
        Table::ChannelConfigs => Some(ChannelConfigModel::filter_rules()),
        Table::NotificationRecords => Some(NotificationRecordModel::filter_rules()),
        Table::NotificationTemplates => Some(NotificationTemplateModel::filter_rules()),
        Table::NotificationGroups => None,
        Table::NotificationGroupMembers => None,
    }
}

/// Whether every key that the rules honour is whitelisted as a string key and
/// matched as a string.
pub open spec fn string_rules_within(wl: Seq<(Seq<char>, FilterValueType)>, rules: FilterRules) -> bool {
    forall|k: Seq<char>|
        #[trigger] assoc_lookup(rules, k) is Some ==> assoc_lookup(wl, k) == Some(FilterValueType::Str)
            && assoc_lookup(rules, k).unwrap().1 != MatchKind::ExactI32
}

proof fn lemma_parallel_lists(wl: Seq<(Seq<char>, FilterValueType)>, rules: FilterRules)
    requires
        wl.len() == rules.len(),
        forall|i: int|
            0 <= i < wl.len() ==> (#[trigger] wl[i]).0 == rules[i].0 && wl[i].1 == FilterValueType::Str
                && rules[i].1.1 != MatchKind::ExactI32,
    ensures
        string_rules_within(wl, rules),
    decreases wl.len(),
{
    if wl.len() > 0 {
        let wl2 = wl.drop_first();
        let rules2 = rules.drop_first();
        assert forall|i: int| 0 <= i < wl2.len() implies (#[trigger] wl2[i]).0 == rules2[i].0 && wl2[i].1
            == FilterValueType::Str && rules2[i].1.1 != MatchKind::ExactI32 by {
            assert(wl2[i] == wl[i + 1]);
            assert(rules2[i] == rules[i + 1]);
        }
        lemma_parallel_lists(wl2, rules2);
        assert(wl[0] == wl[0]);
        assert forall|k: Seq<char>| #[trigger] assoc_lookup(rules, k) is Some implies assoc_lookup(wl, k) == Some(
            FilterValueType::Str,
        ) && assoc_lookup(rules, k).unwrap().1 != MatchKind::ExactI32 by {
            if rules[0].0 != k {
                assert(assoc_lookup(rules, k) == assoc_lookup(rules2, k));
                assert(assoc_lookup(wl, k) == assoc_lookup(wl2, k));
            }
        }
    }
}

proof fn lemma_clean_then_plan(
    wl: Seq<(Seq<char>, FilterValueType)>,
    rules: FilterRules,
    entries: Seq<(String, JsonValue)>,
)
    requires
        string_rules_within(wl, rules),
    ensures
        plan_entries(rules, clean_entries(wl, entries)) == plan_entries(rules, entries),
    decreases entries.len(),
{
    if entries.len() > 0 {
        let init = entries.drop_last();
        let last = entries.last();
        lemma_clean_then_plan(wl, rules, init);
        let cleaned_init = clean_entries(wl, init);
        if assoc_lookup(rules, last.0@) is Some {
            assert(assoc_lookup(wl, last.0@) == Some(FilterValueType::Str));
        }
        match clean_member(wl, last) {
            Some(m) => {
                assert(clean_entries(wl, entries) == cleaned_init.push(m));
                assert(cleaned_init.push(m).drop_last() =~= cleaned_init);
                assert(plan_member(rules, m) == plan_member(rules, last));
            },
            None => {
                assert(plan_member(rules, last) is None);
            },
        }
    }
}

/// For every table but `access_table`, cleaning a filter before it reaches
/// the model changes none of the conditions the model puts on the rows:
/// cleaning only strips what the model would ignore anyway.
pub proof fn law_cleaning_keeps_model_plan(t: Table, entries: Seq<(String, JsonValue)>)
    requires
        t != Table::AccessTable,
    ensures
        model_filter_rules(t) matches Some(rules) ==> plan_entries(rules, clean_entries(whitelist(t), entries))
            == plan_entries(rules, entries),
{
    if let Some(rules) = model_filter_rules(t) {
        lemma_parallel_lists(whitelist(t), rules);
        lemma_clean_then_plan(whitelist(t), rules, entries);
    }
}

/// The type a whitelist must give a key that the model matches in this way.
pub open spec fn kind_type(kind: MatchKind) -> FilterValueType {
    match kind {
        MatchKind::ExactI32 => FilterValueType::Int,
        _ => FilterValueType::Str,
    }
}

proof fn lemma_typed_parallel_lists(wl: Seq<(Seq<char>, FilterValueType)>, rules: FilterRules)
    requires
        wl.len() == rules.len(),
        forall|i: int| 0 <= i < wl.len() ==> (#[trigger] wl[i]).0 == rules[i].0 && wl[i].1 == kind_type(rules[i].1.1),
    ensures
        forall|k: Seq<char>|
            #[trigger] assoc_lookup(rules, k) is Some ==> assoc_lookup(wl, k) == Some(
                kind_type(assoc_lookup(rules, k).unwrap().1),
            ),
    decreases wl.len(),
{
    if wl.len() > 0 {
        let wl2 = wl.drop_first();
        let rules2 = rules.drop_first();
        assert forall|i: int| 0 <= i < wl2.len() implies (#[trigger] wl2[i]).0 == rules2[i].0 && wl2[i].1 == kind_type(
            rules2[i].1.1,
        ) by {
            assert(wl2[i] == wl[i + 1]);
            assert(rules2[i] == rules[i + 1]);
        }
        lemma_typed_parallel_lists(wl2, rules2);
        assert(wl[0] == wl[0]);
        assert forall|k: Seq<char>| #[trigger] assoc_lookup(rules, k) is Some implies assoc_lookup(wl, k) == Some(
            kind_type(assoc_lookup(rules, k).unwrap().1),
        ) by {
            if rules[0].0 != k {
                assert(assoc_lookup(rules, k) == assoc_lookup(rules2, k));
                assert(assoc_lookup(wl, k) == assoc_lookup(wl2, k));
            }
        }
    }
}

/// Cleaning never strips a member that the table's model honours: every
/// member under a key of the model, with a value the model reads, passes the
/// whitelist unchanged (for `access_table` too, whose integer members pass as
/// they are).
pub proof fn law_cleaning_keeps_honoured_members(t: Table, member: (String, JsonValue))
    ensures
        model_filter_rules(t) matches Some(rules) && plan_member(rules, member) is Some ==> clean_member(
            whitelist(t),
            member,
        ) == Some(member),
{
    if let Some(rules) = model_filter_rules(t) {
        lemma_typed_parallel_lists(whitelist(t), rules);
        if plan_member(rules, member) is Some {
            let rule = assoc_lookup(rules, member.0@).unwrap();
            assert(assoc_lookup(whitelist(t), member.0@) == Some(kind_type(rule.1)));
        }
    }
}

/// The tables a build serves, by name. Every build serves the CMDB's own
/// tables: `lighthouse`, `cloudserver_instance`, `logservice_topic`, `cloud_account`, `job_log`, `cron_job`, `cloudstorage_bucket`. The tables of the
/// watchman and yell subsystems (`access_table`, `group_table`, `service_table`, `subsystem_table`, `token_table`, `user_table`, `webhook_table`, `channel_configs`, `notification_records`, `notification_templates`, `notification_groups`, `notification_group_members`) are
/// served only in a full-schema build.
pub proof fn law_served_tables(full_schema: bool)
    ensures
        served_table("lighthouse"@, full_schema) == Some(Table::Lighthouse),
        served_table("cloudserver_instance"@, full_schema) == Some(Table::CloudserverInstance),
        served_table("logservice_topic"@, full_schema) == Some(Table::LogserviceTopic),
        served_table("cloud_account"@, full_schema) == Some(Table::CloudAccount),
        served_table("job_log"@, full_schema) == Some(Table::JobLog),
        served_table("cron_job"@, full_schema) == Some(Table::CronJob),
        served_table("cloudstorage_bucket"@, full_schema) == Some(Table::CloudstorageBucket),
        served_table("access_table"@, full_schema) == (if full_schema { Some(Table::AccessTable) } else { None }),
        served_table("group_table"@, full_schema) == (if full_schema { Some(Table::GroupTable) } else { None }),
        served_table("service_table"@, full_schema) == (if full_schema { Some(Table::ServiceTable) } else { None }),
        served_table("subsystem_table"@, full_schema) == (if full_schema { Some(Table::SubsystemTable) } else { None }),
        served_table("token_table"@, full_schema) == (if full_schema { Some(Table::TokenTable) } else { None }),
        served_table("user_table"@, full_schema) == (if full_schema { Some(Table::UserTable) } else { None }),
        served_table("webhook_table"@, full_schema) == (if full_schema { Some(Table::WebhookTable) } else { None }),
        served_table("channel_configs"@, full_schema) == (if full_schema { Some(Table::ChannelConfigs) } else { None }),
        served_table("notification_records"@, full_schema) == (if full_schema { Some(Table::NotificationRecords) } else { None }),
        served_table("notification_templates"@, full_schema) == (if full_schema { Some(Table::NotificationTemplates) } else { None }),
        served_table("notification_groups"@, full_schema) == (if full_schema { Some(Table::NotificationGroups) } else { None }),
        served_table("notification_group_members"@, full_schema) == (if full_schema { Some(Table::NotificationGroupMembers) } else { None }),
{
    reveal_strlit("lighthouse");
    reveal_strlit("cloudserver_instance");
    reveal_strlit("logservice_topic");
    reveal_strlit("cloud_account");
    reveal_strlit("job_log");
    reveal_strlit("cron_job");
    reveal_strlit("cloudstorage_bucket");
    reveal_strlit("access_table");
    reveal_strlit("group_table");
    reveal_strlit("service_table");
    reveal_strlit("subsystem_table");
    reveal_strlit("token_table");
    reveal_strlit("user_table");
    reveal_strlit("webhook_table");
    reveal_strlit("channel_configs");
    reveal_strlit("notification_records");
    reveal_strlit("notification_templates");
    reveal_strlit("notification_groups");
    reveal_strlit("notification_group_members");
    let catalog = table_catalog();
    {
        lemma_assoc_at(catalog, "lighthouse"@, 0);
    }
    {
        assert("lighthouse"@.len() != "cloudserver_instance"@.len());
        assert forall|j: int| 0 <= j < 1 implies (#[trigger] catalog[j]).0 != "cloudserver_instance"@ by {
            if j == 0 {
            }
        }
        lemma_assoc_at(catalog, "cloudserver_instance"@, 1);
    }
    {
        assert("lighthouse"@.len() != "logservice_topic"@.len());
        assert("cloudserver_instance"@.len() != "logservice_topic"@.len());
        assert forall|j: int| 0 <= j < 2 implies (#[trigger] catalog[j]).0 != "logservice_topic"@ by {
            if j == 0 {
            } else if j == 1 {
            }
        }
        lemma_assoc_at(catalog, "logservice_topic"@, 2);
    }
    {
        assert("lighthouse"@.len() != "cloud_account"@.len());
        assert("cloudserver_instance"@.len() != "cloud_account"@.len());
        assert("logservice_topic"@.len() != "cloud_account"@.len());
        assert forall|j: int| 0 <= j < 3 implies (#[trigger] catalog[j]).0 != "cloud_account"@ by {
            if j == 0 {
            } else if j == 1 {
            } else if j == 2 {
            }
        }
        lemma_assoc_at(catalog, "cloud_account"@, 3);
    }
    {
        assert("lighthouse"@.len() != "job_log"@.len());
        assert("cloudserver_instance"@.len() != "job_log"@.len());
        assert("logservice_topic"@.len() != "job_log"@.len());
        assert("cloud_account"@.len() != "job_log"@.len());
        assert forall|j: int| 0 <= j < 4 implies (#[trigger] catalog[j]).0 != "job_log"@ by {
            if j == 0 {
            } else if j == 1 {
            } else if j == 2 {
            } else if j == 3 {
            }
        }
        lemma_assoc_at(catalog, "job_log"@, 4);
    }
    {
        assert("lighthouse"@.len() != "cron_job"@.len());
        assert("cloudserver_instance"@.len() != "cron_job"@.len());
        assert("logservice_topic"@.len() != "cron_job"@.len());
        assert("cloud_account"@.len() != "cron_job"@.len());
        assert("job_log"@.len() != "cron_job"@.len());
        assert forall|j: int| 0 <= j < 5 implies (#[trigger] catalog[j]).0 != "cron_job"@ by {
            if j == 0 {
            } else if j == 1 {
            } else if j == 2 {
            } else if j == 3 {
            } else if j == 4 {
            }
        }
        lemma_assoc_at(catalog, "cron_job"@, 5);
    }
    {
        assert("lighthouse"@.len() != "cloudstorage_bucket"@.len());
        assert("cloudserver_instance"@.len() != "cloudstorage_bucket"@.len());
        assert("logservice_topic"@.len() != "cloudstorage_bucket"@.len());
        assert("cloud_account"@.len() != "cloudstorage_bucket"@.len());
        assert("job_log"@.len() != "cloudstorage_bucket"@.len());
        assert("cron_job"@.len() != "cloudstorage_bucket"@.len());
        assert forall|j: int| 0 <= j < 6 implies (#[trigger] catalog[j]).0 != "cloudstorage_bucket"@ by {
            if j == 0 {
            } else if j == 1 {
            } else if j == 2 {
            } else if j == 3 {
            } else if j == 4 {
            } else if j == 5 {
            }
        }
        lemma_assoc_at(catalog, "cloudstorage_bucket"@, 6);
    }
    {
        assert("lighthouse"@.len() != "access_table"@.len());
        assert("cloudserver_instance"@.len() != "access_table"@.len());
        assert("logservice_topic"@.len() != "access_table"@.len());
        assert("cloud_account"@.len() != "access_table"@.len());
        assert("job_log"@.len() != "access_table"@.len());
        assert("cron_job"@.len() != "access_table"@.len());
        assert("cloudstorage_bucket"@.len() != "access_table"@.len());
        assert forall|j: int| 0 <= j < 7 implies (#[trigger] catalog[j]).0 != "access_table"@ by {
            if j == 0 {
            } else if j == 1 {
            } else if j == 2 {
            } else if j == 3 {
            } else if j == 4 {
            } else if j == 5 {
            } else if j == 6 {
            }
        }
        lemma_assoc_at(catalog, "access_table"@, 7);
    }
    {
        assert("lighthouse"@.len() != "group_table"@.len());
        assert("cloudserver_instance"@.len() != "group_table"@.len());
        assert("logservice_topic"@.len() != "group_table"@.len());
        assert("cloud_account"@.len() != "group_table"@.len());
        assert("job_log"@.len() != "group_table"@.len());
        assert("cron_job"@.len() != "group_table"@.len());
        assert("cloudstorage_bucket"@.len() != "group_table"@.len());
        assert("access_table"@.len() != "group_table"@.len());
        assert forall|j: int| 0 <= j < 8 implies (#[trigger] catalog[j]).0 != "group_table"@ by {
            if j == 0 {
            } else if j == 1 {
            } else if j == 2 {
            } else if j == 3 {
            } else if j == 4 {
            } else if j == 5 {
            } else if j == 6 {
            } else if j == 7 {
            }
        }
        lemma_assoc_at(catalog, "group_table"@, 8);
    }
    {
        assert("lighthouse"@.len() != "service_table"@.len());
        assert("cloudserver_instance"@.len() != "service_table"@.len());
        assert("logservice_topic"@.len() != "service_table"@.len());
        assert("cloud_account"@[0] != "service_table"@[0]);
        assert("job_log"@.len() != "service_table"@.len());
        assert("cron_job"@.len() != "service_table"@.len());
        assert("cloudstorage_bucket"@.len() != "service_table"@.len());
        assert("access_table"@.len() != "service_table"@.len());
        assert("group_table"@.len() != "service_table"@.len());
        assert forall|j: int| 0 <= j < 9 implies (#[trigger] catalog[j]).0 != "service_table"@ by {
            if j == 0 {
            } else if j == 1 {
            } else if j == 2 {
            } else if j == 3 {
            } else if j == 4 {
            } else if j == 5 {
            } else if j == 6 {
            } else if j == 7 {
            } else if j == 8 {
            }
        }
        lemma_assoc_at(catalog, "service_table"@, 9);
    }
    {
        assert("lighthouse"@.len() != "subsystem_table"@.len());
        assert("cloudserver_instance"@.len() != "subsystem_table"@.len());
        assert("logservice_topic"@.len() != "subsystem_table"@.len());
        assert("cloud_account"@.len() != "subsystem_table"@.len());
        assert("job_log"@.len() != "subsystem_table"@.len());
        assert("cron_job"@.len() != "subsystem_table"@.len());
        assert("cloudstorage_bucket"@.len() != "subsystem_table"@.len());
        assert("access_table"@.len() != "subsystem_table"@.len());
        assert("group_table"@.len() != "subsystem_table"@.len());
        assert("service_table"@.len() != "subsystem_table"@.len());
        assert forall|j: int| 0 <= j < 10 implies (#[trigger] catalog[j]).0 != "subsystem_table"@ by {
            if j == 0 {
            } else if j == 1 {
            } else if j == 2 {
            } else if j == 3 {
            } else if j == 4 {
            } else if j == 5 {
            } else if j == 6 {
            } else if j == 7 {
            } else if j == 8 {
            } else if j == 9 {
            }
        }
        lemma_assoc_at(catalog, "subsystem_table"@, 10);
    }
    {
        assert("lighthouse"@.len() != "token_table"@.len());
        assert("cloudserver_instance"@.len() != "token_table"@.len());
        assert("logservice_topic"@.len() != "token_table"@.len());
        assert("cloud_account"@.len() != "token_table"@.len());
        assert("job_log"@.len() != "token_table"@.len());
        assert("cron_job"@.len() != "token_table"@.len());
        assert("cloudstorage_bucket"@.len() != "token_table"@.len());
        assert("access_table"@.len() != "token_table"@.len());
        assert("group_table"@[0] != "token_table"@[0]);
        assert("service_table"@.len() != "token_table"@.len());
        assert("subsystem_table"@.len() != "token_table"@.len());
        assert forall|j: int| 0 <= j < 11 implies (#[trigger] catalog[j]).0 != "token_table"@ by {
            if j == 0 {
            } else if j == 1 {
            } else if j == 2 {
            } else if j == 3 {
            } else if j == 4 {
            } else if j == 5 {
            } else if j == 6 {
            } else if j == 7 {
            } else if j == 8 {
            } else if j == 9 {
            } else if j == 10 {
            }
        }
        lemma_assoc_at(catalog, "token_table"@, 11);
    }
    {
        assert("lighthouse"@[0] != "user_table"@[0]);
        assert("cloudserver_instance"@.len() != "user_table"@.len());
        assert("logservice_topic"@.len() != "user_table"@.len());
        assert("cloud_account"@.len() != "user_table"@.len());
        assert("job_log"@.len() != "user_table"@.len());
        assert("cron_job"@.len() != "user_table"@.len());
        assert("cloudstorage_bucket"@.len() != "user_table"@.len());
        assert("access_table"@.len() != "user_table"@.len());
        assert("group_table"@.len() != "user_table"@.len());
        assert("service_table"@.len() != "user_table"@.len());
        assert("subsystem_table"@.len() != "user_table"@.len());
        assert("token_table"@.len() != "user_table"@.len());
        assert forall|j: int| 0 <= j < 12 implies (#[trigger] catalog[j]).0 != "user_table"@ by {
            if j == 0 {
            } else if j == 1 {
            } else if j == 2 {
            } else if j == 3 {
            } else if j == 4 {
            } else if j == 5 {
            } else if j == 6 {
            } else if j == 7 {
            } else if j == 8 {
            } else if j == 9 {
            } else if j == 10 {
            } else if j == 11 {
            }
        }
        lemma_assoc_at(catalog, "user_table"@, 12);
    }
    {
        assert("lighthouse"@.len() != "webhook_table"@.len());
        assert("cloudserver_instance"@.len() != "webhook_table"@.len());
        assert("logservice_topic"@.len() != "webhook_table"@.len());
        assert("cloud_account"@[0] != "webhook_table"@[0]);
        assert("job_log"@.len() != "webhook_table"@.len());
        assert("cron_job"@.len() != "webhook_table"@.len());
        assert("cloudstorage_bucket"@.len() != "webhook_table"@.len());
        assert("access_table"@.len() != "webhook_table"@.len());
        assert("group_table"@.len() != "webhook_table"@.len());
        assert("service_table"@[0] != "webhook_table"@[0]);
        assert("subsystem_table"@.len() != "webhook_table"@.len());
        assert("token_table"@.len() != "webhook_table"@.len());
        assert("user_table"@.len() != "webhook_table"@.len());
        assert forall|j: int| 0 <= j < 13 implies (#[trigger] catalog[j]).0 != "webhook_table"@ by {
            if j == 0 {
            } else if j == 1 {
            } else if j == 2 {
            } else if j == 3 {
            } else if j == 4 {
            } else if j == 5 {
            } else if j == 6 {
            } else if j == 7 {
            } else if j == 8 {
            } else if j == 9 {
            } else if j == 10 {
            } else if j == 11 {
            } else if j == 12 {
            }
        }
        lemma_assoc_at(catalog, "webhook_table"@, 13);
    }
    {
        assert("lighthouse"@.len() != "channel_configs"@.len());
        assert("cloudserver_instance"@.len() != "channel_configs"@.len());
        assert("logservice_topic"@.len() != "channel_configs"@.len());
        assert("cloud_account"@.len() != "channel_configs"@.len());
        assert("job_log"@.len() != "channel_configs"@.len());
        assert("cron_job"@.len() != "channel_configs"@.len());
        assert("cloudstorage_bucket"@.len() != "channel_configs"@.len());
        assert("access_table"@.len() != "channel_configs"@.len());
        assert("group_table"@.len() != "channel_configs"@.len());
        assert("service_table"@.len() != "channel_configs"@.len());
        assert("subsystem_table"@[0] != "channel_configs"@[0]);
        assert("token_table"@.len() != "channel_configs"@.len());
        assert("user_table"@.len() != "channel_configs"@.len());
        assert("webhook_table"@.len() != "channel_configs"@.len());
        assert forall|j: int| 0 <= j < 14 implies (#[trigger] catalog[j]).0 != "channel_configs"@ by {
            if j == 0 {
            } else if j == 1 {
            } else if j == 2 {
            } else if j == 3 {
            } else if j == 4 {
            } else if j == 5 {
            } else if j == 6 {
            } else if j == 7 {
            } else if j == 8 {
            } else if j == 9 {
            } else if j == 10 {
            } else if j == 11 {
            } else if j == 12 {
            } else if j == 13 {
            }
        }
        lemma_assoc_at(catalog, "channel_configs"@, 14);
    }
    {
        assert("lighthouse"@.len() != "notification_records"@.len());
        assert("cloudserver_instance"@[0] != "notification_records"@[0]);
        assert("logservice_topic"@.len() != "notification_records"@.len());
        assert("cloud_account"@.len() != "notification_records"@.len());
        assert("job_log"@.len() != "notification_records"@.len());
        assert("cron_job"@.len() != "notification_records"@.len());
        assert("cloudstorage_bucket"@.len() != "notification_records"@.len());
        assert("access_table"@.len() != "notification_records"@.len());
        assert("group_table"@.len() != "notification_records"@.len());
        assert("service_table"@.len() != "notification_records"@.len());
        assert("subsystem_table"@.len() != "notification_records"@.len());
        assert("token_table"@.len() != "notification_records"@.len());
        assert("user_table"@.len() != "notification_records"@.len());
        assert("webhook_table"@.len() != "notification_records"@.len());
        assert("channel_configs"@.len() != "notification_records"@.len());
        assert forall|j: int| 0 <= j < 15 implies (#[trigger] catalog[j]).0 != "notification_records"@ by {
            if j == 0 {
            } else if j == 1 {
            } else if j == 2 {
            } else if j == 3 {
            } else if j == 4 {
            } else if j == 5 {
            } else if j == 6 {
            } else if j == 7 {
            } else if j == 8 {
            } else if j == 9 {
            } else if j == 10 {
            } else if j == 11 {
            } else if j == 12 {
            } else if j == 13 {
            } else if j == 14 {
            }
        }
        lemma_assoc_at(catalog, "notification_records"@, 15);
    }
    {
        assert("lighthouse"@.len() != "notification_templates"@.len());
        assert("cloudserver_instance"@.len() != "notification_templates"@.len());
        assert("logservice_topic"@.len() != "notification_templates"@.len());
        assert("cloud_account"@.len() != "notification_templates"@.len());
        assert("job_log"@.len() != "notification_templates"@.len());
        assert("cron_job"@.len() != "notification_templates"@.len());
        assert("cloudstorage_bucket"@.len() != "notification_templates"@.len());
        assert("access_table"@.len() != "notification_templates"@.len());
        assert("group_table"@.len() != "notification_templates"@.len());
        assert("service_table"@.len() != "notification_templates"@.len());
        assert("subsystem_table"@.len() != "notification_templates"@.len());
        assert("token_table"@.len() != "notification_templates"@.len());
        assert("user_table"@.len() != "notification_templates"@.len());
        assert("webhook_table"@.len() != "notification_templates"@.len());
        assert("channel_configs"@.len() != "notification_templates"@.len());
        assert("notification_records"@.len() != "notification_templates"@.len());
        assert forall|j: int| 0 <= j < 16 implies (#[trigger] catalog[j]).0 != "notification_templates"@ by {
            if j == 0 {
            } else if j == 1 {
            } else if j == 2 {
            } else if j == 3 {
            } else if j == 4 {
            } else if j == 5 {
            } else if j == 6 {
            } else if j == 7 {
            } else if j == 8 {
            } else if j == 9 {
            } else if j == 10 {
            } else if j == 11 {
            } else if j == 12 {
            } else if j == 13 {
            } else if j == 14 {
            } else if j == 15 {
            }
        }
        lemma_assoc_at(catalog, "notification_templates"@, 16);
    }
    {
        assert("lighthouse"@.len() != "notification_groups"@.len());
        assert("cloudserver_instance"@.len() != "notification_groups"@.len());
        assert("logservice_topic"@.len() != "notification_groups"@.len());
        assert("cloud_account"@.len() != "notification_groups"@.len());
        assert("job_log"@.len() != "notification_groups"@.len());
        assert("cron_job"@.len() != "notification_groups"@.len());
        assert("cloudstorage_bucket"@[0] != "notification_groups"@[0]);
        assert("access_table"@.len() != "notification_groups"@.len());
        assert("group_table"@.len() != "notification_groups"@.len());
        assert("service_table"@.len() != "notification_groups"@.len());
        assert("subsystem_table"@.len() != "notification_groups"@.len());
        assert("token_table"@.len() != "notification_groups"@.len());
        assert("user_table"@.len() != "notification_groups"@.len());
        assert("webhook_table"@.len() != "notification_groups"@.len());
        assert("channel_configs"@.len() != "notification_groups"@.len());
        assert("notification_records"@.len() != "notification_groups"@.len());
        assert("notification_templates"@.len() != "notification_groups"@.len());
        assert forall|j: int| 0 <= j < 17 implies (#[trigger] catalog[j]).0 != "notification_groups"@ by {
            if j == 0 {
            } else if j == 1 {
            } else if j == 2 {
            } else if j == 3 {
            } else if j == 4 {
            } else if j == 5 {
            } else if j == 6 {
            } else if j == 7 {
            } else if j == 8 {
            } else if j == 9 {
            } else if j == 10 {
            } else if j == 11 {
            } else if j == 12 {
            } else if j == 13 {
            } else if j == 14 {
            } else if j == 15 {
            } else if j == 16 {
            }
        }
        lemma_assoc_at(catalog, "notification_groups"@, 17);
    }
    {
        assert("lighthouse"@.len() != "notification_group_members"@.len());
        assert("cloudserver_instance"@.len() != "notification_group_members"@.len());
        assert("logservice_topic"@.len() != "notification_group_members"@.len());
        assert("cloud_account"@.len() != "notification_group_members"@.len());
        assert("job_log"@.len() != "notification_group_members"@.len());
        assert("cron_job"@.len() != "notification_group_members"@.len());
        assert("cloudstorage_bucket"@.len() != "notification_group_members"@.len());
        assert("access_table"@.len() != "notification_group_members"@.len());
        assert("group_table"@.len() != "notification_group_members"@.len());
        assert("service_table"@.len() != "notification_group_members"@.len());
        assert("subsystem_table"@.len() != "notification_group_members"@.len());
        assert("token_table"@.len() != "notification_group_members"@.len());
        assert("user_table"@.len() != "notification_group_members"@.len());
        assert("webhook_table"@.len() != "notification_group_members"@.len());
        assert("channel_configs"@.len() != "notification_group_members"@.len());
        assert("notification_records"@.len() != "notification_group_members"@.len());
        assert("notification_templates"@.len() != "notification_group_members"@.len());
        assert("notification_groups"@.len() != "notification_group_members"@.len());
        assert forall|j: int| 0 <= j < 18 implies (#[trigger] catalog[j]).0 != "notification_group_members"@ by {
            if j == 0 {
            } else if j == 1 {
            } else if j == 2 {
            } else if j == 3 {
            } else if j == 4 {
            } else if j == 5 {
            } else if j == 6 {
            } else if j == 7 {
            } else if j == 8 {
            } else if j == 9 {
            } else if j == 10 {
            } else if j == 11 {
            } else if j == 12 {
            } else if j == 13 {
            } else if j == 14 {
            } else if j == 15 {
            } else if j == 16 {
            } else if j == 17 {
            }
        }
        lemma_assoc_at(catalog, "notification_group_members"@, 18);
    }
}

/// The filters of the tables whose model this project does not hold keep:
/// for `group_table` a text `group_name`; for `notification_groups` a text
/// `name`; for `notification_group_members` a text `channel_type` and an
/// integer `group_id`, a text that parses as an `i64` becoming that number.
pub proof fn law_unmodelled_whitelists(key: String, value: JsonValue)
    ensures
        key@ == "group_name"@ && value is Str ==> clean_member(whitelist(Table::GroupTable), (key, value)) == Some(
            (key, value),
        ),
        key@ == "name"@ && value is Str ==> clean_member(whitelist(Table::NotificationGroups), (key, value)) == Some(
            (key, value),
        ),
        key@ == "channel_type"@ && value is Str ==> clean_member(whitelist(Table::NotificationGroupMembers), (key, value))
            == Some((key, value)),
        key@ == "group_id"@ ==> clean_member(whitelist(Table::NotificationGroupMembers), (key, value)) == match value {
            JsonValue::Number(n) => if n.spec_as_i64() is Some {
                Some((key, value))
            } else {
                None
            },
            JsonValue::Str(t) => match spec_parse_i64(t@) {
                Some(k) => Some((key, JsonValue::Number(JsonNumber::spec_from_i64(k)))),
                None => None,
            },
            _ => None,
        },
{
    reveal_strlit("group_id");
    reveal_strlit("channel_type");
    assert("group_id"@.len() != "channel_type"@.len());
    if key@ == "group_name"@ {
        lemma_assoc_at(whitelist(Table::GroupTable), key@, 0);
    }
    if key@ == "name"@ {
        lemma_assoc_at(whitelist(Table::NotificationGroups), key@, 0);
    }
    if key@ == "group_id"@ {
        lemma_assoc_at(whitelist(Table::NotificationGroupMembers), key@, 0);
    }
    if key@ == "channel_type"@ {
        let wl = whitelist(Table::NotificationGroupMembers);
        assert(wl[0].0 != key@);
        lemma_assoc_at(wl, key@, 1);
    }
}

/// A delete request names its row by an integer id, handed to the table in
/// the type of its key column: as it is for the 64-bit keys of lighthouse,
/// cloudserver instances, logservice topics and buckets; as its decimal text
/// for the text keys of job logs, cron jobs and tokens; cut to 32 bits for
/// every other table.
pub proof fn law_delete_keys(id: i64)
    ensures
        row_key(Table::Lighthouse, id) == RowKeyView::Int64(id),
        row_key(Table::CloudserverInstance, id) == RowKeyView::Int64(id),
        row_key(Table::LogserviceTopic, id) == RowKeyView::Int64(id),
        row_key(Table::CloudstorageBucket, id) == RowKeyView::Int64(id),
        row_key(Table::JobLog, id) == RowKeyView::Text(decimal_text(id as int)),
        row_key(Table::CronJob, id) == RowKeyView::Text(decimal_text(id as int)),
        row_key(Table::TokenTable, id) == RowKeyView::Text(decimal_text(id as int)),
        row_key(Table::CloudAccount, id) == RowKeyView::Int32(id as i32),
        row_key(Table::AccessTable, id) == RowKeyView::Int32(id as i32),
        row_key(Table::GroupTable, id) == RowKeyView::Int32(id as i32),
        row_key(Table::ServiceTable, id) == RowKeyView::Int32(id as i32),
        row_key(Table::SubsystemTable, id) == RowKeyView::Int32(id as i32),
        row_key(Table::UserTable, id) == RowKeyView::Int32(id as i32),
        row_key(Table::WebhookTable, id) == RowKeyView::Int32(id as i32),
        row_key(Table::ChannelConfigs, id) == RowKeyView::Int32(id as i32),
        row_key(Table::NotificationRecords, id) == RowKeyView::Int32(id as i32),
        row_key(Table::NotificationTemplates, id) == RowKeyView::Int32(id as i32),
        row_key(Table::NotificationGroups, id) == RowKeyView::Int32(id as i32),
        row_key(Table::NotificationGroupMembers, id) == RowKeyView::Int32(id as i32),
{
}

} // verus!
