//! What a table request is answered after its store call: the plan a
//! table's model puts on a query, what the model makes of the store's result,
//! and which service answers it, with its keys.
//!
//! The services of some tables are not part of this project's sources; their
//! answers follow the pattern of the others, under keys named after the table.
use vstd::prelude::*;
use vstd::string::*;
use crate::cmdb::api::table_manage::{model_filter_rules, record_table, RowKey, RowKeyView, TableRecord};
use crate::json::{opt_text, JsonMap, JsonValue};
use crate::mailman::{
    answer_count, answer_rows, is_count_text, is_rows_answer, not_found, not_found_message, outcome_view, row_outcome,
    rows_outcome, spec_row_outcome, spec_rows_outcome, spec_store_outcome, status_of, store_outcome, AnswerKeys,
    FailureRule, MailManErr, MailManOk, ModelError,
};
use crate::query::{filters_view, plan_entries, ColumnFilter};
use crate::table::Table;
use crate::text::{decimal_text, i64_to_decimal};
use crate::cmdb::service::km::cron_job_service;
use crate::cmdb::service::watchman::group_service;
use crate::cmdb::service::yell::{channel_config_service, notification_record_service, notification_template_service};
use crate::cmdb::model::lighthouse::instance::LightEcsModel;
use crate::cmdb::model::cloudserver::instance::CloudserverInstanceModel;
use crate::cmdb::model::logservice::topic::LogServiceTopicModel;
use crate::cmdb::model::km::cloud_account::CloudAccountModel;
use crate::cmdb::model::km::job_log::JobLogModel;
use crate::cmdb::model::km::cron_job::CronJobModel;
use crate::cmdb::model::cloudstorage::bucket::BucketModel;
use crate::cmdb::model::watchman::access::AccessModel;
use crate::cmdb::model::watchman::service::ServiceModel;
use crate::cmdb::model::watchman::subsystem::SubsystemModel;
use crate::cmdb::model::watchman::token::TokenModel;
use crate::cmdb::model::watchman::user::UserModel;
use crate::cmdb::model::watchman::webhook::WebhookModel;
use crate::cmdb::model::yell::channel_config::ChannelConfigModel;
use crate::cmdb::model::yell::notification_record::NotificationRecordModel;
use crate::cmdb::model::yell::notification_template::NotificationTemplateModel;

verus! {

/// The operations that write a table.
#[derive(Clone, Copy, PartialEq, Eq, Structural, Debug)]
pub enum Write {
    Create,
    Update,
    Delete,
}

/// What a write answer says before the count of rows.
pub open spec fn write_prefix(op: Write) -> Seq<char> {
    match op {
        Write::Create => "New line: "@,
        Write::Update => "Update line: "@,
        Write::Delete => "Delete line: "@,
    }
}

fn write_prefix_of(op: Write) -> (r: &'static str)
    ensures
        r@ == write_prefix(op),
{
    match op {
        Write::Create => "New line: ",
        Write::Update => "Update line: ",
        Write::Delete => "Delete line: ",
    }
}

/// The key of a table's listing answers.
pub open spec fn listing_key(t: Table) -> &'static str {
    match t {
        Table::Lighthouse => "Service: All lighthouse",
        Table::CloudserverInstance => "Service: All cloudserver instance",
        Table::LogserviceTopic => "Service: All logservice topic",
        Table::CloudAccount => "Service: All cloud account",
        Table::JobLog => "Service: All job log",
        Table::CronJob => "Service: All cron job",
        Table::CloudstorageBucket => "Service: All bucket",
        Table::AccessTable => "Service: All access",
        Table::GroupTable => "Service: All group",
        Table::ServiceTable => "Service: All service",
        Table::SubsystemTable => "Service: All subsystem",
        Table::TokenTable => "Service: All token",
        Table::UserTable => "Service: All user",
        Table::WebhookTable => "Service: All webhook",
        Table::ChannelConfigs => "Service: All channel_config",
        Table::NotificationRecords => "Service: All notification_record",
        Table::NotificationTemplates => "Service: All notification_template",
        Table::NotificationGroups => "Service: All notification group",
        Table::NotificationGroupMembers => "Service: All notification group member",
    }
}

fn listing_key_of(t: Table) -> (r: &'static str)
    ensures
        r == listing_key(t),
{
    match t {
        Table::Lighthouse => "Service: All lighthouse",
        Table::CloudserverInstance => "Service: All cloudserver instance",
        Table::LogserviceTopic => "Service: All logservice topic",
        Table::CloudAccount => "Service: All cloud account",
        Table::JobLog => "Service: All job log",
        Table::CronJob => "Service: All cron job",
        Table::CloudstorageBucket => "Service: All bucket",
        Table::AccessTable => "Service: All access",
        Table::GroupTable => "Service: All group",
        Table::ServiceTable => "Service: All service",
        Table::SubsystemTable => "Service: All subsystem",
        Table::TokenTable => "Service: All token",
        Table::UserTable => "Service: All user",
        Table::WebhookTable => "Service: All webhook",
        Table::ChannelConfigs => "Service: All channel_config",
        Table::NotificationRecords => "Service: All notification_record",
        Table::NotificationTemplates => "Service: All notification_template",
        Table::NotificationGroups => "Service: All notification group",
        Table::NotificationGroupMembers => "Service: All notification group member",
    }
}

/// The key of a table's answers to a write.
pub open spec fn write_key(t: Table, op: Write) -> &'static str {
    match (t, op) {
        (Table::Lighthouse, Write::Create) => "Service: Create lighthouse",
        (Table::Lighthouse, Write::Update) => "Service: Update lighthouse",
        (Table::Lighthouse, Write::Delete) => "Service: Delete lighthouse",
        (Table::CloudserverInstance, Write::Create) => "Service: Create cloudserver instance",
        (Table::CloudserverInstance, Write::Update) => "Service: Update cloudserver instance",
        (Table::CloudserverInstance, Write::Delete) => "Service: Delete cloudserver instance",
        (Table::LogserviceTopic, Write::Create) => "Service: Create logservice topic",
        (Table::LogserviceTopic, Write::Update) => "Service: Update logservice topic",
        (Table::LogserviceTopic, Write::Delete) => "Service: Delete logservice topic",
        (Table::CloudAccount, Write::Create) => "Service: Create cloud account",
        (Table::CloudAccount, Write::Update) => "Service: Update cloud account",
        (Table::CloudAccount, Write::Delete) => "Service: Delete cloud account",
        (Table::JobLog, Write::Create) => "Service: Create job log",
        (Table::JobLog, Write::Update) => "Service: Update job log",
        (Table::JobLog, Write::Delete) => "Service: Delete job log",
        (Table::CronJob, Write::Create) => "Service: Create cron job",
        (Table::CronJob, Write::Update) => "Service: Update cron job",
        (Table::CronJob, Write::Delete) => "Service: Delete cron job",
        (Table::CloudstorageBucket, Write::Create) => "Service: Create bucket",
        (Table::CloudstorageBucket, Write::Update) => "Service: Update bucket",
        (Table::CloudstorageBucket, Write::Delete) => "Service: Delete bucket",
        (Table::AccessTable, Write::Create) => "Service: Create access",
        (Table::AccessTable, Write::Update) => "Service: Update access",
        (Table::AccessTable, Write::Delete) => "Service: Delete access",
        (Table::GroupTable, Write::Create) => "Service: Create group",
        (Table::GroupTable, Write::Update) => "Service: Update group",
        (Table::GroupTable, Write::Delete) => "Service: Delete group",
        (Table::ServiceTable, Write::Create) => "Service: Create service",
        (Table::ServiceTable, Write::Update) => "Service: Update service",
        (Table::ServiceTable, Write::Delete) => "Service: Delete service",
        (Table::SubsystemTable, Write::Create) => "Service: Create subsystem",
        (Table::SubsystemTable, Write::Update) => "Service: Update subsystem",
        (Table::SubsystemTable, Write::Delete) => "Service: Delete subsystem",
        (Table::TokenTable, Write::Create) => "Service: Create token",
        (Table::TokenTable, Write::Update) => "Service: Update token",
        (Table::TokenTable, Write::Delete) => "Service: Delete token",
        (Table::UserTable, Write::Create) => "Service: Create user",
        (Table::UserTable, Write::Update) => "Service: Update user",
        (Table::UserTable, Write::Delete) => "Service: Delete user",
        (Table::WebhookTable, Write::Create) => "Service: Create webhook",
        (Table::WebhookTable, Write::Update) => "Service: Update webhook",
        (Table::WebhookTable, Write::Delete) => "Service: Delete webhook",
        (Table::ChannelConfigs, Write::Create) => "Service: Create channel_config",
        (Table::ChannelConfigs, Write::Update) => "Service: Update channel_config",
        (Table::ChannelConfigs, Write::Delete) => "Service: Delete channel_config",
        (Table::NotificationRecords, Write::Create) => "Service: Create notification_record",
        (Table::NotificationRecords, Write::Update) => "Service: Update notification_record",
        (Table::NotificationRecords, Write::Delete) => "Service: Delete notification_record",
        (Table::NotificationTemplates, Write::Create) => "Service: Create notification_template",
        (Table::NotificationTemplates, Write::Update) => "Service: Update notification_template",
        (Table::NotificationTemplates, Write::Delete) => "Service: Delete notification_template",
        (Table::NotificationGroups, Write::Create) => "Service: Create notification group",
        (Table::NotificationGroups, Write::Update) => "Service: Update notification group",
        (Table::NotificationGroups, Write::Delete) => "Service: Delete notification group",
        (Table::NotificationGroupMembers, Write::Create) => "Service: Create notification group member",
        (Table::NotificationGroupMembers, Write::Update) => "Service: Update notification group member",
        (Table::NotificationGroupMembers, Write::Delete) => "Service: Delete notification group member",
    }
}

fn write_key_of(t: Table, op: Write) -> (r: &'static str)
    ensures
        r == write_key(t, op),
{
    match (t, op) {
        (Table::Lighthouse, Write::Create) => "Service: Create lighthouse",
        (Table::Lighthouse, Write::Update) => "Service: Update lighthouse",
        (Table::Lighthouse, Write::Delete) => "Service: Delete lighthouse",
        (Table::CloudserverInstance, Write::Create) => "Service: Create cloudserver instance",
        (Table::CloudserverInstance, Write::Update) => "Service: Update cloudserver instance",
        (Table::CloudserverInstance, Write::Delete) => "Service: Delete cloudserver instance",
        (Table::LogserviceTopic, Write::Create) => "Service: Create logservice topic",
        (Table::LogserviceTopic, Write::Update) => "Service: Update logservice topic",
        (Table::LogserviceTopic, Write::Delete) => "Service: Delete logservice topic",
        (Table::CloudAccount, Write::Create) => "Service: Create cloud account",
        (Table::CloudAccount, Write::Update) => "Service: Update cloud account",
        (Table::CloudAccount, Write::Delete) => "Service: Delete cloud account",
        (Table::JobLog, Write::Create) => "Service: Create job log",
        (Table::JobLog, Write::Update) => "Service: Update job log",
        (Table::JobLog, Write::Delete) => "Service: Delete job log",
        (Table::CronJob, Write::Create) => "Service: Create cron job",
        (Table::CronJob, Write::Update) => "Service: Update cron job",
        (Table::CronJob, Write::Delete) => "Service: Delete cron job",
        (Table::CloudstorageBucket, Write::Create) => "Service: Create bucket",
        (Table::CloudstorageBucket, Write::Update) => "Service: Update bucket",
        (Table::CloudstorageBucket, Write::Delete) => "Service: Delete bucket",
        (Table::AccessTable, Write::Create) => "Service: Create access",
        (Table::AccessTable, Write::Update) => "Service: Update access",
        (Table::AccessTable, Write::Delete) => "Service: Delete access",
        (Table::GroupTable, Write::Create) => "Service: Create group",
        (Table::GroupTable, Write::Update) => "Service: Update group",
        (Table::GroupTable, Write::Delete) => "Service: Delete group",
        (Table::ServiceTable, Write::Create) => "Service: Create service",
        (Table::ServiceTable, Write::Update) => "Service: Update service",
        (Table::ServiceTable, Write::Delete) => "Service: Delete service",
        (Table::SubsystemTable, Write::Create) => "Service: Create subsystem",
        (Table::SubsystemTable, Write::Update) => "Service: Update subsystem",
        (Table::SubsystemTable, Write::Delete) => "Service: Delete subsystem",
        (Table::TokenTable, Write::Create) => "Service: Create token",
        (Table::TokenTable, Write::Update) => "Service: Update token",
        (Table::TokenTable, Write::Delete) => "Service: Delete token",
        (Table::UserTable, Write::Create) => "Service: Create user",
        (Table::UserTable, Write::Update) => "Service: Update user",
        (Table::UserTable, Write::Delete) => "Service: Delete user",
        (Table::WebhookTable, Write::Create) => "Service: Create webhook",
        (Table::WebhookTable, Write::Update) => "Service: Update webhook",
        (Table::WebhookTable, Write::Delete) => "Service: Delete webhook",
        (Table::ChannelConfigs, Write::Create) => "Service: Create channel_config",
        (Table::ChannelConfigs, Write::Update) => "Service: Update channel_config",
        (Table::ChannelConfigs, Write::Delete) => "Service: Delete channel_config",
        (Table::NotificationRecords, Write::Create) => "Service: Create notification_record",
        (Table::NotificationRecords, Write::Update) => "Service: Update notification_record",
        (Table::NotificationRecords, Write::Delete) => "Service: Delete notification_record",
        (Table::NotificationTemplates, Write::Create) => "Service: Create notification_template",
        (Table::NotificationTemplates, Write::Update) => "Service: Update notification_template",
        (Table::NotificationTemplates, Write::Delete) => "Service: Delete notification_template",
        (Table::NotificationGroups, Write::Create) => "Service: Create notification group",
        (Table::NotificationGroups, Write::Update) => "Service: Update notification group",
        (Table::NotificationGroups, Write::Delete) => "Service: Delete notification group",
        (Table::NotificationGroupMembers, Write::Create) => "Service: Create notification group member",
        (Table::NotificationGroupMembers, Write::Update) => "Service: Update notification group member",
        (Table::NotificationGroupMembers, Write::Delete) => "Service: Delete notification group member",
    }
}

/// The keys of a table's listing answers.
pub open spec fn listing_keys(t: Table) -> AnswerKeys {
    AnswerKeys::spec_single(listing_key(t))
}

/// The keys of a table's answers to a write.
pub open spec fn write_keys(t: Table, op: Write) -> AnswerKeys {
    AnswerKeys::spec_single(write_key(t, op))
}

/// The conditions a filter puts on a table's rows: those of the table's
/// model, and none for the tables whose model this project does not hold.
pub open spec fn spec_table_plan(t: Table, filter: JsonMap) -> Seq<crate::query::ColumnFilterView> {
    match model_filter_rules(t) {
        Some(rules) => plan_entries(rules, filter.entries@),
        None => Seq::empty(),
    }
}

/// The conditions a table's model puts on its rows for a filter.
pub fn table_plan(t: Table, filter: &JsonMap) -> (r: Vec<ColumnFilter>)
    ensures
        filters_view(r@) == spec_table_plan(t, *filter),
{
    match t {
        Table::Lighthouse => LightEcsModel::get_model_with_filter(filter),
        Table::CloudserverInstance => CloudserverInstanceModel::get_model_info_with_filter(filter),
        Table::LogserviceTopic => LogServiceTopicModel::get_model_info_with_filter(filter),
        Table::CloudAccount => CloudAccountModel::get_model_info_with_filter(filter),
        Table::JobLog => JobLogModel::get_model_info_with_filter(filter),
        Table::CronJob => CronJobModel::get_model_info_with_filter(filter),
        Table::CloudstorageBucket => BucketModel::get_model_info_with_filter(filter),
        Table::AccessTable => AccessModel::get_model_info_with_filter(filter),
        Table::GroupTable => Vec::new(),
        Table::ServiceTable => ServiceModel::get_model_info_with_filter(filter),
        Table::SubsystemTable => SubsystemModel::get_model_info_with_filter(filter),
        Table::TokenTable => TokenModel::get_model_info_with_filter(filter),
        Table::UserTable => UserModel::get_model_info_with_filter(filter),
        Table::WebhookTable => WebhookModel::get_model_info_with_filter(filter),
        Table::ChannelConfigs => ChannelConfigModel::get_model_info_with_filter(filter),
        Table::NotificationRecords => NotificationRecordModel::get_model_info_with_filter(filter),
        Table::NotificationTemplates => NotificationTemplateModel::get_model_info_with_filter(filter),
        Table::NotificationGroups => Vec::new(),
        Table::NotificationGroupMembers => Vec::new(),
    }
}

/// The view of what a model makes of a store call that needs no row.
pub open spec fn store_view(executed: Result<usize, String>) -> Result<usize, (u8, Seq<char>)> {
    outcome_view(spec_store_outcome(executed))
}

/// What inserting a record comes to, by the table's model: the rows
/// inserted, or the store's failure.
pub fn insert_outcome(t: Table, executed: Result<usize, String>) -> (r: Result<usize, ModelError>)
    ensures
        r == spec_store_outcome(executed),
{
    match t {
        Table::Lighthouse => LightEcsModel::new_ecs(executed),
        Table::CloudserverInstance => CloudserverInstanceModel::new(executed),
        Table::LogserviceTopic => LogServiceTopicModel::new(executed),
        Table::CloudAccount => CloudAccountModel::new(executed),
        Table::JobLog => JobLogModel::new(executed),
        Table::CronJob => CronJobModel::new(executed),
        Table::CloudstorageBucket => BucketModel::new(executed),
        Table::AccessTable => AccessModel::new(executed),
        Table::GroupTable => store_outcome(executed),
        Table::ServiceTable => ServiceModel::new(executed),
        Table::SubsystemTable => SubsystemModel::new(executed),
        Table::TokenTable => TokenModel::new(executed),
        Table::UserTable => UserModel::new(executed),
        Table::WebhookTable => WebhookModel::new(executed),
        Table::ChannelConfigs => ChannelConfigModel::new(executed),
        Table::NotificationRecords => NotificationRecordModel::new(executed),
        Table::NotificationTemplates => NotificationTemplateModel::new(executed),
        Table::NotificationGroups => store_outcome(executed),
        Table::NotificationGroupMembers => store_outcome(executed),
    }
}

/// Whether an update record names the row it updates, as its model needs.
pub open spec fn names_row(record: TableRecord) -> bool {
    match record {
        TableRecord::Lighthouse(info) => info.id is Some,
        TableRecord::CloudserverInstance(info) => info.id is Some,
        TableRecord::LogserviceTopic(info) => info.id is Some,
        TableRecord::CloudAccount(info) => info.id is Some,
        TableRecord::JobLog(info) => info.id is Some,
        TableRecord::CronJob(info) => info.id is Some,
        TableRecord::CloudstorageBucket(info) => info.id is Some,
        TableRecord::AccessTable(info) => info.id is Some,
        TableRecord::GroupTable(_) => true,
        TableRecord::ServiceTable(info) => info.id is Some,
        TableRecord::SubsystemTable(info) => info.id is Some,
        TableRecord::TokenTable(info) => info.tokenid is Some,
        TableRecord::UserTable(info) => info.id is Some,
        TableRecord::WebhookTable(info) => info.id is Some,
        TableRecord::ChannelConfigs(info) => info.id is Some,
        TableRecord::NotificationRecords(info) => info.id is Some,
        TableRecord::NotificationTemplates(info) => info.id is Some,
        TableRecord::NotificationGroups(_) => true,
        TableRecord::NotificationGroupMembers(_) => true,
    }
}

/// What updating the row a record names comes to, by the table's model: the
/// rows updated; where the model checks it, a bad request naming the key when
/// no row has it; or the store's failure.
pub open spec fn spec_update_outcome(record: TableRecord, executed: Result<usize, String>) -> Result<usize, (u8, Seq<char>)> {
    match record {
        TableRecord::Lighthouse(_) => store_view(executed),
        TableRecord::CloudserverInstance(info) => spec_row_outcome(executed, not_found_message("id"@, decimal_text(info.id.unwrap() as int))),
        TableRecord::LogserviceTopic(info) => spec_row_outcome(executed, not_found_message("id"@, decimal_text(info.id.unwrap() as int))),
        TableRecord::CloudAccount(info) => spec_row_outcome(executed, not_found_message("id"@, decimal_text(info.id.unwrap() as int))),
        TableRecord::JobLog(info) => spec_row_outcome(executed, not_found_message("id"@, opt_text(info.id).unwrap())),
        TableRecord::CronJob(info) => spec_row_outcome(executed, not_found_message("id"@, opt_text(info.id).unwrap())),
        TableRecord::CloudstorageBucket(info) => spec_row_outcome(executed, not_found_message("id"@, decimal_text(info.id.unwrap() as int))),
        TableRecord::AccessTable(info) => spec_row_outcome(executed, not_found_message("id"@, decimal_text(info.id.unwrap() as int))),
        TableRecord::GroupTable(_) => store_view(executed),
        TableRecord::ServiceTable(info) => spec_row_outcome(executed, not_found_message("id"@, decimal_text(info.id.unwrap() as int))),
        TableRecord::SubsystemTable(info) => spec_row_outcome(executed, not_found_message("id"@, decimal_text(info.id.unwrap() as int))),
        TableRecord::TokenTable(info) => spec_row_outcome(executed, not_found_message("tokenid"@, opt_text(info.tokenid).unwrap())),
        TableRecord::UserTable(info) => spec_row_outcome(executed, not_found_message("id"@, decimal_text(info.id.unwrap() as int))),
        TableRecord::WebhookTable(info) => spec_row_outcome(executed, not_found_message("id"@, decimal_text(info.id.unwrap() as int))),
        TableRecord::ChannelConfigs(info) => spec_row_outcome(executed, not_found_message("id"@, decimal_text(info.id.unwrap() as int))),
        TableRecord::NotificationRecords(info) => spec_row_outcome(executed, not_found_message("id"@, decimal_text(info.id.unwrap() as int))),
        TableRecord::NotificationTemplates(info) => spec_row_outcome(executed, not_found_message("id"@, decimal_text(info.id.unwrap() as int))),
        TableRecord::NotificationGroups(_) => store_view(executed),
        TableRecord::NotificationGroupMembers(_) => store_view(executed),
    }
}

/// What updating the row a record names comes to, by the table's model.
pub fn update_outcome(record: &TableRecord, executed: Result<usize, String>) -> (r: Result<usize, ModelError>)
    requires
        names_row(*record),
    ensures
        outcome_view(r) == spec_update_outcome(*record, executed),
{
    match record {
        TableRecord::Lighthouse(info) => LightEcsModel::update_ecs(info, executed),
        TableRecord::CloudserverInstance(info) => CloudserverInstanceModel::update(info, executed),
        TableRecord::LogserviceTopic(info) => LogServiceTopicModel::update(info, executed),
        TableRecord::CloudAccount(info) => CloudAccountModel::update(info, executed),
        TableRecord::JobLog(info) => JobLogModel::update(info, executed),
        TableRecord::CronJob(info) => CronJobModel::update(info, executed),
        TableRecord::CloudstorageBucket(info) => BucketModel::update(info, executed),
        TableRecord::AccessTable(info) => AccessModel::update(info, executed),
        TableRecord::GroupTable(_) => store_outcome(executed),
        TableRecord::ServiceTable(info) => ServiceModel::update(info, executed),
        TableRecord::SubsystemTable(info) => SubsystemModel::update(info, executed),
        TableRecord::TokenTable(info) => TokenModel::update(info, executed),
        TableRecord::UserTable(info) => UserModel::update(info, executed),
        TableRecord::WebhookTable(info) => WebhookModel::update(info, executed),
        TableRecord::ChannelConfigs(info) => ChannelConfigModel::update(info, executed),
        TableRecord::NotificationRecords(info) => NotificationRecordModel::update(info, executed),
        TableRecord::NotificationTemplates(info) => NotificationTemplateModel::update(info, executed),
        TableRecord::NotificationGroups(_) => store_outcome(executed),
        TableRecord::NotificationGroupMembers(_) => store_outcome(executed),
    }
}

/// The text a key is reported by when no row has it.
pub open spec fn key_text(key: RowKeyView) -> Seq<char> {
    match key {
        RowKeyView::Int64(n) => decimal_text(n as int),
        RowKeyView::Int32(n) => decimal_text(n as int),
        RowKeyView::Text(s) => s,
    }
}

/// The name a table's key is reported under.
pub open spec fn key_label(t: Table) -> Seq<char> {
    match t {
        Table::TokenTable => "tokenid"@,
        _ => "id"@,
    }
}

/// What deleting the row with a key comes to: the rows deleted, a bad request
/// naming the key when no row has it, or the store's failure.
pub open spec fn spec_delete_outcome(t: Table, key: RowKeyView, executed: Result<usize, String>) -> Result<usize, (u8, Seq<char>)> {
    spec_row_outcome(executed, not_found_message(key_label(t), key_text(key)))
}

/// What deleting the row with a key comes to, by the table's model.
pub fn delete_outcome(t: Table, key: &RowKey, executed: Result<usize, String>) -> (r: Result<usize, ModelError>)
    ensures
        outcome_view(r) == spec_delete_outcome(t, key@, executed),
{
    match (t, key) {
        (Table::Lighthouse, RowKey::Int64(k)) => LightEcsModel::delete_ecs(*k, executed),
        (Table::CloudserverInstance, RowKey::Int64(k)) => CloudserverInstanceModel::delete(*k, executed),
        (Table::LogserviceTopic, RowKey::Int64(k)) => LogServiceTopicModel::delete(*k, executed),
        (Table::CloudAccount, RowKey::Int32(k)) => CloudAccountModel::delete(*k, executed),
        (Table::JobLog, RowKey::Text(k)) => JobLogModel::delete(k.as_str(), executed),
        (Table::CronJob, RowKey::Text(k)) => CronJobModel::delete(k.as_str(), executed),
        (Table::CloudstorageBucket, RowKey::Int64(k)) => BucketModel::delete(*k, executed),
        (Table::AccessTable, RowKey::Int32(k)) => AccessModel::delete(*k, executed),
        (Table::ServiceTable, RowKey::Int32(k)) => ServiceModel::delete(*k, executed),
        (Table::SubsystemTable, RowKey::Int32(k)) => SubsystemModel::delete(*k, executed),
        (Table::TokenTable, RowKey::Text(k)) => TokenModel::delete(k.as_str(), executed),
        (Table::UserTable, RowKey::Int32(k)) => UserModel::delete(*k, executed),
        (Table::WebhookTable, RowKey::Int32(k)) => WebhookModel::delete(*k, executed),
        (Table::ChannelConfigs, RowKey::Int32(k)) => ChannelConfigModel::delete(*k, executed),
        (Table::NotificationRecords, RowKey::Int32(k)) => NotificationRecordModel::delete(*k, executed),
        (Table::NotificationTemplates, RowKey::Int32(k)) => NotificationTemplateModel::delete(*k, executed),
        (Table::TokenTable, RowKey::Int64(k)) => {
            let text = i64_to_decimal(*k);
            row_outcome(executed, not_found("tokenid", text.as_str()))
        },
        (Table::TokenTable, RowKey::Int32(k)) => {
            let text = i64_to_decimal(*k as i64);
            row_outcome(executed, not_found("tokenid", text.as_str()))
        },
        (_, RowKey::Int64(k)) => {
            let text = i64_to_decimal(*k);
            row_outcome(executed, not_found("id", text.as_str()))
        },
        (_, RowKey::Int32(k)) => {
            let text = i64_to_decimal(*k as i64);
            row_outcome(executed, not_found("id", text.as_str()))
        },
        (_, RowKey::Text(k)) => row_outcome(executed, not_found("id", k.as_str())),
    }
}

/// The answer of a table's service to a listing.
pub fn rows_answer(t: Table, outcome: Result<Vec<JsonValue>, ModelError>) -> (r: Result<MailManOk<Vec<JsonValue>>, MailManErr>)
    ensures
        is_rows_answer(r, listing_keys(t), FailureRule::StoreFailureIsZero, outcome),
{
    match t {
        Table::CronJob => cron_job_service::get_all(outcome),
        Table::GroupTable => group_service::get_all(outcome),
        Table::ChannelConfigs => channel_config_service::get_all(outcome),
        Table::NotificationRecords => notification_record_service::get_all(outcome),
        Table::NotificationTemplates => notification_template_service::get_all(outcome),
        _ => answer_rows(&AnswerKeys::single(listing_key_of(t)), FailureRule::StoreFailureIsZero, outcome),
    }
}

/// Whether a write answer is the prefix and the count, as a JSON string,
/// under the keys, or the model failure: 500 for a store failure, 400
/// otherwise, with the failure's message.
pub open spec fn is_write_answer(
    r: Result<MailManOk<JsonValue>, MailManErr>,
    keys: AnswerKeys,
    prefix: Seq<char>,
    outcome: Result<usize, (u8, Seq<char>)>,
) -> bool {
    match outcome {
        Ok(n) => (r matches Ok(ok) && ok.code == 200 && ok.key@ == keys.ok@ && (ok.data matches Some(v)
            && is_count_text(v, prefix, n))),
        Err(e) => (r matches Err(err) && err.is(
            status_of(FailureRule::StoreFailureIsZero, e.0),
            keys.error_key(status_of(FailureRule::StoreFailureIsZero, e.0)),
            Some(e.1),
            1,
        )),
    }
}

/// The answer of a table's service to a write.
pub fn count_answer(t: Table, op: Write, outcome: Result<usize, ModelError>) -> (r: Result<MailManOk<JsonValue>, MailManErr>)
    ensures
        is_write_answer(r, write_keys(t, op), write_prefix(op), outcome_view(outcome)),
{
    match (t, op) {
        (Table::CronJob, Write::Create) => cron_job_service::new_table(outcome),
        (Table::CronJob, Write::Update) => cron_job_service::update_table(outcome),
        (Table::CronJob, Write::Delete) => cron_job_service::delete_table(outcome),
        (Table::GroupTable, Write::Create) => group_service::new_table(outcome),
        (Table::GroupTable, Write::Update) => group_service::update_table(outcome),
        (Table::GroupTable, Write::Delete) => group_service::delete_table(outcome),
        (Table::ChannelConfigs, Write::Create) => channel_config_service::new_table(outcome),
        (Table::ChannelConfigs, Write::Update) => channel_config_service::update_table(outcome),
        (Table::ChannelConfigs, Write::Delete) => channel_config_service::delete_table(outcome),
        (Table::NotificationRecords, Write::Create) => notification_record_service::new_table(outcome),
        (Table::NotificationRecords, Write::Update) => notification_record_service::update_table(outcome),
        (Table::NotificationRecords, Write::Delete) => notification_record_service::delete_table(outcome),
        (Table::NotificationTemplates, Write::Create) => notification_template_service::new_table(outcome),
        (Table::NotificationTemplates, Write::Update) => notification_template_service::update_table(outcome),
        (Table::NotificationTemplates, Write::Delete) => notification_template_service::delete_table(outcome),
        _ => answer_count(&AnswerKeys::single(write_key_of(t, op)), FailureRule::StoreFailureIsZero, write_prefix_of(op), outcome),
    }
}

/// The answer to a query, from what the store gave for the table's plan: the
/// rows under the table's listing key, or the store's failure as a 500.
pub fn query_answer(t: Table, fetched: Result<Vec<JsonValue>, String>) -> (r: Result<MailManOk<Vec<JsonValue>>, MailManErr>)
    ensures
        is_rows_answer(r, listing_keys(t), FailureRule::StoreFailureIsZero, spec_rows_outcome(fetched)),
{
    rows_answer(t, rows_outcome(fetched))
}

/// The answer to a create request, from what the store gave for the insert
/// of the record: `New line: ` and the rows inserted under the table's create
/// key, or the store's failure as a 500.
pub fn create_answer(record: &TableRecord, executed: Result<usize, String>) -> (r: Result<MailManOk<JsonValue>, MailManErr>)
    ensures
        is_write_answer(r, write_keys(record_table(*record), Write::Create), "New line: "@, store_view(executed)),
{
    let t = crate::cmdb::api::table_manage::table_of(record);
    let outcome = insert_outcome(t, executed);
    count_answer(t, Write::Create, outcome)
}

/// The answer to an update request, from what the store gave for the update
/// of the row the record names: `Update line: ` and the rows updated, or the
/// model's failure, under the table's update key.
pub fn update_answer(record: &TableRecord, executed: Result<usize, String>) -> (r: Result<MailManOk<JsonValue>, MailManErr>)
    requires
        names_row(*record),
    ensures
        is_write_answer(r, write_keys(record_table(*record), Write::Update), "Update line: "@, spec_update_outcome(*record, executed)),
{
    let t = crate::cmdb::api::table_manage::table_of(record);
    let outcome = update_outcome(record, executed);
    count_answer(t, Write::Update, outcome)
}

/// The answer to a delete request, from what the store gave for the delete
/// of the row with the key: `Delete line: ` and the rows deleted, or the
/// model's failure, under the table's delete key.
pub fn delete_answer(t: Table, key: &RowKey, executed: Result<usize, String>) -> (r: Result<MailManOk<JsonValue>, MailManErr>)
    ensures
        is_write_answer(r, write_keys(t, Write::Delete), "Delete line: "@, spec_delete_outcome(t, key@, executed)),
{
    let outcome = delete_outcome(t, key, executed);
    count_answer(t, Write::Delete, outcome)
}

/// An update reports the rows it touched. Where none was touched, the models
/// that check the row report a bad request naming the key (`id: <id> not
/// found`, `tokenid: <id> not found` for tokens); the lighthouse model and the
/// tables without a model report the zero count. A failure of the store is a
/// store failure with the store's message.
pub proof fn law_update_reports_missing_row(record: TableRecord, executed: Result<usize, String>)
    requires
        names_row(record),
    ensures
        executed matches Ok(n) ==> (n > 0 ==> spec_update_outcome(record, executed) == Ok::<usize, (u8, Seq<char>)>(n)),
        executed matches Err(e) ==> spec_update_outcome(record, executed) == Err::<usize, (u8, Seq<char>)>((0u8, e@)),
        executed == Ok::<usize, String>(0) ==> spec_update_outcome(record, executed) == match record {
            TableRecord::Lighthouse(_) => Ok::<usize, (u8, Seq<char>)>(0),
            TableRecord::GroupTable(_) => Ok::<usize, (u8, Seq<char>)>(0),
            TableRecord::NotificationGroups(_) => Ok::<usize, (u8, Seq<char>)>(0),
            TableRecord::NotificationGroupMembers(_) => Ok::<usize, (u8, Seq<char>)>(0),
            TableRecord::CloudserverInstance(info) => Err((1u8, "id: "@ + decimal_text(info.id.unwrap() as int) + " not found"@)),
            TableRecord::LogserviceTopic(info) => Err((1u8, "id: "@ + decimal_text(info.id.unwrap() as int) + " not found"@)),
            TableRecord::CloudAccount(info) => Err((1u8, "id: "@ + decimal_text(info.id.unwrap() as int) + " not found"@)),
            TableRecord::CloudstorageBucket(info) => Err((1u8, "id: "@ + decimal_text(info.id.unwrap() as int) + " not found"@)),
            TableRecord::AccessTable(info) => Err((1u8, "id: "@ + decimal_text(info.id.unwrap() as int) + " not found"@)),
            TableRecord::ServiceTable(info) => Err((1u8, "id: "@ + decimal_text(info.id.unwrap() as int) + " not found"@)),
            TableRecord::SubsystemTable(info) => Err((1u8, "id: "@ + decimal_text(info.id.unwrap() as int) + " not found"@)),
            TableRecord::UserTable(info) => Err((1u8, "id: "@ + decimal_text(info.id.unwrap() as int) + " not found"@)),
            TableRecord::WebhookTable(info) => Err((1u8, "id: "@ + decimal_text(info.id.unwrap() as int) + " not found"@)),
            TableRecord::ChannelConfigs(info) => Err((1u8, "id: "@ + decimal_text(info.id.unwrap() as int) + " not found"@)),
            TableRecord::NotificationRecords(info) => Err((1u8, "id: "@ + decimal_text(info.id.unwrap() as int) + " not found"@)),
            TableRecord::NotificationTemplates(info) => Err((1u8, "id: "@ + decimal_text(info.id.unwrap() as int) + " not found"@)),
            TableRecord::JobLog(info) => Err((1u8, "id: "@ + opt_text(info.id).unwrap() + " not found"@)),
            TableRecord::CronJob(info) => Err((1u8, "id: "@ + opt_text(info.id).unwrap() + " not found"@)),
            TableRecord::TokenTable(info) => Err((1u8, "tokenid: "@ + opt_text(info.tokenid).unwrap() + " not found"@)),
        },
{
    reveal_strlit("id");
    reveal_strlit("tokenid");
    reveal_strlit(": ");
    reveal_strlit("id: ");
    reveal_strlit("tokenid: ");
    assert("id"@ + ": "@ =~= "id: "@);
    assert("tokenid"@ + ": "@ =~= "tokenid: "@);
}

} // verus!
