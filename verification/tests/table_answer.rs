use cmdb::cmdb::api::table_answer::{
    count_answer, create_answer, delete_answer, delete_outcome, insert_outcome, query_answer, table_plan, update_answer,
    update_outcome, Write,
};
use cmdb::cmdb::api::table_manage::{delete_table, new_table, query_table, update_table, RowKey};
use cmdb::json::{JsonMap, JsonNumber, JsonValue};
use cmdb::query::{ColumnFilter, Condition};
use cmdb::table::Table;

fn txt(v: &str) -> JsonValue {
    JsonValue::Str(v.to_string())
}

fn body(list: Vec<(&str, JsonValue)>) -> JsonMap {
    JsonMap { entries: list.into_iter().map(|(k, v)| (k.to_string(), v)).collect() }
}

#[test]
fn cron_job_create_answers_with_the_service_key() {
    let record = new_table("cron_job", Some(Ok(body(vec![("id", txt("job-1")), ("script", txt("a.py"))]))), false).ok().unwrap();
    let ok = create_answer(&record, Ok(1)).ok().unwrap();
    assert_eq!((ok.code, ok.key.as_str()), (200, "Service: Create cron job"));
    assert_eq!(ok.data, Some(txt("New line: 1")));
    let e = create_answer(&record, Err("duplicate key".to_string())).err().unwrap();
    assert_eq!((e.code, e.key.as_str(), e.msg.as_deref(), e.level), (500, "Service: Create cron job", Some("duplicate key"), 1));
}

#[test]
fn cron_job_update_of_a_missing_row_is_a_bad_request() {
    let record = update_table("cron_job", Some(Ok(body(vec![("id", txt("job-x")), ("script", txt("a.py"))]))), false).ok().unwrap();
    let e = update_answer(&record, Ok(0)).err().unwrap();
    assert_eq!((e.code, e.key.as_str(), e.msg.as_deref()), (400, "Service: Update cron job", Some("id: job-x not found")));
    let ok = update_answer(&record, Ok(1)).ok().unwrap();
    assert_eq!((ok.key.as_str(), ok.data), ("Service: Update cron job", Some(txt("Update line: 1"))));
    assert_eq!(update_outcome(&record, Ok(0)), Err((1, "id: job-x not found".to_string())));
}

#[test]
fn lighthouse_update_does_not_check_the_row() {
    let record = update_table("lighthouse", Some(Ok(body(vec![("id", JsonValue::Number(JsonNumber::PosInt(4)))]))), false).ok().unwrap();
    let ok = update_answer(&record, Ok(0)).ok().unwrap();
    assert_eq!((ok.key.as_str(), ok.data), ("Service: Update lighthouse", Some(txt("Update line: 0"))));
}

#[test]
fn delete_answers_name_the_missing_key() {
    let (t, key) = delete_table("access_table", Some(Ok(7)), true).ok().unwrap();
    let e = delete_answer(t, &key, Ok(0)).err().unwrap();
    assert_eq!((e.code, e.key.as_str(), e.msg.as_deref()), (400, "Service: Delete access", Some("id: 7 not found")));
    let (t, key) = delete_table("token_table", Some(Ok(12)), true).ok().unwrap();
    let e = delete_answer(t, &key, Ok(0)).err().unwrap();
    assert_eq!(e.msg.as_deref(), Some("tokenid: 12 not found"));
    assert_eq!(delete_outcome(Table::CronJob, &RowKey::Text("j".to_string()), Ok(2)), Ok(2));
    let ok = delete_answer(Table::ChannelConfigs, &RowKey::Int32(1), Ok(1)).ok().unwrap();
    assert_eq!((ok.key.as_str(), ok.data), ("Service: Delete channel_config", Some(txt("Delete line: 1"))));
}

#[test]
fn access_query_is_served_with_the_cleaned_filter() {
    let q = body(vec![("service_id", txt("3")), ("bogus", JsonValue::Number(JsonNumber::PosInt(1)))]);
    let (t, filter) = query_table("access_table", Some(Ok(q)), true).ok().unwrap();
    assert_eq!(table_plan(t, &filter), vec![ColumnFilter { column: "service_id".to_string(), condition: Condition::EqualsInt(3) }]);
    let ok = query_answer(t, Ok(vec![txt("row")])).ok().unwrap();
    assert_eq!((ok.code, ok.key.as_str(), ok.data), (200, "Service: All access", Some(vec![txt("row")])));
}

#[test]
fn cron_job_query_matches_scripts_containing_the_text() {
    let q = body(vec![("script", txt("backup")), ("nope", JsonValue::Number(JsonNumber::PosInt(1)))]);
    let (t, filter) = query_table("cron_job", Some(Ok(q)), false).ok().unwrap();
    let plan = table_plan(t, &filter);
    assert_eq!(plan.len(), 1);
    assert_eq!(plan[0], ColumnFilter { column: "script".to_string(), condition: Condition::Like("%backup%".to_string()) });
    let ok = query_answer(t, Ok(vec![])).ok().unwrap();
    assert_eq!(ok.key, "Service: All cron job");
    let e = query_answer(t, Err("timeout".to_string())).err().unwrap();
    assert_eq!((e.code, e.msg.as_deref()), (500, Some("timeout")));
}

#[test]
fn group_tables_have_no_model_plan() {
    let filter = body(vec![("group_name", txt("ops"))]);
    assert!(table_plan(Table::GroupTable, &filter).is_empty());
    assert_eq!(insert_outcome(Table::GroupTable, Err("x".to_string())), Err((0, "x".to_string())));
    let ok = count_answer(Table::GroupTable, Write::Create, Ok(1)).ok().unwrap();
    assert_eq!(ok.key, "Service: Create group");
}
