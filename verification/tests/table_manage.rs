use cmdb::cmdb::api::table_manage::{delete_id_member, delete_table, new_table, query_table, table_name_of, update_table, RowKey, TableRecord};
use cmdb::json::{JsonMap, JsonNumber, JsonValue};
use cmdb::table::Table;

fn st(v: &str) -> JsonValue {
    JsonValue::Str(v.to_string())
}

fn members(list: Vec<(&str, JsonValue)>) -> JsonMap {
    JsonMap { entries: list.into_iter().map(|(k, v)| (k.to_string(), v)).collect() }
}

fn bad_request_message<T>(r: Result<T, cmdb::mailman::MailManErr>) -> (u16, String, String) {
    match r {
        Err(e) => (e.code, e.key, e.msg.unwrap()),
        Ok(_) => panic!("expected an error"),
    }
}

#[test]
fn query_without_payload_is_refused() {
    let (code, key, msg) = bad_request_message(query_table("lighthouse", None, false));
    assert_eq!((code, key.as_str(), msg.as_str()), (400, "Bad request", "Query operation must have `query` field"));
    let (_, _, msg) = bad_request_message(query_table("lighthouse", Some(Err("query must be an object".to_string())), false));
    assert_eq!(msg, "query must be an object");
}

#[test]
fn query_of_unknown_table_is_refused() {
    let (code, _, msg) = bad_request_message(query_table("nope", Some(Ok(JsonMap::new())), true));
    assert_eq!((code, msg.as_str()), (400, "No such table: nope"));
}

#[test]
fn cross_subsystem_tables_need_a_full_schema_build() {
    let (_, _, msg) = bad_request_message(query_table("access_table", Some(Ok(JsonMap::new())), false));
    assert_eq!(msg, "No such table: access_table");
    let (t, filter) = query_table("access_table", Some(Ok(members(vec![("service_id", st("5"))]))), true).ok().unwrap();
    assert_eq!(t, Table::AccessTable);
    assert_eq!(filter, members(vec![("service_id", JsonValue::Number(JsonNumber::PosInt(5)))]));
}

#[test]
fn query_hands_on_the_cleaned_filter() {
    let q = members(vec![("provider", st("aws")), ("secret", st("x")), ("bucket_name", JsonValue::Null)]);
    let (t, filter) = query_table("cloudstorage_bucket", Some(Ok(q)), false).ok().unwrap();
    assert_eq!(t, Table::CloudstorageBucket);
    assert_eq!(filter, members(vec![("provider", st("aws"))]));
}

#[test]
fn create_reads_the_record_of_the_table() {
    let payload = members(vec![("instance_name", st("db")), ("plantform", st("linux"))]);
    match new_table("lighthouse", Some(Ok(payload)), false).ok().unwrap() {
        TableRecord::Lighthouse(info) => {
            assert_eq!(info.instance_name.as_deref(), Some("db"));
            assert_eq!(info.platform.as_deref(), Some("linux"));
        },
        _ => panic!("wrong record"),
    }
    let (_, _, msg) = bad_request_message(new_table("lighthouse", None, false));
    assert_eq!(msg, "Creat operation must have `new` field");
}

#[test]
fn group_tables_carry_the_body_itself() {
    let payload = members(vec![("group_name", st("ops"))]);
    match update_table("group_table", Some(Ok(payload)), true).ok().unwrap() {
        TableRecord::GroupTable(m) => assert_eq!(m, members(vec![("group_name", st("ops"))])),
        _ => panic!("wrong record"),
    }
    let (_, _, msg) = bad_request_message(update_table("group_table", None, true));
    assert_eq!(msg, "Update operation must have `update` field");
}

#[test]
fn delete_keys_take_the_type_of_the_table_key() {
    match delete_table("lighthouse", Some(Ok(-4)), false).ok().unwrap() {
        (Table::Lighthouse, RowKey::Int64(-4)) => {},
        _ => panic!("wrong key"),
    }
    match delete_table("cron_job", Some(Ok(42)), false).ok().unwrap() {
        (Table::CronJob, RowKey::Text(t)) => assert_eq!(t, "42"),
        _ => panic!("wrong key"),
    }
    match delete_table("cloud_account", Some(Ok(4_294_967_297)), false).ok().unwrap() {
        (Table::CloudAccount, RowKey::Int32(1)) => {},
        _ => panic!("wrong key"),
    }
    let (_, _, msg) = bad_request_message(delete_table("cron_job", None, false));
    assert_eq!(msg, "Delete operation must have `Delete.id` field");
    let (_, _, msg) = bad_request_message(delete_table("user_table", Some(Ok(1)), false));
    assert_eq!(msg, "No such table: user_table");
}

#[test]
fn request_members_are_found() {
    let body = members(vec![
        ("table", st("job_log")),
        ("delete", JsonValue::Object(members(vec![("id", JsonValue::Number(JsonNumber::PosInt(3)))]))),
    ]);
    assert_eq!(table_name_of(&body), Some("job_log".to_string()));
    assert_eq!(delete_id_member(&body), Some(&JsonValue::Number(JsonNumber::PosInt(3))));
    let body = members(vec![("table", JsonValue::Bool(true)), ("delete", st("3"))]);
    assert_eq!(table_name_of(&body), None);
    assert_eq!(delete_id_member(&body), None);
}
