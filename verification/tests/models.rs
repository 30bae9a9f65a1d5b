use cmdb::cloud_api::models::cloud_account::{CloudAccountInfo, CloudAccountModel as ApiAccountModel};
use cmdb::cmdb::model::km::cron_job::{CronJobInfo, CronJobModel};
use cmdb::cmdb::model::km::job_log::JobLogInfo;
use cmdb::cmdb::model::lighthouse::instance::{LightEcsInfo, LightEcsModel};
use cmdb::cmdb::model::logservice::topic::LogServiceTopicInfo;
use cmdb::cmdb::model::watchman::access::{AccessInfo, AccessModel};
use cmdb::cmdb::models::instance::light_ecs::LightEcsInfo as OldLightEcsInfo;
use cmdb::clock::NaiveTimestamp;
use cmdb::fields::{get_datetime, get_i32_or_zero, get_u32_checked, get_uuid};
use cmdb::json::{JsonMap, JsonNumber, JsonValue};
use cmdb::mailman::FetchError;
use cmdb::query::{ColumnFilter, Condition};

fn s(v: &str) -> JsonValue {
    JsonValue::Str(v.to_string())
}

fn n(v: u64) -> JsonValue {
    JsonValue::Number(JsonNumber::PosInt(v))
}

fn obj(members: Vec<(&str, JsonValue)>) -> JsonMap {
    JsonMap { entries: members.into_iter().map(|(k, v)| (k.to_string(), v)).collect() }
}

fn column(name: &str, condition: Condition) -> ColumnFilter {
    ColumnFilter { column: name.to_string(), condition }
}

#[test]
fn lighthouse_record_reads_platform_from_plantform() {
    let m = obj(vec![
        ("id", n(12)),
        ("provider", s("tencent")),
        ("platform", s("linux")),
        ("plantform", s("windows")),
        ("zone", n(3)),
        ("tag", obj_value(vec![("env", s("prod"))])),
    ]);
    let info = LightEcsInfo::from_map(m).ok().unwrap();
    assert_eq!(info.id, Some(12));
    assert_eq!(info.provider.as_deref(), Some("tencent"));
    assert_eq!(info.platform.as_deref(), Some("windows"));
    assert_eq!(info.zone, None);
    assert_eq!(info.tag, Some(obj_value(vec![("env", s("prod"))])));
    assert_eq!(info.full_info, None);
    assert!(info.update_at.is_some());
}

fn obj_value(members: Vec<(&str, JsonValue)>) -> JsonValue {
    JsonValue::Object(obj(members))
}

#[test]
fn topic_record_reads_topic_name_from_topic_id() {
    let m = obj(vec![
        ("topic_id", s("t-1")),
        ("topic_name", s("ignored")),
        ("hot_period", s("soon")),
        ("period", n(30)),
    ]);
    let info = LogServiceTopicInfo::from_map(m).ok().unwrap();
    assert_eq!(info.topic_id.as_deref(), Some("t-1"));
    assert_eq!(info.topic_name.as_deref(), Some("t-1"));
    assert_eq!(info.hot_period, Some(0));
    assert_eq!(info.period, Some(30));
    assert_eq!(info.index, None);
}

#[test]
fn access_record_cuts_integers_to_their_columns() {
    let m = obj(vec![
        ("id", n(5_000_000_000)),
        ("group_access", n(70_000)),
        ("is_enable", JsonValue::Bool(true)),
        ("comment", s("ok")),
    ]);
    let info = AccessInfo::from_map(m).ok().unwrap();
    assert_eq!(info.id, Some(5_000_000_000i64 as i32));
    assert_eq!(info.group_access, Some(70_000i64 as i16));
    assert_eq!(info.is_enable, Some(true));
    assert_eq!(info.comment.as_deref(), Some("ok"));
    assert_eq!(info.service_id, None);
}

#[test]
fn cron_job_record_parses_launch_time() {
    let m = obj(vec![("id", s("job-1")), ("launch_at", s("2024-01-02 03:04:05")), ("params", n(1))]);
    let info = CronJobInfo::from_map(m).ok().unwrap();
    assert_eq!(info.launch_at, Some(NaiveTimestamp { secs: 1_704_164_645, nanos: 0 }));
    assert_eq!(info.params, Some(n(1)));
    let m = obj(vec![("launch_at", s("yesterday"))]);
    assert_eq!(CronJobInfo::from_map(m).ok().unwrap().launch_at, None);
}

#[test]
fn job_log_record_reads_status_and_finish_time() {
    let m = obj(vec![("status", n(2)), ("finish_time", s("1999-12-31 23:59:59")), ("worker", s("w1"))]);
    let info = JobLogInfo::from_map(m).ok().unwrap();
    assert_eq!(info.status, Some(2));
    assert_eq!(info.finish_time, Some(NaiveTimestamp { secs: 946_684_799, nanos: 0 }));
    assert_eq!(info.worker.as_deref(), Some("w1"));
}

#[test]
fn field_readers_use_the_outside_parsers() {
    let m = obj(vec![
        ("u", s("67e55044-10b1-426f-9247-bb680dd5a2a4")),
        ("bad", s("not-a-uuid")),
        ("t", s("1970-01-01 00:01:00")),
        ("big", n(5_000_000_000)),
        ("small", n(7)),
        ("text", s("x")),
    ]);
    assert_eq!(get_uuid(&m, "u"), Some(0x67e5504410b1426f9247bb680dd5a2a4));
    assert_eq!(get_uuid(&m, "bad"), None);
    assert_eq!(get_datetime(&m, "t"), Some(NaiveTimestamp { secs: 60, nanos: 0 }));
    assert_eq!(get_u32_checked(&m, "big"), None);
    assert_eq!(get_u32_checked(&m, "small"), Some(7));
    assert_eq!(get_i32_or_zero(&m, "text"), Some(0));
    assert_eq!(get_i32_or_zero(&m, "absent"), None);
}

#[test]
fn lighthouse_filter_plan() {
    let f = obj(vec![
        ("provider", s("tencent")),
        ("instance_name", s("web")),
        ("zone", n(1)),
        ("password", s("x")),
    ]);
    let plan = LightEcsModel::get_model_with_filter(&f);
    assert_eq!(
        plan,
        vec![column("provider", Condition::Equals("tencent".to_string())), column("instance_name", Condition::Like("%web%".to_string()))]
    );
}

#[test]
fn access_filter_plan_takes_integers() {
    let f = obj(vec![("service_id", n(3)), ("group_id", s("4"))]);
    let plan = AccessModel::get_model_info_with_filter(&f);
    assert_eq!(plan, vec![column("service_id", Condition::EqualsInt(3))]);
}

#[test]
fn cron_job_filter_plan() {
    let f = obj(vec![("script", s("backup")), ("id", s("j1"))]);
    let plan = CronJobModel::get_model_info_with_filter(&f);
    assert_eq!(plan.len(), 2);
    assert_eq!(plan[1], column("id", Condition::Equals("j1".to_string())));
}

#[test]
fn model_outcomes_map_store_results() {
    assert_eq!(AccessModel::new(Ok(1)), Ok(1));
    assert_eq!(AccessModel::new(Err("boom".to_string())), Err((0, "boom".to_string())));
    assert_eq!(AccessModel::delete(9, Ok(0)), Err((1, "id: 9 not found".to_string())));
    assert_eq!(AccessModel::delete(9, Ok(2)), Ok(2));
    assert_eq!(AccessModel::delete(9, Err("down".to_string())), Err((0, "down".to_string())));
    assert_eq!(LightEcsModel::delete_ecs(-3, Ok(0)), Err((1, "id: -3 not found".to_string())));
    let info = AccessInfo::from_map(obj(vec![("id", n(4))])).ok().unwrap();
    assert_eq!(AccessModel::update(&info, Ok(0)), Err((1, "id: 4 not found".to_string())));
    assert_eq!(AccessModel::update(&info, Ok(1)), Ok(1));
}

#[test]
fn old_schema_record_is_read_when_well_typed() {
    let m = obj(vec![("id", n(3)), ("project", s("p")), ("is_link_server", JsonValue::Bool(false))]);
    assert!(OldLightEcsInfo::is_well_typed(&m));
    let info = OldLightEcsInfo::from_map(m).ok().unwrap();
    assert_eq!(info.id, Some(3));
    assert_eq!(info.project.as_deref(), Some("p"));
    assert_eq!(info.create_at, None);
    assert!(info.update_at.is_some());
    assert!(!OldLightEcsInfo::is_well_typed(&obj(vec![("project", n(1))])));
}

#[test]
fn cloud_account_record_and_outcomes() {
    let m = obj(vec![("id", n(7)), ("nick_name", s("ops")), ("is_enable", n(1)), ("ak", s("A"))]);
    assert!(CloudAccountInfo::is_well_typed(&m));
    let info = CloudAccountInfo::from_map(m).ok().unwrap();
    assert_eq!(info.id, Some(7));
    assert_eq!(info.is_enable, Some(1));
    assert_eq!(info.ak.as_deref(), Some("A"));
    assert!(!CloudAccountInfo::is_well_typed(&obj(vec![("id", s("7"))])));
    assert_eq!(ApiAccountModel::update_account(&info, Some(Ok(1))), Ok(1));
    let no_id = CloudAccountInfo::from_map(obj(vec![])).ok().unwrap();
    assert_eq!(ApiAccountModel::update_account(&no_id, None), Err((0, "id is required".to_string())));
    let missing = ApiAccountModel::get_account_by_id(Err(FetchError::NotFound)).err().unwrap();
    assert_eq!(missing, (1, "account not found".to_string()));
    let failed = ApiAccountModel::get_account_by_id(Err(FetchError::Other("timeout".to_string()))).err().unwrap();
    assert_eq!(failed, (0, "get account error: timeout".to_string()));
    let plan = ApiAccountModel::get_user_info_with_filter(&obj(vec![("nick_name", s("ops")), ("provider", s("aws"))]));
    assert_eq!(plan, vec![column("nick_name", Condition::Equals("ops".to_string()))]);
}

#[test]
fn uuid_fields_accept_every_form_the_parser_does() {
    let inputs = [
        "67e55044-10b1-426f-9247-bb680dd5a2a4",
        "67E55044-10B1-426F-9247-BB680DD5A2A4",
        "67e5504410b1426f9247bb680dd5a2a4",
        "{67e55044-10b1-426f-9247-bb680dd5a2a4}",
        "urn:uuid:67e55044-10b1-426f-9247-bb680dd5a2a4",
        "URN:UUID:67e55044-10b1-426f-9247-bb680dd5a2a4",
        "67e55044x10b1-426f-9247-bb680dd5a2a4",
        "67e55044-10b1-426f-9247-bb680dd5a2a",
        "{67e55044-10b1-426f-9247-bb680dd5a2a4]",
        "urn:uid:067e55044-10b1-426f-9247-bb680dd5a2a4",
        "g7e5504410b1426f9247bb680dd5a2a4",
        "",
    ];
    for input in inputs {
        let m = obj(vec![("u", s(input))]);
        let expected = uuid::Uuid::parse_str(input).ok().map(|u| u.as_u128());
        assert_eq!(get_uuid(&m, "u"), expected, "{}", input);
    }
    assert_eq!(get_uuid(&obj(vec![("u", s("{67e55044-10b1-426f-9247-bb680dd5a2a4}"))]), "u"), Some(0x67e5504410b1426f9247bb680dd5a2a4));
}
