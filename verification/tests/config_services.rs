use cmdb::cloud_api::service::account_service as account_answers;
use cmdb::cloud_api::services::account_service as account_answers_v2;
use cmdb::cmdb::api::hey_hi_hello::hey;
use cmdb::cmdb::api::system_manage::{refresh_master, register_help};
use cmdb::cmdb::config::server::AllConfigs;
use cmdb::cmdb::service::km::cron_job_service;
use cmdb::cmdb::service::watchman::group_service;
use cmdb::cmdb::services::cloudserver::instance_service;
use cmdb::json::{JsonMap, JsonNumber, JsonValue};
use cmdb::mailman::MailManErr;
use cmdb::registry::{http_origin_text, master_api_url};
use cmdb::stamp::stamp_row;

fn jstr(v: &str) -> JsonValue {
    JsonValue::Str(v.to_string())
}

fn jnum(v: u64) -> JsonValue {
    JsonValue::Number(JsonNumber::PosInt(v))
}

fn jobj(list: Vec<(&str, JsonValue)>) -> JsonValue {
    JsonValue::Object(JsonMap { entries: list.into_iter().map(|(k, v)| (k.to_string(), v)).collect() })
}

fn full_config(extra: Vec<(&str, JsonValue)>) -> JsonValue {
    let mut server = vec![
        ("log_path", jstr("/var/log/cmdb")),
        ("log_level", jstr("info")),
        ("listen_addr", jstr("0.0.0.0")),
        ("listen_port", jnum(9100)),
        ("workers", jnum(70_000)),
        ("register_name", jstr("cmdb")),
        ("master_addr", jstr("10.0.0.1")),
        ("master_port", jnum(8000)),
    ];
    server.extend(extra);
    jobj(vec![("server_config", jobj(server)), ("db_config", jobj(vec![("db_str", jstr("postgres://db"))]))])
}

#[test]
fn new_config_has_the_defaults() {
    let c = AllConfigs::new();
    assert_eq!(c.listen_port, 9001);
    assert_eq!(c.workers, 2);
    assert_eq!(c.master_port, 8000);
    assert_eq!(c.allowed_methods, vec!["GET", "POST", "PATCH", "DELETE", "PUT", "OPTIONS"]);
    assert_eq!(c.allowed_headers, vec!["Content-Type", "Authorization"]);
    assert!(c.allowed_origin_list.is_empty());
    assert!(c.authenticate_bypass.is_empty());
    assert!(c.log_path.is_empty() && c.db_str.is_empty() && c.subsys_uuid.is_empty());
}

#[test]
fn config_problem_names_the_first_missing_setting() {
    assert_eq!(AllConfigs::config_problem(&full_config(vec![])), None);
    assert_eq!(
        AllConfigs::config_problem(&jobj(vec![])),
        Some("Config path server_config:log_path (string) not found".to_string())
    );
    let mut doc = full_config(vec![]);
    if let JsonValue::Object(m) = &mut doc {
        m.insert("db_config".to_string(), jobj(vec![("db_str", jnum(1))]));
    }
    assert_eq!(AllConfigs::config_problem(&doc), Some("Config path db_config:db_str (string) not found".to_string()));
    let doc = full_config(vec![("listen_port", jstr("80"))]);
    assert_eq!(AllConfigs::config_problem(&doc), None);
}

#[test]
fn config_problem_requires_numbers_for_ports() {
    let doc = jobj(vec![
        ("server_config", jobj(vec![
            ("log_path", jstr("p")),
            ("log_level", jstr("l")),
            ("listen_addr", jstr("a")),
            ("listen_port", jstr("80")),
        ])),
    ]);
    assert_eq!(AllConfigs::config_problem(&doc), Some("Config path server_config:listen_port (u16) not found".to_string()));
}

#[test]
fn reload_sets_every_setting() {
    let mut c = AllConfigs::new();
    let doc = full_config(vec![
        ("uuid", jstr("fixed-uuid")),
        ("allowed_origin_list", JsonValue::Array(vec![jstr("https://a"), jnum(3), jstr("https://b")])),
        ("allowed_methods", jstr("GET")),
        ("authenticate_bypass", JsonValue::Array(vec![])),
    ]);
    assert_eq!(c.reload(&doc).ok(), Some(0));
    assert_eq!(c.log_path, "/var/log/cmdb");
    assert_eq!(c.log_level, "info");
    assert_eq!(c.listen_addr, "0.0.0.0");
    assert_eq!(c.listen_port, 9100);
    assert_eq!(c.workers, 70_000u64 as u16);
    assert_eq!(c.allowed_origin_list, vec!["https://a", "https://b"]);
    assert_eq!(c.allowed_methods, vec!["GET", "POST", "PATCH", "DELETE", "PUT", "OPTIONS"]);
    assert_eq!(c.allowed_headers, vec!["Content-Type", "Authorization"]);
    assert!(c.authenticate_bypass.is_empty());
    assert_eq!(c.subsys_uuid, "fixed-uuid");
    assert_eq!(c.register_name, "cmdb");
    assert_eq!(c.master_addr, "10.0.0.1");
    assert_eq!(c.master_port, 8000);
    assert_eq!(c.db_str, "postgres://db");
}

#[test]
fn reload_falls_back_for_lists_and_uuid() {
    let mut c = AllConfigs::new();
    assert_eq!(c.reload(&full_config(vec![])).ok(), Some(0));
    assert_eq!(c.allowed_origin_list, vec!["http://localhost:8000", "http://127.0.0.1:8000"]);
    assert_eq!(c.authenticate_bypass, vec!["/api/hey", "/api/manage/refresh_master"]);
    assert_eq!(c.subsys_uuid.len(), 36);
    assert_eq!(c.subsys_uuid.chars().nth(14), Some('4'));
    assert_eq!(c.subsys_uuid.chars().filter(|ch| *ch == '-').count(), 4);
    for (p, ch) in c.subsys_uuid.chars().enumerate() {
        if [8, 13, 18, 23].contains(&p) {
            assert_eq!(ch, '-');
        } else {
            assert!(ch.is_ascii_hexdigit() && !ch.is_ascii_uppercase(), "{}", c.subsys_uuid);
        }
    }
    let mut again = AllConfigs::new();
    assert_eq!(again.reload(&full_config(vec![])).ok(), Some(0));
    assert_ne!(again.subsys_uuid, c.subsys_uuid);
}

#[test]
fn register_help_prefills_the_registration() {
    let ok = register_help("cmdb", "0.0.0.0", 9001, "u-1").ok().unwrap();
    assert_eq!(ok.code, 200);
    assert_eq!(ok.key, "Register help generated");
    let body = match ok.data {
        Some(JsonValue::Object(m)) => m,
        other => panic!("unexpected data {:?}", other),
    };
    assert_eq!(body.get("subsys_name"), Some(&jstr("cmdb")));
    assert_eq!(body.get("url"), Some(&jstr("http://0.0.0.0:9001")));
    assert_eq!(body.get("token"), Some(&jstr("u-1")));
    assert_eq!(body.get("is_enable"), Some(&JsonValue::Bool(true)));
    assert_eq!(body.get("relate_service_id"), Some(&jnum(0)));
    assert_eq!(body.len(), 5);
}

#[test]
fn cloud_api_register_help_uses_its_own_key() {
    let ok = cmdb::cloud_api::api::system_manage::register_help("cloud", "127.0.0.1", 80, "t").ok().unwrap();
    assert_eq!(ok.key, "Register info generated");
}

#[test]
fn master_urls_are_built_from_host_and_port() {
    assert_eq!(http_origin_text("example.org", 8080), "http://example.org:8080");
    assert_eq!(master_api_url("10.0.0.1", 8000), "http://10.0.0.1:8000/api");
}

#[test]
fn refresh_master_passes_the_master_answer_on() {
    let ok = refresh_master(Ok(jstr("done"))).ok().unwrap();
    assert_eq!((ok.code, ok.key.as_str()), (200, "Master refreshed"));
    assert_eq!(ok.data, Some(jstr("done")));
    let e = refresh_master(Err(MailManErr::new(502, "Bad gateway", None, 2))).err().unwrap();
    assert_eq!((e.code, e.key.as_str(), e.msg, e.level), (502, "Bad gateway", None, 2));
}

#[test]
fn hey_answers() {
    assert_eq!(hey(), "hi hello! -from CMDB");
}

#[test]
fn stamp_row_sets_both_times_and_keeps_the_rest() {
    let row = JsonMap { entries: vec![("id".to_string(), jnum(1)), ("create_at".to_string(), JsonValue::Null)] };
    let stamped = match stamp_row(row) {
        JsonValue::Object(m) => m,
        other => panic!("unexpected {:?}", other),
    };
    assert_eq!(stamped.get("id"), Some(&jnum(1)));
    for key in ["create_at", "update_at"] {
        match stamped.get(key) {
            Some(JsonValue::Str(t)) => {
                assert!(t.len() >= 19, "{}", t);
                assert_eq!(&t[4..5], "-");
                assert_eq!(&t[10..11], " ");
            },
            other => panic!("unexpected {:?}", other),
        }
    }
}

#[test]
fn listing_answers_follow_the_failure_rule() {
    let ok = cron_job_service::get_all(Ok(vec![jnum(1)])).ok().unwrap();
    assert_eq!((ok.code, ok.key.as_str()), (200, "Service: All cron job"));
    assert_eq!(ok.data, Some(vec![jnum(1)]));
    let e = cron_job_service::get_all(Err((0, "db".to_string()))).err().unwrap();
    assert_eq!((e.code, e.msg.as_deref(), e.level), (500, Some("db"), 1));
    let e = cron_job_service::get_all(Err((1, "bad".to_string()))).err().unwrap();
    assert_eq!(e.code, 400);
}

#[test]
fn writing_answers_carry_the_count() {
    let ok = cron_job_service::new_table(Ok(3)).ok().unwrap();
    assert_eq!(ok.data, Some(jstr("New line: 3")));
    let ok = cron_job_service::update_table(Ok(1)).ok().unwrap();
    assert_eq!((ok.key.as_str(), ok.data), ("Service: Update cron job", Some(jstr("Update line: 1"))));
    let ok = cron_job_service::delete_table(Ok(0)).ok().unwrap();
    assert_eq!(ok.data, Some(jstr("Delete line: 0")));
    let e = group_service::update_table(Err((1, "id: 2 not found".to_string()))).err().unwrap();
    assert_eq!((e.code, e.msg.as_deref()), (400, Some("id: 2 not found")));
}

#[test]
fn instance_service_uses_separate_error_keys() {
    let e = instance_service::new_table(Err((0, "x".to_string()))).err().unwrap();
    assert_eq!((e.code, e.key.as_str()), (500, "Internal Server Error"));
    let e = instance_service::new_table(Err((1, "y".to_string()))).err().unwrap();
    assert_eq!((e.code, e.key.as_str()), (400, "Bad requests"));
}

#[test]
fn account_answers() {
    let ok = account_answers::new(Ok(1)).ok().unwrap();
    assert_eq!((ok.key.as_str(), ok.data.as_deref()), ("Service: Create CloudAccount", Some("Line changed: 1")));
    let e = account_answers::get_all(Err((1, "bad".to_string()))).err().unwrap();
    assert_eq!(e.code, 400);
    let e = account_answers::get_all(Err((0, "db".to_string()))).err().unwrap();
    assert_eq!(e.code, 500);
    let e = account_answers::delete(Err((1, "gone".to_string()))).err().unwrap();
    assert_eq!(e.code, 400);
    let data = JsonMap { entries: vec![("id".to_string(), jnum(4_294_967_301))] };
    assert_eq!(account_answers_v2::delete_id(&data), Some(5));
    let e = account_answers_v2::delete(&JsonMap::new(), None).err().unwrap();
    assert_eq!((e.code, e.key.as_str(), e.msg.as_deref()), (400, "Bad requests", Some("id not found")));
    let ok = account_answers_v2::delete(&data, Some(Ok(1))).ok().unwrap();
    assert_eq!((ok.key.as_str(), ok.data), ("Delete cloud account", Some(jstr("Delete line: 1"))));
}
