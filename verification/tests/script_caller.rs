use cmdb::cloud_api::service::script_caller::{
    get_scripts, product_dir, run, script_path, step, text_le, RunAction, RunEvent, RunState,
};
use cmdb::json::{JsonMap, JsonNumber, JsonValue};

fn account_row(ak: &str, sk: &str) -> JsonValue {
    JsonValue::Object(JsonMap {
        entries: vec![
            ("nick_name".to_string(), JsonValue::Str("ops".to_string())),
            ("ak".to_string(), JsonValue::Str(ak.to_string())),
            ("sk".to_string(), JsonValue::Str(sk.to_string())),
        ],
    })
}

fn started() -> RunState {
    let (state, _) = run("/srv/scripts", "/usr/bin/python3", "tencent_cvm_list", "ops", "ap-guangzhou", "{}");
    state
}

fn error_parts(action: RunAction) -> (u16, String, Option<String>, u8) {
    match action {
        RunAction::Finish(Err(e)) => (e.code, e.key, e.msg, e.level),
        other => panic!("expected an error answer, got {:?}", other),
    }
}

#[test]
fn script_path_joins_all_but_the_last_segment() {
    assert_eq!(script_path("/srv/scripts", "tencent_cvm_list"), "/srv/scripts/tencent/cvm/tencent_cvm_list.py");
    assert_eq!(script_path("/s", "aws_ec2_describe_instances"), "/s/aws/ec2/describe/aws_ec2_describe_instances.py");
}

#[test]
fn script_path_without_underscore_has_an_empty_directory_part() {
    assert_eq!(script_path("/s", "list"), "/s//list.py");
    assert_eq!(script_path("/s", ""), "/s//.py");
}

#[test]
fn script_path_keeps_empty_segments() {
    assert_eq!(script_path("/s", "a__b"), "/s/a//a__b.py");
    assert_eq!(script_path("/s", "_x"), "/s//_x.py");
}

#[test]
fn run_starts_with_the_account_lookup() {
    let (state, action) = run("/srv/scripts", "/usr/bin/python3", "tencent_cvm_list", "ops", "ap-guangzhou", "{}");
    match state {
        RunState::AwaitingAccounts { script_path, python_path, region, params, cloud_user } => {
            assert_eq!(script_path, "/srv/scripts/tencent/cvm/tencent_cvm_list.py");
            assert_eq!(python_path, "/usr/bin/python3");
            assert_eq!(region, "ap-guangzhou");
            assert_eq!(params, "{}");
            assert_eq!(cloud_user, "ops");
        },
        other => panic!("unexpected state {:?}", other),
    }
    match action {
        RunAction::QueryAccounts(filter) => {
            assert_eq!(filter.entries.len(), 1);
            assert_eq!(filter.entries[0].0, "nick_name");
            assert_eq!(filter.entries[0].1, JsonValue::Str("ops".to_string()));
        },
        other => panic!("unexpected action {:?}", other),
    }
}

#[test]
fn run_with_no_account_is_a_bad_request() {
    let (next, action) = step(started(), RunEvent::Accounts(Ok(vec![])));
    assert!(matches!(next, RunState::Finished));
    let (code, key, msg, level) = error_parts(action);
    assert_eq!(code, 400);
    assert_eq!(key, "Service: run API script - get API Key");
    assert_eq!(msg.as_deref(), Some("CAN NOT find cloud Auth Token: ops"));
    assert_eq!(level, 1);
}

#[test]
fn run_account_lookup_failures_follow_their_code() {
    let (_, action) = step(started(), RunEvent::Accounts(Err((1, "bad filter".to_string()))));
    let (code, key, msg, _) = error_parts(action);
    assert_eq!((code, key.as_str(), msg.as_deref()), (400, "Service: run API script - get API Key", Some("bad filter")));
    let (_, action) = step(started(), RunEvent::Accounts(Err((0, "db down".to_string()))));
    let (code, _, msg, _) = error_parts(action);
    assert_eq!((code, msg.as_deref()), (500, Some("db down")));
}

#[test]
fn run_calls_the_script_with_the_first_accounts_keys() {
    let rows = vec![account_row("AK1", "SK1"), account_row("AK2", "SK2")];
    let (next, action) = step(started(), RunEvent::Accounts(Ok(rows)));
    assert!(matches!(next, RunState::AwaitingOutput));
    match action {
        RunAction::RunProcess(call) => {
            assert_eq!(call.program, "/usr/bin/python3");
            assert_eq!(
                call.args,
                vec!["/srv/scripts/tencent/cvm/tencent_cvm_list.py", "AK1", "SK1", "ap-guangzhou", "{}"]
            );
        },
        other => panic!("unexpected action {:?}", other),
    }
}

#[test]
fn run_prefers_stdout_then_stderr() {
    let (next, action) = step(RunState::AwaitingOutput, RunEvent::Output(Ok(("{\"a\":1}".to_string(), "warn".to_string()))));
    assert!(matches!(&next, RunState::AwaitingParse { output } if output == "{\"a\":1}"));
    assert!(matches!(&action, RunAction::ParseJson(t) if t == "{\"a\":1}"));
    let (next, action) = step(RunState::AwaitingOutput, RunEvent::Output(Ok((String::new(), "trace".to_string()))));
    assert!(matches!(&next, RunState::AwaitingParse { output } if output == "trace"));
    assert!(matches!(&action, RunAction::ParseJson(t) if t == "trace"));
}

#[test]
fn run_with_silent_script_fails() {
    let (next, action) = step(RunState::AwaitingOutput, RunEvent::Output(Ok((String::new(), String::new()))));
    assert!(matches!(next, RunState::Finished));
    let (code, key, msg, _) = error_parts(action);
    assert_eq!((code, key.as_str(), msg.as_deref()), (500, "Service: run API script", Some("Nothing in stdout")));
}

#[test]
fn run_process_error_is_reported() {
    let (_, action) = step(RunState::AwaitingOutput, RunEvent::Output(Err("NotFound".to_string())));
    let (code, key, msg, _) = error_parts(action);
    assert_eq!((code, key.as_str(), msg.as_deref()), (500, "Service: run API script", Some("Error: NotFound")));
}

#[test]
fn run_answers_the_parsed_output() {
    let state = RunState::AwaitingParse { output: "7".to_string() };
    let (next, action) = step(state, RunEvent::Parsed(Some(JsonValue::Number(JsonNumber::PosInt(7)))));
    assert!(matches!(next, RunState::Finished));
    match action {
        RunAction::Finish(Ok(ok)) => {
            assert_eq!(ok.code, 200);
            assert_eq!(ok.key, "Service: run API script");
            assert_eq!(ok.data, Some(JsonValue::Number(JsonNumber::PosInt(7))));
        },
        other => panic!("unexpected action {:?}", other),
    }
}

#[test]
fn run_with_unparsable_output_fails() {
    let state = RunState::AwaitingParse { output: "oops".to_string() };
    let (_, action) = step(state, RunEvent::Parsed(None));
    let (code, _, msg, _) = error_parts(action);
    assert_eq!((code, msg.as_deref()), (500, Some("Output JSON parse error: oops")));
}

#[test]
fn run_ends_within_three_steps() {
    let (state, _) = step(started(), RunEvent::Accounts(Ok(vec![account_row("a", "b")])));
    let (state, _) = step(state, RunEvent::Output(Ok(("[]".to_string(), String::new()))));
    let (state, action) = step(state, RunEvent::Parsed(Some(JsonValue::Array(vec![]))));
    assert!(matches!(state, RunState::Finished));
    assert!(matches!(action, RunAction::Finish(Ok(_))));
}

#[test]
fn text_order_is_that_of_rust_strings() {
    assert!(text_le("a", "b"));
    assert!(text_le("ab", "ab"));
    assert!(text_le("ab", "abc"));
    assert!(!text_le("abc", "ab"));
    assert!(text_le("Z", "a"));
    assert!(!text_le("b", "a"));
    assert!(text_le("", ""));
    assert!(text_le("é", "中"));
}

#[test]
fn get_scripts_lists_sorted_names_one_per_line() {
    let names = vec!["list.py".to_string(), "create.py".to_string(), "Zone.py".to_string(), "delete.py".to_string()];
    let ok = get_scripts(Ok(names)).unwrap();
    assert_eq!(ok.code, 200);
    assert_eq!(ok.key, "Get success");
    assert_eq!(ok.data, Some(JsonValue::Str("Zone.py\ncreate.py\ndelete.py\nlist.py\n".to_string())));
}

#[test]
fn get_scripts_keeps_duplicates() {
    let names = vec!["b".to_string(), "a".to_string(), "b".to_string()];
    let ok = get_scripts(Ok(names)).unwrap();
    assert_eq!(ok.data, Some(JsonValue::Str("a\nb\nb\n".to_string())));
}

#[test]
fn get_scripts_of_an_empty_directory_fails() {
    let e = get_scripts(Ok(vec![])).unwrap_err();
    assert_eq!((e.code, e.key.as_str(), e.msg.as_deref(), e.level), (500, "Service: get Product script", Some("Nothing in stdout"), 1));
}

#[test]
fn get_scripts_reports_read_errors() {
    let e = get_scripts(Err("No such file or directory (os error 2)".to_string())).unwrap_err();
    assert_eq!(e.code, 500);
    assert_eq!(e.msg.as_deref(), Some("Error: No such file or directory (os error 2)"));
}

#[test]
fn product_dir_joins_the_parts() {
    assert_eq!(product_dir("/srv/scripts", "tencent", "cvm"), "/srv/scripts/tencent/cvm");
}
