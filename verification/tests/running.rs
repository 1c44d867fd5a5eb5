use restcommander::engine::{finish, prepare, EngineError};
use restcommander::execution::{
    conclude, copy_environment, normalize_output, plan, render_value, report, EnvVar,
    ExecutionError, Finished,
};
use restcommander::pages::{
    fill, index_html_source, maybe_read_index_html_file, redirect_root_to_index_html, FileRead,
    IndexSource, Page, Redirect,
};
use restcommander::resolve::ResolveError;
use restcommander::server::{maybe_handle_message, startup_outcome, uses_tls};
use restcommander::text::{find_char, joined, render_i64, render_u64};
use restcommander::tree::{CommandNode, NodeKind, ParamDecl, ParamType, ParamValue};
use restcommander::validate::{
    Argument, Assignment, CommandInput, NormalizedInput, RawValue, ValidationError,
};

fn leaf(parameters: Vec<ParamDecl>) -> CommandNode {
    CommandNode {
        name: "run".to_string(),
        kind: NodeKind::Leaf,
        description: None,
        children: Vec::new(),
        parameters,
        executable_path: Some("/srv/commands/run".to_string()),
    }
}

fn root() -> CommandNode {
    let name = ParamDecl {
        name: "name".to_string(),
        kind: ParamType::Text,
        required: true,
        default: None,
        allowed: Vec::new(),
    };
    CommandNode {
        name: "root".to_string(),
        kind: NodeKind::Group,
        description: None,
        children: vec![leaf(vec![name])],
        parameters: Vec::new(),
        executable_path: None,
    }
}

fn env() -> Vec<EnvVar> {
    vec![EnvVar { name: "A".to_string(), value: "1".to_string() }]
}

#[test]
fn numerals() {
    assert_eq!(render_u64(0), "0");
    assert_eq!(render_u64(7), "7");
    assert_eq!(render_u64(1203), "1203");
    assert_eq!(render_u64(u64::MAX), "18446744073709551615");
    assert_eq!(render_i64(0), "0");
    assert_eq!(render_i64(-1), "-1");
    assert_eq!(render_i64(i64::MAX), "9223372036854775807");
    assert_eq!(render_i64(i64::MIN), "-9223372036854775808");
}

#[test]
fn texts() {
    assert_eq!(find_char("a:b:c", ':'), Some(1));
    assert_eq!(find_char("abc", ':'), None);
    assert_eq!(find_char("é:b", ':'), Some(1));
    assert_eq!(joined("ab", "cd"), "abcd");
}

#[test]
fn values_are_written_for_the_child() {
    assert_eq!(render_value(&ParamValue::Text("a b".to_string())), "a b");
    assert_eq!(render_value(&ParamValue::Integer(-42)), "-42");
    assert_eq!(render_value(&ParamValue::Boolean(true)), "true");
    assert_eq!(render_value(&ParamValue::Boolean(false)), "false");
}

#[test]
fn every_value_reaches_the_child() {
    let input = NormalizedInput {
        values: vec![
            Assignment { name: "name".to_string(), value: ParamValue::Text("web".to_string()) },
            Assignment { name: "count".to_string(), value: ParamValue::Integer(3) },
            Assignment { name: "force".to_string(), value: ParamValue::Boolean(true) },
        ],
    };
    let invocation = plan(&leaf(Vec::new()), &input, &env()).unwrap();
    assert_eq!(invocation.program, "/srv/commands/run");
    assert_eq!(invocation.arguments, vec!["--name", "web", "--count", "3", "--force", "true"]);
    assert_eq!(invocation.environment, env());
    assert_eq!(copy_environment(&env()), env());
}

#[test]
fn node_without_executable_cannot_be_started() {
    let group = root();
    let outcome = plan(&group, &NormalizedInput { values: Vec::new() }, &env());
    assert_eq!(
        outcome,
        Err(ExecutionError::SpawnFailed { message: "the command has no executable".to_string() })
    );
    assert_eq!(
        outcome.unwrap_err().message(),
        "could not start the command: the command has no executable"
    );
}

#[test]
fn output_is_read_strictly() {
    assert_eq!(normalize_output(&"12".to_string()), Some(serde_json::Value::from(12)));
    assert_eq!(
        normalize_output(&" \"text\" ".to_string()),
        Some(serde_json::Value::String("text".to_string()))
    );
    assert_eq!(normalize_output(&"{\"ok\":true} trailing".to_string()), None);
    assert_eq!(normalize_output(&"{'ok':true}".to_string()), None);
    assert_eq!(normalize_output(&String::new()), None);
}

#[test]
fn nonzero_exit_is_reported_as_data() {
    let result = report(Finished { exit_code: 9, stdout: "[1]".to_string(), duration_micros: 3 });
    assert_eq!(result.exit_code, 9);
    assert_eq!(result.stdout, "[1]");
    assert_eq!(
        result.decoded_stdout,
        Some(serde_json::Value::Array(vec![serde_json::Value::from(1)]))
    );
    assert_eq!(result.stats.duration_micros, 3);
    assert!(conclude(Ok(Finished { exit_code: -1, stdout: String::new(), duration_micros: 0 })).is_ok());
}

#[test]
fn request_stops_at_the_first_failure() {
    let given = CommandInput {
        arguments: vec![Argument { name: "name".to_string(), value: RawValue::Integer(1) }],
        statistics: false,
    };
    let missing = prepare(&root(), &vec!["walk".to_string()], &given, &env());
    assert_eq!(
        missing,
        Err(EngineError::Resolve(ResolveError::NotFound { matched: Vec::new() }))
    );
    assert_eq!(missing.unwrap_err().message(), "command not found below ");
    assert_eq!(
        prepare(&root(), &vec!["run".to_string()], &given, &env()),
        Err(EngineError::Validation(ValidationError::TypeMismatch { name: "name".to_string() }))
    );
    let good = CommandInput {
        arguments: vec![Argument { name: "name".to_string(), value: RawValue::Text("x".to_string()) }],
        statistics: false,
    };
    let invocation = prepare(&root(), &vec!["run".to_string()], &good, &env()).unwrap();
    assert_eq!(invocation.arguments, vec!["--name", "x"]);
}

#[test]
fn request_ends_with_the_report() {
    let done = finish(Ok(Finished { exit_code: 3, stdout: "no".to_string(), duration_micros: 1 }))
        .unwrap();
    assert_eq!(done.exit_code, 3);
    assert_eq!(done.decoded_stdout, None);
    assert_eq!(
        finish(Err("denied".to_string())),
        Err(EngineError::Execution(ExecutionError::SpawnFailed { message: "denied".to_string() }))
    );
}

#[test]
fn index_page_sources() {
    assert_eq!(index_html_source(false, "/var/www"), IndexSource::Forbidden);
    assert_eq!(index_html_source(false, ""), IndexSource::Forbidden);
    assert_eq!(index_html_source(true, ""), IndexSource::BuiltIn);
    assert_eq!(index_html_source(true, "/var/www"), IndexSource::File);
}

#[test]
fn index_page_is_filled_in() {
    let built_in = "<title>{{TITLE}}</title><base href=\"{{BASE_PATH}}\">{{TITLE}}";
    assert_eq!(fill(built_in, "/x/", "T"), "<title>T</title><base href=\"/x/\">T");
    assert_eq!(fill(built_in, "", "T"), "<title>T</title><base href=\"/\">T");
    let unavailable = "<html><body>Service Unavailable</body></html>".to_string();
    assert_eq!(
        maybe_read_index_html_file(IndexSource::Forbidden, &FileRead::NotFound, built_in, "/", "T"),
        Page { status: 403, body: unavailable.clone() }
    );
    assert_eq!(
        maybe_read_index_html_file(IndexSource::BuiltIn, &FileRead::Failed, "{{TITLE}}", "/", "T"),
        Page { status: 200, body: "T".to_string() }
    );
    assert_eq!(
        maybe_read_index_html_file(
            IndexSource::File,
            &FileRead::Read("{{BASE_PATH}}index".to_string()),
            "{{TITLE}}",
            "/b/",
            "T"
        ),
        Page { status: 200, body: "/b/index".to_string() }
    );
    assert_eq!(
        maybe_read_index_html_file(IndexSource::File, &FileRead::NotFound, "{{TITLE}}", "/", "T"),
        Page { status: 200, body: "T".to_string() }
    );
    assert_eq!(
        maybe_read_index_html_file(IndexSource::File, &FileRead::Failed, "{{TITLE}}", "/", "T"),
        Page { status: 503, body: unavailable }
    );
}

#[test]
fn root_is_redirected() {
    assert_eq!(
        redirect_root_to_index_html(true, "/base/"),
        Redirect {
            status: 301,
            location: Some("/base/static/index.html".to_string()),
            body: String::new()
        }
    );
    assert_eq!(
        redirect_root_to_index_html(false, "/base/"),
        Redirect {
            status: 403,
            location: None,
            body: "<html><body>Service Unavailable!</body></html>".to_string()
        }
    );
}

#[test]
fn listener_decisions() {
    let cert = Some("cert.pem".to_string());
    let key = Some("key.pem".to_string());
    assert!(uses_tls(&cert, &key));
    assert!(!uses_tls(&cert, &None));
    assert!(!uses_tls(&None, &key));
    assert!(!uses_tls(&None, &None));
    assert_eq!(startup_outcome(Ok(Some(()))), Ok(()));
    assert_eq!(
        startup_outcome(Ok(None)),
        Err("could not receive HTTP server ack after initialization after 5s".to_string())
    );
    assert_eq!(startup_outcome(Err("closed".to_string())), Err("closed".to_string()));
    assert_eq!(maybe_handle_message(Ok(None)), Ok(false));
    assert_eq!(maybe_handle_message(Ok(Some(()))), Ok(true));
    assert_eq!(maybe_handle_message(Err("closed".to_string())), Err("closed".to_string()));
}
