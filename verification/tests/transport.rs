use restcommander::auth::{
    authenticate, check_credentials, check_payload, has_text_credentials, match_credentials,
    new_password_hash, password_saved, try_authenticate,
};
use restcommander::config::{make_environment_variables_map, ConfigSnapshot, LogLevel};
use restcommander::errors::{
    exit_code_to_status_code, HTTPAPIError, HTTPAuthenticationError, HTTPError,
};
use restcommander::execution::{CommandStats, EnvVar, Finished};
use restcommander::response::{
    command_response, handle_rejection, make_api_response, make_api_response_ok,
    make_api_response_ok_with_result, make_api_response_with_header_and_stats,
    make_api_response_with_headers, make_api_response_with_stats, prepare_command, ApiBody,
    ApiResponse, Header, Payload, Rejected,
};
use restcommander::tree::{CommandNode, NodeKind, ParamDecl, ParamType, ParamValue};
use restcommander::validate::{Argument, CommandInput, RawValue};

const SECRET_SHA512: &str = "bd2b1aaf7ef4f09be9f52ce2d8d599674d81aa9d6a4421696dc4d93dd0619d682ce56b4d64a9ef097761ced99e0f67265b5f76085e5b0ee7ca4696b2ad6fe2b2";

fn json_type() -> Header {
    Header {
        name: "content-type".to_string(),
        value: "application/json; charset=utf-8".to_string(),
    }
}

fn challenge() -> Header {
    Header {
        name: "www-authenticate".to_string(),
        value: "Basic realm=\"Restricted\", charset=\"UTF-8\"".to_string(),
    }
}

fn plain(status: u16, payload: Payload, code: Option<i32>) -> ApiResponse {
    ApiResponse {
        status,
        headers: vec![json_type()],
        body: ApiBody { ok: status == 200, payload, statistics: None, code },
    }
}

fn text(s: &str) -> Payload {
    Payload::Text(s.to_string())
}

fn judge(header: &str) -> Result<(), HTTPAuthenticationError> {
    try_authenticate(&"admin".to_string(), &SECRET_SHA512.to_string(), &header.to_string())
}

#[test]
fn api_error_codes() {
    let m = || "m".to_string();
    assert_eq!(HTTPAPIError::CommandNotFound { message: m() }.http_error_code(), 1002);
    assert_eq!(HTTPAPIError::CheckInput { message: m() }.http_error_code(), 1003);
    assert_eq!(HTTPAPIError::InitializeCommand { message: m() }.http_error_code(), 1004);
    assert_eq!(HTTPAPIError::ReloadCommands { message: m() }.http_error_code(), 1005);
    assert_eq!(HTTPAPIError::ReloadConfig { message: m() }.http_error_code(), 1006);
    assert_eq!(HTTPAPIError::EmptyPassword.http_error_code(), 1007);
    assert_eq!(HTTPAPIError::NoPasswordFile.http_error_code(), 1008);
    assert_eq!(HTTPAPIError::SaveNewPassword { message: m() }.http_error_code(), 1010);
}

#[test]
fn api_error_statuses() {
    let m = || "m".to_string();
    assert_eq!(HTTPAPIError::CommandNotFound { message: m() }.http_status_code(), 404);
    assert_eq!(HTTPAPIError::CheckInput { message: m() }.http_status_code(), 400);
    assert_eq!(HTTPAPIError::InitializeCommand { message: m() }.http_status_code(), 500);
    assert_eq!(HTTPAPIError::ReloadCommands { message: m() }.http_status_code(), 500);
    assert_eq!(HTTPAPIError::ReloadConfig { message: m() }.http_status_code(), 500);
    assert_eq!(HTTPAPIError::EmptyPassword.http_status_code(), 400);
    assert_eq!(HTTPAPIError::NoPasswordFile.http_status_code(), 503);
    assert_eq!(HTTPAPIError::SaveNewPassword { message: m() }.http_status_code(), 500);
}

#[test]
fn authentication_error_codes_and_statuses() {
    let s = || "s".to_string();
    let all = [
        (HTTPAuthenticationError::Base64Decode { data: s(), source: s() }, 2002, 400),
        (HTTPAuthenticationError::UsernameOrPasswordIsNotFound { data: s() }, 2003, 401),
        (HTTPAuthenticationError::UsernameOrPasswordIsNotSet, 2004, 409),
        (HTTPAuthenticationError::UnknownMethod { method: s() }, 2005, 400),
        (HTTPAuthenticationError::InvalidBasicAuthentication { header_value: s() }, 2006, 400),
        (HTTPAuthenticationError::InvalidUsernameOrPassword, 2007, 401),
    ];
    for (error, code, status) in all {
        assert_eq!(error.http_error_code(), code);
        assert_eq!(error.http_status_code(), status);
    }
}

#[test]
fn api_error_messages() {
    assert_eq!(
        HTTPAPIError::CommandNotFound { message: "no \"such\" command".to_string() }.message(),
        "\"no \\\"such\\\" command\""
    );
    assert_eq!(HTTPAPIError::CheckInput { message: "bad".to_string() }.message(), "\"bad\"");
    assert_eq!(HTTPAPIError::EmptyPassword.message(), "Password should not be empty");
    assert_eq!(
        HTTPAPIError::NoPasswordFile.message(),
        "Server configuration does not allow client to change the password"
    );
    assert_eq!(
        HTTPAPIError::SaveNewPassword { message: "disk full".to_string() }.message(),
        "Could not save new password to configured password file (\"disk full\")"
    );
}

#[test]
fn authentication_error_messages() {
    assert_eq!(
        HTTPAuthenticationError::Base64Decode {
            data: "%%".to_string(),
            source: "InvalidByte(0, 37)".to_string()
        }
        .message(),
        "could not decode authorization header value \"%%\" to base64 (InvalidByte(0, 37))"
    );
    assert_eq!(
        HTTPAuthenticationError::UsernameOrPasswordIsNotSet.message(),
        "username or password is not set in server configuration"
    );
    assert_eq!(
        HTTPAuthenticationError::UsernameOrPasswordIsNotFound { data: "abc".to_string() }.message(),
        "could not found username or password in \"abc\""
    );
    assert_eq!(
        HTTPAuthenticationError::UnknownMethod { method: "Bearer".to_string() }.message(),
        "unknown authentication method \"Bearer\""
    );
    assert_eq!(
        HTTPAuthenticationError::InvalidBasicAuthentication { header_value: "x".to_string() }
            .message(),
        "invalid basic authentication with header value \"x\""
    );
    assert_eq!(
        HTTPAuthenticationError::InvalidUsernameOrPassword.message(),
        "invalid username or password"
    );
    assert_eq!(
        HTTPError::API(HTTPAPIError::EmptyPassword).message(),
        "Password should not be empty"
    );
    assert_eq!(
        HTTPError::Authentication(HTTPAuthenticationError::InvalidUsernameOrPassword).message(),
        "invalid username or password"
    );
}

#[test]
fn exit_codes_map_to_statuses() {
    let expected = [200, 500, 400, 403, 404, 503, 406, 501, 409, 408];
    for (code, status) in expected.iter().enumerate() {
        assert_eq!(exit_code_to_status_code(code as i32), *status);
    }
    for code in [10, 11, 127, 255, -1, i32::MIN, i32::MAX] {
        assert_eq!(exit_code_to_status_code(code), 500);
    }
}

fn snapshot(host: &str) -> ConfigSnapshot {
    ConfigSnapshot {
        host: host.to_string(),
        port: 1995,
        http_base_path: "/base/".to_string(),
        username: "admin".to_string(),
        commands_root_directory: "/srv/commands".to_string(),
        logging_level: LogLevel::Debug,
    }
}

fn var(name: &str, value: &str) -> EnvVar {
    EnvVar { name: name.to_string(), value: value.to_string() }
}

#[test]
fn environment_tells_the_configuration() {
    assert_eq!(
        make_environment_variables_map(&snapshot("192.168.1.5")),
        vec![
            var("RESTCOMMANDER_CONFIG_SERVER_HOST", "192.168.1.5"),
            var("RESTCOMMANDER_CONFIG_SERVER_POST", "1995"),
            var("RESTCOMMANDER_CONFIG_SERVER_HTTP_BASE_PATH", "/base/"),
            var("RESTCOMMANDER_CONFIG_SERVER_USERNAME", "admin"),
            var("RESTCOMMANDER_CONFIG_COMMANDS_ROOT_DIRECTORY", "/srv/commands"),
            var("RESTCOMMANDER_CONFIG_LOGGING_LEVEL_NAME", "DEBUG"),
        ]
    );
}

#[test]
fn every_address_is_reached_at_loopback() {
    let vars = make_environment_variables_map(&snapshot("0.0.0.0"));
    assert_eq!(vars[0], var("RESTCOMMANDER_CONFIG_SERVER_HOST", "127.0.0.1"));
}

#[test]
fn ports_and_levels_are_written_out() {
    for (port, written) in [(0u16, "0"), (9, "9"), (10, "10"), (443, "443"), (65535, "65535")] {
        let mut cfg = snapshot("localhost");
        cfg.port = port;
        assert_eq!(make_environment_variables_map(&cfg)[1].value, written);
    }
    let levels = [
        (LogLevel::Error, "ERROR"),
        (LogLevel::Warn, "WARN"),
        (LogLevel::Info, "INFO"),
        (LogLevel::Debug, "DEBUG"),
        (LogLevel::Trace, "TRACE"),
    ];
    for (level, name) in levels {
        assert_eq!(level.name(), name);
    }
}

#[test]
fn right_credentials_are_accepted() {
    assert_eq!(judge("Basic YWRtaW46c2VjcmV0"), Ok(()));
}

#[test]
fn password_may_hold_a_colon() {
    let digest = "f268b7dd31be8f7cf298762950a00b7c7f6f008a0ecac7badfdc9f82a058ba33d7808543f052d8b6a4a63f2344d23a27dae7a389e3928cb327556842f38cf640";
    let outcome = try_authenticate(
        &"admin".to_string(),
        &digest.to_string(),
        &"Basic YWRtaW46c2U6Y3JldA==".to_string(),
    );
    assert_eq!(outcome, Ok(()));
}

#[test]
fn wrong_credentials_are_turned_down() {
    assert_eq!(
        judge("Basic YWRtaW46d3Jvbmc="),
        Err(HTTPAuthenticationError::InvalidUsernameOrPassword)
    );
    let other_user = try_authenticate(
        &"root".to_string(),
        &SECRET_SHA512.to_string(),
        &"Basic YWRtaW46c2VjcmV0".to_string(),
    );
    assert_eq!(other_user, Err(HTTPAuthenticationError::InvalidUsernameOrPassword));
}

#[test]
fn nothing_configured_accepts_everything() {
    assert_eq!(try_authenticate(&String::new(), &String::new(), &"anything".to_string()), Ok(()));
}

#[test]
fn half_configured_accepts_nothing() {
    let header = "Basic YWRtaW46c2VjcmV0".to_string();
    assert_eq!(
        try_authenticate(&"admin".to_string(), &String::new(), &header),
        Err(HTTPAuthenticationError::UsernameOrPasswordIsNotSet)
    );
    assert_eq!(
        try_authenticate(&String::new(), &SECRET_SHA512.to_string(), &header),
        Err(HTTPAuthenticationError::UsernameOrPasswordIsNotSet)
    );
}

#[test]
fn malformed_headers_are_turned_down() {
    assert_eq!(
        judge("Basic"),
        Err(HTTPAuthenticationError::InvalidBasicAuthentication {
            header_value: "Basic".to_string()
        })
    );
    assert_eq!(
        judge("Bearer abc def"),
        Err(HTTPAuthenticationError::UnknownMethod { method: "Bearer".to_string() })
    );
    assert_eq!(
        judge("basic YWRtaW46c2VjcmV0"),
        Err(HTTPAuthenticationError::UnknownMethod { method: "basic".to_string() })
    );
    assert_eq!(
        judge("Basic %%"),
        Err(HTTPAuthenticationError::Base64Decode {
            data: "%%".to_string(),
            source: "InvalidByte(0, 37)".to_string()
        })
    );
    assert_eq!(
        judge("Basic YWRtaW5zZWNyZXQ="),
        Err(HTTPAuthenticationError::UsernameOrPasswordIsNotFound {
            data: "adminsecret".to_string()
        })
    );
}

#[test]
fn credentials_that_are_no_text_get_no_verdict() {
    let user = "admin".to_string();
    let digest = SECRET_SHA512.to_string();
    let broken = "Basic //4=".to_string();
    assert!(!has_text_credentials(&user, &digest, &broken));
    assert_eq!(authenticate(&user, &digest, &broken), None);
    assert!(has_text_credentials(&String::new(), &String::new(), &broken));
    assert_eq!(authenticate(&String::new(), &String::new(), &broken), Some(Ok(())));
    assert!(has_text_credentials(&user, &digest, &"Bearer //4=".to_string()));
    let good = "Basic YWRtaW46c2VjcmV0".to_string();
    assert!(has_text_credentials(&user, &digest, &good));
    assert_eq!(authenticate(&user, &digest, &good), Some(Ok(())));
    assert_eq!(
        authenticate(&user, &digest, &"Basic %%".to_string()),
        Some(Err(HTTPAuthenticationError::Base64Decode {
            data: "%%".to_string(),
            source: "InvalidByte(0, 37)".to_string()
        }))
    );
    assert_eq!(
        authenticate(&user, &digest, &"Basic".to_string()),
        Some(Err(HTTPAuthenticationError::InvalidBasicAuthentication {
            header_value: "Basic".to_string()
        }))
    );
}

#[test]
fn steps_of_authentication() {
    let user = "admin".to_string();
    let digest = SECRET_SHA512.to_string();
    assert_eq!(match_credentials(&user, &digest, &user, &digest), Ok(()));
    assert_eq!(
        match_credentials(&user, &digest, &user, &"00".to_string()),
        Err(HTTPAuthenticationError::InvalidUsernameOrPassword)
    );
    assert_eq!(check_credentials(&user, &digest, "admin:secret"), Ok(()));
    assert_eq!(
        check_credentials(&user, &digest, "admin:"),
        Err(HTTPAuthenticationError::InvalidUsernameOrPassword)
    );
    assert_eq!(check_payload(&user, &digest, "x", Ok(b"admin:secret".to_vec())), Ok(()));
    assert_eq!(
        check_payload(&user, &digest, "x", Ok("admin:sécrèt".as_bytes().to_vec())),
        Err(HTTPAuthenticationError::InvalidUsernameOrPassword)
    );
    assert_eq!(
        check_payload(&user, &digest, "x", Err("InvalidLength".to_string())),
        Err(HTTPAuthenticationError::Base64Decode {
            data: "x".to_string(),
            source: "InvalidLength".to_string()
        })
    );
}

#[test]
fn new_password_is_hashed() {
    let file = "/etc/restcommander/password".to_string();
    assert_eq!(new_password_hash(&"secret".to_string(), &file), Ok(SECRET_SHA512.to_string()));
    assert_eq!(new_password_hash(&String::new(), &file), Err(HTTPAPIError::EmptyPassword));
    assert_eq!(
        new_password_hash(&"secret".to_string(), &String::new()),
        Err(HTTPAPIError::NoPasswordFile)
    );
    assert_eq!(new_password_hash(&String::new(), &String::new()), Err(HTTPAPIError::EmptyPassword));
}

#[test]
fn saving_the_password_is_answered() {
    assert_eq!(password_saved(Ok(())), Ok(plain(200, Payload::Absent, None)));
    assert_eq!(
        password_saved(Err("read-only".to_string())),
        Err(HTTPAPIError::SaveNewPassword { message: "read-only".to_string() })
    );
}

#[test]
fn answers_are_put_together() {
    assert_eq!(make_api_response_ok(), plain(200, Payload::Absent, None));
    assert_eq!(make_api_response_ok_with_result(text("done")), plain(200, text("done"), None));
    assert_eq!(
        make_api_response(text("why"), 409, Some(7)),
        plain(409, text("why"), Some(7))
    );
    let stats = CommandStats { duration_micros: 12 };
    let with_stats = make_api_response_with_stats(text("out"), 200, Some(stats), None);
    assert_eq!(with_stats.body.statistics, Some(stats));
    assert!(with_stats.body.ok);
    let with_headers =
        make_api_response_with_headers(Payload::Absent, 401, Some(vec![challenge()]), Some(2001));
    assert_eq!(with_headers.headers, vec![challenge(), json_type()]);
    assert!(!with_headers.body.ok);
    let all = make_api_response_with_header_and_stats(
        text("x"),
        500,
        Some(vec![challenge()]),
        Some(stats),
        Some(1001),
    );
    assert_eq!(
        all,
        ApiResponse {
            status: 500,
            headers: vec![challenge(), json_type()],
            body: ApiBody {
                ok: false,
                payload: text("x"),
                statistics: Some(stats),
                code: Some(1001)
            },
        }
    );
}

#[test]
fn null_is_not_shown() {
    let null = make_api_response_ok_with_result(Payload::Json(serde_json::Value::Null));
    assert_eq!(null.body.payload, Payload::Absent);
    let kept = make_api_response_ok_with_result(Payload::Json(serde_json::Value::Bool(false)));
    assert_eq!(kept.body.payload, Payload::Json(serde_json::Value::Bool(false)));
}

fn finished(exit_code: i32, stdout: &str) -> Finished {
    Finished { exit_code, stdout: stdout.to_string(), duration_micros: 250 }
}

#[test]
fn finished_runs_are_answered() {
    let mut object = serde_json::Map::new();
    object.insert("ok".to_string(), serde_json::Value::Bool(true));
    assert_eq!(
        command_response(Ok(finished(0, "{\"ok\":true}")), false),
        Ok(plain(200, Payload::Json(serde_json::Value::Object(object)), None))
    );
    assert_eq!(
        command_response(Ok(finished(2, "plain text")), false),
        Ok(plain(400, text("plain text"), Some(1001)))
    );
    assert_eq!(
        command_response(Ok(finished(0, "")), false),
        Ok(plain(200, Payload::Absent, None))
    );
    assert_eq!(
        command_response(Ok(finished(0, "null")), false),
        Ok(plain(200, Payload::Absent, None))
    );
    assert_eq!(
        command_response(Ok(finished(77, "")), false),
        Ok(plain(500, Payload::Absent, Some(1001)))
    );
    let measured = command_response(Ok(finished(4, "gone")), true).unwrap();
    assert_eq!(measured.status, 404);
    assert_eq!(measured.body.statistics, Some(CommandStats { duration_micros: 250 }));
}

#[test]
fn failed_start_is_an_initialize_error() {
    assert_eq!(
        command_response(Err("no such file".to_string()), true),
        Err(HTTPAPIError::InitializeCommand {
            message: "could not start the command: no such file".to_string()
        })
    );
}

#[test]
fn rejections_are_answered() {
    let api = HTTPAPIError::NoPasswordFile;
    assert_eq!(
        handle_rejection(Rejected::Known(HTTPError::API(api))),
        Ok(plain(
            503,
            text("Server configuration does not allow client to change the password"),
            Some(1008)
        ))
    );
    let denied = handle_rejection(Rejected::Known(HTTPError::Authentication(
        HTTPAuthenticationError::InvalidUsernameOrPassword,
    )))
    .unwrap();
    assert_eq!(denied.status, 401);
    assert_eq!(denied.headers, vec![challenge(), json_type()]);
    assert_eq!(denied.body.payload, text("invalid username or password"));
    assert_eq!(denied.body.code, Some(2007));
    let unset = handle_rejection(Rejected::Known(HTTPError::Authentication(
        HTTPAuthenticationError::UsernameOrPasswordIsNotSet,
    )))
    .unwrap();
    assert_eq!(unset.status, 409);
    assert_eq!(unset.headers, vec![json_type()]);
    assert_eq!(unset.body.code, Some(2004));
    assert_eq!(
        handle_rejection(Rejected::BodyDeserialize { message: "expected value".to_string() }),
        Ok(plain(400, text("expected value"), Some(2000)))
    );
    assert_eq!(
        handle_rejection(Rejected::MethodNotAllowed { message: "HTTP method not allowed".to_string() }),
        Ok(plain(405, text("HTTP method not allowed"), Some(2000)))
    );
    assert_eq!(
        handle_rejection(Rejected::MissingHeader {
            name: "content-length".to_string(),
            message: "Missing request header \"content-length\"".to_string()
        }),
        Ok(plain(400, text("Missing request header \"content-length\""), Some(2000)))
    );
    let asked = handle_rejection(Rejected::MissingHeader {
        name: "authorization".to_string(),
        message: "Missing request header \"authorization\"".to_string(),
    })
    .unwrap();
    assert_eq!(asked.status, 401);
    assert_eq!(asked.headers, vec![challenge(), json_type()]);
    assert_eq!(asked.body.payload, text("Authentication required"));
    assert_eq!(asked.body.code, Some(2001));
    assert_eq!(handle_rejection(Rejected::NotFound), Err(Rejected::NotFound));
    assert_eq!(handle_rejection(Rejected::Other), Err(Rejected::Other));
}

fn commands() -> CommandNode {
    let restart = CommandNode {
        name: "restart".to_string(),
        kind: NodeKind::Leaf,
        description: None,
        children: Vec::new(),
        parameters: vec![
            ParamDecl {
                name: "force".to_string(),
                kind: ParamType::Boolean,
                required: false,
                default: Some(ParamValue::Boolean(false)),
                allowed: Vec::new(),
            },
            ParamDecl {
                name: "delay".to_string(),
                kind: ParamType::Integer,
                required: true,
                default: None,
                allowed: Vec::new(),
            },
        ],
        executable_path: Some("/srv/commands/deploy/restart".to_string()),
    };
    let deploy = CommandNode {
        name: "deploy".to_string(),
        kind: NodeKind::Group,
        description: None,
        children: vec![restart],
        parameters: Vec::new(),
        executable_path: None,
    };
    CommandNode {
        name: "root".to_string(),
        kind: NodeKind::Group,
        description: None,
        children: vec![deploy],
        parameters: Vec::new(),
        executable_path: None,
    }
}

fn delay(n: i64) -> CommandInput {
    CommandInput {
        arguments: vec![Argument { name: "delay".to_string(), value: RawValue::Integer(n) }],
        statistics: false,
    }
}

#[test]
fn command_is_prepared() {
    let invocation =
        prepare_command(&commands(), &"deploy/restart".to_string(), &delay(-15), &snapshot("0.0.0.0"))
            .unwrap();
    assert_eq!(invocation.program, "/srv/commands/deploy/restart");
    assert_eq!(invocation.arguments, vec!["--force", "false", "--delay", "-15"]);
    assert_eq!(invocation.environment, make_environment_variables_map(&snapshot("0.0.0.0")));
}

#[test]
fn unknown_command_is_not_prepared() {
    assert_eq!(
        prepare_command(&commands(), &"deploy/halt".to_string(), &delay(1), &snapshot("h")),
        Err(HTTPAPIError::CommandNotFound {
            message: "command not found below /deploy".to_string()
        })
    );
}

#[test]
fn invalid_input_is_not_prepared() {
    let empty = CommandInput { arguments: Vec::new(), statistics: true };
    assert_eq!(
        prepare_command(&commands(), &"/deploy/restart/".to_string(), &empty, &snapshot("h")),
        Err(HTTPAPIError::CheckInput { message: "missing required parameter delay".to_string() })
    );
}
