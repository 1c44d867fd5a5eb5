//! The answers of the API: how an answer is put together, what a finished
//! run is answered with, and what a rejected request is answered with.

use crate::config::{environment_of, make_environment_variables_map, ConfigSnapshot};
use crate::engine::{prepare, preparation, EngineError, PreparationFault};
use crate::errors::{
    exit_code_to_status_code, exit_status, HTTPAPIError, HTTPError, STATUS_BAD_REQUEST,
    STATUS_METHOD_NOT_ALLOWED, STATUS_OK, STATUS_UNAUTHORIZED,
};
use crate::execution::{
    command_line, env_models, json_null, json_reading, json_text, report, value_is_null,
    CommandStats, ExecutionError, Finished, Invocation,
};
use crate::resolve::path_text;
use crate::text::position_from;
use crate::tree::{texts, CommandNode, NodeModel, ValueModel};
use crate::validate::{CommandInput, RawModel};
use vstd::prelude::*;

verus! {

/// What an answer says under `result` or `reason`.
#[derive(Debug, PartialEq, Eq)]
pub enum Payload {
    Absent,
    Text(String),
    Json(serde_json::Value),
}

/// What a `Payload` stands for. Of a JSON value it holds the text, and
/// whether the value is `null`.
pub enum PayloadModel {
    Absent,
    Text(Seq<char>),
    Json(Seq<char>, bool),
}

impl View for Payload {
    type V = PayloadModel;

    open spec fn view(&self) -> PayloadModel {
        match self {
            Payload::Absent => PayloadModel::Absent,
            Payload::Text(s) => PayloadModel::Text(s@),
            Payload::Json(v) => PayloadModel::Json(json_text(*v), json_null(*v)),
        }
    }
}

/// The payload as an answer shows it: the JSON value `null` is not shown.
pub open spec fn shown(payload: PayloadModel) -> PayloadModel {
    match payload {
        PayloadModel::Json(_, null) => if null {
            PayloadModel::Absent
        } else {
            payload
        },
        _ => payload,
    }
}

/// One header of an answer. Names are held in lower case.
#[derive(Debug, PartialEq, Eq)]
pub struct Header {
    pub name: String,
    pub value: String,
}

impl View for Header {
    type V = (Seq<char>, Seq<char>);

    open spec fn view(&self) -> (Seq<char>, Seq<char>) {
        (self.name@, self.value@)
    }
}

/// What a sequence of headers stands for.
pub open spec fn header_models(headers: Seq<Header>) -> Seq<(Seq<char>, Seq<char>)> {
    Seq::new(headers.len(), |i: int| headers[i]@)
}

/// The headers that an answer has after `headers` were set in their order:
/// a later header takes the place of an earlier one of the same name.
pub open spec fn header_map(headers: Seq<(Seq<char>, Seq<char>)>) -> Map<Seq<char>, Seq<char>>
    decreases headers.len(),
{
    if headers.len() == 0 {
        Map::empty()
    } else {
        header_map(headers.drop_last()).insert(headers.last().0, headers.last().1)
    }
}

/// The body of an answer. The payload stands under `result` where `ok`
/// holds and under `reason` where it does not.
#[derive(Debug, PartialEq, Eq)]
pub struct ApiBody {
    pub ok: bool,
    pub payload: Payload,
    pub statistics: Option<CommandStats>,
    pub code: Option<i32>,
}

/// An answer of the API.
#[derive(Debug, PartialEq, Eq)]
pub struct ApiResponse {
    pub status: u16,
    pub headers: Vec<Header>,
    pub body: ApiBody,
}

/// What an `ApiResponse` stands for.
pub struct ResponseModel {
    pub status: int,
    pub headers: Map<Seq<char>, Seq<char>>,
    pub ok: bool,
    pub payload: PayloadModel,
    pub statistics: Option<CommandStats>,
    pub code: Option<int>,
}

impl View for ApiResponse {
    type V = ResponseModel;

    open spec fn view(&self) -> ResponseModel {
        ResponseModel {
            status: self.status as int,
            headers: header_map(header_models(self.headers@)),
            ok: self.body.ok,
            payload: self.body.payload@,
            statistics: self.body.statistics,
            code: match self.body.code {
                Some(code) => Some(code as int),
                None => None,
            },
        }
    }
}

/// The name of the header that says what the body is.
pub open spec fn content_type_name() -> Seq<char> {
    "content-type"@
}

/// What the body of every answer is: JSON in UTF-8.
pub open spec fn content_type_json() -> Seq<char> {
    "application/json; charset=utf-8"@
}

/// The name of the header that asks for credentials.
pub open spec fn challenge_name() -> Seq<char> {
    "www-authenticate"@
}

/// The credentials that are asked for.
pub open spec fn challenge_basic() -> Seq<char> {
    "Basic realm=\"Restricted\", charset=\"UTF-8\""@
}

/// The answer with the given parts: it is `ok` exactly where the status is
/// 200, `null` is not shown, and the content type is set after the given
/// headers.
pub open spec fn answer(
    payload: PayloadModel,
    status: int,
    headers: Seq<(Seq<char>, Seq<char>)>,
    statistics: Option<CommandStats>,
    code: Option<int>,
) -> ResponseModel {
    ResponseModel {
        status,
        headers: header_map(headers).insert(content_type_name(), content_type_json()),
        ok: status == 200,
        payload: shown(payload),
        statistics,
        code,
    }
}

/// The code of an answer, as an integer.
pub open spec fn code_model(code: Option<i32>) -> Option<int> {
    match code {
        Some(code) => Some(code as int),
        None => None,
    }
}

/// The headers that were handed over, or none.
pub open spec fn given_headers(headers: Option<Vec<Header>>) -> Seq<(Seq<char>, Seq<char>)> {
    match headers {
        Some(headers) => header_models(headers@),
        None => Seq::empty(),
    }
}

/// Puts an answer together from its parts.
pub fn make_api_response_with_header_and_stats(
    result_or_reason: Payload,
    status_code: u16,
    maybe_headers: Option<Vec<Header>>,
    maybe_statistics: Option<CommandStats>,
    maybe_error_code: Option<i32>,
) -> (r: ApiResponse)
    ensures
        r@ == answer(
            result_or_reason@,
            status_code as int,
            given_headers(maybe_headers),
            maybe_statistics,
            code_model(maybe_error_code),
        ),
{
    let payload = match result_or_reason {
        Payload::Json(v) => {
            if value_is_null(&v) {
                Payload::Absent
            } else {
                Payload::Json(v)
            }
        },
        other => other,
    };
    let mut headers: Vec<Header> = match maybe_headers {
        Some(headers) => headers,
        None => Vec::new(),
    };
    let ghost given = header_models(headers@);
    headers.push(
        Header {
            name: String::from_str("content-type"),
            value: String::from_str("application/json; charset=utf-8"),
        },
    );
    proof {
        assert(header_models(headers@).drop_last() =~= given);
        assert(given =~= given_headers(maybe_headers));
    }
    ApiResponse {
        status: status_code,
        headers,
        body: ApiBody {
            ok: status_code == STATUS_OK,
            payload,
            statistics: maybe_statistics,
            code: maybe_error_code,
        },
    }
}

/// The answer that all went well and there is nothing to show.
pub fn make_api_response_ok() -> (r: ApiResponse)
    ensures
        r@ == answer(PayloadModel::Absent, 200, Seq::empty(), None, None),
{
    make_api_response_with_header_and_stats(Payload::Absent, STATUS_OK, None, None, None)
}

/// The answer that all went well, with what there is to show.
pub fn make_api_response_ok_with_result(result: Payload) -> (r: ApiResponse)
    ensures
        r@ == answer(result@, 200, Seq::empty(), None, None),
{
    make_api_response_with_header_and_stats(result, STATUS_OK, None, None, None)
}

/// An answer without headers of its own and without statistics.
pub fn make_api_response(
    result_or_reason: Payload,
    status_code: u16,
    maybe_error_code: Option<i32>,
) -> (r: ApiResponse)
    ensures
        r@ == answer(
            result_or_reason@,
            status_code as int,
            Seq::empty(),
            None,
            code_model(maybe_error_code),
        ),
{
    make_api_response_with_header_and_stats(
        result_or_reason,
        status_code,
        None,
        None,
        maybe_error_code,
    )
}

/// An answer without headers of its own.
pub fn make_api_response_with_stats(
    result_or_reason: Payload,
    status_code: u16,
    maybe_statistics: Option<CommandStats>,
    maybe_error_code: Option<i32>,
) -> (r: ApiResponse)
    ensures
        r@ == answer(
            result_or_reason@,
            status_code as int,
            Seq::empty(),
            maybe_statistics,
            code_model(maybe_error_code),
        ),
{
    make_api_response_with_header_and_stats(
        result_or_reason,
        status_code,
        None,
        maybe_statistics,
        maybe_error_code,
    )
}

/// An answer without statistics.
pub fn make_api_response_with_headers(
    result_or_reason: Payload,
    status_code: u16,
    maybe_headers: Option<Vec<Header>>,
    maybe_error_code: Option<i32>,
) -> (r: ApiResponse)
    ensures
        r@ == answer(
            result_or_reason@,
            status_code as int,
            given_headers(maybe_headers),
            None,
            code_model(maybe_error_code),
        ),
{
    make_api_response_with_header_and_stats(
        result_or_reason,
        status_code,
        maybe_headers,
        None,
        maybe_error_code,
    )
}

/// The segments of `path` from index `from` on: what stands between one `/`
/// and the next, the empty texts among them kept.
pub open spec fn split_from(path: Seq<char>, from: int) -> Seq<Seq<char>>
    decreases path.len() - from,
{
    if from < 0 || from > path.len() {
        Seq::empty()
    } else {
        match position_from(path, '/', from) {
            Some(at) => if from <= at < path.len() {
                seq![path.subrange(from, at)] + split_from(path, at + 1)
            } else {
                Seq::empty()
            },
            None => seq![path.subrange(from, path.len() as int)],
        }
    }
}

/// The segments of `path`.
pub open spec fn split(path: Seq<char>) -> Seq<Seq<char>> {
    split_from(path, 0)
}

/// Splits a path at each `/`.
pub fn split_path(path: &str) -> (r: Vec<String>)
    ensures
        texts(r@) == split(path@),
{
    let n: usize = path.unicode_len();
    let mut segments: Vec<String> = Vec::new();
    let mut start: usize = 0;
    let mut i: usize = 0;
    proof {
        assert(texts(segments@) + split_from(path@, 0) =~= split(path@));
    }
    while i < n
        invariant
            n == path@.len(),
            start <= i <= n,
            split(path@) == texts(segments@) + split_from(path@, start as int),
            position_from(path@, '/', start as int) == position_from(path@, '/', i as int),
        decreases n - i,
    {
        if path.get_char(i) == '/' {
            let ghost before = texts(segments@);
            segments.push(String::from_str(path.substring_char(start, i)));
            proof {
                assert(texts(segments@) =~= before.push(path@.subrange(start as int, i as int)));
                assert(texts(segments@) + split_from(path@, i as int + 1) =~= before + split_from(
                    path@,
                    start as int,
                ));
            }
            start = i + 1;
        }
        i = i + 1;
    }
    let ghost before = texts(segments@);
    segments.push(String::from_str(path.substring_char(start, n)));
    proof {
        assert(texts(segments@) =~= before.push(path@.subrange(start as int, n as int)));
        assert(texts(segments@) =~= before + split_from(path@, start as int));
    }
    segments
}

/// What a request to run a command comes to before anything is run: the
/// path is split at each `/` and resolved below `root`, and the input is
/// validated against the leaf.
pub open spec fn command_preparation(
    root: NodeModel,
    command_path: Seq<char>,
    input: Seq<(Seq<char>, RawModel)>,
) -> Result<(NodeModel, Seq<(Seq<char>, ValueModel)>), PreparationFault> {
    preparation(root, split(command_path), input)
}

/// The first part of a request to run a command: everything before the
/// run. The command is looked up by its path, the input is checked, and the
/// child is given the values and the variables of the configuration. A path
/// that names no command is `CommandNotFound`, an input that is turned down
/// is `CheckInput`, a command that cannot be started is `InitializeCommand`,
/// each with the message of what went wrong.
pub fn prepare_command(
    root: &CommandNode,
    command_path: &String,
    input: &CommandInput,
    cfg: &ConfigSnapshot,
) -> (r: Result<Invocation, HTTPAPIError>)
    ensures
        match command_preparation(root@, command_path@, input@.arguments) {
            Err(PreparationFault::NotFound(prefix)) => r matches Err(
                HTTPAPIError::CommandNotFound { message },
            ) && message@ == "command not found below "@ + path_text(prefix),
            Err(PreparationFault::Invalid(fault)) => r matches Err(
                HTTPAPIError::CheckInput { message },
            ) && message@ == fault.message_text(),
            Err(PreparationFault::NoExecutable) => r matches Err(
                HTTPAPIError::InitializeCommand { message },
            ) && message@ == "could not start the command: "@
                + "the command has no executable"@,
            Ok((leaf, values)) => r matches Ok(invocation) && {
                &&& Some(invocation.program@) == leaf.executable_path
                &&& texts(invocation.arguments@) == command_line(values)
                &&& env_models(invocation.environment@) == environment_of(cfg@)
            },
        },
{
    let segments = split_path(command_path.as_str());
    let env = make_environment_variables_map(cfg);
    match prepare(root, &segments, input, &env) {
        Ok(invocation) => Ok(invocation),
        Err(EngineError::Resolve(e)) => Err(HTTPAPIError::CommandNotFound { message: e.message() }),
        Err(EngineError::Validation(e)) => Err(HTTPAPIError::CheckInput { message: e.message() }),
        Err(EngineError::Execution(e)) => Err(
            HTTPAPIError::InitializeCommand { message: e.message() },
        ),
    }
}

/// What a finished run is answered with. The status is that of the exit
/// code. The payload is nothing where the command printed nothing, the
/// decoded output where it printed JSON, and the output as a text where it
/// printed anything else. The measurements are there on request. Every
/// status but 200 carries the code 1001.
pub open spec fn run_answer(finished: Finished, statistics: bool) -> ResponseModel {
    answer(
        if finished.stdout@.len() == 0 {
            PayloadModel::Absent
        } else {
            match json_reading(finished.stdout@) {
                Some(read) => PayloadModel::Json(read.0, read.1),
                None => PayloadModel::Text(finished.stdout@),
            }
        },
        exit_status(finished.exit_code as int),
        Seq::empty(),
        if statistics {
            Some(CommandStats { duration_micros: finished.duration_micros })
        } else {
            None
        },
        if exit_status(finished.exit_code as int) == 200 {
            None
        } else {
            Some(1001)
        },
    )
}

/// The last part of a request to run a command: the answer for what the
/// attempt to start the child gave. A child that ran is answered with its
/// report, whatever its exit code; one that could not be started is
/// `InitializeCommand` with the reason.
pub fn command_response(attempt: Result<Finished, String>, statistics: bool) -> (r: Result<
    ApiResponse,
    HTTPAPIError,
>)
    ensures
        match attempt {
            Ok(finished) => r matches Ok(response) && response@ == run_answer(
                finished,
                statistics,
            ),
            Err(reason) => r matches Err(HTTPAPIError::InitializeCommand { message })
                && message@ == "could not start the command: "@ + reason@,
        },
{
    match attempt {
        Err(reason) => {
            let e = ExecutionError::SpawnFailed { message: reason };
            Err(HTTPAPIError::InitializeCommand { message: e.message() })
        },
        Ok(finished) => {
            let result = report(finished);
            let status = exit_code_to_status_code(result.exit_code);
            let payload = if result.stdout.as_str().is_empty() {
                Payload::Absent
            } else {
                match result.decoded_stdout {
                    Some(v) => Payload::Json(v),
                    None => Payload::Text(result.stdout),
                }
            };
            Ok(
                make_api_response_with_stats(
                    payload,
                    status,
                    if statistics {
                        Some(result.stats)
                    } else {
                        None
                    },
                    if status == STATUS_OK {
                        None
                    } else {
                        Some(1001)
                    },
                ),
            )
        },
    }
}

/// Why the transport layer turned a request down, as far as the answer
/// depends on it.
#[derive(Debug, PartialEq, Eq)]
pub enum Rejected {
    /// One of the errors of this library.
    Known(HTTPError),
    /// The body of the request could not be read as what was expected.
    BodyDeserialize { message: String },
    /// A header that the request must have is not there.
    MissingHeader { name: String, message: String },
    /// The path is served, but not for the method of the request.
    MethodNotAllowed { message: String },
    /// Nothing is served at the path.
    NotFound,
    /// Anything else.
    Other,
}

/// The headers of an answer that asks for credentials.
pub open spec fn challenge_headers() -> Seq<(Seq<char>, Seq<char>)> {
    seq![(challenge_name(), challenge_basic())]
}

/// What a rejected request is answered with, where this library answers it.
/// An error of the API is answered with its message, status and code. An
/// error of authentication too, and with status 401 it asks for
/// credentials. A missing `authorization` header is answered with 401 and
/// the code 2001, and asks for credentials. A body that could not be read,
/// another missing header and a method that is not allowed are answered
/// with the transport's message and the code 2000.
pub open spec fn rejection_answer(rejection: Rejected) -> Option<ResponseModel> {
    match rejection {
        Rejected::Known(HTTPError::API(e)) => Some(
            answer(
                PayloadModel::Text(e.message_text()),
                e.status_code(),
                Seq::empty(),
                None,
                Some(e.error_code()),
            ),
        ),
        Rejected::Known(HTTPError::Authentication(e)) => Some(
            answer(
                PayloadModel::Text(e.message_text()),
                e.status_code(),
                if e.status_code() == 401 {
                    challenge_headers()
                } else {
                    Seq::empty()
                },
                None,
                Some(e.error_code()),
            ),
        ),
        Rejected::BodyDeserialize { message } => Some(
            answer(PayloadModel::Text(message@), 400, Seq::empty(), None, Some(2000)),
        ),
        Rejected::MissingHeader { name, message } => if name@ == "authorization"@ {
            Some(
                answer(
                    PayloadModel::Text("Authentication required"@),
                    401,
                    challenge_headers(),
                    None,
                    Some(2001),
                ),
            )
        } else {
            Some(answer(PayloadModel::Text(message@), 400, Seq::empty(), None, Some(2000)))
        },
        Rejected::MethodNotAllowed { message } => Some(
            answer(PayloadModel::Text(message@), 405, Seq::empty(), None, Some(2000)),
        ),
        Rejected::NotFound => None,
        Rejected::Other => None,
    }
}

fn challenge() -> (r: Vec<Header>)
    ensures
        header_models(r@) == challenge_headers(),
{
    let mut headers: Vec<Header> = Vec::new();
    headers.push(
        Header {
            name: String::from_str("www-authenticate"),
            value: String::from_str("Basic realm=\"Restricted\", charset=\"UTF-8\""),
        },
    );
    proof {
        assert(header_models(headers@) =~= challenge_headers());
    }
    headers
}

/// Answers a rejected request. What this library has no answer for is
/// handed back as it came.
pub fn handle_rejection(rejection: Rejected) -> (r: Result<ApiResponse, Rejected>)
    ensures
        match rejection_answer(rejection) {
            Some(response) => r matches Ok(made) && made@ == response,
            None => r == Err::<ApiResponse, Rejected>(rejection),
        },
{
    match rejection {
        Rejected::Known(HTTPError::API(e)) => Ok(
            make_api_response(
                Payload::Text(e.message()),
                e.http_status_code(),
                Some(e.http_error_code()),
            ),
        ),
        Rejected::Known(HTTPError::Authentication(e)) => {
            let status = e.http_status_code();
            let headers = if status == STATUS_UNAUTHORIZED {
                challenge()
            } else {
                Vec::new()
            };
            proof {
                assert(status != 401 ==> header_models(headers@) =~= Seq::<
                    (Seq<char>, Seq<char>),
                >::empty());
            }
            Ok(
                make_api_response_with_headers(
                    Payload::Text(e.message()),
                    status,
                    Some(headers),
                    Some(e.http_error_code()),
                ),
            )
        },
        Rejected::BodyDeserialize { message } => Ok(
            make_api_response(Payload::Text(message), STATUS_BAD_REQUEST, Some(2000)),
        ),
        Rejected::MissingHeader { name, message } => {
            if name == String::from_str("authorization") {
                Ok(
                    make_api_response_with_headers(
                        Payload::Text(String::from_str("Authentication required")),
                        STATUS_UNAUTHORIZED,
                        Some(challenge()),
                        Some(2001),
                    ),
                )
            } else {
                Ok(make_api_response(Payload::Text(message), STATUS_BAD_REQUEST, Some(2000)))
            }
        },
        Rejected::MethodNotAllowed { message } => Ok(
            make_api_response(Payload::Text(message), STATUS_METHOD_NOT_ALLOWED, Some(2000)),
        ),
        Rejected::NotFound => Err(Rejected::NotFound),
        Rejected::Other => Err(Rejected::Other),
    }
}

} // verus!
