//! Running a leaf: what is handed to the child process, and how what came
//! back is reported.

use crate::text::{integer_text, joined, render_i64};
use crate::tree::{texts, CommandNode, ParamValue, ValueModel};
use crate::validate::NormalizedInput;
use vstd::prelude::*;

verus! {

/// `serde_json::Value`: a JSON value. Nothing of it is read here but
/// whether it is `null`; it is carried through as it came.
#[verifier::external_type_specification]
#[verifier::external_body]
pub struct ExJsonValue(serde_json::Value);

/// What a JSON value holds: the text that `serde_json::to_string` writes it
/// as.
pub uninterp spec fn json_text(value: serde_json::Value) -> Seq<char>;

/// Whether a JSON value is `null`.
pub uninterp spec fn json_null(value: serde_json::Value) -> bool;

/// What a text is read as, where it is JSON: the text of the value, and
/// whether the value is `null`.
pub uninterp spec fn json_reading(text: Seq<char>) -> Option<(Seq<char>, bool)>;

/// What a JSON value stands for: its text, and whether it is `null`.
pub open spec fn json_model(value: serde_json::Value) -> (Seq<char>, bool) {
    (json_text(value), json_null(value))
}

/// What a decoded output stands for.
pub open spec fn decoded_model(decoded: Option<serde_json::Value>) -> Option<(Seq<char>, bool)> {
    match decoded {
        Some(value) => Some(json_model(value)),
        None => None,
    }
}

/// `serde_json::from_str`, read as a `serde_json::Value`: strict JSON
/// parsing of the whole text. The result depends on the text alone; it is
/// the value where the text is JSON and nothing where it is not.
#[verifier::external_body]
fn read_json(text: &str) -> (r: Option<serde_json::Value>)
    ensures
        match r {
            Some(value) => json_reading(text@) == Some((json_text(value), json_null(value))),
            None => json_reading(text@) is None,
        },
{
    serde_json::from_str::<serde_json::Value>(text).ok()
}

/// `serde_json::Value::is_null`: whether the value is the variant `Null`.
#[verifier::external_body]
pub(crate) fn value_is_null(value: &serde_json::Value) -> (r: bool)
    ensures
        r == json_null(*value),
{
    value.is_null()
}

/// One variable of the environment that a child process is given.
#[derive(Debug, PartialEq, Eq)]
pub struct EnvVar {
    pub name: String,
    pub value: String,
}

impl View for EnvVar {
    type V = (Seq<char>, Seq<char>);

    open spec fn view(&self) -> (Seq<char>, Seq<char>) {
        (self.name@, self.value@)
    }
}

/// What a sequence of variables stands for.
pub open spec fn env_models(vars: Seq<EnvVar>) -> Seq<(Seq<char>, Seq<char>)> {
    Seq::new(vars.len(), |i: int| vars[i]@)
}

/// What is handed to the child process: the program, its arguments and the
/// variables added to its environment.
#[derive(Debug, PartialEq, Eq)]
pub struct Invocation {
    pub program: String,
    pub arguments: Vec<String>,
    pub environment: Vec<EnvVar>,
}

/// What a child process left behind.
#[derive(Debug, PartialEq, Eq)]
pub struct Finished {
    pub exit_code: i32,
    pub stdout: String,
    pub duration_micros: u64,
}

/// The measurements of one run.
#[derive(Clone, Copy, Debug, PartialEq, Eq, Structural)]
pub struct CommandStats {
    /// Wall-clock time from spawn to exit, in microseconds.
    pub duration_micros: u64,
}

/// The report of one run. `decoded_stdout` is `stdout` read as JSON, where
/// it is JSON.
#[derive(Debug, PartialEq, Eq)]
pub struct ExecutionResult {
    pub exit_code: i32,
    pub stdout: String,
    pub decoded_stdout: Option<serde_json::Value>,
    pub stats: CommandStats,
}

/// Why there is no report of a run.
#[derive(Debug, PartialEq, Eq)]
pub enum ExecutionError {
    /// The executable could not be started; `message` says why.
    SpawnFailed { message: String },
}

/// The text that a value is handed to the child as.
pub open spec fn value_text(value: ValueModel) -> Seq<char> {
    match value {
        ValueModel::Text(s) => s,
        ValueModel::Integer(n) => integer_text(n),
        ValueModel::Boolean(b) => if b {
            "true"@
        } else {
            "false"@
        },
    }
}

/// The arguments that the child is given for `values`: for each parameter,
/// in their order, `--` with its name, and then its value, each as an
/// argument of its own.
pub open spec fn command_line(values: Seq<(Seq<char>, ValueModel)>) -> Seq<Seq<char>> {
    Seq::new(
        2 * values.len(),
        |k: int|
            if k % 2 == 0 {
                "--"@ + values[k / 2].0
            } else {
                value_text(values[k / 2].1)
            },
    )
}

/// Writes a value as the child is given it.
pub fn render_value(value: &ParamValue) -> (r: String)
    ensures
        r@ == value_text(value@),
{
    match value {
        ParamValue::Text(s) => s.clone(),
        ParamValue::Integer(n) => render_i64(*n),
        ParamValue::Boolean(b) => {
            if *b {
                String::from_str("true")
            } else {
                String::from_str("false")
            }
        },
    }
}

/// A copy of `vars`.
pub fn copy_environment(vars: &Vec<EnvVar>) -> (r: Vec<EnvVar>)
    ensures
        r@ == vars@,
{
    let mut out: Vec<EnvVar> = Vec::new();
    let mut i: usize = 0;
    while i < vars.len()
        invariant
            i <= vars@.len(),
            out@ == vars@.subrange(0, i as int),
        decreases vars@.len() - i,
    {
        out.push(EnvVar { name: vars[i].name.clone(), value: vars[i].value.clone() });
        proof {
            assert(out@ =~= vars@.subrange(0, i as int + 1));
        }
        i = i + 1;
    }
    proof {
        assert(vars@.subrange(0, vars@.len() as int) =~= vars@);
    }
    out
}

/// What to hand to the child process to run `leaf` on `input`. The program
/// is the executable of `leaf`; each value of `input` reaches the child as
/// two arguments, its name and its text; the variables are those of `env`
/// and no others. A node without an executable cannot be started.
pub fn plan(leaf: &CommandNode, input: &NormalizedInput, env: &Vec<EnvVar>) -> (r: Result<
    Invocation,
    ExecutionError,
>)
    ensures
        leaf@.executable_path is Some ==> r is Ok,
        leaf@.executable_path is None ==> (r matches Err(ExecutionError::SpawnFailed { message })
            && message@ == "the command has no executable"@),
        r matches Ok(invocation) ==> {
            &&& Some(invocation.program@) == leaf@.executable_path
            &&& texts(invocation.arguments@) == command_line(input@)
            &&& invocation.environment@ == env@
        },
{
    proof {
        leaf.lemma_view_children();
    }
    let program = match &leaf.executable_path {
        Some(path) => path.clone(),
        None => {
            return Err(
                ExecutionError::SpawnFailed {
                    message: String::from_str("the command has no executable"),
                },
            );
        },
    };
    let mut arguments: Vec<String> = Vec::new();
    let mut i: usize = 0;
    while i < input.values.len()
        invariant
            i <= input.values@.len(),
            arguments@.len() == 2 * i,
            forall|k: int|
                0 <= k < 2 * i ==> (#[trigger] arguments@[k])@ == command_line(input@)[k],
        decreases input.values@.len() - i,
    {
        let assignment = &input.values[i];
        assert(input@[i as int] == assignment@);
        let flag = joined("--", assignment.name.as_str());
        let text = render_value(&assignment.value);
        arguments.push(flag);
        arguments.push(text);
        i = i + 1;
    }
    proof {
        assert(texts(arguments@) =~= command_line(input@));
    }
    Ok(Invocation { program, arguments, environment: copy_environment(env) })
}

/// Reads captured output as JSON: the value, where the whole of `stdout` is
/// strict JSON, and nothing where it is not. Output that is no JSON is no
/// error.
pub fn normalize_output(stdout: &String) -> (r: Option<serde_json::Value>)
    ensures
        decoded_model(r) == json_reading(stdout@),
{
    read_json(stdout.as_str())
}

/// The report of a run that took place. The exit code, whatever it is, and
/// the output are reported as they came.
pub fn report(finished: Finished) -> (r: ExecutionResult)
    ensures
        r.exit_code == finished.exit_code,
        r.stdout == finished.stdout,
        decoded_model(r.decoded_stdout) == json_reading(finished.stdout@),
        r.stats.duration_micros == finished.duration_micros,
{
    let decoded_stdout = normalize_output(&finished.stdout);
    ExecutionResult {
        exit_code: finished.exit_code,
        stdout: finished.stdout,
        decoded_stdout,
        stats: CommandStats { duration_micros: finished.duration_micros },
    }
}

/// The outcome of a run, from what the attempt to start the child gave: its
/// report where it ran, `SpawnFailed` with the reason where it could not be
/// started.
pub fn conclude(attempt: Result<Finished, String>) -> (r: Result<ExecutionResult, ExecutionError>)
    ensures
        match attempt {
            Ok(finished) => r matches Ok(result) && {
                &&& result.exit_code == finished.exit_code
                &&& result.stdout == finished.stdout
                &&& decoded_model(result.decoded_stdout) == json_reading(finished.stdout@)
                &&& result.stats.duration_micros == finished.duration_micros
            },
            Err(reason) => r matches Err(ExecutionError::SpawnFailed { message }) && message
                == reason,
        },
{
    match attempt {
        Ok(finished) => Ok(report(finished)),
        Err(reason) => Err(ExecutionError::SpawnFailed { message: reason }),
    }
}

impl ExecutionError {
    /// The message of the error: that the command could not be started, and
    /// why.
    pub open spec fn message_text(&self) -> Seq<char> {
        match self {
            ExecutionError::SpawnFailed { message } => "could not start the command: "@
                + message@,
        }
    }

    /// The message of the error.
    pub fn message(&self) -> (text: String)
        ensures
            text@ == self.message_text(),
    {
        match self {
            ExecutionError::SpawnFailed { message } => joined(
                "could not start the command: ",
                message.as_str(),
            ),
        }
    }
}

} // verus!
