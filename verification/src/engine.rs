//! The engine as the transport layer uses it: the tree that is served, and
//! the steps of one request around the run of the child process.

use crate::execution::{
    command_line, conclude, decoded_model, json_reading, plan, EnvVar, ExecutionError,
    ExecutionResult, Finished, Invocation,
};
use crate::loader::{load, load_fault, tree_of, LoadError, Scanned};
use crate::resolve::{resolution, resolve, ResolveError};
use crate::tree::{texts, CommandNode, NodeModel, ValueModel};
use crate::validate::{
    validate, validation, CommandInput, Fault, RawModel, ValidationError,
};
use vstd::prelude::*;

verus! {

/// Why a request did not lead to a report of a run.
#[derive(Debug, PartialEq, Eq)]
pub enum EngineError {
    Resolve(ResolveError),
    Validation(ValidationError),
    Execution(ExecutionError),
}

impl EngineError {
    /// The message of the error inside.
    pub open spec fn message_text(&self) -> Seq<char> {
        match self {
            EngineError::Resolve(e) => e.message_text(),
            EngineError::Validation(e) => e@.message_text(),
            EngineError::Execution(e) => e.message_text(),
        }
    }

    /// The message of the error inside.
    pub fn message(&self) -> (text: String)
        ensures
            text@ == self.message_text(),
    {
        match self {
            EngineError::Resolve(e) => e.message(),
            EngineError::Validation(e) => e.message(),
            EngineError::Execution(e) => e.message(),
        }
    }
}

/// The tree that requests are served from.
#[derive(Debug)]
pub struct CommandTree {
    pub root: CommandNode,
}

impl CommandTree {
    /// A tree to serve, with `root` as its first snapshot.
    pub fn new(root: CommandNode) -> (tree: CommandTree)
        ensures
            tree.root == root,
    {
        CommandTree { root }
    }

    /// The tree as it is served now.
    pub fn snapshot(&self) -> (root: &CommandNode)
        ensures
            *root == self.root,
    {
        &self.root
    }

    /// Replaces the served tree by the one that `scan` describes. The tree
    /// is replaced as a whole and only where building succeeds: after a
    /// failure the tree is the one that was served before.
    pub fn reload(&mut self, scan: &Result<Scanned, String>) -> (r: Result<(), LoadError>)
        ensures
            match load_fault(*scan) {
                None => r is Ok && final(self).root@ == tree_of(scan->Ok_0@),
                Some(fault) => r matches Err(e) && e@ == fault && *final(self) == *old(self),
            },
            old(self).root@.well_formed() ==> final(self).root@.well_formed(),
    {
        match load(scan) {
            Ok(root) => {
                self.root = root;
                Ok(())
            },
            Err(e) => Err(e),
        }
    }
}

/// What a request comes to before anything is run.
pub open spec fn preparation(
    root: NodeModel,
    segments: Seq<Seq<char>>,
    input: Seq<(Seq<char>, RawModel)>,
) -> Result<(NodeModel, Seq<(Seq<char>, ValueModel)>), PreparationFault> {
    match resolution(root, segments) {
        Err(matched) => Err(PreparationFault::NotFound(matched)),
        Ok(leaf) => match validation(leaf.parameters, input) {
            Err(fault) => Err(PreparationFault::Invalid(fault)),
            Ok(values) => if leaf.executable_path is None {
                Err(PreparationFault::NoExecutable)
            } else {
                Ok((leaf, values))
            },
        },
    }
}

/// Why nothing is run for a request.
pub enum PreparationFault {
    NotFound(Seq<Seq<char>>),
    Invalid(Fault),
    NoExecutable,
}

/// The first steps of a request, in their order and up to the first
/// failure: the path is resolved to a leaf, the input is validated against
/// the leaf's parameters, and what to hand to the child process is laid
/// out. Nothing is run: a path that is not found, or an input that is not
/// valid, never starts a child.
pub fn prepare(
    root: &CommandNode,
    segments: &Vec<String>,
    input: &CommandInput,
    env: &Vec<EnvVar>,
) -> (r: Result<Invocation, EngineError>)
    ensures
        match preparation(root@, texts(segments@), input@.arguments) {
            Err(PreparationFault::NotFound(prefix)) => r matches Err(
                EngineError::Resolve(ResolveError::NotFound { matched }),
            ) && texts(matched@) == prefix,
            Err(PreparationFault::Invalid(fault)) => r matches Err(EngineError::Validation(e))
                && e@ == fault,
            Err(PreparationFault::NoExecutable) => r matches Err(
                EngineError::Execution(ExecutionError::SpawnFailed { message }),
            ) && message@ == "the command has no executable"@,
            Ok((leaf, values)) => r matches Ok(invocation) && {
                &&& Some(invocation.program@) == leaf.executable_path
                &&& texts(invocation.arguments@) == command_line(values)
                &&& invocation.environment@ == env@
            },
        },
{
    let leaf = match resolve(root, segments) {
        Ok(leaf) => leaf,
        Err(e) => {
            return Err(EngineError::Resolve(e));
        },
    };
    let normalized = match validate(leaf, input) {
        Ok(normalized) => normalized,
        Err(e) => {
            return Err(EngineError::Validation(e));
        },
    };
    match plan(leaf, &normalized, env) {
        Ok(invocation) => Ok(invocation),
        Err(e) => Err(EngineError::Execution(e)),
    }
}

/// The last step of a request: the report of the run, where the child was
/// started, whatever its exit code; `SpawnFailed` where it was not.
pub fn finish(attempt: Result<Finished, String>) -> (r: Result<ExecutionResult, EngineError>)
    ensures
        match attempt {
            Ok(finished) => r matches Ok(result) && {
                &&& result.exit_code == finished.exit_code
                &&& result.stdout == finished.stdout
                &&& decoded_model(result.decoded_stdout) == json_reading(finished.stdout@)
                &&& result.stats.duration_micros == finished.duration_micros
            },
            Err(reason) => r matches Err(
                EngineError::Execution(ExecutionError::SpawnFailed { message }),
            ) && message == reason,
        },
{
    match conclude(attempt) {
        Ok(result) => Ok(result),
        Err(e) => Err(EngineError::Execution(e)),
    }
}

} // verus!
