//! The transform invoker: one run of the rewrite engine on one file's
//! program.
//!
//! The engine itself is not part of this crate. It is handed to
//! [`NextServerActions::transform`] as a function that takes the file name,
//! the configuration, the comment store and the program, rewrites the program
//! in place and reports success or a cause of failure. What this module
//! decides is what the engine is given and what the pipeline is told.

use crate::identity;
use crate::identity::identity_key;
use crate::swc::{file_name, real_file_name};
use crate::target::ActionsTransform;
use swc_core::common::FileName;
use swc_core::ecma::ast::Program;
use vstd::prelude::*;

verus! {

/// The configuration record that the rewrite engine is started with.
#[derive(Clone, Copy, Debug, PartialEq, Eq, Structural)]
pub struct Config {
    /// Whether the pass is the privileged, server-side layer.
    pub is_react_server_layer: bool,
    /// Whether the engine rewrites at all.
    pub enabled: bool,
}

/// What the pipeline lends the invoker for one call: the path of the file and
/// a handle to its comment store.
pub struct TransformContext<'a, C> {
    /// The path of the file whose program is transformed.
    pub file_path_str: &'a str,
    /// The comment store of the file; the engine gets it as it is.
    pub comments: &'a C,
}

/// A failure of the rewrite engine, with the identity key of the run that
/// failed.
#[derive(Debug)]
pub struct TransformError<E> {
    /// The identity key under which the engine was started.
    pub identity_key: String,
    /// What the engine reported, unchanged.
    pub cause: E,
}

/// The invoker of the server-actions transform for one target.
#[derive(Clone, Copy, Debug, PartialEq, Eq, Structural)]
pub struct NextServerActions {
    /// The target this invoker is bound to.
    pub transform: ActionsTransform,
}

/// What the pipeline is told after a run under `key`: success is passed on,
/// and a failure carries the key and the engine's own cause, nothing else.
pub open spec fn concluded<E>(
    key: Seq<char>,
    outcome: Result<(), E>,
    result: Result<(), TransformError<E>>,
) -> bool {
    match outcome {
        Ok(_) => result is Ok,
        Err(cause) => result matches Err(error) && error.identity_key@ == key && error.cause
            == cause,
    }
}

/// Turns the outcome of the engine into the result of the call: the key is
/// attached to a failure, and the cause is kept as it came.
pub fn conclude<E>(identity_key: String, outcome: Result<(), E>) -> (result: Result<
    (),
    TransformError<E>,
>)
    ensures
        concluded(identity_key@, outcome, result),
{
    match outcome {
        Ok(()) => Ok(()),
        Err(cause) => Err(TransformError { identity_key, cause }),
    }
}

/// The engine can be started on `program` with the configuration of
/// `invoker` and the comment store `comments`, whatever the file is called.
pub open spec fn engine_accepts<C, E, F>(
    engine: F,
    invoker: NextServerActions,
    comments: &C,
    program: Program,
) -> bool where F: FnOnce(&FileName, Config, &C, &mut Program) -> Result<(), E> {
    forall|name: &FileName, run: &mut Program|
        *run == program ==> call_requires(engine, (name, invoker.config_spec(), comments, run))
}

/// `run` is the exclusive borrow of a program on which the engine ran with
/// what `invoker` hands it for the file at `path`, and the run ended in
/// `outcome`: the file was called by its identity key for the invoker's
/// target, and the configuration was the invoker's. The program before the
/// run is `*run`, the program after it is the final value of the borrow.
#[verifier::inline]
pub open spec fn engine_run<C, E, F>(
    engine: F,
    invoker: NextServerActions,
    path: Seq<char>,
    comments: &C,
    name: &FileName,
    run: &mut Program,
    outcome: Result<(), E>,
) -> bool where F: FnOnce(&FileName, Config, &C, &mut Program) -> Result<(), E> {
    *name == real_file_name(identity_key(path, invoker.transform)) && call_ensures(
        engine,
        (name, invoker.config_spec(), comments, run),
        outcome,
    )
}

impl NextServerActions {
    /// The configuration of the engine for this invoker's target: enabled,
    /// and privileged exactly for the server.
    pub open spec fn config_spec(self) -> Config {
        Config { is_react_server_layer: self.transform.privileged(), enabled: true }
    }

    /// An invoker for `transform`.
    pub fn new(transform: ActionsTransform) -> (invoker: Self)
        ensures
            invoker.transform == transform,
    {
        NextServerActions { transform }
    }

    /// Builds the configuration record for the engine.
    pub fn config(&self) -> (config: Config)
        ensures
            config == self.config_spec(),
    {
        Config { is_react_server_layer: self.transform.is_server(), enabled: true }
    }

    /// Runs the engine once on `program`, in place: derives the identity key
    /// of the file for this target, starts the engine with the file name made
    /// of the key, the configuration and the comment store, and passes its
    /// outcome on.
    pub fn transform<C, E, F>(
        &self,
        program: &mut Program,
        ctx: &TransformContext<'_, C>,
        engine: F,
    ) -> (result: Result<(), TransformError<E>>) where
        F: FnOnce(&FileName, Config, &C, &mut Program) -> Result<(), E>,

        requires
            engine_accepts(engine, *self, ctx.comments, *old(program)),
        ensures
            exists|name: &FileName, run: &mut Program, outcome: Result<(), E>|
                engine_run(engine, *self, ctx.file_path_str@, ctx.comments, name, run, outcome)
                    && *run == *old(program) && *final(run) == *final(program) && concluded(
                    identity_key(ctx.file_path_str@, self.transform),
                    outcome,
                    result,
                ),
    {
        let key = identity::derive(ctx.file_path_str, self.transform);
        let name = file_name(key.as_str());
        let config = self.config();
        let outcome = engine(&name, config, ctx.comments, program);
        conclude(key, outcome)
    }
}

/// A call on a program in which the engine finds nothing to rewrite leaves
/// the program as it was: the invoker changes nothing by itself.
///
/// The first premise is what [`NextServerActions::transform`] ensures of a
/// call that took the program from `before` to `after`. The second says that
/// the engine, started as `invoker` starts it for the file at `path`, leaves
/// `before` unchanged.
pub proof fn lemma_untouched_program_stays<C, E, F>(
    engine: F,
    invoker: NextServerActions,
    path: Seq<char>,
    comments: &C,
    before: Program,
    after: Program,
) where F: FnOnce(&FileName, Config, &C, &mut Program) -> Result<(), E>
    requires
        exists|name: &FileName, run: &mut Program, outcome: Result<(), E>|
            engine_run(engine, invoker, path, comments, name, run, outcome) && *run == before
                && *final(run) == after,
        forall|name: &FileName, run: &mut Program, outcome: Result<(), E>|
            engine_run(engine, invoker, path, comments, name, run, outcome) && *run == before
                ==> *final(run) == before,
    ensures
        after == before,
{
}

/// Two calls in a row, for one file and one target, give the program that one
/// call gives, if the rewrite of the engine is idempotent.
///
/// The first two premises are what [`NextServerActions::transform`] ensures
/// of a call that took the program from `start` to `once` and of a call that
/// took it from `once` to `twice`. The third says that the engine, started as
/// `invoker` starts it for the file at `path`, changes nothing in a program
/// that such a run has left.
pub proof fn lemma_second_call_changes_nothing<C, E, F>(
    engine: F,
    invoker: NextServerActions,
    path: Seq<char>,
    comments: &C,
    start: Program,
    once: Program,
    twice: Program,
) where F: FnOnce(&FileName, Config, &C, &mut Program) -> Result<(), E>
    requires
        exists|name: &FileName, run: &mut Program, outcome: Result<(), E>|
            engine_run(engine, invoker, path, comments, name, run, outcome) && *run == start
                && *final(run) == once,
        exists|name: &FileName, run: &mut Program, outcome: Result<(), E>|
            engine_run(engine, invoker, path, comments, name, run, outcome) && *run == once
                && *final(run) == twice,
        forall|
            first_name: &FileName,
            first: &mut Program,
            first_outcome: Result<(), E>,
            second_name: &FileName,
            second: &mut Program,
            second_outcome: Result<(), E>,
        |
            engine_run(engine, invoker, path, comments, first_name, first, first_outcome)
                && engine_run(
                engine,
                invoker,
                path,
                comments,
                second_name,
                second,
                second_outcome,
            ) && *second == *final(first) ==> *final(second) == *second,
    ensures
        twice == once,
{
}

} // verus!
