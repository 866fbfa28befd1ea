//! The vocabulary shared by all module kinds: the commands a module asks for,
//! the replies it takes, the errors it reports and the lifecycle itself.
use crate::util::{expect_outcome, ExitStatus, ExpectError};
use vstd::prelude::*;

verus! {

/// Why a command of the version-control tool counts as failed.
#[derive(Clone, Copy, Debug, PartialEq, Eq)]
pub enum ToolFailure {
    /// The command could not be started at all.
    NotStarted,
    /// The command ended without a numeric exit code.
    NoExitCode,
    /// The command ended in a way that the step did not allow.
    UnexpectedExit,
}

/// The errors of the lifecycle operations.
#[derive(Clone, Copy, Debug, PartialEq, Eq)]
pub enum ModuleError {
    /// The environment path has no final component to name a branch after.
    InvalidEnvironmentName,
    /// A command of the version-control tool failed.
    ToolInvocationFailed(ToolFailure),
    /// `sync` was asked of a module that is not loaded.
    NotLoaded,
    /// `sync` was asked while the dev worktree holds uncommitted changes.
    DirtyWorkingTree,
}

/// The tool failure that stands for a rejected exit status.
pub open spec fn tool_failure(e: ExpectError) -> ToolFailure {
    match e {
        ExpectError::NoExitCode => ToolFailure::NoExitCode,
        ExpectError::UnexpectedExit => ToolFailure::UnexpectedExit,
    }
}

/// One invocation of the version-control tool.
#[derive(Clone, Debug, PartialEq, Eq)]
pub struct GitCommand {
    /// The directory to run the tool in.
    pub dir: String,
    /// The arguments, without the tool's own name.
    pub args: Vec<String>,
    /// Whether the caller has to capture standard output for the reply.
    pub capture: bool,
}

/// A [`GitCommand`] as a mathematical value.
pub struct GitCommandView {
    pub dir: Seq<char>,
    pub args: Seq<Seq<char>>,
    pub capture: bool,
}

/// The arguments of a command as sequences of characters.
pub open spec fn args_view(args: Seq<String>) -> Seq<Seq<char>> {
    args.map_values(|s: String| s@)
}

impl View for GitCommand {
    type V = GitCommandView;

    open spec fn view(&self) -> GitCommandView {
        GitCommandView { dir: self.dir@, args: args_view(self.args@), capture: self.capture }
    }
}

/// What became of a command that the library asked for.
#[derive(Clone, Debug, PartialEq, Eq)]
pub enum ToolReply {
    /// The command could not be started.
    NotStarted,
    /// The command ran to its end.
    Finished {
        /// How it ended.
        status: ExitStatus,
        /// What it wrote to standard output, if that was captured.
        stdout: Vec<u8>,
    },
}

/// A [`ToolReply`] as a mathematical value.
pub enum ToolReplyView {
    NotStarted,
    Finished { status: ExitStatus, stdout: Seq<u8> },
}

impl View for ToolReply {
    type V = ToolReplyView;

    open spec fn view(&self) -> ToolReplyView {
        match self {
            ToolReply::NotStarted => ToolReplyView::NotStarted,
            ToolReply::Finished { status, stdout } => ToolReplyView::Finished {
                status: *status,
                stdout: stdout@,
            },
        }
    }
}

impl ToolReplyView {
    /// Whether the command ran and reported success itself.
    pub open spec fn expect_success(self) -> Result<(), ModuleError> {
        match self {
            ToolReplyView::NotStarted => Err(
                ModuleError::ToolInvocationFailed(ToolFailure::NotStarted),
            ),
            ToolReplyView::Finished { status, .. } => if status.success {
                Ok(())
            } else {
                Err(ModuleError::ToolInvocationFailed(ToolFailure::UnexpectedExit))
            },
        }
    }

    /// Whether the command ran and ended with one of the exit codes `allowed`.
    pub open spec fn expect(self, allowed: Seq<i32>) -> Result<(), ModuleError> {
        match self {
            ToolReplyView::NotStarted => Err(
                ModuleError::ToolInvocationFailed(ToolFailure::NotStarted),
            ),
            ToolReplyView::Finished { status, .. } => match expect_outcome(status.code, allowed) {
                Ok(()) => Ok(()),
                Err(e) => Err(ModuleError::ToolInvocationFailed(tool_failure(e))),
            },
        }
    }

    /// What the command wrote to standard output; nothing where it never ran.
    pub open spec fn stdout(self) -> Seq<u8> {
        match self {
            ToolReplyView::NotStarted => Seq::empty(),
            ToolReplyView::Finished { stdout, .. } => stdout,
        }
    }
}

impl ModuleError {
    /// The error in words.
    pub open spec fn description(self) -> Seq<char> {
        match self {
            ModuleError::InvalidEnvironmentName => "unable to get bean name from bean_path"@,
            ModuleError::ToolInvocationFailed(ToolFailure::NotStarted) => "unable to start the process"@,
            ModuleError::ToolInvocationFailed(ToolFailure::NoExitCode) => "unable to get exit code for process"@,
            ModuleError::ToolInvocationFailed(ToolFailure::UnexpectedExit) => "unexpected error code"@,
            ModuleError::NotLoaded => "cannot sync an unloaded module"@,
            ModuleError::DirtyWorkingTree => "working directory not clean... make sure to commit all changes"@,
        }
    }

    /// The error in words, for whoever asked for the operation.
    pub fn describe(&self) -> (text: String)
        ensures
            text@ == self.description(),
    {
        match self {
            ModuleError::InvalidEnvironmentName => "unable to get bean name from bean_path".to_owned(),
            ModuleError::ToolInvocationFailed(ToolFailure::NotStarted) => "unable to start the process".to_owned(),
            ModuleError::ToolInvocationFailed(ToolFailure::NoExitCode) => "unable to get exit code for process".to_owned(),
            ModuleError::ToolInvocationFailed(ToolFailure::UnexpectedExit) => "unexpected error code".to_owned(),
            ModuleError::NotLoaded => "cannot sync an unloaded module".to_owned(),
            ModuleError::DirtyWorkingTree => "working directory not clean... make sure to commit all changes".to_owned(),
        }
    }
}

impl ToolFailure {
    /// The failure that stands for a rejected exit status.
    pub fn from_expect_error(e: ExpectError) -> (failure: ToolFailure)
        ensures
            failure == tool_failure(e),
    {
        match e {
            ExpectError::NoExitCode => ToolFailure::NoExitCode,
            ExpectError::UnexpectedExit => ToolFailure::UnexpectedExit,
        }
    }
}

impl ToolReply {
    /// Accepts the reply only if the command ran and reported success itself.
    pub fn expect_success(&self) -> (res: Result<(), ModuleError>)
        ensures
            res == self@.expect_success(),
    {
        match self {
            ToolReply::NotStarted => Err(ModuleError::ToolInvocationFailed(ToolFailure::NotStarted)),
            ToolReply::Finished { status, .. } => match status.expect_success() {
                Ok(()) => Ok(()),
                Err(e) => Err(
                    ModuleError::ToolInvocationFailed(ToolFailure::from_expect_error(e)),
                ),
            },
        }
    }

    /// Accepts the reply only if the command ran and ended with one of the
    /// exit codes in `code`.
    pub fn expect(&self, code: &[i32]) -> (res: Result<(), ModuleError>)
        ensures
            res == self@.expect(code@),
    {
        match self {
            ToolReply::NotStarted => Err(ModuleError::ToolInvocationFailed(ToolFailure::NotStarted)),
            ToolReply::Finished { status, .. } => match status.expect(code) {
                Ok(()) => Ok(()),
                Err(e) => Err(
                    ModuleError::ToolInvocationFailed(ToolFailure::from_expect_error(e)),
                ),
            },
        }
    }
}

/// What a lifecycle operation wants next.
#[derive(Debug, PartialEq, Eq)]
pub enum Step<P> {
    /// Run `command`, then hand the reply and `pending` to
    /// [`Module::resume`].
    Run { command: GitCommand, pending: P },
    /// The operation is over, with `result`.
    Done { result: Result<(), ModuleError> },
}

/// A [`Step`] as a mathematical value.
pub enum StepView<P> {
    Run { command: GitCommandView, pending: P },
    Done { result: Result<(), ModuleError> },
}

impl<P: View> View for Step<P> {
    type V = StepView<P::V>;

    open spec fn view(&self) -> StepView<P::V> {
        match self {
            Step::Run { command, pending } => StepView::Run {
                command: command@,
                pending: pending@,
            },
            Step::Done { result } => StepView::Done { result: *result },
        }
    }
}

/// The lifecycle that every kind of module offers.
///
/// Each operation is begun by its own method and, as long as the step that
/// comes back is [`Step::Run`], carried on by [`Module::resume`] with the
/// reply to the command. No method starts a process.
pub trait Module: Sized {
    /// What the module has to remember between a command and its reply.
    type Pending: View;

    /// The name by which an environment knows the module.
    spec fn name() -> Seq<char>;

    /// The name by which an environment knows the module.
    fn module_name(&self) -> (name: &'static str)
        ensures
            name@ == Self::name(),
    ;

    /// Whether the module is attached to its environment.
    spec fn is_loaded(&self) -> bool;

    /// Begins to attach the module to the environment at `bean_path`. On a
    /// module that is loaded already nothing happens.
    fn load(&mut self, bean_path: &str) -> (step: Step<Self::Pending>)
        ensures
            old(self).is_loaded() ==> *final(self) == *old(self) && step@ == (StepView::<
                <Self::Pending as View>::V,
            >::Done { result: Ok(()) }),
    ;

    /// Begins to bring the module's baseline up to its dev checkout. A module
    /// that is not loaded refuses.
    fn sync(&mut self, bean_path: &str) -> (step: Step<Self::Pending>)
        ensures
            !old(self).is_loaded() ==> *final(self) == *old(self) && step@ == (StepView::<
                <Self::Pending as View>::V,
            >::Done { result: Err(ModuleError::NotLoaded) }),
    ;

    /// Begins to detach the module from the environment at `bean_path`. On a
    /// module that is not loaded nothing happens.
    fn unload(&mut self, bean_path: &str) -> (step: Step<Self::Pending>)
        ensures
            !old(self).is_loaded() ==> *final(self) == *old(self) && step@ == (StepView::<
                <Self::Pending as View>::V,
            >::Done { result: Ok(()) }),
    ;

    /// Carries an operation on with the reply to the command that its last
    /// step asked for.
    fn resume(&mut self, pending: Self::Pending, reply: &ToolReply) -> (step: Step<Self::Pending>);
}

} // verus!
