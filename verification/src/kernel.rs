//! The kernel module: a dev worktree on a branch of its own, named after the
//! environment, beside a clean worktree with a detached head that serves as
//! the baseline for builds and tests.
use crate::git::{
    branch_from, clean_from, clean_reply, first_line_reply, git_branch, git_hash, git_status,
    hash_from, log_hashes, show_current_branch, status_porcelain, switch_detached,
    worktree_add_branch, worktree_add_detached, worktree_remove,
};
use crate::module::{
    GitCommand, GitCommandView, Module, ModuleError, Step, StepView, ToolReply, ToolReplyView,
};
use crate::util::{bean_name, bean_name_from_, join, path_file_name, path_join, text_result};
use vstd::prelude::*;

verus! {

/// Whether the kernel module is attached to its environment, and at what.
#[derive(Clone, Debug, PartialEq, Eq)]
pub enum KernelStatus {
    /// No worktree of the module belongs to the environment.
    Unloaded,
    /// The dev worktree exists, on `branch` and at commit `hash`, as the
    /// version-control tool last reported them.
    Loaded { branch: String, hash: String },
}

/// A [`KernelStatus`] as a mathematical value.
pub enum KernelStatusView {
    Unloaded,
    Loaded { branch: Seq<char>, hash: Seq<char> },
}

impl View for KernelStatus {
    type V = KernelStatusView;

    open spec fn view(&self) -> KernelStatusView {
        match self {
            KernelStatus::Unloaded => KernelStatusView::Unloaded,
            KernelStatus::Loaded { branch, hash } => KernelStatusView::Loaded {
                branch: branch@,
                hash: hash@,
            },
        }
    }
}

/// The kernel module of one environment.
#[derive(Clone, Debug, PartialEq, Eq)]
pub struct Kernel {
    source_path: String,
    clean_path: String,
    bean_relative_dev_path: String,
    module_status: KernelStatus,
}

/// A [`Kernel`] as a mathematical value.
pub struct KernelView {
    /// The backing repository.
    pub source_path: Seq<char>,
    /// Where the clean worktree lies.
    pub clean_path: Seq<char>,
    /// Where the dev worktree lies, relative to the environment.
    pub bean_relative_dev_path: Seq<char>,
    /// The recorded status.
    pub status: KernelStatusView,
}

impl View for Kernel {
    type V = KernelView;

    closed spec fn view(&self) -> KernelView {
        KernelView {
            source_path: self.source_path@,
            clean_path: self.clean_path@,
            bean_relative_dev_path: self.bean_relative_dev_path@,
            status: self.module_status@,
        }
    }
}

/// What a kernel module waits for while an operation is under way.
#[derive(Clone, Debug, PartialEq, Eq)]
pub enum KernelPending {
    /// `load`: the dev worktree at `dev_path` is being added.
    AddingDev { dev_path: String },
    /// `load`: the clean worktree is being added.
    AddingClean { dev_path: String },
    /// `load`: the branch of the dev worktree is being read.
    ReadingBranch { dev_path: String },
    /// `load` and `sync`: the commit of the dev worktree is being read; it
    /// is on `branch`.
    ReadingHash { branch: String },
    /// `sync`: the dev worktree is being asked for uncommitted changes.
    CheckingClean { dev_path: String },
    /// `sync`: the branch of the dev worktree is being read.
    ReadingDevBranch { dev_path: String },
    /// `sync`: the clean worktree is being switched to `branch`.
    Switching { dev_path: String, branch: String },
    /// `unload`: the dev worktree is being removed.
    Removing,
}

/// A [`KernelPending`] as a mathematical value.
pub enum KernelPendingView {
    AddingDev { dev_path: Seq<char> },
    AddingClean { dev_path: Seq<char> },
    ReadingBranch { dev_path: Seq<char> },
    ReadingHash { branch: Seq<char> },
    CheckingClean { dev_path: Seq<char> },
    ReadingDevBranch { dev_path: Seq<char> },
    Switching { dev_path: Seq<char>, branch: Seq<char> },
    Removing,
}

impl View for KernelPending {
    type V = KernelPendingView;

    open spec fn view(&self) -> KernelPendingView {
        match self {
            KernelPending::AddingDev { dev_path } => KernelPendingView::AddingDev {
                dev_path: dev_path@,
            },
            KernelPending::AddingClean { dev_path } => KernelPendingView::AddingClean {
                dev_path: dev_path@,
            },
            KernelPending::ReadingBranch { dev_path } => KernelPendingView::ReadingBranch {
                dev_path: dev_path@,
            },
            KernelPending::ReadingHash { branch } => KernelPendingView::ReadingHash {
                branch: branch@,
            },
            KernelPending::CheckingClean { dev_path } => KernelPendingView::CheckingClean {
                dev_path: dev_path@,
            },
            KernelPending::ReadingDevBranch { dev_path } => KernelPendingView::ReadingDevBranch {
                dev_path: dev_path@,
            },
            KernelPending::Switching { dev_path, branch } => KernelPendingView::Switching {
                dev_path: dev_path@,
                branch: branch@,
            },
            KernelPending::Removing => KernelPendingView::Removing,
        }
    }
}

/// A step of a kernel module as a mathematical value.
pub type KernelStep = StepView<KernelPendingView>;

/// A kernel module together with the step that it has just taken.
pub struct Turn {
    pub kernel: KernelView,
    pub step: KernelStep,
}

/// The turn that ends an operation with `result`.
pub open spec fn done(kernel: KernelView, result: Result<(), ModuleError>) -> Turn {
    Turn { kernel, step: StepView::Done { result } }
}

/// The turn that asks for `command` and waits in `pending`.
pub open spec fn run(kernel: KernelView, command: GitCommandView, pending: KernelPendingView) -> Turn {
    Turn { kernel, step: StepView::Run { command, pending } }
}

impl KernelView {
    /// The module with another status.
    pub open spec fn with_status(self, status: KernelStatusView) -> KernelView {
        KernelView { status, ..self }
    }

    /// The first turn of `load`, for an environment of the name `bean_name`
    /// whose dev worktree is to lie at `dev_path`.
    pub open spec fn load_at(
        self,
        bean_name: Result<Seq<char>, ModuleError>,
        dev_path: Seq<char>,
    ) -> Turn {
        if self.status is Loaded {
            done(self, Ok(()))
        } else {
            match bean_name {
                Err(e) => done(self, Err(e)),
                Ok(name) => run(
                    self,
                    worktree_add_branch(self.source_path, dev_path, name),
                    KernelPendingView::AddingDev { dev_path },
                ),
            }
        }
    }

    /// The first turn of `sync`, where the dev worktree lies at
    /// `dev_path`.
    pub open spec fn sync_at(self, dev_path: Seq<char>) -> Turn {
        if self.status is Unloaded {
            done(self, Err(ModuleError::NotLoaded))
        } else {
            run(
                self,
                status_porcelain(dev_path),
                KernelPendingView::CheckingClean { dev_path },
            )
        }
    }

    /// The first turn of `unload`, where the dev worktree lies at
    /// `dev_path`. The module counts as unloaded from here on, whatever
    /// becomes of the removal.
    pub open spec fn unload_at(self, dev_path: Seq<char>) -> Turn {
        if self.status is Unloaded {
            done(self, Ok(()))
        } else {
            run(
                self.with_status(KernelStatusView::Unloaded),
                worktree_remove(self.source_path, dev_path),
                KernelPendingView::Removing,
            )
        }
    }

    /// Where the dev worktree lies in the environment at `bean_path`.
    pub open spec fn dev_path(self, bean_path: Seq<char>) -> Seq<char> {
        path_join(bean_path, self.bean_relative_dev_path)
    }

    /// The first turn of `load` for the environment at `bean_path`.
    pub open spec fn load(self, bean_path: Seq<char>) -> Turn {
        self.load_at(bean_name(path_file_name(bean_path)), self.dev_path(bean_path))
    }

    /// The first turn of `sync` for the environment at `bean_path`.
    pub open spec fn sync(self, bean_path: Seq<char>) -> Turn {
        self.sync_at(self.dev_path(bean_path))
    }

    /// The first turn of `unload` for the environment at `bean_path`.
    pub open spec fn unload(self, bean_path: Seq<char>) -> Turn {
        self.unload_at(self.dev_path(bean_path))
    }

    /// The turn that follows `reply` while the module waits in `pending`.
    /// A command that failed ends the operation with its failure and leaves
    /// the status as it is.
    pub open spec fn resume(self, pending: KernelPendingView, reply: ToolReplyView) -> Turn {
        match pending {
            KernelPendingView::AddingDev { dev_path } => match reply.expect_success() {
                Err(e) => done(self, Err(e)),
                Ok(()) => run(
                    self,
                    worktree_add_detached(self.source_path, self.clean_path),
                    KernelPendingView::AddingClean { dev_path },
                ),
            },
            KernelPendingView::AddingClean { dev_path } => match reply.expect(
                seq![0i32, 128i32],
            ) {
                Err(e) => done(self, Err(e)),
                Ok(()) => run(
                    self,
                    show_current_branch(dev_path),
                    KernelPendingView::ReadingBranch { dev_path },
                ),
            },
            KernelPendingView::ReadingBranch { dev_path } => match first_line_reply(reply) {
                Err(e) => done(self, Err(e)),
                Ok(branch) => run(
                    self,
                    log_hashes(dev_path),
                    KernelPendingView::ReadingHash { branch },
                ),
            },
            KernelPendingView::ReadingHash { branch } => match first_line_reply(reply) {
                Err(e) => done(self, Err(e)),
                Ok(hash) => done(
                    self.with_status(KernelStatusView::Loaded { branch, hash }),
                    Ok(()),
                ),
            },
            KernelPendingView::CheckingClean { dev_path } => match clean_reply(reply) {
                Err(e) => done(self, Err(e)),
                Ok(false) => done(self, Err(ModuleError::DirtyWorkingTree)),
                Ok(true) => run(
                    self,
                    show_current_branch(dev_path),
                    KernelPendingView::ReadingDevBranch { dev_path },
                ),
            },
            KernelPendingView::ReadingDevBranch { dev_path } => match first_line_reply(reply) {
                Err(e) => done(self, Err(e)),
                Ok(branch) => run(
                    self,
                    switch_detached(self.clean_path, branch),
                    KernelPendingView::Switching { dev_path, branch },
                ),
            },
            KernelPendingView::Switching { dev_path, branch } => match reply.expect_success() {
                Err(e) => done(self, Err(e)),
                Ok(()) => run(
                    self,
                    log_hashes(dev_path),
                    KernelPendingView::ReadingHash { branch },
                ),
            },
            KernelPendingView::Removing => done(self, reply.expect_success()),
        }
    }
}

/// The exit codes that count as success when the clean worktree is added:
/// a clean exit, and the code by which the tool says that the worktree is
/// there already.
pub const CLEAN_WORKTREE_CODES: [i32; 2] = [0, 128];

impl Kernel {
    /// A kernel module that is not loaded yet: the repository at
    /// `source_path`, the clean worktree at `clean_path`, the dev worktree at
    /// `bean_relative_dev_path` inside the environment.
    pub fn setup(source_path: &str, clean_path: &str, bean_relative_dev_path: &str) -> (kernel:
        Kernel)
        ensures
            kernel@ == (KernelView {
                source_path: source_path@,
                clean_path: clean_path@,
                bean_relative_dev_path: bean_relative_dev_path@,
                status: KernelStatusView::Unloaded,
            }),
    {
        Kernel {
            source_path: source_path.to_owned(),
            clean_path: clean_path.to_owned(),
            bean_relative_dev_path: bean_relative_dev_path.to_owned(),
            module_status: KernelStatus::Unloaded,
        }
    }

    /// A kernel module as it was recorded earlier, with its status.
    pub fn restore(
        source_path: String,
        clean_path: String,
        bean_relative_dev_path: String,
        module_status: KernelStatus,
    ) -> (kernel: Kernel)
        ensures
            kernel@ == (KernelView {
                source_path: source_path@,
                clean_path: clean_path@,
                bean_relative_dev_path: bean_relative_dev_path@,
                status: module_status@,
            }),
    {
        Kernel { source_path, clean_path, bean_relative_dev_path, module_status }
    }

    /// The backing repository.
    pub fn source_path(&self) -> (path: &str)
        ensures
            path@ == self@.source_path,
    {
        self.source_path.as_str()
    }

    /// Where the clean worktree lies.
    pub fn clean_path(&self) -> (path: &str)
        ensures
            path@ == self@.clean_path,
    {
        self.clean_path.as_str()
    }

    /// Where the dev worktree lies, relative to the environment.
    pub fn bean_relative_dev_path(&self) -> (path: &str)
        ensures
            path@ == self@.bean_relative_dev_path,
    {
        self.bean_relative_dev_path.as_str()
    }

    /// The recorded status.
    pub fn module_status(&self) -> (status: &KernelStatus)
        ensures
            status@ == self@.status,
    {
        &self.module_status
    }

    /// Begins `load` for an environment of the name `bean_name` whose dev
    /// worktree is to lie at `dev_path`.
    pub fn load_at(&mut self, bean_name: Result<String, ModuleError>, dev_path: String) -> (step:
        Step<KernelPending>)
        ensures
            (Turn { kernel: final(self)@, step: step@ }) == old(self)@.load_at(
                text_result(bean_name),
                dev_path@,
            ),
            *final(self) == *old(self),
    {
        match &self.module_status {
            KernelStatus::Loaded { .. } => {
                return Step::Done { result: Ok(()) };
            },
            KernelStatus::Unloaded => {},
        }
        match bean_name {
            Err(e) => Step::Done { result: Err(e) },
            Ok(name) => Step::Run {
                command: GitCommand::worktree_add_branch(
                    self.source_path.as_str(),
                    dev_path.as_str(),
                    name.as_str(),
                ),
                pending: KernelPending::AddingDev { dev_path },
            },
        }
    }

    /// Begins `sync` where the dev worktree lies at `dev_path`.
    pub fn sync_at(&mut self, dev_path: String) -> (step: Step<KernelPending>)
        ensures
            (Turn { kernel: final(self)@, step: step@ }) == old(self)@.sync_at(dev_path@),
            *final(self) == *old(self),
    {
        match &self.module_status {
            KernelStatus::Unloaded => {
                return Step::Done { result: Err(ModuleError::NotLoaded) };
            },
            KernelStatus::Loaded { .. } => {},
        }
        Step::Run {
            command: git_status(dev_path.as_str()),
            pending: KernelPending::CheckingClean { dev_path },
        }
    }

    /// Begins `unload` where the dev worktree lies at `dev_path`.
    pub fn unload_at(&mut self, dev_path: String) -> (step: Step<KernelPending>)
        ensures
            (Turn { kernel: final(self)@, step: step@ }) == old(self)@.unload_at(dev_path@),
            old(self)@.status is Unloaded ==> *final(self) == *old(self),
    {
        match &self.module_status {
            KernelStatus::Unloaded => {
                return Step::Done { result: Ok(()) };
            },
            KernelStatus::Loaded { .. } => {},
        }
        self.module_status = KernelStatus::Unloaded;
        Step::Run {
            command: GitCommand::worktree_remove(self.source_path.as_str(), dev_path.as_str()),
            pending: KernelPending::Removing,
        }
    }

    /// Where the dev worktree lies in the environment at `bean_path`.
    pub fn dev_path(&self, bean_path: &str) -> (path: String)
        ensures
            path@ == self@.dev_path(bean_path@),
    {
        join(bean_path, self.bean_relative_dev_path.as_str())
    }
}

impl Module for Kernel {
    type Pending = KernelPending;

    open spec fn name() -> Seq<char> {
        "kernel"@
    }

    fn module_name(&self) -> (name: &'static str) {
        "kernel"
    }

    open spec fn is_loaded(&self) -> bool {
        self@.status is Loaded
    }

    fn load(&mut self, bean_path: &str) -> (step: Step<KernelPending>)
        ensures
            (Turn { kernel: final(self)@, step: step@ }) == old(self)@.load(bean_path@),
    {
        let dev_path = self.dev_path(bean_path);
        let name = bean_name_from_(bean_path);
        self.load_at(name, dev_path)
    }

    fn sync(&mut self, bean_path: &str) -> (step: Step<KernelPending>)
        ensures
            (Turn { kernel: final(self)@, step: step@ }) == old(self)@.sync(bean_path@),
    {
        let dev_path = self.dev_path(bean_path);
        self.sync_at(dev_path)
    }

    fn unload(&mut self, bean_path: &str) -> (step: Step<KernelPending>)
        ensures
            (Turn { kernel: final(self)@, step: step@ }) == old(self)@.unload(bean_path@),
    {
        let dev_path = self.dev_path(bean_path);
        self.unload_at(dev_path)
    }

    fn resume(&mut self, pending: KernelPending, reply: &ToolReply) -> (step: Step<KernelPending>)
        ensures
            (Turn { kernel: final(self)@, step: step@ }) == old(self)@.resume(pending@, reply@),
    {
        match pending {
            KernelPending::AddingDev { dev_path } => match reply.expect_success() {
                Err(e) => Step::Done { result: Err(e) },
                Ok(()) => Step::Run {
                    command: GitCommand::worktree_add_detached(
                        self.source_path.as_str(),
                        self.clean_path.as_str(),
                    ),
                    pending: KernelPending::AddingClean { dev_path },
                },
            },
            KernelPending::AddingClean { dev_path } => {
                let allowed = CLEAN_WORKTREE_CODES;
                assert(allowed@ =~= seq![0i32, 128i32]);
                match reply.expect(allowed.as_slice()) {
                    Err(e) => Step::Done { result: Err(e) },
                    Ok(()) => Step::Run {
                        command: git_branch(dev_path.as_str()),
                        pending: KernelPending::ReadingBranch { dev_path },
                    },
                }
            },
            KernelPending::ReadingBranch { dev_path } => match branch_from(reply) {
                Err(e) => Step::Done { result: Err(e) },
                Ok(branch) => Step::Run {
                    command: git_hash(dev_path.as_str()),
                    pending: KernelPending::ReadingHash { branch },
                },
            },
            KernelPending::ReadingHash { branch } => match hash_from(reply) {
                Err(e) => Step::Done { result: Err(e) },
                Ok(hash) => {
                    self.module_status = KernelStatus::Loaded { branch, hash };
                    Step::Done { result: Ok(()) }
                },
            },
            KernelPending::CheckingClean { dev_path } => match clean_from(reply) {
                Err(e) => Step::Done { result: Err(e) },
                Ok(false) => Step::Done { result: Err(ModuleError::DirtyWorkingTree) },
                Ok(true) => Step::Run {
                    command: git_branch(dev_path.as_str()),
                    pending: KernelPending::ReadingDevBranch { dev_path },
                },
            },
            KernelPending::ReadingDevBranch { dev_path } => match branch_from(reply) {
                Err(e) => Step::Done { result: Err(e) },
                Ok(branch) => Step::Run {
                    command: GitCommand::switch_detached(self.clean_path.as_str(), branch.as_str()),
                    pending: KernelPending::Switching { dev_path, branch },
                },
            },
            KernelPending::Switching { dev_path, branch } => match reply.expect_success() {
                Err(e) => Step::Done { result: Err(e) },
                Ok(()) => Step::Run {
                    command: git_hash(dev_path.as_str()),
                    pending: KernelPending::ReadingHash { branch },
                },
            },
            KernelPending::Removing => Step::Done { result: reply.expect_success() },
        }
    }
}

/// How far an operation got on the replies that were at hand.
pub struct Outcome {
    /// The module afterwards.
    pub kernel: KernelView,
    /// The operation's result; `None` while a command is still unanswered.
    pub result: Option<Result<(), ModuleError>>,
    /// The commands that were asked for, in their order.
    pub commands: Seq<GitCommandView>,
}

impl Turn {
    /// Carries the operation on from this turn: each command that is asked
    /// for gets the next of `replies`, until the operation ends or the
    /// replies run out.
    pub open spec fn finish(self, replies: Seq<ToolReplyView>) -> Outcome
        decreases replies.len(),
    {
        match self.step {
            StepView::Done { result } => Outcome {
                kernel: self.kernel,
                result: Some(result),
                commands: Seq::empty(),
            },
            StepView::Run { command, pending } => if replies.len() == 0 {
                Outcome { kernel: self.kernel, result: None, commands: seq![command] }
            } else {
                let rest = self.kernel.resume(pending, replies[0]).finish(replies.drop_first());
                Outcome { commands: seq![command] + rest.commands, ..rest }
            },
        }
    }
}

/// A module that `load` has brought to success is loaded, and a second
/// `load` changes nothing: it asks for no command, succeeds, and leaves the
/// branch and the commit as the first one recorded them.
pub proof fn law_load_twice(
    kernel: KernelView,
    bean_path: Seq<char>,
    first: Seq<ToolReplyView>,
    second: Seq<ToolReplyView>,
)
    requires
        kernel.load(bean_path).finish(first).result == Some(Ok::<(), ModuleError>(())),
    ensures
        kernel.load(bean_path).finish(first).kernel.status is Loaded,
        kernel.load(bean_path).finish(first).kernel.load(bean_path).finish(second) == (Outcome {
            kernel: kernel.load(bean_path).finish(first).kernel,
            result: Some(Ok(())),
            commands: Seq::empty(),
        }),
{
    reveal_with_fuel(Turn::finish, 6);
}

/// A `load` that succeeds on a module that was not loaded has taken four
/// commands: it added the dev worktree on a new branch named after the
/// environment, added the clean worktree with a detached head, and read the
/// branch and the commit of the dev worktree. The status then holds that
/// branch and that commit.
pub proof fn law_load_success(kernel: KernelView, bean_path: Seq<char>, replies: Seq<ToolReplyView>)
    requires
        kernel.status is Unloaded,
        kernel.load(bean_path).finish(replies).result == Some(Ok::<(), ModuleError>(())),
    ensures
        path_file_name(bean_path) is Some,
        replies.len() >= 4,
        replies[0].expect_success() is Ok,
        replies[1].expect(seq![0i32, 128i32]) is Ok,
        first_line_reply(replies[2]) is Ok,
        first_line_reply(replies[3]) is Ok,
        kernel.load(bean_path).finish(replies).commands == seq![
            worktree_add_branch(
                kernel.source_path,
                kernel.dev_path(bean_path),
                path_file_name(bean_path)->Some_0,
            ),
            worktree_add_detached(kernel.source_path, kernel.clean_path),
            show_current_branch(kernel.dev_path(bean_path)),
            log_hashes(kernel.dev_path(bean_path)),
        ],
        kernel.load(bean_path).finish(replies).kernel == kernel.with_status(
            KernelStatusView::Loaded {
                branch: first_line_reply(replies[2])->Ok_0,
                hash: first_line_reply(replies[3])->Ok_0,
            },
        ),
{
    reveal_with_fuel(Turn::finish, 6);
    let r1 = replies.drop_first();
    let r2 = r1.drop_first();
    let r3 = r2.drop_first();
    if replies.len() >= 4 {
        assert(r1[0] == replies[1]);
        assert(r2[0] == replies[2]);
        assert(r3[0] == replies[3]);
    }
    assert(kernel.load(bean_path).finish(replies).commands =~= seq![
        worktree_add_branch(
            kernel.source_path,
            kernel.dev_path(bean_path),
            path_file_name(bean_path)->Some_0,
        ),
        worktree_add_detached(kernel.source_path, kernel.clean_path),
        show_current_branch(kernel.dev_path(bean_path)),
        log_hashes(kernel.dev_path(bean_path)),
    ]);
}

/// `load` and `sync` change the module only by succeeding: as long as the
/// operation has not ended, and when it has failed, the module is as it was.
pub proof fn law_status_kept_without_success(
    kernel: KernelView,
    bean_path: Seq<char>,
    replies: Seq<ToolReplyView>,
)
    ensures
        kernel.load(bean_path).finish(replies).result != Some(Ok::<(), ModuleError>(()))
            ==> kernel.load(bean_path).finish(replies).kernel == kernel,
        kernel.sync(bean_path).finish(replies).result != Some(Ok::<(), ModuleError>(()))
            ==> kernel.sync(bean_path).finish(replies).kernel == kernel,
{
    reveal_with_fuel(Turn::finish, 6);
}

/// However `unload` goes, the module is not loaded afterwards; and a module
/// that was loaded is asked to remove its dev worktree, and nothing else.
pub proof fn law_unload(kernel: KernelView, bean_path: Seq<char>, replies: Seq<ToolReplyView>)
    ensures
        kernel.unload(bean_path).finish(replies).kernel == kernel.with_status(
            KernelStatusView::Unloaded,
        ),
        kernel.status is Loaded ==> kernel.unload(bean_path).finish(replies).commands == seq![
            worktree_remove(kernel.source_path, kernel.dev_path(bean_path)),
        ],
        kernel.status is Loaded && replies.len() > 0 ==> kernel.unload(bean_path).finish(
            replies,
        ).result == Some(replies[0].expect_success()),
{
    reveal_with_fuel(Turn::finish, 3);
    if kernel.status is Loaded {
        assert(kernel.unload(bean_path).finish(replies).commands =~= seq![
            worktree_remove(kernel.source_path, kernel.dev_path(bean_path)),
        ]);
    } else {
        assert(kernel.with_status(KernelStatusView::Unloaded) == kernel);
    }
}

/// `sync` on a module that is not loaded fails with `NotLoaded`, asks for
/// no command and changes nothing, whatever replies are at hand.
pub proof fn law_sync_unloaded(
    kernel: KernelView,
    bean_path: Seq<char>,
    replies: Seq<ToolReplyView>,
)
    requires
        kernel.status is Unloaded,
    ensures
        kernel.sync(bean_path).finish(replies) == (Outcome {
            kernel,
            result: Some(Err(ModuleError::NotLoaded)),
            commands: Seq::empty(),
        }),
{
}

/// `sync` on a loaded module whose dev worktree reports uncommitted changes
/// fails with `DirtyWorkingTree`. The one command it asked for is the
/// question for those changes: nothing is switched, and the status stays.
pub proof fn law_sync_dirty(kernel: KernelView, bean_path: Seq<char>, replies: Seq<ToolReplyView>)
    requires
        kernel.status is Loaded,
        replies.len() > 0,
        clean_reply(replies[0]) == Ok::<bool, ModuleError>(false),
    ensures
        kernel.sync(bean_path).finish(replies) == (Outcome {
            kernel,
            result: Some(Err(ModuleError::DirtyWorkingTree)),
            commands: seq![status_porcelain(kernel.dev_path(bean_path))],
        }),
{
    reveal_with_fuel(Turn::finish, 3);
    assert(kernel.sync(bean_path).finish(replies).commands =~= seq![
        status_porcelain(kernel.dev_path(bean_path)),
    ]);
}

/// A `sync` that succeeds has taken four commands: it found the dev worktree
/// clean, read its branch, switched the clean worktree to that branch with a
/// detached head, and read the dev worktree's commit. The status then holds
/// that branch and that commit.
pub proof fn law_sync_success(kernel: KernelView, bean_path: Seq<char>, replies: Seq<ToolReplyView>)
    requires
        kernel.sync(bean_path).finish(replies).result == Some(Ok::<(), ModuleError>(())),
    ensures
        replies.len() >= 4,
        clean_reply(replies[0]) == Ok::<bool, ModuleError>(true),
        first_line_reply(replies[1]) is Ok,
        replies[2].expect_success() is Ok,
        first_line_reply(replies[3]) is Ok,
        kernel.sync(bean_path).finish(replies).commands == seq![
            status_porcelain(kernel.dev_path(bean_path)),
            show_current_branch(kernel.dev_path(bean_path)),
            switch_detached(kernel.clean_path, first_line_reply(replies[1])->Ok_0),
            log_hashes(kernel.dev_path(bean_path)),
        ],
        kernel.sync(bean_path).finish(replies).kernel == kernel.with_status(
            KernelStatusView::Loaded {
                branch: first_line_reply(replies[1])->Ok_0,
                hash: first_line_reply(replies[3])->Ok_0,
            },
        ),
{
    reveal_with_fuel(Turn::finish, 6);
    let r1 = replies.drop_first();
    let r2 = r1.drop_first();
    let r3 = r2.drop_first();
    if replies.len() >= 4 {
        assert(r1[0] == replies[1]);
        assert(r2[0] == replies[2]);
        assert(r3[0] == replies[3]);
    }
    assert(kernel.sync(bean_path).finish(replies).commands =~= seq![
        status_porcelain(kernel.dev_path(bean_path)),
        show_current_branch(kernel.dev_path(bean_path)),
        switch_detached(kernel.clean_path, first_line_reply(replies[1])->Ok_0),
        log_hashes(kernel.dev_path(bean_path)),
    ]);
}

/// `unload` on a module that is not loaded succeeds, asks for no command and
/// leaves the module unloaded, whatever replies are at hand.
pub proof fn law_unload_unloaded(
    kernel: KernelView,
    bean_path: Seq<char>,
    replies: Seq<ToolReplyView>,
)
    requires
        kernel.status is Unloaded,
    ensures
        kernel.unload(bean_path).finish(replies) == (Outcome {
            kernel,
            result: Some(Ok(())),
            commands: Seq::empty(),
        }),
{
}

} // verus!
