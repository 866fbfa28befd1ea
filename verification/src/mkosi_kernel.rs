//! The build-configuration module. It has nothing of its own to check out
//! yet: every lifecycle operation succeeds at once and asks for no command.
use crate::module::{Module, Step, StepView, ToolReply};
use vstd::prelude::*;

verus! {

/// The build-configuration module of one environment.
#[derive(Clone, Debug, PartialEq, Eq)]
pub struct MkosiKernel {
    source_path: String,
    bean_relative_path: String,
    profile: String,
}

/// A [`MkosiKernel`] as a mathematical value.
pub struct MkosiKernelView {
    /// The backing repository.
    pub source_path: Seq<char>,
    /// Where the module lies, relative to the environment.
    pub bean_relative_path: Seq<char>,
    /// The build profile that was chosen.
    pub profile: Seq<char>,
}

impl View for MkosiKernel {
    type V = MkosiKernelView;

    closed spec fn view(&self) -> MkosiKernelView {
        MkosiKernelView {
            source_path: self.source_path@,
            bean_relative_path: self.bean_relative_path@,
            profile: self.profile@,
        }
    }
}

/// What a build-configuration module waits for: nothing.
#[derive(Clone, Copy, Debug, PartialEq, Eq)]
pub struct Idle;

impl View for Idle {
    type V = Idle;

    open spec fn view(&self) -> Idle {
        *self
    }
}

/// The step by which a build-configuration module ends every operation.
pub open spec fn succeeded() -> StepView<Idle> {
    StepView::Done { result: Ok(()) }
}

impl MkosiKernel {
    /// A build-configuration module: the repository at `source_path`, the
    /// module at `bean_relative_path` inside the environment, built with
    /// `profile`.
    pub fn setup(source_path: &str, bean_relative_path: &str, profile: &str) -> (module:
        MkosiKernel)
        ensures
            module@ == (MkosiKernelView {
                source_path: source_path@,
                bean_relative_path: bean_relative_path@,
                profile: profile@,
            }),
    {
        MkosiKernel {
            source_path: source_path.to_owned(),
            bean_relative_path: bean_relative_path.to_owned(),
            profile: profile.to_owned(),
        }
    }

    /// The backing repository.
    pub fn source_path(&self) -> (path: &str)
        ensures
            path@ == self@.source_path,
    {
        self.source_path.as_str()
    }

    /// Where the module lies, relative to the environment.
    pub fn bean_relative_path(&self) -> (path: &str)
        ensures
            path@ == self@.bean_relative_path,
    {
        self.bean_relative_path.as_str()
    }

    /// The build profile that was chosen.
    pub fn profile(&self) -> (profile: &str)
        ensures
            profile@ == self@.profile,
    {
        self.profile.as_str()
    }
}

impl Module for MkosiKernel {
    type Pending = Idle;

    open spec fn name() -> Seq<char> {
        "mkosi_kernel"@
    }

    fn module_name(&self) -> (name: &'static str) {
        "mkosi_kernel"
    }

    open spec fn is_loaded(&self) -> bool {
        true
    }

    fn load(&mut self, bean_path: &str) -> (step: Step<Idle>)
        ensures
            *final(self) == *old(self),
            step@ == succeeded(),
    {
        Step::Done { result: Ok(()) }
    }

    fn sync(&mut self, bean_path: &str) -> (step: Step<Idle>)
        ensures
            *final(self) == *old(self),
            step@ == succeeded(),
    {
        Step::Done { result: Ok(()) }
    }

    fn unload(&mut self, bean_path: &str) -> (step: Step<Idle>)
        ensures
            *final(self) == *old(self),
            step@ == succeeded(),
    {
        Step::Done { result: Ok(()) }
    }

    fn resume(&mut self, pending: Idle, reply: &ToolReply) -> (step: Step<Idle>)
        ensures
            *final(self) == *old(self),
            step@ == succeeded(),
    {
        Step::Done { result: Ok(()) }
    }
}

} // verus!
