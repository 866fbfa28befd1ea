//! Classification of finished processes, and names of environments.
use crate::module::ModuleError;
use vstd::prelude::*;

verus! {

/// How a finished process ended, as far as the library looks at it.
#[derive(Clone, Copy, Debug, PartialEq, Eq)]
pub struct ExitStatus {
    /// The process's own success indicator.
    pub success: bool,
    /// The numeric exit code; `None` where the process ended without one,
    /// for instance because a signal killed it.
    pub code: Option<i32>,
}

/// Why a finished process was not accepted.
#[derive(Clone, Copy, Debug, PartialEq, Eq)]
pub enum ExpectError {
    /// The process ended in a way the caller did not allow.
    UnexpectedExit,
    /// The process ended without a numeric exit code.
    NoExitCode,
}

/// The outcome of [`ExitStatus::expect`] on a status with exit code `code`
/// and the allow-list `allowed`.
pub open spec fn expect_outcome(code: Option<i32>, allowed: Seq<i32>) -> Result<(), ExpectError> {
    match code {
        None => Err(ExpectError::NoExitCode),
        Some(c) => if allowed.contains(c) {
            Ok(())
        } else {
            Err(ExpectError::UnexpectedExit)
        },
    }
}

impl ExitStatus {
    /// The status of a process that exited with `code`.
    pub fn from_code(code: i32) -> (status: ExitStatus)
        ensures
            status.code == Some(code),
            status.success == (code == 0),
    {
        ExitStatus { success: code == 0, code: Some(code) }
    }

    /// Accepts the status only if the process itself reported success.
    pub fn expect_success(&self) -> (res: Result<(), ExpectError>)
        ensures
            res == (if self.success {
                Ok::<(), ExpectError>(())
            } else {
                Err(ExpectError::UnexpectedExit)
            }),
    {
        if self.success {
            Ok(())
        } else {
            Err(ExpectError::UnexpectedExit)
        }
    }

    /// Accepts the status if its exit code is one of `code`.
    pub fn expect(&self, code: &[i32]) -> (res: Result<(), ExpectError>)
        ensures
            res == expect_outcome(self.code, code@),
    {
        let actual: i32 = match self.code {
            Some(c) => c,
            None => {
                return Err(ExpectError::NoExitCode);
            },
        };
        let mut i: usize = 0;
        while i < code.len()
            invariant
                i <= code.len(),
                self.code == Some(actual),
                forall|j: int| 0 <= j < i ==> code@[j] != actual,
            decreases code.len() - i,
        {
            if code[i] == actual {
                assert(code@[i as int] == actual);
                return Ok(());
            }
            i += 1;
        }
        Err(ExpectError::UnexpectedExit)
    }
}


/// The final component of `path`, as `std::path::Path::file_name` gives it
/// on the platform that the library is built for; `None` where the path has
/// none.
pub uninterp spec fn path_file_name(path: Seq<char>) -> Option<Seq<char>>;

/// The path `base` extended by `rel`, as `std::path::Path::join` gives it on
/// the platform that the library is built for.
pub uninterp spec fn path_join(base: Seq<char>, rel: Seq<char>) -> Seq<char>;

/// Calls `std::path::Path::file_name` on `path`. The contract only names the
/// result: the final component of the path, if it has one, as a string of its
/// own.
#[verifier::external_body]
pub(crate) fn file_name(path: &str) -> (name: Option<String>)
    ensures
        name.deep_view() == path_file_name(path@),
{
    match std::path::Path::new(path).file_name() {
        Some(name) => Some(name.to_string_lossy().into_owned()),
        None => None,
    }
}

/// Calls `std::path::Path::join` on `base` with `rel`. The contract only
/// names the result: the joined path as a string of its own.
#[verifier::external_body]
pub(crate) fn join(base: &str, rel: &str) -> (path: String)
    ensures
        path@ == path_join(base@, rel@),
{
    std::path::Path::new(base).join(rel).to_string_lossy().into_owned()
}

/// The branch name that stands for an environment whose path has the final
/// component `name`.
pub open spec fn bean_name(name: Option<Seq<char>>) -> Result<Seq<char>, ModuleError> {
    match name {
        Some(n) => Ok(n),
        None => Err(ModuleError::InvalidEnvironmentName),
    }
}

/// A result that holds a string, as a mathematical value.
pub open spec fn text_result(res: Result<String, ModuleError>) -> Result<Seq<char>, ModuleError> {
    match res {
        Ok(s) => Ok(s@),
        Err(e) => Err(e),
    }
}

/// Turns the final component of an environment path into the environment's
/// name, and its absence into an error.
pub fn bean_name_of(name: Option<String>) -> (res: Result<String, ModuleError>)
    ensures
        text_result(res) == bean_name(name.deep_view()),
{
    match name {
        Some(n) => Ok(n),
        None => Err(ModuleError::InvalidEnvironmentName),
    }
}

/// The name of the environment at `bean_path`: the path's final component.
/// An environment path without one is rejected.
pub fn bean_name_from_(bean_path: &str) -> (res: Result<String, ModuleError>)
    ensures
        text_result(res) == bean_name(path_file_name(bean_path@)),
{
    bean_name_of(file_name(bean_path))
}

} // verus!
