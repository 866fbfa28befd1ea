//! The commands of the version-control tool that modules ask for, and the
//! reading of what the tool answers.
use crate::module::{
    args_view, GitCommand, GitCommandView, ModuleError, ToolFailure, ToolReply, ToolReplyView,
};
use crate::util::text_result;
use vstd::prelude::*;

verus! {

/// The byte that ends a line.
pub const LINE_FEED: u8 = 10;

/// `worktree add <path> -b <branch>`, run in `repo`: a new worktree at
/// `path` on the new branch `branch`.
pub open spec fn worktree_add_branch(
    repo: Seq<char>,
    path: Seq<char>,
    branch: Seq<char>,
) -> GitCommandView {
    GitCommandView {
        dir: repo,
        args: seq!["worktree"@, "add"@, path, "-b"@, branch],
        capture: false,
    }
}

/// `worktree add <path> -d`, run in `repo`: a new worktree at `path` with a
/// detached head.
pub open spec fn worktree_add_detached(repo: Seq<char>, path: Seq<char>) -> GitCommandView {
    GitCommandView { dir: repo, args: seq!["worktree"@, "add"@, path, "-d"@], capture: false }
}

/// `worktree remove <path>`, run in `repo`.
pub open spec fn worktree_remove(repo: Seq<char>, path: Seq<char>) -> GitCommandView {
    GitCommandView { dir: repo, args: seq!["worktree"@, "remove"@, path], capture: false }
}

/// `switch <branch> --detach`, run in the worktree `worktree`.
pub open spec fn switch_detached(worktree: Seq<char>, branch: Seq<char>) -> GitCommandView {
    GitCommandView { dir: worktree, args: seq!["switch"@, branch, "--detach"@], capture: false }
}

/// `branch --show-current`, run in the worktree `worktree`, output captured.
pub open spec fn show_current_branch(worktree: Seq<char>) -> GitCommandView {
    GitCommandView { dir: worktree, args: seq!["branch"@, "--show-current"@], capture: true }
}

/// `log --pretty=%H`, run in the worktree `worktree`, output captured.
pub open spec fn log_hashes(worktree: Seq<char>) -> GitCommandView {
    GitCommandView { dir: worktree, args: seq!["log"@, "--pretty=%H"@], capture: true }
}

/// `status --porcelain`, run in the worktree `worktree`, output captured.
pub open spec fn status_porcelain(worktree: Seq<char>) -> GitCommandView {
    GitCommandView { dir: worktree, args: seq!["status"@, "--porcelain"@], capture: true }
}

impl GitCommand {
    /// The command that adds a worktree at `path` on the new branch `branch`.
    pub fn worktree_add_branch(repo: &str, path: &str, branch: &str) -> (cmd: GitCommand)
        ensures
            cmd@ == worktree_add_branch(repo@, path@, branch@),
    {
        let mut args: Vec<String> = Vec::new();
        args.push("worktree".to_owned());
        args.push("add".to_owned());
        args.push(path.to_owned());
        args.push("-b".to_owned());
        args.push(branch.to_owned());
        assert(args_view(args@) =~= worktree_add_branch(repo@, path@, branch@).args);
        GitCommand { dir: repo.to_owned(), args, capture: false }
    }

    /// The command that adds a worktree at `path` with a detached head.
    pub fn worktree_add_detached(repo: &str, path: &str) -> (cmd: GitCommand)
        ensures
            cmd@ == worktree_add_detached(repo@, path@),
    {
        let mut args: Vec<String> = Vec::new();
        args.push("worktree".to_owned());
        args.push("add".to_owned());
        args.push(path.to_owned());
        args.push("-d".to_owned());
        assert(args_view(args@) =~= worktree_add_detached(repo@, path@).args);
        GitCommand { dir: repo.to_owned(), args, capture: false }
    }

    /// The command that removes the worktree at `path`.
    pub fn worktree_remove(repo: &str, path: &str) -> (cmd: GitCommand)
        ensures
            cmd@ == worktree_remove(repo@, path@),
    {
        let mut args: Vec<String> = Vec::new();
        args.push("worktree".to_owned());
        args.push("remove".to_owned());
        args.push(path.to_owned());
        assert(args_view(args@) =~= worktree_remove(repo@, path@).args);
        GitCommand { dir: repo.to_owned(), args, capture: false }
    }

    /// The command that moves the worktree `worktree` to the tip of `branch`,
    /// detached.
    pub fn switch_detached(worktree: &str, branch: &str) -> (cmd: GitCommand)
        ensures
            cmd@ == switch_detached(worktree@, branch@),
    {
        let mut args: Vec<String> = Vec::new();
        args.push("switch".to_owned());
        args.push(branch.to_owned());
        args.push("--detach".to_owned());
        assert(args_view(args@) =~= switch_detached(worktree@, branch@).args);
        GitCommand { dir: worktree.to_owned(), args, capture: false }
    }
}

/// The command that asks the worktree at `path` for its branch.
pub fn git_branch(path: &str) -> (cmd: GitCommand)
    ensures
        cmd@ == show_current_branch(path@),
{
    let mut args: Vec<String> = Vec::new();
    args.push("branch".to_owned());
    args.push("--show-current".to_owned());
    assert(args_view(args@) =~= show_current_branch(path@).args);
    GitCommand { dir: path.to_owned(), args, capture: true }
}

/// The command that asks the worktree at `path` for its commits, newest
/// first.
pub fn git_hash(path: &str) -> (cmd: GitCommand)
    ensures
        cmd@ == log_hashes(path@),
{
    let mut args: Vec<String> = Vec::new();
    args.push("log".to_owned());
    args.push("--pretty=%H".to_owned());
    assert(args_view(args@) =~= log_hashes(path@).args);
    GitCommand { dir: path.to_owned(), args, capture: true }
}

/// The command that asks the worktree at `path` for its uncommitted changes.
pub fn git_status(path: &str) -> (cmd: GitCommand)
    ensures
        cmd@ == status_porcelain(path@),
{
    let mut args: Vec<String> = Vec::new();
    args.push("status".to_owned());
    args.push("--porcelain".to_owned());
    assert(args_view(args@) =~= status_porcelain(path@).args);
    GitCommand { dir: path.to_owned(), args, capture: true }
}

/// Whether the first line of `s` ends just before index `n`: no line feed
/// stands before `n`, and `n` is a line feed or the end of `s`.
pub open spec fn is_line_end(s: Seq<u8>, n: int) -> bool {
    &&& 0 <= n <= s.len()
    &&& forall|j: int| 0 <= j < n ==> s[j] != LINE_FEED
    &&& (n == s.len() || s[n] == LINE_FEED)
}

/// The first line of `s`, without the line feed that ends it.
pub open spec fn first_line(s: Seq<u8>) -> Seq<u8> {
    s.take(choose|n: int| is_line_end(s, n))
}

/// A sequence has one line end only.
pub proof fn lemma_line_end_unique(s: Seq<u8>, n: int, m: int)
    requires
        is_line_end(s, n),
        is_line_end(s, m),
    ensures
        n == m,
{
    if n < m {
        assert(s[n] != LINE_FEED);
    }
    if m < n {
        assert(s[m] != LINE_FEED);
    }
}

proof fn lemma_line_end_from(s: Seq<u8>, i: int)
    requires
        0 <= i <= s.len(),
        forall|j: int| 0 <= j < i ==> s[j] != LINE_FEED,
    ensures
        exists|n: int| is_line_end(s, n),
    decreases s.len() - i,
{
    if i == s.len() || s[i] == LINE_FEED {
        assert(is_line_end(s, i));
    } else {
        lemma_line_end_from(s, i + 1);
    }
}

/// The first line is the longest prefix that holds no line feed.
pub proof fn lemma_first_line(s: Seq<u8>)
    ensures
        is_line_end(s, first_line(s).len() as int),
        first_line(s) == s.take(first_line(s).len() as int),
        !first_line(s).contains(LINE_FEED),
{
    lemma_line_end_from(s, 0);
    let n = choose|n: int| is_line_end(s, n);
    assert(first_line(s).len() == n);
}

/// The first line of `output`, without the line feed that ends it.
pub fn first_line_of(output: &Vec<u8>) -> (line: Vec<u8>)
    ensures
        line@ == first_line(output@),
{
    let mut line: Vec<u8> = Vec::new();
    let mut i: usize = 0;
    while i < output.len() && output[i] != LINE_FEED
        invariant
            i <= output.len(),
            line@ == output@.take(i as int),
            forall|j: int| 0 <= j < i ==> output@[j] != LINE_FEED,
        decreases output.len() - i,
    {
        line.push(output[i]);
        i += 1;
        assert(line@ =~= output@.take(i as int));
    }
    proof {
        assert(is_line_end(output@, i as int));
        lemma_line_end_unique(output@, i as int, choose|n: int| is_line_end(output@, n));
    }
    line
}

/// The text that `bytes` stand for as UTF-8, as `String::from_utf8_lossy`
/// gives it.
pub uninterp spec fn utf8_lossy(bytes: Seq<u8>) -> Seq<char>;

/// Calls `String::from_utf8_lossy` on `bytes`. The contract names the result,
/// and says that no bytes give no text.
#[verifier::external_body]
pub(crate) fn decode_lossy(bytes: &Vec<u8>) -> (text: String)
    ensures
        text@ == utf8_lossy(bytes@),
        bytes@.len() == 0 ==> text@.len() == 0,
{
    String::from_utf8_lossy(bytes).into_owned()
}

/// The first line of what a command answered, as text; the command's failure
/// where it did not succeed.
pub open spec fn first_line_reply(reply: ToolReplyView) -> Result<Seq<char>, ModuleError> {
    match reply.expect_success() {
        Ok(()) => Ok(utf8_lossy(first_line(reply.stdout()))),
        Err(e) => Err(e),
    }
}

/// Whether a command that lists uncommitted changes found none; the
/// command's failure where it did not succeed.
pub open spec fn clean_reply(reply: ToolReplyView) -> Result<bool, ModuleError> {
    match reply.expect_success() {
        Ok(()) => Ok(reply.stdout().len() == 0),
        Err(e) => Err(e),
    }
}

/// Reads the first line of a successful reply as text.
fn read_first_line(reply: &ToolReply) -> (res: Result<String, ModuleError>)
    ensures
        text_result(res) == first_line_reply(reply@),
        reply@.expect_success() is Ok && first_line(reply@.stdout()).len() == 0 ==> res is Ok
            && res->Ok_0@.len() == 0,
{
    match reply.expect_success() {
        Ok(()) => {},
        Err(e) => {
            return Err(e);
        },
    }
    match reply {
        ToolReply::Finished { stdout, .. } => {
            let line = first_line_of(stdout);
            Ok(decode_lossy(&line))
        },
        ToolReply::NotStarted => Err(
            ModuleError::ToolInvocationFailed(ToolFailure::NotStarted),
        ),
    }
}

/// Reads the reply to [`git_branch`]: the name of the branch that is checked
/// out, which is empty where the head is detached.
pub fn branch_from(reply: &ToolReply) -> (res: Result<String, ModuleError>)
    ensures
        text_result(res) == first_line_reply(reply@),
        reply@.expect_success() is Ok && reply@.stdout().len() == 0 ==> res is Ok
            && res->Ok_0@.len() == 0,
{
    proof {
        lemma_first_line(reply@.stdout());
    }
    read_first_line(reply)
}

/// Reads the reply to [`git_hash`]: the hash of the newest commit.
pub fn hash_from(reply: &ToolReply) -> (res: Result<String, ModuleError>)
    ensures
        text_result(res) == first_line_reply(reply@),
{
    read_first_line(reply)
}

/// Reads the reply to [`git_status`]: whether the worktree is free of
/// uncommitted changes.
pub fn clean_from(reply: &ToolReply) -> (res: Result<bool, ModuleError>)
    ensures
        res == clean_reply(reply@),
{
    match reply.expect_success() {
        Ok(()) => {},
        Err(e) => {
            return Err(e);
        },
    }
    match reply {
        ToolReply::Finished { stdout, .. } => Ok(stdout.len() == 0),
        ToolReply::NotStarted => Err(
            ModuleError::ToolInvocationFailed(ToolFailure::NotStarted),
        ),
    }
}

} // verus!
