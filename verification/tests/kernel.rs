use bean::kernel::{Kernel, KernelPending, KernelStatus};
use bean::module::{GitCommand, Module, ModuleError, Step, ToolFailure, ToolReply};
use bean::util::ExitStatus;

const OLD_HEAD: &str = "0123456789abcdef0123456789abcdef01234567";
const NEW_HEAD: &str = "3f2c1e0a9b8d7c6f5e4d3c2b1a0f9e8d7c6b5a49";

fn ok(stdout: &str) -> ToolReply {
    ToolReply::Finished { status: ExitStatus::from_code(0), stdout: stdout.as_bytes().to_vec() }
}

fn exit(code: i32) -> ToolReply {
    ToolReply::Finished { status: ExitStatus::from_code(code), stdout: Vec::new() }
}

fn git(dir: &str, args: &[&str], capture: bool) -> GitCommand {
    GitCommand {
        dir: dir.to_string(),
        args: args.iter().map(|a| a.to_string()).collect(),
        capture,
    }
}

fn kernel() -> Kernel {
    Kernel::setup("/src/kernel", "/clean/kernel", "kernel")
}

fn loaded(branch: &str, hash: &str) -> Kernel {
    Kernel::restore(
        "/src/kernel".to_string(),
        "/clean/kernel".to_string(),
        "kernel".to_string(),
        KernelStatus::Loaded { branch: branch.to_string(), hash: hash.to_string() },
    )
}

/// Answers each command with the next reply, as a caller with a real tool
/// would, and says what was asked for and how the operation ended.
fn finish(
    kernel: &mut Kernel,
    first: Step<KernelPending>,
    replies: Vec<ToolReply>,
) -> (Vec<GitCommand>, Option<Result<(), ModuleError>>) {
    let mut commands = Vec::new();
    let mut step = first;
    let mut replies = replies.into_iter();
    loop {
        match step {
            Step::Done { result } => return (commands, Some(result)),
            Step::Run { command, pending } => {
                commands.push(command);
                match replies.next() {
                    Some(reply) => step = kernel.resume(pending, &reply),
                    None => return (commands, None),
                }
            }
        }
    }
}

fn tool_failed() -> Result<(), ModuleError> {
    Err(ModuleError::ToolInvocationFailed(ToolFailure::UnexpectedExit))
}

#[test]
fn setup_is_unloaded() {
    let k = kernel();
    assert_eq!(k.source_path(), "/src/kernel");
    assert_eq!(k.clean_path(), "/clean/kernel");
    assert_eq!(k.bean_relative_dev_path(), "kernel");
    assert_eq!(k.module_status(), &KernelStatus::Unloaded);
}

#[test]
fn restore_keeps_the_status() {
    let k = loaded("feature-x", OLD_HEAD);
    assert_eq!(k.source_path(), "/src/kernel");
    assert_eq!(k.clean_path(), "/clean/kernel");
    assert_eq!(k.bean_relative_dev_path(), "kernel");
    assert_eq!(
        k.module_status(),
        &KernelStatus::Loaded { branch: "feature-x".to_string(), hash: OLD_HEAD.to_string() }
    );
}

#[test]
fn dev_path_lies_inside_the_environment() {
    assert_eq!(kernel().dev_path("/beans/feature-x"), "/beans/feature-x/kernel");
}

#[test]
fn load_creates_both_worktrees_and_records_the_branch() {
    let mut k = kernel();
    let first = k.load("/beans/feature-x");
    let (commands, result) = finish(
        &mut k,
        first,
        vec![ok(""), ok(""), ok("feature-x\n"), ok(&format!("{}\n", OLD_HEAD))],
    );
    assert_eq!(result, Some(Ok(())));
    assert_eq!(
        commands,
        vec![
            git(
                "/src/kernel",
                &["worktree", "add", "/beans/feature-x/kernel", "-b", "feature-x"],
                false
            ),
            git("/src/kernel", &["worktree", "add", "/clean/kernel", "-d"], false),
            git("/beans/feature-x/kernel", &["branch", "--show-current"], true),
            git("/beans/feature-x/kernel", &["log", "--pretty=%H"], true),
        ]
    );
    assert_eq!(
        k.module_status(),
        &KernelStatus::Loaded { branch: "feature-x".to_string(), hash: OLD_HEAD.to_string() }
    );
}

#[test]
fn load_accepts_a_clean_worktree_that_exists_already() {
    let mut k = kernel();
    let first = k.load("/beans/feature-x");
    let (commands, result) = finish(
        &mut k,
        first,
        vec![ok(""), exit(128), ok("feature-x\n"), ok(&format!("{}\n", OLD_HEAD))],
    );
    assert_eq!(result, Some(Ok(())));
    assert_eq!(commands.len(), 4);
    assert_eq!(
        k.module_status(),
        &KernelStatus::Loaded { branch: "feature-x".to_string(), hash: OLD_HEAD.to_string() }
    );
}

#[test]
fn load_twice_is_load_once() {
    let mut k = kernel();
    let first = k.load("/beans/feature-x");
    let (_, result) = finish(
        &mut k,
        first,
        vec![ok(""), ok(""), ok("feature-x\n"), ok(&format!("{}\n", OLD_HEAD))],
    );
    assert_eq!(result, Some(Ok(())));
    let once = k.clone();

    let again = k.load("/beans/feature-x");
    assert_eq!(again, Step::Done { result: Ok(()) });
    let (commands, result) = finish(&mut k, again, vec![ok("other\n"), ok("other\n")]);
    assert_eq!(result, Some(Ok(())));
    assert!(commands.is_empty());
    assert_eq!(k, once);
}

#[test]
fn load_rejects_a_path_without_a_name() {
    let mut k = kernel();
    let first = k.load("/");
    assert_eq!(first, Step::Done { result: Err(ModuleError::InvalidEnvironmentName) });
    assert_eq!(k.module_status(), &KernelStatus::Unloaded);
}

#[test]
fn load_on_a_loaded_module_does_not_look_at_the_path() {
    let mut k = loaded("feature-x", OLD_HEAD);
    assert_eq!(k.load("/"), Step::Done { result: Ok(()) });
    assert_eq!(k, loaded("feature-x", OLD_HEAD));
}

#[test]
fn load_fails_when_the_dev_worktree_cannot_be_added() {
    let mut k = kernel();
    let first = k.load("/beans/feature-x");
    let (commands, result) = finish(&mut k, first, vec![exit(128), ok(""), ok("")]);
    assert_eq!(result, Some(tool_failed()));
    assert_eq!(commands.len(), 1);
    assert_eq!(k.module_status(), &KernelStatus::Unloaded);
}

#[test]
fn load_fails_when_the_clean_worktree_cannot_be_added() {
    let mut k = kernel();
    let first = k.load("/beans/feature-x");
    let (commands, result) = finish(&mut k, first, vec![ok(""), exit(1), ok("")]);
    assert_eq!(result, Some(tool_failed()));
    assert_eq!(commands.len(), 2);
    assert_eq!(k.module_status(), &KernelStatus::Unloaded);
}

#[test]
fn load_fails_when_the_tool_ends_without_a_code() {
    let mut k = kernel();
    let first = k.load("/beans/feature-x");
    let killed = ToolReply::Finished {
        status: ExitStatus { success: false, code: None },
        stdout: Vec::new(),
    };
    let (_, result) = finish(&mut k, first, vec![ok(""), killed]);
    assert_eq!(result, Some(Err(ModuleError::ToolInvocationFailed(ToolFailure::NoExitCode))));
    assert_eq!(k.module_status(), &KernelStatus::Unloaded);
}

#[test]
fn load_fails_when_the_tool_cannot_be_started() {
    let mut k = kernel();
    let first = k.load("/beans/feature-x");
    let (commands, result) = finish(&mut k, first, vec![ToolReply::NotStarted]);
    assert_eq!(result, Some(Err(ModuleError::ToolInvocationFailed(ToolFailure::NotStarted))));
    assert_eq!(commands.len(), 1);
    assert_eq!(k.module_status(), &KernelStatus::Unloaded);
}

#[test]
fn load_stays_unloaded_when_reading_back_fails() {
    let mut k = kernel();
    let first = k.load("/beans/feature-x");
    let (commands, result) = finish(&mut k, first, vec![ok(""), ok(""), ok("feature-x\n"), exit(128)]);
    assert_eq!(result, Some(tool_failed()));
    assert_eq!(commands.len(), 4);
    assert_eq!(k.module_status(), &KernelStatus::Unloaded);
}

#[test]
fn load_waits_for_a_reply() {
    let mut k = kernel();
    let first = k.load("/beans/feature-x");
    let (commands, result) = finish(&mut k, first, vec![ok("")]);
    assert_eq!(result, None);
    assert_eq!(commands.len(), 2);
    assert_eq!(k.module_status(), &KernelStatus::Unloaded);
}

#[test]
fn load_at_takes_the_name_and_the_path_as_given() {
    let mut k = kernel();
    let step = k.load_at(Ok("topic".to_string()), "/elsewhere/kernel".to_string());
    assert_eq!(
        step,
        Step::Run {
            command: git(
                "/src/kernel",
                &["worktree", "add", "/elsewhere/kernel", "-b", "topic"],
                false
            ),
            pending: KernelPending::AddingDev { dev_path: "/elsewhere/kernel".to_string() },
        }
    );
    let mut k = kernel();
    assert_eq!(
        k.load_at(Err(ModuleError::InvalidEnvironmentName), "/elsewhere/kernel".to_string()),
        Step::Done { result: Err(ModuleError::InvalidEnvironmentName) }
    );
}

#[test]
fn sync_on_an_unloaded_module_fails_without_a_command() {
    let mut k = kernel();
    let first = k.sync("/beans/feature-x");
    assert_eq!(first, Step::Done { result: Err(ModuleError::NotLoaded) });
    let (commands, result) = finish(&mut k, first, vec![ok(""), ok("")]);
    assert_eq!(result, Some(Err(ModuleError::NotLoaded)));
    assert!(commands.is_empty());
    assert_eq!(k, kernel());
}

#[test]
fn sync_moves_the_clean_worktree_to_the_new_commit() {
    let mut k = loaded("feature-x", OLD_HEAD);
    let first = k.sync("/beans/feature-x");
    let (commands, result) = finish(
        &mut k,
        first,
        vec![ok(""), ok("feature-x\n"), ok(""), ok(&format!("{}\n{}\n", NEW_HEAD, OLD_HEAD))],
    );
    assert_eq!(result, Some(Ok(())));
    assert_eq!(
        commands,
        vec![
            git("/beans/feature-x/kernel", &["status", "--porcelain"], true),
            git("/beans/feature-x/kernel", &["branch", "--show-current"], true),
            git("/clean/kernel", &["switch", "feature-x", "--detach"], false),
            git("/beans/feature-x/kernel", &["log", "--pretty=%H"], true),
        ]
    );
    assert_eq!(
        k.module_status(),
        &KernelStatus::Loaded { branch: "feature-x".to_string(), hash: NEW_HEAD.to_string() }
    );
}

#[test]
fn sync_with_uncommitted_changes_is_refused() {
    let mut k = loaded("feature-x", OLD_HEAD);
    let first = k.sync("/beans/feature-x");
    let (commands, result) = finish(
        &mut k,
        first,
        vec![ok(" M Makefile\n"), ok("feature-x\n"), ok(""), ok(&format!("{}\n", NEW_HEAD))],
    );
    assert_eq!(result, Some(Err(ModuleError::DirtyWorkingTree)));
    assert_eq!(commands, vec![git("/beans/feature-x/kernel", &["status", "--porcelain"], true)]);
    assert_eq!(k, loaded("feature-x", OLD_HEAD));
}

#[test]
fn sync_fails_when_the_status_cannot_be_read() {
    let mut k = loaded("feature-x", OLD_HEAD);
    let first = k.sync("/beans/feature-x");
    let (commands, result) = finish(&mut k, first, vec![exit(128)]);
    assert_eq!(result, Some(tool_failed()));
    assert_eq!(commands.len(), 1);
    assert_eq!(k, loaded("feature-x", OLD_HEAD));
}

#[test]
fn sync_fails_when_the_switch_fails() {
    let mut k = loaded("feature-x", OLD_HEAD);
    let first = k.sync("/beans/feature-x");
    let (commands, result) = finish(&mut k, first, vec![ok(""), ok("feature-x\n"), exit(1), ok("")]);
    assert_eq!(result, Some(tool_failed()));
    assert_eq!(commands.len(), 3);
    assert_eq!(k, loaded("feature-x", OLD_HEAD));
}

#[test]
fn sync_keeps_the_status_when_reading_back_fails() {
    let mut k = loaded("feature-x", OLD_HEAD);
    let first = k.sync("/beans/feature-x");
    let (commands, result) = finish(&mut k, first, vec![ok(""), ok("feature-x\n"), ok(""), exit(128)]);
    assert_eq!(result, Some(tool_failed()));
    assert_eq!(commands.len(), 4);
    assert_eq!(k, loaded("feature-x", OLD_HEAD));
}

#[test]
fn sync_records_the_branch_that_the_dev_worktree_is_on() {
    let mut k = loaded("feature-x", OLD_HEAD);
    let first = k.sync("/beans/feature-x");
    let (commands, result) = finish(
        &mut k,
        first,
        vec![ok(""), ok("feature-y\n"), ok(""), ok(&format!("{}\n", NEW_HEAD))],
    );
    assert_eq!(result, Some(Ok(())));
    assert_eq!(commands[2], git("/clean/kernel", &["switch", "feature-y", "--detach"], false));
    assert_eq!(
        k.module_status(),
        &KernelStatus::Loaded { branch: "feature-y".to_string(), hash: NEW_HEAD.to_string() }
    );
}

#[test]
fn unload_on_an_unloaded_module_does_nothing() {
    let mut k = kernel();
    let first = k.unload("/beans/feature-x");
    assert_eq!(first, Step::Done { result: Ok(()) });
    let (commands, result) = finish(&mut k, first, vec![ok("")]);
    assert_eq!(result, Some(Ok(())));
    assert!(commands.is_empty());
    assert_eq!(k, kernel());
}

#[test]
fn unload_removes_the_dev_worktree() {
    let mut k = loaded("feature-x", OLD_HEAD);
    let first = k.unload("/beans/feature-x");
    assert_eq!(k.module_status(), &KernelStatus::Unloaded);
    let (commands, result) = finish(&mut k, first, vec![ok("")]);
    assert_eq!(result, Some(Ok(())));
    assert_eq!(
        commands,
        vec![git("/src/kernel", &["worktree", "remove", "/beans/feature-x/kernel"], false)]
    );
    assert_eq!(k, kernel());
}

#[test]
fn unload_counts_as_unloaded_even_when_removal_fails() {
    let mut k = loaded("feature-x", OLD_HEAD);
    let first = k.unload("/beans/feature-x");
    let (commands, result) = finish(&mut k, first, vec![exit(128)]);
    assert_eq!(result, Some(tool_failed()));
    assert_eq!(commands.len(), 1);
    assert_eq!(k.module_status(), &KernelStatus::Unloaded);
}

#[test]
fn load_after_unload_starts_over() {
    let mut k = loaded("feature-x", OLD_HEAD);
    let first = k.unload("/beans/feature-x");
    let (_, result) = finish(&mut k, first, vec![ok("")]);
    assert_eq!(result, Some(Ok(())));
    let first = k.load("/beans/feature-x");
    let (commands, result) = finish(
        &mut k,
        first,
        vec![ok(""), ok(""), ok("feature-x\n"), ok(&format!("{}\n", NEW_HEAD))],
    );
    assert_eq!(result, Some(Ok(())));
    assert_eq!(commands.len(), 4);
    assert_eq!(
        k.module_status(),
        &KernelStatus::Loaded { branch: "feature-x".to_string(), hash: NEW_HEAD.to_string() }
    );
}
