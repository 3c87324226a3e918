use pretty_git_ui::git::{last_path_segment, CommandOutput, GitOperations, GitRequest};

fn ran(success: bool, stdout: &str, stderr: &str) -> Result<CommandOutput, String> {
    Ok(CommandOutput { success, stdout: stdout.to_string(), stderr: stderr.to_string() })
}

fn reply(req: &GitRequest, run: Result<CommandOutput, String>) -> Result<String, String> {
    GitOperations::outcome(req, 0, run).unwrap()
}

#[test]
fn test_git_operations_new() {
    let git_ops = GitOperations::new();
    assert!(std::mem::size_of_val(&git_ops) == 0);
}

#[test]
fn test_stage_file_invalid_format() {
    let result = GitOperations::stage_file("M");
    assert!(result.is_err());
    assert!(result.unwrap_err().contains("Invalid file status format"));
}

#[test]
fn test_stash_message_handling() {
    let _git_ops = GitOperations::new();

    let args = GitOperations::stash_args(Some("test message"));
    assert_eq!(args, vec!["stash", "push", "-m", "test message"]);

    let args = GitOperations::stash_args(None);
    assert_eq!(args, vec!["stash", "push"]);
}

#[test]
fn stage_file_toggles_by_index_flag() {
    assert_eq!(
        GitOperations::stage_file("M  a.rs"),
        Ok(GitRequest::Unstage { path: "a.rs".to_string() })
    );
    assert_eq!(
        GitOperations::stage_file(" M a.rs"),
        Ok(GitRequest::Stage { path: "a.rs".to_string() })
    );
    assert_eq!(
        GitOperations::stage_file("?? new.txt"),
        Ok(GitRequest::Stage { path: "new.txt".to_string() })
    );
}

#[test]
fn command_lines() {
    let c = GitOperations::command(&GitRequest::Status, 0).unwrap();
    assert_eq!(c.program, "git");
    assert_eq!(c.args, vec!["status", "--porcelain"]);
    assert!(GitOperations::command(&GitRequest::Status, 1).is_none());

    let c = GitOperations::command(&GitRequest::Commit { message: "fix bug".to_string() }, 0)
        .unwrap();
    assert_eq!(c.args, vec!["commit", "-m", "fix bug"]);

    let c = GitOperations::command(&GitRequest::Stage { path: "a b.rs".to_string() }, 0).unwrap();
    assert_eq!(c.args, vec!["add", "--", "a b.rs"]);

    let c = GitOperations::command(&GitRequest::UnstageAll, 0).unwrap();
    assert_eq!(c.args, vec!["reset"]);

    let diff = GitRequest::Diff { path: "x.rs".to_string() };
    assert_eq!(GitOperations::command(&diff, 0).unwrap().args, vec!["diff", "HEAD", "--", "x.rs"]);
    assert_eq!(GitOperations::command(&diff, 1).unwrap().args, vec!["diff", "--", "x.rs"]);
    let cat = GitOperations::command(&diff, 2).unwrap();
    assert_eq!(cat.program, "cat");
    assert_eq!(cat.args, vec!["x.rs"]);
    assert!(GitOperations::command(&diff, 3).is_none());
}

#[test]
fn status_outcomes() {
    assert_eq!(reply(&GitRequest::Status, ran(true, " M a\n", "")), Ok(" M a\n".to_string()));
    assert_eq!(
        reply(&GitRequest::Status, ran(false, "", "fatal: not a git repository\n")),
        Err("Git status failed: fatal: not a git repository".to_string())
    );
    assert_eq!(
        reply(&GitRequest::Status, Err("not found".to_string())),
        Err("Failed to run git status: not found. Are you in a git repository?".to_string())
    );
}

#[test]
fn stage_outcomes() {
    let stage = GitRequest::Stage { path: "a.rs".to_string() };
    let unstage = GitRequest::Unstage { path: "a.rs".to_string() };
    assert_eq!(reply(&stage, ran(true, "", "")), Ok("✓ Staged file: a.rs".to_string()));
    assert_eq!(reply(&unstage, ran(true, "", "")), Ok("✓ Unstaged file: a.rs".to_string()));
    assert_eq!(reply(&stage, ran(false, "", " bad \n")), Err("Git add failed: bad".to_string()));
    assert_eq!(reply(&unstage, Err("e".to_string())), Err("Failed to reset file: e".to_string()));
    assert_eq!(reply(&GitRequest::StageAll, ran(true, "", "")), Ok("✓ All files staged".to_string()));
    assert_eq!(
        reply(&GitRequest::UnstageAll, ran(false, "", "no")),
        Err("Git reset failed: no".to_string())
    );
}

#[test]
fn stash_outcomes() {
    let stash = GitRequest::Stash { message: None };
    assert_eq!(
        reply(&stash, ran(true, "No local changes to save\n", "")),
        Ok("No changes to stash".to_string())
    );
    assert_eq!(reply(&stash, ran(true, "Saved", "")), Ok("Changes stashed: Saved".to_string()));
    assert_eq!(reply(&stash, ran(false, "", "oops")), Err("Stash error: oops".to_string()));
    assert_eq!(reply(&stash, ran(true, "Saved", "warning")), Ok("Changes stashed: Saved".to_string()));
    assert_eq!(reply(&stash, Err("x".to_string())), Err("Failed to stash changes".to_string()));
    assert_eq!(reply(&GitRequest::ListStashes, ran(true, "", "")), Ok("No stashes found".to_string()));
    assert_eq!(
        reply(&GitRequest::ListStashes, ran(true, "stash@{0}", "")),
        Ok("Stashes:\nstash@{0}".to_string())
    );
    assert_eq!(
        reply(&GitRequest::ApplyStash, ran(false, "", "No stash entries found.")),
        Err("No stash to apply".to_string())
    );
    assert_eq!(
        reply(&GitRequest::ApplyStash, ran(false, "", "conflict\n")),
        Err("Failed to apply stash: conflict".to_string())
    );
    assert_eq!(
        reply(&GitRequest::ApplyStash, ran(true, "", "")),
        Ok("✓ Latest stash applied successfully".to_string())
    );
}

#[test]
fn commit_outcomes() {
    let commit = GitRequest::Commit { message: "m".to_string() };
    assert_eq!(
        reply(&commit, ran(true, " 1 file changed, 2 insertions(+)\n", "")),
        Ok("✓ Committed successfully!\n1 file changed, 2 insertions(+)".to_string())
    );
    assert_eq!(reply(&commit, ran(true, "done", "")), Ok("✓ Committed successfully!".to_string()));
    assert_eq!(
        reply(&commit, ran(false, "", "nothing to commit, working tree clean")),
        Err("Nothing to commit (no staged changes)".to_string())
    );
    assert_eq!(
        reply(&commit, ran(false, "nothing to commit, working tree clean", "")),
        Err("Nothing to commit (no staged changes)".to_string())
    );
    assert_eq!(reply(&commit, ran(false, "", "hook failed")), Err("Commit failed: hook failed".to_string()));
    assert_eq!(reply(&commit, Err("e".to_string())), Err("Failed to commit: e".to_string()));
}

#[test]
fn branch_and_repo_outcomes() {
    assert_eq!(reply(&GitRequest::CurrentBranch, ran(true, "main\n", "")), Ok("main".to_string()));
    assert_eq!(reply(&GitRequest::CurrentBranch, ran(true, "\n", "")), Ok("(detached HEAD)".to_string()));
    assert_eq!(reply(&GitRequest::CurrentBranch, ran(false, "", "")), Ok("(no branch)".to_string()));
    assert_eq!(
        reply(&GitRequest::RepoName, ran(true, "/home/me/project\n", "")),
        Ok("project".to_string())
    );
    assert_eq!(reply(&GitRequest::RepoName, ran(false, "", "")), Ok("(no repository)".to_string()));
    assert_eq!(last_path_segment("a/b/c"), "c");
    assert_eq!(last_path_segment("plain"), "plain");
    assert_eq!(last_path_segment("ends/"), "");
}

#[test]
fn diff_falls_back_in_turn() {
    let diff = GitRequest::Diff { path: "x".to_string() };
    assert_eq!(GitOperations::outcome(&diff, 0, ran(true, "+a\n", "")), Some(Ok("+a\n".to_string())));
    assert_eq!(GitOperations::outcome(&diff, 0, ran(true, " \n", "")), None);
    assert_eq!(GitOperations::outcome(&diff, 1, ran(false, "", "")), None);
    assert_eq!(
        GitOperations::outcome(&diff, 1, Err("e".to_string())),
        Some(Err("Failed to get working diff: e".to_string()))
    );
    assert_eq!(
        GitOperations::outcome(&diff, 2, ran(true, "hello", "")),
        Some(Ok("New file content:\nhello".to_string()))
    );
    assert_eq!(
        GitOperations::outcome(&diff, 2, ran(false, "", "")),
        Some(Ok("No changes to preview".to_string()))
    );
}
