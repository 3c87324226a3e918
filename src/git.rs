//! The version-control gateway as seen from the library: the requests the
//! application makes, the command lines that answer each one, and how the
//! output of those commands becomes the message shown to the user.
use crate::status::{StatusEntry, parse_line};
use crate::text::{blank, has_infix, is_blank, join, join3, str_contains, trim, trimmed};
use crate::text::{chars_of, string_of_range};
use vstd::prelude::*;

verus! {

/// One request to the version-control gateway.
#[derive(Debug, Clone, PartialEq, Eq)]
pub enum GitRequest {
    RepoName,
    Status,
    CurrentBranch,
    Stage { path: String },
    Unstage { path: String },
    StageAll,
    UnstageAll,
    Commit { message: String },
    Stash { message: Option<String> },
    ListStashes,
    ApplyStash,
    Diff { path: String },
}

/// What running one external command gave back.
#[derive(Debug, Clone)]
pub struct CommandOutput {
    pub success: bool,
    pub stdout: String,
    pub stderr: String,
}

/// A program and its arguments.
#[derive(Debug, Clone, PartialEq, Eq)]
pub struct CommandLine {
    pub program: String,
    pub args: Vec<String>,
}

/// The version-control operations.
#[derive(Debug)]
pub struct GitOperations;

/// The views of a sequence of strings.
pub open spec fn texts(v: Seq<String>) -> Seq<Seq<char>> {
    v.map_values(|s: String| s@)
}

/// A reply as text.
pub open spec fn reply_view(r: Result<String, String>) -> Result<Seq<char>, Seq<char>> {
    match r {
        Ok(m) => Ok(m@),
        Err(e) => Err(e@),
    }
}

/// The request that stages an entry that is not staged, and unstages one that is.
pub open spec fn toggle_request(e: StatusEntry) -> GitRequest {
    if e.staged() {
        GitRequest::Unstage { path: e.path }
    } else {
        GitRequest::Stage { path: e.path }
    }
}

/// The arguments of a stash, with its message if there is one.
pub open spec fn stash_arguments(message: Option<Seq<char>>) -> Seq<Seq<char>> {
    match message {
        None => seq!["stash"@, "push"@],
        Some(m) => seq!["stash"@, "push"@, "-m"@, m],
    }
}

/// How many commands a request may run: a preview tries two diffs and then
/// the file's content; every other request runs one command.
pub open spec fn attempt_count(req: GitRequest) -> nat {
    match req {
        GitRequest::Diff { .. } => 3,
        _ => 1,
    }
}

/// The program and arguments of the `attempt`-th command of a request.
pub open spec fn command_of(req: GitRequest, attempt: nat) -> Option<(Seq<char>, Seq<Seq<char>>)> {
    if attempt >= attempt_count(req) {
        None
    } else {
        Some(
            match req {
                GitRequest::RepoName => ("git"@, seq!["rev-parse"@, "--show-toplevel"@]),
                GitRequest::Status => ("git"@, seq!["status"@, "--porcelain"@]),
                GitRequest::CurrentBranch => ("git"@, seq!["branch"@, "--show-current"@]),
                GitRequest::Stage { path } => ("git"@, seq!["add"@, "--"@, path@]),
                GitRequest::Unstage { path } => ("git"@, seq!["reset"@, "--"@, path@]),
                GitRequest::StageAll => ("git"@, seq!["add"@, "."@]),
                GitRequest::UnstageAll => ("git"@, seq!["reset"@]),
                GitRequest::Commit { message } => ("git"@, seq!["commit"@, "-m"@, message@]),
                GitRequest::Stash { message } => (
                    "git"@,
                    stash_arguments(
                        match message {
                            Some(m) => Some(m@),
                            None => None,
                        },
                    ),
                ),
                GitRequest::ListStashes => ("git"@, seq!["stash"@, "list"@]),
                GitRequest::ApplyStash => ("git"@, seq!["stash"@, "apply"@]),
                GitRequest::Diff { path } => if attempt == 0 {
                    ("git"@, seq!["diff"@, "HEAD"@, "--"@, path@])
                } else if attempt == 1 {
                    ("git"@, seq!["diff"@, "--"@, path@])
                } else {
                    ("cat"@, seq![path@])
                },
            },
        )
    }
}

/// The part of a path after its last `/` (all of it when it has none).
pub open spec fn last_segment(s: Seq<char>) -> Seq<char>
    decreases s.len(),
{
    if s.len() == 0 {
        s
    } else if s.last() == '/' {
        seq![]
    } else {
        last_segment(s.drop_last()).push(s.last())
    }
}

/// The message for a command that ran and failed: `prefix` and its trimmed
/// error output.
pub open spec fn failed(prefix: Seq<char>, o: CommandOutput) -> Result<Seq<char>, Seq<char>> {
    Err(prefix + trim(o.stderr@))
}

/// The reply to a request, given what its `attempt`-th command gave back
/// (`Err` when it could not be started); `None` when the next command is to
/// be tried.
pub open spec fn outcome_of(
    req: GitRequest,
    attempt: nat,
    run: Result<CommandOutput, String>,
) -> Option<Result<Seq<char>, Seq<char>>> {
    match req {
        GitRequest::Status => Some(
            match run {
                Err(e) => Err(
                    "Failed to run git status: "@ + e@ + ". Are you in a git repository?"@,
                ),
                Ok(o) => if !o.success {
                    failed("Git status failed: "@, o)
                } else {
                    Ok(o.stdout@)
                },
            },
        ),
        GitRequest::Stage { path } => Some(
            match run {
                Err(e) => Err("Failed to add file: "@ + e@),
                Ok(o) => if !o.success {
                    failed("Git add failed: "@, o)
                } else {
                    Ok("✓ Staged file: "@ + path@)
                },
            },
        ),
        GitRequest::Unstage { path } => Some(
            match run {
                Err(e) => Err("Failed to reset file: "@ + e@),
                Ok(o) => if !o.success {
                    failed("Git reset failed: "@, o)
                } else {
                    Ok("✓ Unstaged file: "@ + path@)
                },
            },
        ),
        GitRequest::StageAll => Some(
            match run {
                Err(e) => Err("Failed to stage all files: "@ + e@),
                Ok(o) => if !o.success {
                    failed("Git add failed: "@, o)
                } else {
                    Ok("✓ All files staged"@)
                },
            },
        ),
        GitRequest::UnstageAll => Some(
            match run {
                Err(e) => Err("Failed to unstage all files: "@ + e@),
                Ok(o) => if !o.success {
                    failed("Git reset failed: "@, o)
                } else {
                    Ok("✓ All files unstaged"@)
                },
            },
        ),
        GitRequest::Stash { .. } => Some(
            match run {
                Err(_) => Err("Failed to stash changes"@),
                Ok(o) => if !o.success {
                    Err("Stash error: "@ + o.stderr@)
                } else if has_infix(o.stdout@, "No local changes to save"@) {
                    Ok("No changes to stash"@)
                } else {
                    Ok("Changes stashed: "@ + o.stdout@)
                },
            },
        ),
        GitRequest::ListStashes => Some(
            match run {
                Err(_) => Err("Failed to list stashes"@),
                Ok(o) => if o.stdout@.len() == 0 {
                    Ok("No stashes found"@)
                } else {
                    Ok("Stashes:\n"@ + o.stdout@)
                },
            },
        ),
        GitRequest::ApplyStash => Some(
            match run {
                Err(_) => Err("Failed to apply stash"@),
                Ok(o) => if !o.success {
                    if has_infix(o.stderr@, "No stash entries found"@) || has_infix(
                        o.stderr@,
                        "No stash found"@,
                    ) {
                        Err("No stash to apply"@)
                    } else {
                        failed("Failed to apply stash: "@, o)
                    }
                } else {
                    Ok("✓ Latest stash applied successfully"@)
                },
            },
        ),
        GitRequest::Commit { .. } => Some(
            match run {
                Err(e) => Err("Failed to commit: "@ + e@),
                Ok(o) => if !o.success {
                    if has_infix(o.stderr@, "nothing to commit"@) || has_infix(
                        o.stdout@,
                        "nothing to commit"@,
                    ) {
                        Err("Nothing to commit (no staged changes)"@)
                    } else {
                        failed("Commit failed: "@, o)
                    }
                } else if has_infix(o.stdout@, "create mode"@) || has_infix(
                    o.stdout@,
                    "delete mode"@,
                ) || has_infix(o.stdout@, "file changed"@) {
                    Ok("✓ Committed successfully!\n"@ + trim(o.stdout@))
                } else {
                    Ok("✓ Committed successfully!"@)
                },
            },
        ),
        GitRequest::CurrentBranch => Some(
            match run {
                Err(e) => Err("Failed to get branch: "@ + e@),
                Ok(o) => if !o.success {
                    Ok("(no branch)"@)
                } else if trim(o.stdout@).len() == 0 {
                    Ok("(detached HEAD)"@)
                } else {
                    Ok(trim(o.stdout@))
                },
            },
        ),
        GitRequest::RepoName => Some(
            match run {
                Err(e) => Err("Failed to get repo path: "@ + e@),
                Ok(o) => if !o.success {
                    Ok("(no repository)"@)
                } else {
                    Ok(last_segment(trim(o.stdout@)))
                },
            },
        ),
        GitRequest::Diff { .. } => if attempt < 2 {
            match run {
                Err(e) => Some(
                    Err(
                        (if attempt == 0 {
                            "Failed to get diff: "@
                        } else {
                            "Failed to get working diff: "@
                        }) + e@,
                    ),
                ),
                Ok(o) => if o.success && !blank(o.stdout@) {
                    Some(Ok(o.stdout@))
                } else {
                    None
                },
            }
        } else {
            Some(
                match run {
                    Err(e) => Err("Failed to read file: "@ + e@),
                    Ok(o) => if o.success {
                        Ok("New file content:\n"@ + o.stdout@)
                    } else {
                        Ok("No changes to preview"@)
                    },
                },
            )
        },
    }
}

/// `prefix` followed by the trimmed error output of `o`.
fn failure(prefix: &str, o: &CommandOutput) -> (r: Result<String, String>)
    ensures
        reply_view(r) == failed(prefix@, *o),
{
    let detail = trimmed(o.stderr.as_str());
    Err(join(prefix, detail.as_str()))
}

/// The text after the last `/` of `s`.
pub fn last_path_segment(s: &str) -> (r: String)
    ensures
        r@ == last_segment(s@),
{
    let cs = chars_of(s);
    let n = cs.len();
    let mut j: usize = n;
    assert(cs@.subrange(0, n as int) =~= s@);
    assert(cs@.subrange(n as int, n as int) =~= Seq::<char>::empty());
    while j > 0 && cs[j - 1] != '/'
        invariant
            n == cs@.len(),
            j <= n,
            last_segment(s@) == last_segment(cs@.subrange(0, j as int)) + cs@.subrange(
                j as int,
                n as int,
            ),
        decreases j,
    {
        let ghost pre = cs@.subrange(0, j as int);
        assert(pre.drop_last() =~= cs@.subrange(0, j - 1));
        assert(last_segment(pre) == last_segment(pre.drop_last()).push(pre.last()));
        assert(last_segment(pre.drop_last()).push(pre.last()) + cs@.subrange(j as int, n as int)
            =~= last_segment(pre.drop_last()) + cs@.subrange(j - 1, n as int));
        j = j - 1;
    }
    assert(last_segment(cs@.subrange(0, j as int)) =~= Seq::<char>::empty());
    assert(Seq::<char>::empty() + cs@.subrange(j as int, n as int) =~= cs@.subrange(
        j as int,
        n as int,
    ));
    string_of_range(&cs, j, n)
}

impl GitOperations {
    /// The gateway; it holds no state.
    pub fn new() -> (r: Self)
        ensures
            r == GitOperations,
    {
        GitOperations
    }

    /// The request that toggles the entry of one raw status line: staged
    /// entries are unstaged, others staged.
    pub fn stage_file(file_status: &str) -> (r: Result<GitRequest, String>)
        ensures
            parse_line(file_status@) is None ==> r is Err && r->Err_0@
                == "Invalid file status format"@,
            parse_line(file_status@) is Some ==> exists|e: StatusEntry|
                parse_line(file_status@) == Some(e@) && r == Ok::<GitRequest, String>(
                    toggle_request(e),
                ),
    {
        match StatusEntry::parse(file_status) {
            Some(e) => Ok(GitOperations::toggle(&e)),
            None => Err(String::from_str("Invalid file status format")),
        }
    }

    /// The request that toggles `entry`.
    pub fn toggle(entry: &StatusEntry) -> (r: GitRequest)
        ensures
            r == toggle_request(*entry),
    {
        if entry.is_staged() {
            GitRequest::Unstage { path: entry.path.clone() }
        } else {
            GitRequest::Stage { path: entry.path.clone() }
        }
    }

    /// The bulk request for `files`: stage everything when some entry is not
    /// staged, else unstage everything.
    pub fn stage_all_files(files: &Vec<StatusEntry>) -> (r: GitRequest)
        ensures
            (exists|i: int| 0 <= i < files@.len() && !(#[trigger] files@[i]).staged()) ==> r
                == GitRequest::StageAll,
            !(exists|i: int| 0 <= i < files@.len() && !(#[trigger] files@[i]).staged()) ==> r
                == GitRequest::UnstageAll,
    {
        if crate::status::has_unstaged(files) {
            GitRequest::StageAll
        } else {
            GitRequest::UnstageAll
        }
    }

    /// The arguments of a stash, with its message if there is one.
    pub fn stash_args(message: Option<&str>) -> (r: Vec<String>)
        ensures
            texts(r@) == stash_arguments(
                match message {
                    Some(m) => Some(m@),
                    None => None,
                },
            ),
    {
        let mut args: Vec<String> = vec![String::from_str("stash"), String::from_str("push")];
        match message {
            Some(m) => {
                args.push(String::from_str("-m"));
                args.push(String::from_str(m));
            },
            None => {},
        }
        proof {
            let m = match message {
                Some(m) => Some(m@),
                None => None,
            };
            assert(texts(args@) =~= stash_arguments(m));
        }
        args
    }

    /// The `attempt`-th command that answers `req`, if it has one.
    pub fn command(req: &GitRequest, attempt: usize) -> (r: Option<CommandLine>)
        ensures
            match (r, command_of(*req, attempt as nat)) {
                (Some(c), Some((p, a))) => c.program@ == p && texts(c.args@) == a,
                (None, None) => true,
                _ => false,
            },
    {
        let limit: usize = match req {
            GitRequest::Diff { .. } => 3,
            _ => 1,
        };
        if attempt >= limit {
            return None;
        }
        let git = String::from_str("git");
        let args: Vec<String> = match req {
            GitRequest::RepoName => vec![String::from_str("rev-parse"), String::from_str("--show-toplevel")],
            GitRequest::Status => vec![String::from_str("status"), String::from_str("--porcelain")],
            GitRequest::CurrentBranch => vec![String::from_str("branch"), String::from_str("--show-current")],
            GitRequest::Stage { path } => vec![String::from_str("add"), String::from_str("--"), path.clone()],
            GitRequest::Unstage { path } => vec![String::from_str("reset"), String::from_str("--"), path.clone()],
            GitRequest::StageAll => vec![String::from_str("add"), String::from_str(".")],
            GitRequest::UnstageAll => vec![String::from_str("reset")],
            GitRequest::Commit { message } => vec![String::from_str("commit"), String::from_str("-m"), message.clone()],
            GitRequest::Stash { message } => match message {
                Some(m) => GitOperations::stash_args(Some(m.as_str())),
                None => GitOperations::stash_args(None),
            },
            GitRequest::ListStashes => vec![String::from_str("stash"), String::from_str("list")],
            GitRequest::ApplyStash => vec![String::from_str("stash"), String::from_str("apply")],
            GitRequest::Diff { path } => {
                if attempt == 0 {
                    vec![String::from_str("diff"), String::from_str("HEAD"), String::from_str("--"), path.clone()]
                } else if attempt == 1 {
                    vec![String::from_str("diff"), String::from_str("--"), path.clone()]
                } else {
                    return Some(CommandLine { program: String::from_str("cat"), args: vec![path.clone()] });
                }
            },
        };
        let r = CommandLine { program: git, args };
        proof {
            match command_of(*req, attempt as nat) {
                Some((p, a)) => assert(texts(r.args@) =~= a),
                None => {},
            }
        }
        Some(r)
    }

    /// The reply to `req` from what its `attempt`-th command gave back, or
    /// `None` when the next command is to be tried. The last command always
    /// gives a reply.
    pub fn outcome(req: &GitRequest, attempt: usize, run: Result<CommandOutput, String>) -> (r:
        Option<Result<String, String>>)
        requires
            attempt < attempt_count(*req),
        ensures
            match r {
                Some(x) => outcome_of(*req, attempt as nat, run) == Some(reply_view(x)),
                None => outcome_of(*req, attempt as nat, run) is None,
            },
            attempt + 1 == attempt_count(*req) ==> r is Some,
    {
        let ghost given = run;
        match req {
            GitRequest::Status => Some(GitOperations::get_status(run)),
            GitRequest::Stage { path } => Some(GitOperations::stage_result(path, false, run)),
            GitRequest::Unstage { path } => Some(GitOperations::stage_result(path, true, run)),
            GitRequest::StageAll => Some(GitOperations::stage_all_result(true, run)),
            GitRequest::UnstageAll => Some(GitOperations::stage_all_result(false, run)),
            GitRequest::Stash { message } => {
                let r = GitOperations::stash_changes(run);
                assert(outcome_of(GitRequest::Stash { message: *message }, 0, given) == Some(
                    reply_view(r),
                ));
                Some(r)
            },
            GitRequest::ListStashes => Some(GitOperations::list_stashes(run)),
            GitRequest::ApplyStash => Some(GitOperations::apply_latest_stash(run)),
            GitRequest::Commit { message } => {
                let r = GitOperations::commit(run);
                assert(outcome_of(GitRequest::Commit { message: *message }, 0, given) == Some(
                    reply_view(r),
                ));
                Some(r)
            },
            GitRequest::CurrentBranch => Some(GitOperations::get_current_branch(run)),
            GitRequest::RepoName => Some(GitOperations::get_repo_name(run)),
            GitRequest::Diff { path } => {
                let r = GitOperations::get_file_diff(attempt, run);
                assert(match r {
                    Some(x) => outcome_of(GitRequest::Diff { path: *path }, attempt as nat, given)
                        == Some(reply_view(x)),
                    None => outcome_of(GitRequest::Diff { path: *path }, attempt as nat, given) is None,
                });
                r
            },
        }
    }

    /// The reply to a status query: its output, or why it failed.
    pub fn get_status(run: Result<CommandOutput, String>) -> (r: Result<String, String>)
        ensures
            outcome_of(GitRequest::Status, 0, run) == Some(reply_view(r)),
    {
        match run {
            Err(e) => Err(join3("Failed to run git status: ", e.as_str(), ". Are you in a git repository?")),
            Ok(o) => if !o.success {
                failure("Git status failed: ", &o)
            } else {
                Ok(o.stdout)
            },
        }
    }

    /// The reply to staging (`unstage` false) or unstaging one path.
    pub fn stage_result(path: &String, unstage: bool, run: Result<CommandOutput, String>) -> (r:
        Result<String, String>)
        ensures
            outcome_of(
                if unstage {
                    GitRequest::Unstage { path: *path }
                } else {
                    GitRequest::Stage { path: *path }
                },
                0,
                run,
            ) == Some(reply_view(r)),
    {
        match run {
            Err(e) => Err(join(if unstage { "Failed to reset file: " } else { "Failed to add file: " }, e.as_str())),
            Ok(o) => if !o.success {
                failure(if unstage { "Git reset failed: " } else { "Git add failed: " }, &o)
            } else {
                Ok(join(if unstage { "✓ Unstaged file: " } else { "✓ Staged file: " }, path.as_str()))
            },
        }
    }

    /// The reply to staging (`stage` true) or unstaging everything.
    pub fn stage_all_result(stage: bool, run: Result<CommandOutput, String>) -> (r: Result<String, String>)
        ensures
            outcome_of(
                if stage {
                    GitRequest::StageAll
                } else {
                    GitRequest::UnstageAll
                },
                0,
                run,
            ) == Some(reply_view(r)),
    {
        match run {
            Err(e) => Err(join(if stage { "Failed to stage all files: " } else { "Failed to unstage all files: " }, e.as_str())),
            Ok(o) => if !o.success {
                failure(if stage { "Git add failed: " } else { "Git reset failed: " }, &o)
            } else if stage {
                Ok(String::from_str("✓ All files staged"))
            } else {
                Ok(String::from_str("✓ All files unstaged"))
            },
        }
    }

    /// The reply to a stash.
    pub fn stash_changes(run: Result<CommandOutput, String>) -> (r: Result<String, String>)
        ensures
            forall|m: Option<String>| #[trigger] outcome_of(GitRequest::Stash { message: m }, 0, run)
                == Some(reply_view(r)),
    {
        match run {
            Err(_) => Err(String::from_str("Failed to stash changes")),
            Ok(o) => if !o.success {
                Err(join("Stash error: ", o.stderr.as_str()))
            } else if str_contains(o.stdout.as_str(), "No local changes to save") {
                Ok(String::from_str("No changes to stash"))
            } else {
                Ok(join("Changes stashed: ", o.stdout.as_str()))
            },
        }
    }

    /// The reply to listing the stashes.
    pub fn list_stashes(run: Result<CommandOutput, String>) -> (r: Result<String, String>)
        ensures
            outcome_of(GitRequest::ListStashes, 0, run) == Some(reply_view(r)),
    {
        match run {
            Err(_) => Err(String::from_str("Failed to list stashes")),
            Ok(o) => if o.stdout.as_str().unicode_len() == 0 {
                Ok(String::from_str("No stashes found"))
            } else {
                Ok(join("Stashes:\n", o.stdout.as_str()))
            },
        }
    }

    /// The reply to applying the latest stash.
    pub fn apply_latest_stash(run: Result<CommandOutput, String>) -> (r: Result<String, String>)
        ensures
            outcome_of(GitRequest::ApplyStash, 0, run) == Some(reply_view(r)),
    {
        match run {
            Err(_) => Err(String::from_str("Failed to apply stash")),
            Ok(o) => if !o.success {
                if str_contains(o.stderr.as_str(), "No stash entries found")
                    || str_contains(o.stderr.as_str(), "No stash found") {
                    Err(String::from_str("No stash to apply"))
                } else {
                    failure("Failed to apply stash: ", &o)
                }
            } else {
                Ok(String::from_str("✓ Latest stash applied successfully"))
            },
        }
    }

    /// The reply to a commit.
    pub fn commit(run: Result<CommandOutput, String>) -> (r: Result<String, String>)
        ensures
            forall|m: String| #[trigger] outcome_of(GitRequest::Commit { message: m }, 0, run)
                == Some(reply_view(r)),
    {
        match run {
            Err(e) => Err(join("Failed to commit: ", e.as_str())),
            Ok(o) => if !o.success {
                if str_contains(o.stderr.as_str(), "nothing to commit")
                    || str_contains(o.stdout.as_str(), "nothing to commit") {
                    Err(String::from_str("Nothing to commit (no staged changes)"))
                } else {
                    failure("Commit failed: ", &o)
                }
            } else if str_contains(o.stdout.as_str(), "create mode")
                || str_contains(o.stdout.as_str(), "delete mode")
                || str_contains(o.stdout.as_str(), "file changed") {
                let summary = trimmed(o.stdout.as_str());
                Ok(join("✓ Committed successfully!\n", summary.as_str()))
            } else {
                Ok(String::from_str("✓ Committed successfully!"))
            },
        }
    }

    /// The reply to asking for the current branch.
    pub fn get_current_branch(run: Result<CommandOutput, String>) -> (r: Result<String, String>)
        ensures
            outcome_of(GitRequest::CurrentBranch, 0, run) == Some(reply_view(r)),
    {
        match run {
            Err(e) => Err(join("Failed to get branch: ", e.as_str())),
            Ok(o) => if !o.success {
                Ok(String::from_str("(no branch)"))
            } else {
                let branch = trimmed(o.stdout.as_str());
                if branch.as_str().unicode_len() == 0 {
                    Ok(String::from_str("(detached HEAD)"))
                } else {
                    Ok(branch)
                }
            },
        }
    }

    /// The reply to asking for the repository's name.
    pub fn get_repo_name(run: Result<CommandOutput, String>) -> (r: Result<String, String>)
        ensures
            outcome_of(GitRequest::RepoName, 0, run) == Some(reply_view(r)),
    {
        match run {
            Err(e) => Err(join("Failed to get repo path: ", e.as_str())),
            Ok(o) => if !o.success {
                Ok(String::from_str("(no repository)"))
            } else {
                let top = trimmed(o.stdout.as_str());
                Ok(last_path_segment(top.as_str()))
            },
        }
    }

    /// The reply to a preview from its `attempt`-th command: the diff against
    /// the last commit, then the diff of the work tree, then the file itself;
    /// `None` when a diff came back empty and the next command is to be tried.
    pub fn get_file_diff(attempt: usize, run: Result<CommandOutput, String>) -> (r: Option<
        Result<String, String>,
    >)
        requires
            attempt < 3,
        ensures
            forall|p: String|
                #![trigger outcome_of(GitRequest::Diff { path: p }, attempt as nat, run)]
                match r {
                    Some(x) => outcome_of(GitRequest::Diff { path: p }, attempt as nat, run)
                        == Some(reply_view(x)),
                    None => outcome_of(GitRequest::Diff { path: p }, attempt as nat, run) is None,
                },
            attempt == 2 ==> r is Some,
    {
        if attempt < 2 {
            match run {
                Err(e) => Some(
                    Err(
                        join(
                            if attempt == 0 {
                                "Failed to get diff: "
                            } else {
                                "Failed to get working diff: "
                            },
                            e.as_str(),
                        ),
                    ),
                ),
                Ok(o) => if o.success && !is_blank(o.stdout.as_str()) {
                    Some(Ok(o.stdout))
                } else {
                    None
                },
            }
        } else {
            Some(
                match run {
                    Err(e) => Err(join("Failed to read file: ", e.as_str())),
                    Ok(o) => if o.success {
                        Ok(join("New file content:\n", o.stdout.as_str()))
                    } else {
                        Ok(String::from_str("No changes to preview"))
                    },
                },
            )
        }
    }
}

impl Default for GitOperations {
    fn default() -> (r: Self)
        ensures
            r == GitOperations,
    {
        GitOperations::new()
    }
}

} // verus!
