//! The application state machine: the list of changed files with its
//! cursor, the input mode, the text buffers and the messages, and the
//! transitions that keystrokes and gateway replies cause.
use crate::git::{GitOperations, GitRequest, toggle_request};
use crate::status::{StatusEntry, parse_status, parse_status_text, views};
use crate::text::{blank, has_infix, decimal, decimal_string, is_blank, join, join3, pop_char, push_char};
use vstd::prelude::*;

verus! {

/// The action that waits for a yes or no in the confirmation mode.
#[derive(Debug, Clone, Copy, PartialEq, Eq)]
pub enum ConfirmAction {
    StageAll,
    UnstageAll,
}

/// What keystrokes mean at the moment.
#[derive(Debug, Clone, PartialEq, Eq)]
pub enum InputMode {
    Normal,
    Commit,
    StashMessage,
    Confirm { message: String, action: ConfirmAction },
    Preview { content: String, file_path: String },
    Help,
}

/// The reply the application waits for from the gateway, and what it is for.
#[derive(Debug, Clone, PartialEq, Eq)]
pub enum Awaiting {
    RepoName,
    Status,
    Branch,
    PanelDiff,
    Toggle,
    BulkToggle,
    Stash,
    StashList,
    StashApply,
    Commit,
    PreviewDiff { path: String },
}

/// The whole state of the client.
#[derive(Debug)]
pub struct App {
    pub files: Vec<StatusEntry>,
    pub selected: Option<usize>,
    pub input_mode: InputMode,
    pub commit_message: String,
    pub stash_message: String,
    pub status_message: String,
    pub current_branch: String,
    pub repo_name: String,
    pub preview_scroll: u16,
    pub preview_content: String,
    pub show_preview_panel: bool,
    pub help_scroll: u16,
    pub awaiting: Option<Awaiting>,
}

/// Bulk operations over more entries than this ask for confirmation first.
pub const CONFIRM_THRESHOLD: usize = 5;

/// The cursor after moving down a list of `n` entries, wrapping to the top.
pub open spec fn next_selection(sel: Option<usize>, n: nat) -> Option<usize> {
    if n == 0 {
        None
    } else {
        match sel {
            Some(i) => if i + 1 >= n {
                Some(0usize)
            } else {
                Some((i + 1) as usize)
            },
            None => Some(0usize),
        }
    }
}

/// The cursor after moving up a list of `n` entries, wrapping to the bottom.
pub open spec fn previous_selection(sel: Option<usize>, n: nat) -> Option<usize> {
    if n == 0 {
        None
    } else {
        match sel {
            Some(i) => if i == 0 {
                Some((n - 1) as usize)
            } else {
                Some((i - 1) as usize)
            },
            None => Some(0usize),
        }
    }
}

/// The cursor kept across a refresh that left `n` entries: the old index
/// while it is still in range, else the first entry, else none.
pub open spec fn refreshed_selection(sel: Option<usize>, n: nat) -> Option<usize> {
    if n == 0 {
        None
    } else {
        match sel {
            Some(i) => if i < n {
                Some(i)
            } else {
                Some(0usize)
            },
            None => Some(0usize),
        }
    }
}

/// The cursor after `k` moves down a list of `n` entries.
pub open spec fn next_times(sel: Option<usize>, n: nat, k: nat) -> Option<usize>
    decreases k,
{
    if k == 0 {
        sel
    } else {
        next_selection(next_times(sel, n, (k - 1) as nat), n)
    }
}

/// The message for a failed gateway call.
pub open spec fn error_text(e: Seq<char>) -> Seq<char> {
    "Error: "@ + e
}

/// The message that states how many entries a bulk action is about to change.
pub open spec fn confirm_text(action: ConfirmAction, n: nat) -> Seq<char> {
    match action {
        ConfirmAction::StageAll => "Stage all "@ + decimal(n) + " files? (y/n)"@,
        ConfirmAction::UnstageAll => "Unstage all "@ + decimal(n) + " files? (y/n)"@,
    }
}

/// The bulk request that a confirmed action sends.
pub open spec fn bulk_request(action: ConfirmAction) -> GitRequest {
    match action {
        ConfirmAction::StageAll => GitRequest::StageAll,
        ConfirmAction::UnstageAll => GitRequest::UnstageAll,
    }
}

/// Some entry of `files` is not staged.
pub open spec fn any_unstaged(files: Seq<StatusEntry>) -> bool {
    exists|i: int| 0 <= i < files.len() && !(#[trigger] files[i]).staged()
}

/// `post` and `r` come from `pre` by asking the gateway for a status refresh.
pub open spec fn refresh_started(pre: App, post: App, r: Option<GitRequest>) -> bool {
    post == App { awaiting: Some(Awaiting::Status), ..pre } && r == Some(GitRequest::Status)
}

/// `post` and `r` come from `pre` by bringing the preview panel up to date
/// with the selected entry: nothing while the panel is hidden, a diff request
/// when an entry is selected, an empty preview otherwise.
pub open spec fn preview_updated(pre: App, post: App, r: Option<GitRequest>) -> bool {
    if !pre.show_preview_panel {
        post == pre && r is None
    } else {
        match pre.selected {
            Some(i) => 0 <= i < pre.files@.len() && post == App {
                awaiting: Some(Awaiting::PanelDiff),
                ..pre
            } && r == Some(GitRequest::Diff { path: pre.files@[i as int].path }),
            None => post.preview_content@.len() == 0 && post == App {
                preview_content: post.preview_content,
                preview_scroll: 0,
                ..pre
            } && r is None,
        }
    }
}

/// `post` and `r` come from `pre` by moving the cursor to `sel` and bringing
/// the preview up to date; on an empty list nothing happens at all.
pub open spec fn cursor_moved(pre: App, sel: Option<usize>, post: App, r: Option<GitRequest>) -> bool {
    if pre.files@.len() == 0 {
        post == pre && r is None
    } else {
        post.selected == sel && preview_updated(App { selected: sel, ..pre }, post, r)
    }
}

/// `post` and `r` come from `pre` by reporting a failed gateway call.
pub open spec fn reported(pre: App, e: Seq<char>, post: App, r: Option<GitRequest>) -> bool {
    post.status_message@ == error_text(e) && post == App {
        status_message: post.status_message,
        awaiting: None,
        ..pre
    } && r is None
}

/// `post` and `r` come from `pre` by taking in the gateway's `reply` to the
/// request that `pre` waits for.
pub open spec fn resumed(pre: App, reply: Result<String, String>, post: App, r: Option<GitRequest>) -> bool {
    match pre.awaiting {
        None => post == pre && r is None,
        Some(Awaiting::RepoName) => post.repo_name@ == (match reply {
            Ok(n) => n@,
            Err(_) => "repository"@,
        }) && refresh_started(App { repo_name: post.repo_name, awaiting: None, ..pre }, post, r),
        Some(Awaiting::Status) => r == Some(GitRequest::CurrentBranch) && match reply {
            Ok(text) => views(post.files@) == parse_status_text(text@) && post.selected
                == refreshed_selection(pre.selected, post.files@.len()) && post == App {
                files: post.files,
                selected: post.selected,
                awaiting: Some(Awaiting::Branch),
                ..pre
            },
            Err(e) => post.status_message@ == error_text(e@) && post == App {
                status_message: post.status_message,
                awaiting: Some(Awaiting::Branch),
                ..pre
            },
        },
        Some(Awaiting::Branch) => post.current_branch@ == (match reply {
            Ok(n) => n@,
            Err(_) => "unknown"@,
        }) && preview_updated(
            App { current_branch: post.current_branch, awaiting: None, ..pre },
            post,
            r,
        ),
        Some(Awaiting::PanelDiff) => post.preview_content@ == (match reply {
            Ok(c) => c@,
            Err(_) => "No preview available"@,
        }) && post == App {
            preview_content: post.preview_content,
            preview_scroll: 0,
            awaiting: None,
            ..pre
        } && r is None,
        Some(Awaiting::Toggle) | Some(Awaiting::BulkToggle) | Some(Awaiting::StashApply) => match reply {
            Ok(m) => refresh_started(App { status_message: m, awaiting: None, ..pre }, post, r),
            Err(e) => reported(pre, e@, post, r),
        },
        Some(Awaiting::StashList) => match reply {
            Ok(m) => post == App { status_message: m, awaiting: None, ..pre } && r is None,
            Err(e) => reported(pre, e@, post, r),
        },
        Some(Awaiting::Stash) => match reply {
            Ok(m) => post.stash_message@.len() == 0 && refresh_started(
                App {
                    status_message: m,
                    stash_message: post.stash_message,
                    input_mode: InputMode::Normal,
                    awaiting: None,
                    ..pre
                },
                post,
                r,
            ),
            Err(e) => reported(pre, e@, post, r),
        },
        Some(Awaiting::Commit) => match reply {
            Ok(m) => post.commit_message@.len() == 0 && refresh_started(
                App {
                    status_message: m,
                    commit_message: post.commit_message,
                    input_mode: InputMode::Normal,
                    awaiting: None,
                    ..pre
                },
                post,
                r,
            ),
            Err(e) => reported(pre, e@, post, r),
        },
        Some(Awaiting::PreviewDiff { path }) => r is None && match reply {
            Ok(c) => post == App {
                input_mode: InputMode::Preview { content: c, file_path: path },
                preview_scroll: 0,
                awaiting: None,
                ..pre
            },
            Err(e) => post.status_message@ == "Preview error: "@ + e@ && post == App {
                status_message: post.status_message,
                awaiting: None,
                ..pre
            },
        },
    }
}

/// Moving down `k` times from entry `i` of a list of `n` entries lands on
/// entry `(i + k) mod n`.
pub proof fn lemma_next_times(i: usize, n: nat, k: nat)
    requires
        i < n,
        n <= usize::MAX,
    ensures
        next_times(Some(i), n, k) == Some(((i + k) % (n as int)) as usize),
    decreases k,
{
    if k > 0 {
        lemma_next_times(i, n, (k - 1) as nat);
        let m = i + k - 1;
        let d = n as int;
        let q = m / d;
        let j = m % d;
        vstd::arithmetic::div_mod::lemma_fundamental_div_mod(m, d);
        vstd::arithmetic::div_mod::lemma_mod_pos_bound(m, d);
        if j + 1 >= d {
            assert(m + 1 == (q + 1) * d + 0) by (nonlinear_arith)
                requires
                    m == d * q + j,
                    j + 1 == d,
            ;
            vstd::arithmetic::div_mod::lemma_fundamental_div_mod_converse(m + 1, d, q + 1, 0);
        } else {
            assert(m + 1 == q * d + (j + 1)) by (nonlinear_arith)
                requires
                    m == d * q + j,
            ;
            vstd::arithmetic::div_mod::lemma_fundamental_div_mod_converse(m + 1, d, q, j + 1);
        }
    } else {
        vstd::arithmetic::div_mod::lemma_small_mod(i as nat, n);
    }
}

/// Moving the cursor down as many times as there are entries brings it back
/// to where it started, and no smaller positive number of moves does.
pub proof fn lemma_next_wraps_around(i: usize, n: nat)
    requires
        i < n,
        n <= usize::MAX,
    ensures
        next_times(Some(i), n, n) == Some(i),
        forall|k: nat| 0 < k < n ==> #[trigger] next_times(Some(i), n, k) != Some(i),
{
    lemma_next_times(i, n, n);
    vstd::arithmetic::div_mod::lemma_mod_add_multiples_vanish(i as int, n as int);
    vstd::arithmetic::div_mod::lemma_small_mod(i as nat, n);
    assert forall|k: nat| 0 < k < n implies #[trigger] next_times(Some(i), n, k) != Some(i) by {
        lemma_next_times(i, n, k);
        if i + k < n {
            vstd::arithmetic::div_mod::lemma_small_mod((i + k) as nat, n);
        } else {
            vstd::arithmetic::div_mod::lemma_mod_add_multiples_vanish(i + k - n, n as int);
            vstd::arithmetic::div_mod::lemma_small_mod((i + k - n) as nat, n);
        }
    }
}

/// On an empty list, moving the cursor either way leaves no selection.
pub proof fn lemma_empty_list_has_no_selection(sel: Option<usize>)
    ensures
        next_selection(sel, 0) is None,
        previous_selection(sel, 0) is None,
{
}

/// A refresh that leaves the old cursor out of range moves it to the first
/// entry, or to none when the list is now empty.
pub proof fn lemma_refresh_resets_out_of_range(i: usize, n: nat)
    requires
        i >= n,
    ensures
        n == 0 ==> refreshed_selection(Some(i), n) is None,
        n > 0 ==> refreshed_selection(Some(i), n) == Some(0usize),
{
}

/// The bulk action for `files`: stage everything when some entry is not
/// staged, else unstage everything.
pub open spec fn bulk_action(files: Seq<StatusEntry>) -> ConfirmAction {
    if any_unstaged(files) {
        ConfirmAction::StageAll
    } else {
        ConfirmAction::UnstageAll
    }
}

/// `post` and `r` come from `pre` by sending `q` and waiting for its reply as `a`.
pub open spec fn asked(pre: App, a: Awaiting, q: GitRequest, post: App, r: Option<GitRequest>) -> bool {
    post == App { awaiting: Some(a), ..pre } && r == Some(q)
}

/// `post` comes from `pre` by a new status message `m`, and nothing is sent.
pub open spec fn told(pre: App, m: Seq<char>, post: App, r: Option<GitRequest>) -> bool {
    post.status_message@ == m && post == App { status_message: post.status_message, ..pre }
        && r is None
}

/// `post` comes from `pre` by entering mode `m`, and nothing is sent.
pub open spec fn entered(pre: App, m: InputMode, post: App, r: Option<GitRequest>) -> bool {
    post == App { input_mode: m, ..pre } && r is None
}

/// The selected entry is toggled: staged if it was not, unstaged if it was.
/// Without a selection nothing happens.
pub open spec fn toggle_sent(pre: App, post: App, r: Option<GitRequest>) -> bool {
    match pre.selected {
        Some(i) => 0 <= i < pre.files@.len() && asked(
            pre,
            Awaiting::Toggle,
            toggle_request(pre.files@[i as int]),
            post,
            r,
        ),
        None => post == pre && r is None,
    }
}

/// The confirmation gate of a bulk toggle: nothing to do on an empty list;
/// up to the threshold the bulk request goes out at once; above it the
/// client asks for confirmation with a message that gives the count.
pub open spec fn bulk_gated(pre: App, post: App, r: Option<GitRequest>) -> bool {
    let n = pre.files@.len();
    let action = bulk_action(pre.files@);
    if n == 0 {
        told(pre, "No files to stage"@, post, r)
    } else if n <= CONFIRM_THRESHOLD {
        asked(pre, Awaiting::BulkToggle, bulk_request(action), post, r)
    } else {
        r is None && post == App { input_mode: post.input_mode, ..pre } && match post.input_mode {
            InputMode::Confirm { message, action: a } => a == action && message@ == confirm_text(
                action,
                n,
            ),
            _ => false,
        }
    }
}

/// The answer to a confirmation: yes sends the pending bulk request once, no
/// cancels it; either way the mode returns to normal. Outside the
/// confirmation mode nothing happens.
pub open spec fn confirm_answered(pre: App, yes: bool, post: App, r: Option<GitRequest>) -> bool {
    match pre.input_mode {
        InputMode::Confirm { action, .. } => if yes {
            asked(
                App { input_mode: InputMode::Normal, ..pre },
                Awaiting::BulkToggle,
                bulk_request(action),
                post,
                r,
            )
        } else {
            told(App { input_mode: InputMode::Normal, ..pre }, "Operation cancelled"@, post, r)
        },
        _ => post == pre && r is None,
    }
}

/// A stash is sent, with the buffer as its message unless the buffer is blank.
pub open spec fn stash_sent(pre: App, post: App, r: Option<GitRequest>) -> bool {
    asked(
        pre,
        Awaiting::Stash,
        GitRequest::Stash {
            message: if blank(pre.stash_message@) {
                None
            } else {
                Some(pre.stash_message)
            },
        },
        post,
        r,
    )
}

/// A blank commit message is refused with a message and the mode kept;
/// any other is sent.
pub open spec fn commit_sent(pre: App, post: App, r: Option<GitRequest>) -> bool {
    if blank(pre.commit_message@) {
        told(pre, "Commit message cannot be empty"@, post, r)
    } else {
        asked(pre, Awaiting::Commit, GitRequest::Commit { message: pre.commit_message }, post, r)
    }
}

/// The full-screen preview of the selected entry is asked for; without a
/// selection the user is told so.
pub open spec fn preview_sent(pre: App, post: App, r: Option<GitRequest>) -> bool {
    match pre.selected {
        Some(i) => 0 <= i < pre.files@.len() && asked(
            pre,
            Awaiting::PreviewDiff { path: pre.files@[i as int].path },
            GitRequest::Diff { path: pre.files@[i as int].path },
            post,
            r,
        ),
        None => told(pre, "No file selected for preview"@, post, r),
    }
}

/// One step back towards the top, stopping at zero.
pub open spec fn scrolled_up(s: u16) -> u16 {
    if s > 0 {
        (s - 1) as u16
    } else {
        0
    }
}

/// One step further down, stopping at the largest position.
pub open spec fn scrolled_down(s: u16) -> u16 {
    if s < u16::MAX {
        (s + 1) as u16
    } else {
        s
    }
}

/// The preview panel is shown or hidden; when it appears it is brought up
/// to date.
pub open spec fn panel_toggled(pre: App, post: App, r: Option<GitRequest>) -> bool {
    if pre.show_preview_panel {
        post == App { show_preview_panel: false, ..pre } && r is None
    } else {
        preview_updated(App { show_preview_panel: true, ..pre }, post, r)
    }
}

/// A typed character goes to the buffer of the text-entry mode; in other
/// modes nothing happens.
pub open spec fn typed(pre: App, c: char, post: App) -> bool {
    match pre.input_mode {
        InputMode::Commit => post.commit_message@ == pre.commit_message@.push(c) && post == App {
            commit_message: post.commit_message,
            ..pre
        },
        InputMode::StashMessage => post.stash_message@ == pre.stash_message@.push(c) && post
            == App { stash_message: post.stash_message, ..pre },
        _ => post == pre,
    }
}

/// The last character of the buffer of the text-entry mode is removed; in
/// other modes, or with an empty buffer, nothing happens.
pub open spec fn erased(pre: App, post: App) -> bool {
    match pre.input_mode {
        InputMode::Commit => (if pre.commit_message@.len() == 0 {
            post.commit_message@ == pre.commit_message@
        } else {
            post.commit_message@ == pre.commit_message@.drop_last()
        }) && post == App { commit_message: post.commit_message, ..pre },
        InputMode::StashMessage => (if pre.stash_message@.len() == 0 {
            post.stash_message@ == pre.stash_message@
        } else {
            post.stash_message@ == pre.stash_message@.drop_last()
        }) && post == App { stash_message: post.stash_message, ..pre },
        _ => post == pre,
    }
}

/// Leaving a text-entry mode: back to normal with the commit buffer (when
/// `commit`) or the stash buffer cleared.
pub open spec fn cancelled(pre: App, commit: bool, post: App) -> bool {
    if commit {
        post.commit_message@.len() == 0 && post == App {
            commit_message: post.commit_message,
            input_mode: InputMode::Normal,
            ..pre
        }
    } else {
        post.stash_message@.len() == 0 && post == App {
            stash_message: post.stash_message,
            input_mode: InputMode::Normal,
            ..pre
        }
    }
}

/// A blank commit message is refused, whatever the gateway would say; any
/// other that the gateway accepts returns the client to the normal mode with
/// an empty buffer.
pub proof fn lemma_commit_submission(
    pre: App,
    mid: App,
    r: Option<GitRequest>,
    reply: Result<String, String>,
    post: App,
    r2: Option<GitRequest>,
)
    requires
        commit_sent(pre, mid, r),
    ensures
        blank(pre.commit_message@) ==> mid.input_mode == pre.input_mode && r is None
            && has_infix(mid.status_message@, "empty"@),
        !blank(pre.commit_message@) && reply is Ok && resumed(mid, reply, post, r2)
            ==> post.input_mode == InputMode::Normal && post.commit_message@.len() == 0,
{
    if blank(pre.commit_message@) {
        let s = "Commit message cannot be empty"@;
        reveal_strlit("Commit message cannot be empty");
        reveal_strlit("empty");
        assert(s.subrange(25, 30) =~= "empty"@);
        assert(mid.status_message@.subrange(25, 25 + "empty"@.len() as int) == "empty"@);
    }
}

/// A confirmed bulk action goes out once: answering yes again finds no
/// question and sends nothing.
pub proof fn lemma_confirmed_once(
    pre: App,
    mid: App,
    r: Option<GitRequest>,
    post: App,
    r2: Option<GitRequest>,
)
    requires
        pre.input_mode is Confirm,
        confirm_answered(pre, true, mid, r),
        confirm_answered(mid, true, post, r2),
    ensures
        r is Some,
        mid.input_mode == InputMode::Normal,
        r2 is None,
        post == mid,
{
}

impl App {
    /// The cursor is on an entry exactly when there are entries.
    pub open spec fn wf(&self) -> bool {
        match self.selected {
            Some(i) => i < self.files@.len(),
            None => self.files@.len() == 0,
        }
    }

    /// A fresh client with no entries, in the normal mode, waiting for nothing.
    pub fn new() -> (r: App)
        ensures
            r.wf(),
            r.files@.len() == 0,
            r.selected is None,
            r.input_mode == InputMode::Normal,
            r.commit_message@.len() == 0,
            r.stash_message@.len() == 0,
            r.status_message@ == "準備完了。[h]でヘルプ、[j/k]でファイル移動できます"@,
            r.current_branch@ == "unknown"@,
            r.repo_name@ == "repository"@,
            r.preview_scroll == 0,
            r.preview_content@.len() == 0,
            r.show_preview_panel,
            r.help_scroll == 0,
            r.awaiting is None,
    {
        App {
            files: Vec::new(),
            selected: None,
            input_mode: InputMode::Normal,
            commit_message: String::new(),
            stash_message: String::new(),
            status_message: String::from_str("準備完了。[h]でヘルプ、[j/k]でファイル移動できます"),
            current_branch: String::from_str("unknown"),
            repo_name: String::from_str("repository"),
            preview_scroll: 0,
            preview_content: String::new(),
            show_preview_panel: true,
            help_scroll: 0,
            awaiting: None,
        }
    }

    /// Asks for the repository's name; the reply then starts a refresh.
    pub fn start(&mut self) -> (r: Option<GitRequest>)
        requires
            old(self).wf(),
        ensures
            final(self).wf(),
            *final(self) == (App { awaiting: Some(Awaiting::RepoName), ..*old(self) }),
            r == Some(GitRequest::RepoName),
    {
        self.awaiting = Some(Awaiting::RepoName);
        Some(GitRequest::RepoName)
    }

    /// Asks the gateway for the status of the working tree.
    pub fn refresh_files(&mut self) -> (r: Option<GitRequest>)
        requires
            old(self).wf(),
        ensures
            final(self).wf(),
            refresh_started(*old(self), *final(self), r),
    {
        self.awaiting = Some(Awaiting::Status);
        Some(GitRequest::Status)
    }

    /// Brings the preview panel up to date with the selected entry.
    pub fn update_preview(&mut self) -> (r: Option<GitRequest>)
        requires
            old(self).wf(),
        ensures
            final(self).wf(),
            preview_updated(*old(self), *final(self), r),
    {
        if !self.show_preview_panel {
            return None;
        }
        match self.selected {
            Some(i) => {
                self.awaiting = Some(Awaiting::PanelDiff);
                Some(GitRequest::Diff { path: self.files[i].path.clone() })
            },
            None => {
                self.preview_content = String::new();
                self.preview_scroll = 0;
                None
            },
        }
    }

    /// Moves the cursor down, wrapping to the top, and updates the preview.
    pub fn next(&mut self) -> (r: Option<GitRequest>)
        requires
            old(self).wf(),
        ensures
            final(self).wf(),
            final(self).selected == next_selection(old(self).selected, old(self).files@.len()),
            old(self).files@.len() == 0 ==> *final(self) == *old(self) && r is None,
            cursor_moved(
                *old(self),
                next_selection(old(self).selected, old(self).files@.len()),
                *final(self),
                r,
            ),
    {
        if self.files.len() == 0 {
            return None;
        }
        let i: usize = match self.selected {
            Some(i) => if i >= self.files.len() - 1 {
                0
            } else {
                i + 1
            },
            None => 0,
        };
        self.selected = Some(i);
        self.update_preview()
    }

    /// Moves the cursor up, wrapping to the bottom, and updates the preview.
    pub fn previous(&mut self) -> (r: Option<GitRequest>)
        requires
            old(self).wf(),
        ensures
            final(self).wf(),
            final(self).selected == previous_selection(old(self).selected, old(self).files@.len()),
            old(self).files@.len() == 0 ==> *final(self) == *old(self) && r is None,
            cursor_moved(
                *old(self),
                previous_selection(old(self).selected, old(self).files@.len()),
                *final(self),
                r,
            ),
    {
        if self.files.len() == 0 {
            return None;
        }
        let i: usize = match self.selected {
            Some(i) => if i == 0 {
                self.files.len() - 1
            } else {
                i - 1
            },
            None => 0,
        };
        self.selected = Some(i);
        self.update_preview()
    }

    /// Takes in the gateway's reply to the request the client waits for, and
    /// returns the next request to send, if any.
    pub fn resume(&mut self, reply: Result<String, String>) -> (r: Option<GitRequest>)
        requires
            old(self).wf(),
        ensures
            final(self).wf(),
            resumed(*old(self), reply, *final(self), r),
    {
        let waiting = self.awaiting.take();
        match waiting {
            None => None,
            Some(Awaiting::RepoName) => {
                self.repo_name = match reply {
                    Ok(n) => n,
                    Err(_) => String::from_str("repository"),
                };
                self.refresh_files()
            },
            Some(Awaiting::Status) => {
                match reply {
                    Ok(text) => {
                        self.files = parse_status(text.as_str());
                        let n = self.files.len();
                        self.selected = if n == 0 {
                            None
                        } else {
                            match self.selected {
                                Some(i) => if i < n {
                                    Some(i)
                                } else {
                                    Some(0)
                                },
                                None => Some(0),
                            }
                        };
                    },
                    Err(e) => {
                        self.status_message = join("Error: ", e.as_str());
                    },
                }
                self.awaiting = Some(Awaiting::Branch);
                Some(GitRequest::CurrentBranch)
            },
            Some(Awaiting::Branch) => {
                self.current_branch = match reply {
                    Ok(n) => n,
                    Err(_) => String::from_str("unknown"),
                };
                self.update_preview()
            },
            Some(Awaiting::PanelDiff) => {
                self.preview_content = match reply {
                    Ok(c) => c,
                    Err(_) => String::from_str("No preview available"),
                };
                self.preview_scroll = 0;
                None
            },
            Some(Awaiting::Toggle) | Some(Awaiting::BulkToggle) | Some(Awaiting::StashApply) => {
                match reply {
                    Ok(m) => {
                        self.status_message = m;
                        self.refresh_files()
                    },
                    Err(e) => {
                        self.status_message = join("Error: ", e.as_str());
                        None
                    },
                }
            },
            Some(Awaiting::StashList) => {
                match reply {
                    Ok(m) => {
                        self.status_message = m;
                    },
                    Err(e) => {
                        self.status_message = join("Error: ", e.as_str());
                    },
                }
                None
            },
            Some(Awaiting::Stash) => {
                match reply {
                    Ok(m) => {
                        self.status_message = m;
                        self.stash_message = String::new();
                        self.input_mode = InputMode::Normal;
                        self.refresh_files()
                    },
                    Err(e) => {
                        self.status_message = join("Error: ", e.as_str());
                        None
                    },
                }
            },
            Some(Awaiting::Commit) => {
                match reply {
                    Ok(m) => {
                        self.status_message = m;
                        self.commit_message = String::new();
                        self.input_mode = InputMode::Normal;
                        self.refresh_files()
                    },
                    Err(e) => {
                        self.status_message = join("Error: ", e.as_str());
                        None
                    },
                }
            },
            Some(Awaiting::PreviewDiff { path }) => {
                match reply {
                    Ok(c) => {
                        self.input_mode = InputMode::Preview { content: c, file_path: path };
                        self.preview_scroll = 0;
                    },
                    Err(e) => {
                        self.status_message = join("Preview error: ", e.as_str());
                    },
                }
                None
            },
        }
    }
    /// Toggles the staging of the selected entry.
    pub fn stage_file(&mut self) -> (r: Option<GitRequest>)
        requires
            old(self).wf(),
        ensures
            final(self).wf(),
            toggle_sent(*old(self), *final(self), r),
    {
        match self.selected {
            Some(i) => {
                let q = GitOperations::toggle(&self.files[i]);
                self.awaiting = Some(Awaiting::Toggle);
                Some(q)
            },
            None => None,
        }
    }

    /// Stages or unstages every entry, asking first when there are many.
    pub fn stage_all_files(&mut self) -> (r: Option<GitRequest>)
        requires
            old(self).wf(),
        ensures
            final(self).wf(),
            bulk_gated(*old(self), *final(self), r),
    {
        let n = self.files.len();
        if n == 0 {
            self.status_message = String::from_str("No files to stage");
            return None;
        }
        if n > CONFIRM_THRESHOLD {
            let count = decimal_string(n);
            let action = if crate::status::has_unstaged(&self.files) {
                ConfirmAction::StageAll
            } else {
                ConfirmAction::UnstageAll
            };
            let message = match action {
                ConfirmAction::StageAll => join3("Stage all ", count.as_str(), " files? (y/n)"),
                ConfirmAction::UnstageAll => join3(
                    "Unstage all ",
                    count.as_str(),
                    " files? (y/n)",
                ),
            };
            self.input_mode = InputMode::Confirm { message, action };
            None
        } else {
            self.execute_stage_all()
        }
    }

    /// Sends the bulk request that `files` call for.
    fn execute_stage_all(&mut self) -> (r: Option<GitRequest>)
        requires
            old(self).wf(),
        ensures
            final(self).wf(),
            asked(
                *old(self),
                Awaiting::BulkToggle,
                bulk_request(bulk_action(old(self).files@)),
                *final(self),
                r,
            ),
    {
        let q = GitOperations::stage_all_files(&self.files);
        self.awaiting = Some(Awaiting::BulkToggle);
        Some(q)
    }

    /// Answers the confirmation question.
    pub fn handle_confirm(&mut self, confirmed: bool) -> (r: Option<GitRequest>)
        requires
            old(self).wf(),
        ensures
            final(self).wf(),
            confirm_answered(*old(self), confirmed, *final(self), r),
    {
        let action = match &self.input_mode {
            InputMode::Confirm { action, .. } => *action,
            _ => {
                return None;
            },
        };
        self.input_mode = InputMode::Normal;
        if confirmed {
            self.awaiting = Some(Awaiting::BulkToggle);
            match action {
                ConfirmAction::StageAll => Some(GitRequest::StageAll),
                ConfirmAction::UnstageAll => Some(GitRequest::UnstageAll),
            }
        } else {
            self.status_message = String::from_str("Operation cancelled");
            None
        }
    }

    /// Stashes the working tree, with the buffer as message unless it is blank.
    pub fn stash_changes(&mut self) -> (r: Option<GitRequest>)
        requires
            old(self).wf(),
        ensures
            final(self).wf(),
            stash_sent(*old(self), *final(self), r),
    {
        let message = if is_blank(self.stash_message.as_str()) {
            None
        } else {
            Some(self.stash_message.clone())
        };
        self.awaiting = Some(Awaiting::Stash);
        Some(GitRequest::Stash { message })
    }

    /// Asks for the list of stashes.
    pub fn list_stashes(&mut self) -> (r: Option<GitRequest>)
        requires
            old(self).wf(),
        ensures
            final(self).wf(),
            asked(*old(self), Awaiting::StashList, GitRequest::ListStashes, *final(self), r),
    {
        self.awaiting = Some(Awaiting::StashList);
        Some(GitRequest::ListStashes)
    }

    /// Applies the latest stash.
    pub fn apply_latest_stash(&mut self) -> (r: Option<GitRequest>)
        requires
            old(self).wf(),
        ensures
            final(self).wf(),
            asked(*old(self), Awaiting::StashApply, GitRequest::ApplyStash, *final(self), r),
    {
        self.awaiting = Some(Awaiting::StashApply);
        Some(GitRequest::ApplyStash)
    }

    /// Commits with the buffer as message; a blank message is refused.
    pub fn commit(&mut self) -> (r: Option<GitRequest>)
        requires
            old(self).wf(),
        ensures
            final(self).wf(),
            commit_sent(*old(self), *final(self), r),
    {
        if is_blank(self.commit_message.as_str()) {
            self.status_message = String::from_str("Commit message cannot be empty");
            return None;
        }
        self.awaiting = Some(Awaiting::Commit);
        Some(GitRequest::Commit { message: self.commit_message.clone() })
    }

    /// Enters the commit-message mode.
    pub fn start_commit(&mut self)
        requires
            old(self).wf(),
        ensures
            final(self).wf(),
            *final(self) == (App { input_mode: InputMode::Commit, ..*old(self) }),
    {
        self.input_mode = InputMode::Commit;
    }

    /// Enters the stash-message mode.
    pub fn start_stash(&mut self)
        requires
            old(self).wf(),
        ensures
            final(self).wf(),
            *final(self) == (App { input_mode: InputMode::StashMessage, ..*old(self) }),
    {
        self.input_mode = InputMode::StashMessage;
    }

    /// Leaves the commit-message mode and clears its buffer.
    pub fn cancel_commit(&mut self)
        requires
            old(self).wf(),
        ensures
            final(self).wf(),
            cancelled(*old(self), true, *final(self)),
    {
        self.input_mode = InputMode::Normal;
        self.commit_message = String::new();
    }

    /// Leaves the stash-message mode and clears its buffer.
    pub fn cancel_stash(&mut self)
        requires
            old(self).wf(),
        ensures
            final(self).wf(),
            cancelled(*old(self), false, *final(self)),
    {
        self.input_mode = InputMode::Normal;
        self.stash_message = String::new();
    }

    /// Adds a typed character to the buffer of the text-entry mode.
    pub fn input_char(&mut self, c: char)
        requires
            old(self).wf(),
        ensures
            final(self).wf(),
            typed(*old(self), c, *final(self)),
    {
        match self.input_mode {
            InputMode::Commit => push_char(&mut self.commit_message, c),
            InputMode::StashMessage => push_char(&mut self.stash_message, c),
            _ => {},
        }
    }

    /// Removes the last character of the buffer of the text-entry mode.
    pub fn erase_char(&mut self)
        requires
            old(self).wf(),
        ensures
            final(self).wf(),
            erased(*old(self), *final(self)),
    {
        match self.input_mode {
            InputMode::Commit => {
                pop_char(&mut self.commit_message);
            },
            InputMode::StashMessage => {
                pop_char(&mut self.stash_message);
            },
            _ => {},
        }
    }

    /// Shows the help screen from its top.
    pub fn show_help(&mut self)
        requires
            old(self).wf(),
        ensures
            final(self).wf(),
            *final(self) == (App { input_mode: InputMode::Help, help_scroll: 0, ..*old(self) }),
    {
        self.input_mode = InputMode::Help;
        self.help_scroll = 0;
    }

    /// Leaves the help screen and resets its scroll position.
    pub fn exit_help(&mut self)
        requires
            old(self).wf(),
        ensures
            final(self).wf(),
            *final(self) == (App { input_mode: InputMode::Normal, help_scroll: 0, ..*old(self) }),
    {
        self.input_mode = InputMode::Normal;
        self.help_scroll = 0;
    }

    /// Scrolls the help screen up one line.
    pub fn scroll_help_up(&mut self)
        requires
            old(self).wf(),
        ensures
            final(self).wf(),
            *final(self) == (App { help_scroll: scrolled_up(old(self).help_scroll), ..*old(self) }),
    {
        if self.help_scroll > 0 {
            self.help_scroll = self.help_scroll - 1;
        }
    }

    /// Scrolls the help screen down one line.
    pub fn scroll_help_down(&mut self)
        requires
            old(self).wf(),
        ensures
            final(self).wf(),
            *final(self) == (App {
                help_scroll: scrolled_down(old(self).help_scroll),
                ..*old(self)
            }),
    {
        if self.help_scroll < u16::MAX {
            self.help_scroll = self.help_scroll + 1;
        }
    }

    /// Asks for the full-screen preview of the selected entry.
    pub fn show_preview(&mut self) -> (r: Option<GitRequest>)
        requires
            old(self).wf(),
        ensures
            final(self).wf(),
            preview_sent(*old(self), *final(self), r),
    {
        match self.selected {
            Some(i) => {
                let path = self.files[i].path.clone();
                self.awaiting = Some(Awaiting::PreviewDiff { path: path.clone() });
                Some(GitRequest::Diff { path })
            },
            None => {
                self.status_message = String::from_str("No file selected for preview");
                None
            },
        }
    }

    /// Scrolls the preview up one line.
    pub fn scroll_preview_up(&mut self)
        requires
            old(self).wf(),
        ensures
            final(self).wf(),
            *final(self) == (App {
                preview_scroll: scrolled_up(old(self).preview_scroll),
                ..*old(self)
            }),
    {
        if self.preview_scroll > 0 {
            self.preview_scroll = self.preview_scroll - 1;
        }
    }

    /// Scrolls the preview down one line.
    pub fn scroll_preview_down(&mut self)
        requires
            old(self).wf(),
        ensures
            final(self).wf(),
            *final(self) == (App {
                preview_scroll: scrolled_down(old(self).preview_scroll),
                ..*old(self)
            }),
    {
        if self.preview_scroll < u16::MAX {
            self.preview_scroll = self.preview_scroll + 1;
        }
    }

    /// Leaves the full-screen preview and resets its scroll position.
    pub fn exit_preview(&mut self)
        requires
            old(self).wf(),
        ensures
            final(self).wf(),
            *final(self) == (App {
                input_mode: InputMode::Normal,
                preview_scroll: 0,
                ..*old(self)
            }),
    {
        self.input_mode = InputMode::Normal;
        self.preview_scroll = 0;
    }

    /// Shows or hides the preview panel.
    pub fn toggle_preview_panel(&mut self) -> (r: Option<GitRequest>)
        requires
            old(self).wf(),
        ensures
            final(self).wf(),
            panel_toggled(*old(self), *final(self), r),
    {
        self.show_preview_panel = !self.show_preview_panel;
        if self.show_preview_panel {
            self.update_preview()
        } else {
            None
        }
    }

    /// The path of the selected entry.
    pub fn get_current_file_path(&self) -> (r: Option<String>)
        requires
            self.wf(),
        ensures
            match self.selected {
                Some(i) => r == Some(self.files@[i as int].path),
                None => r is None,
            },
    {
        match self.selected {
            Some(i) => Some(self.files[i].path.clone()),
            None => None,
        }
    }
}

impl Default for App {
    fn default() -> (r: App)
        ensures
            r.wf(),
            r.files@.len() == 0,
            r.input_mode == InputMode::Normal,
            r.awaiting is None,
    {
        App::new()
    }
}

} // verus!
