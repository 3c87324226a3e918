//! Keystrokes: what a key means in each input mode, and the transition it
//! causes.
use crate::app::{
    App, InputMode, asked, bulk_gated, cancelled, cursor_moved, commit_sent, confirm_answered, entered, erased,
    next_selection, panel_toggled, preview_sent, previous_selection,
    refresh_started, scrolled_down, scrolled_up, stash_sent, toggle_sent, typed, Awaiting,
};
use crate::git::GitRequest;
use vstd::prelude::*;

verus! {

/// A key as the client sees it.
#[derive(Debug, Clone, Copy, PartialEq, Eq, Structural)]
pub enum Key {
    Char(char),
    Up,
    Down,
    Enter,
    Esc,
    Backspace,
    Other,
}

/// What a key asks the client to do.
#[derive(Debug, Clone, Copy, PartialEq, Eq, Structural)]
pub enum Command {
    Quit,
    Ignore,
    Next,
    Previous,
    ScrollPreviewDown,
    ScrollPreviewUp,
    Toggle,
    ToggleAll,
    StartCommit,
    StartStash,
    ListStashes,
    ApplyStash,
    Refresh,
    ShowHelp,
    ShowPreview,
    TogglePanel,
    CancelCommit,
    SubmitCommit,
    CancelStash,
    SubmitStash,
    Type(char),
    Erase,
    Answer(bool),
    ExitHelp,
    ScrollHelpDown,
    ScrollHelpUp,
    ExitPreview,
}

/// What the caller does after a key: stop, send a request, or wait for the
/// next key.
#[derive(Debug, Clone, PartialEq, Eq)]
pub enum Reaction {
    Quit,
    Send(GitRequest),
    Stay,
}

/// The request that a reaction sends, if any.
pub open spec fn sent(r: Reaction) -> Option<GitRequest> {
    match r {
        Reaction::Send(q) => Some(q),
        _ => None,
    }
}

/// A key that moves down.
pub open spec fn is_down(key: Key) -> bool {
    key == Key::Char('j') || key == Key::Down
}

/// A key that moves up.
pub open spec fn is_up(key: Key) -> bool {
    key == Key::Char('k') || key == Key::Up
}

/// What `key` means in `mode`; `shift` tells whether Shift is held, and
/// `panel` whether the preview panel is shown. Keys that a mode does not
/// know are ignored.
pub open spec fn command_for(mode: InputMode, key: Key, shift: bool, panel: bool) -> Command {
    match mode {
        InputMode::Normal => if key == Key::Char('q') {
            Command::Quit
        } else if is_down(key) {
            if panel && shift {
                Command::ScrollPreviewDown
            } else {
                Command::Next
            }
        } else if is_up(key) {
            if panel && shift {
                Command::ScrollPreviewUp
            } else {
                Command::Previous
            }
        } else if key == Key::Char('s') {
            Command::Toggle
        } else if key == Key::Char('a') {
            Command::ToggleAll
        } else if key == Key::Char('c') {
            Command::StartCommit
        } else if key == Key::Char('t') {
            Command::StartStash
        } else if key == Key::Char('l') {
            Command::ListStashes
        } else if key == Key::Char('p') {
            Command::ApplyStash
        } else if key == Key::Char('r') {
            Command::Refresh
        } else if key == Key::Char('h') {
            Command::ShowHelp
        } else if key == Key::Char('d') {
            Command::ShowPreview
        } else if key == Key::Char('v') {
            Command::TogglePanel
        } else {
            Command::Ignore
        },
        InputMode::Commit => match key {
            Key::Esc => Command::CancelCommit,
            Key::Enter => Command::SubmitCommit,
            Key::Char(c) => Command::Type(c),
            Key::Backspace => Command::Erase,
            _ => Command::Ignore,
        },
        InputMode::StashMessage => match key {
            Key::Esc => Command::CancelStash,
            Key::Enter => Command::SubmitStash,
            Key::Char(c) => Command::Type(c),
            Key::Backspace => Command::Erase,
            _ => Command::Ignore,
        },
        InputMode::Confirm { .. } => if key == Key::Char('y') || key == Key::Char('Y') {
            Command::Answer(true)
        } else if key == Key::Char('n') || key == Key::Char('N') || key == Key::Esc {
            Command::Answer(false)
        } else {
            Command::Ignore
        },
        InputMode::Help => if key == Key::Char('q') || key == Key::Esc || key == Key::Char('h') {
            Command::ExitHelp
        } else if is_down(key) {
            Command::ScrollHelpDown
        } else if is_up(key) {
            Command::ScrollHelpUp
        } else {
            Command::Ignore
        },
        InputMode::Preview { .. } => if key == Key::Char('q') || key == Key::Esc {
            Command::ExitPreview
        } else if is_down(key) {
            Command::ScrollPreviewDown
        } else if is_up(key) {
            Command::ScrollPreviewUp
        } else {
            Command::Ignore
        },
    }
}

/// `post` and `r` come from `pre` by carrying out `cmd`.
pub open spec fn performed(pre: App, cmd: Command, post: App, r: Option<GitRequest>) -> bool {
    match cmd {
        Command::Quit | Command::Ignore => post == pre && r is None,
        Command::Next => cursor_moved(pre, next_selection(pre.selected, pre.files@.len()), post, r),
        Command::Previous => cursor_moved(
            pre,
            previous_selection(pre.selected, pre.files@.len()),
            post,
            r,
        ),
        Command::ScrollPreviewDown => post == App {
            preview_scroll: scrolled_down(pre.preview_scroll),
            ..pre
        } && r is None,
        Command::ScrollPreviewUp => post == App {
            preview_scroll: scrolled_up(pre.preview_scroll),
            ..pre
        } && r is None,
        Command::Toggle => toggle_sent(pre, post, r),
        Command::ToggleAll => bulk_gated(pre, post, r),
        Command::StartCommit => entered(pre, InputMode::Commit, post, r),
        Command::StartStash => entered(pre, InputMode::StashMessage, post, r),
        Command::ListStashes => asked(pre, Awaiting::StashList, GitRequest::ListStashes, post, r),
        Command::ApplyStash => asked(pre, Awaiting::StashApply, GitRequest::ApplyStash, post, r),
        Command::Refresh => refresh_started(pre, post, r),
        Command::ShowHelp => post == App { input_mode: InputMode::Help, help_scroll: 0, ..pre }
            && r is None,
        Command::ShowPreview => preview_sent(pre, post, r),
        Command::TogglePanel => panel_toggled(pre, post, r),
        Command::CancelCommit => cancelled(pre, true, post) && r is None,
        Command::SubmitCommit => commit_sent(pre, post, r),
        Command::CancelStash => cancelled(pre, false, post) && r is None,
        Command::SubmitStash => stash_sent(pre, post, r),
        Command::Type(c) => typed(pre, c, post) && r is None,
        Command::Erase => erased(pre, post) && r is None,
        Command::Answer(yes) => confirm_answered(pre, yes, post, r),
        Command::ExitHelp => post == App { input_mode: InputMode::Normal, help_scroll: 0, ..pre }
            && r is None,
        Command::ScrollHelpDown => post == App {
            help_scroll: scrolled_down(pre.help_scroll),
            ..pre
        } && r is None,
        Command::ScrollHelpUp => post == App { help_scroll: scrolled_up(pre.help_scroll), ..pre }
            && r is None,
        Command::ExitPreview => post == App {
            input_mode: InputMode::Normal,
            preview_scroll: 0,
            ..pre
        } && r is None,
    }
}

fn down(key: Key) -> (r: bool)
    ensures
        r == is_down(key),
{
    match key {
        Key::Char(c) => c == 'j',
        Key::Down => true,
        _ => false,
    }
}

fn up(key: Key) -> (r: bool)
    ensures
        r == is_up(key),
{
    match key {
        Key::Char(c) => c == 'k',
        Key::Up => true,
        _ => false,
    }
}

fn is_char(key: Key, c: char) -> (r: bool)
    ensures
        r == (key == Key::Char(c)),
{
    match key {
        Key::Char(k) => k == c,
        _ => false,
    }
}

impl Command {
    /// What `key` means in `mode`.
    pub fn of(mode: &InputMode, key: Key, shift: bool, panel: bool) -> (r: Command)
        ensures
            r == command_for(*mode, key, shift, panel),
    {
        match mode {
            InputMode::Normal => if is_char(key, 'q') {
                Command::Quit
            } else if down(key) {
                if panel && shift {
                    Command::ScrollPreviewDown
                } else {
                    Command::Next
                }
            } else if up(key) {
                if panel && shift {
                    Command::ScrollPreviewUp
                } else {
                    Command::Previous
                }
            } else if is_char(key, 's') {
                Command::Toggle
            } else if is_char(key, 'a') {
                Command::ToggleAll
            } else if is_char(key, 'c') {
                Command::StartCommit
            } else if is_char(key, 't') {
                Command::StartStash
            } else if is_char(key, 'l') {
                Command::ListStashes
            } else if is_char(key, 'p') {
                Command::ApplyStash
            } else if is_char(key, 'r') {
                Command::Refresh
            } else if is_char(key, 'h') {
                Command::ShowHelp
            } else if is_char(key, 'd') {
                Command::ShowPreview
            } else if is_char(key, 'v') {
                Command::TogglePanel
            } else {
                Command::Ignore
            },
            InputMode::Commit => match key {
                Key::Esc => Command::CancelCommit,
                Key::Enter => Command::SubmitCommit,
                Key::Char(c) => Command::Type(c),
                Key::Backspace => Command::Erase,
                _ => Command::Ignore,
            },
            InputMode::StashMessage => match key {
                Key::Esc => Command::CancelStash,
                Key::Enter => Command::SubmitStash,
                Key::Char(c) => Command::Type(c),
                Key::Backspace => Command::Erase,
                _ => Command::Ignore,
            },
            InputMode::Confirm { .. } => if is_char(key, 'y') || is_char(key, 'Y') {
                Command::Answer(true)
            } else if is_char(key, 'n') || is_char(key, 'N') || key == Key::Esc {
                Command::Answer(false)
            } else {
                Command::Ignore
            },
            InputMode::Help => if is_char(key, 'q') || key == Key::Esc || is_char(key, 'h') {
                Command::ExitHelp
            } else if down(key) {
                Command::ScrollHelpDown
            } else if up(key) {
                Command::ScrollHelpUp
            } else {
                Command::Ignore
            },
            InputMode::Preview { .. } => if is_char(key, 'q') || key == Key::Esc {
                Command::ExitPreview
            } else if down(key) {
                Command::ScrollPreviewDown
            } else if up(key) {
                Command::ScrollPreviewUp
            } else {
                Command::Ignore
            },
        }
    }
}

impl App {
    /// Carries out `cmd`, and returns the request to send, if any.
    pub fn perform(&mut self, cmd: Command) -> (r: Option<GitRequest>)
        requires
            old(self).wf(),
        ensures
            final(self).wf(),
            performed(*old(self), cmd, *final(self), r),
    {
        match cmd {
            Command::Quit | Command::Ignore => None,
            Command::Next => self.next(),
            Command::Previous => self.previous(),
            Command::ScrollPreviewDown => {
                self.scroll_preview_down();
                None
            },
            Command::ScrollPreviewUp => {
                self.scroll_preview_up();
                None
            },
            Command::Toggle => self.stage_file(),
            Command::ToggleAll => self.stage_all_files(),
            Command::StartCommit => {
                self.start_commit();
                None
            },
            Command::StartStash => {
                self.start_stash();
                None
            },
            Command::ListStashes => self.list_stashes(),
            Command::ApplyStash => self.apply_latest_stash(),
            Command::Refresh => self.refresh_files(),
            Command::ShowHelp => {
                self.show_help();
                None
            },
            Command::ShowPreview => self.show_preview(),
            Command::TogglePanel => self.toggle_preview_panel(),
            Command::CancelCommit => {
                self.cancel_commit();
                None
            },
            Command::SubmitCommit => self.commit(),
            Command::CancelStash => {
                self.cancel_stash();
                None
            },
            Command::SubmitStash => self.stash_changes(),
            Command::Type(c) => {
                self.input_char(c);
                None
            },
            Command::Erase => {
                self.erase_char();
                None
            },
            Command::Answer(yes) => self.handle_confirm(yes),
            Command::ExitHelp => {
                self.exit_help();
                None
            },
            Command::ScrollHelpDown => {
                self.scroll_help_down();
                None
            },
            Command::ScrollHelpUp => {
                self.scroll_help_up();
                None
            },
            Command::ExitPreview => {
                self.exit_preview();
                None
            },
        }
    }

    /// Reacts to a key pressed in the current mode; `shift` tells whether
    /// Shift is held.
    pub fn handle_key(&mut self, key: Key, shift: bool) -> (r: Reaction)
        requires
            old(self).wf(),
        ensures
            final(self).wf(),
            (r == Reaction::Quit) == (command_for(
                old(self).input_mode,
                key,
                shift,
                old(self).show_preview_panel,
            ) == Command::Quit),
            performed(
                *old(self),
                command_for(old(self).input_mode, key, shift, old(self).show_preview_panel),
                *final(self),
                sent(r),
            ),
    {
        let cmd = Command::of(&self.input_mode, key, shift, self.show_preview_panel);
        if cmd == Command::Quit {
            return Reaction::Quit;
        }
        match self.perform(cmd) {
            Some(q) => Reaction::Send(q),
            None => Reaction::Stay,
        }
    }
}

} // verus!
