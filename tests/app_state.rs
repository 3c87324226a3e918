use pretty_git_ui::app::{App, Awaiting, ConfirmAction, InputMode};
use pretty_git_ui::git::GitRequest;
use pretty_git_ui::input::{Key, Reaction};
use pretty_git_ui::status::StatusEntry;

fn entries(lines: &[&str]) -> Vec<StatusEntry> {
    lines.iter().map(|l| StatusEntry::parse(l).unwrap()).collect()
}

fn app_with(lines: &[&str]) -> App {
    let mut app = App::new();
    app.files = entries(lines);
    app.selected = if app.files.is_empty() { None } else { Some(0) };
    app
}

fn many(n: usize, staged: bool) -> Vec<String> {
    (0..n).map(|i| format!("{}file{}.txt", if staged { "M  " } else { " M " }, i)).collect()
}

#[test]
fn test_app_new() {
    let app = App::new();
    assert_eq!(app.input_mode, InputMode::Normal);
    assert!(app.commit_message.is_empty());
    assert!(app.stash_message.is_empty());
}

#[test]
fn empty_list_navigation_changes_nothing() {
    let mut app = App::new();
    app.preview_content = "old preview".to_string();
    app.preview_scroll = 1;
    assert!(app.show_preview_panel);
    assert_eq!(app.next(), None);
    assert_eq!(app.previous(), None);
    assert_eq!(app.selected, None);
    assert_eq!(app.preview_content, "old preview");
    assert_eq!(app.preview_scroll, 1);
    assert_eq!(app.awaiting, None);
}

#[test]
fn app_test_input_mode_transitions() {
    let mut app = App::new();

    app.input_mode = InputMode::Commit;
    assert_eq!(app.input_mode, InputMode::Commit);

    app.input_mode = InputMode::StashMessage;
    assert_eq!(app.input_mode, InputMode::StashMessage);

    app.input_mode = InputMode::Normal;
    assert_eq!(app.input_mode, InputMode::Normal);
}

#[test]
fn test_navigation_empty_files() {
    let mut app = App::new();
    app.files.clear();
    app.selected = None;

    app.next();
    assert_eq!(app.selected, None);

    app.previous();
    assert_eq!(app.selected, None);
}

#[test]
fn test_navigation_with_files() {
    let mut app = App::new();
    app.files = entries(&["file1", "file2", "file3"]);
    app.selected = Some(0);

    app.next();
    assert_eq!(app.selected, Some(1));

    app.next();
    assert_eq!(app.selected, Some(2));

    app.next();
    assert_eq!(app.selected, Some(0));

    app.previous();
    assert_eq!(app.selected, Some(2));
}

#[test]
fn app_test_commit_message_validation() {
    let mut app = App::new();

    app.commit_message = String::new();
    app.commit();
    assert!(app.status_message.contains("cannot be empty"));

    app.commit_message = "   ".to_string();
    app.commit();
    assert!(app.status_message.contains("cannot be empty"));
}

#[test]
fn test_input_mode_display() {
    let app = App::new();
    assert!(matches!(app.input_mode, InputMode::Normal));
}

#[test]
fn test_cursor_position_calculation() {
    let message = "test commit message";
    let expected_cursor_x = 1 + message.len() as u16 + 1;
    let actual_cursor_x = pretty_git_ui::view::cursor_column(1, message);
    assert_eq!(actual_cursor_x, expected_cursor_x);
}

#[test]
fn test_navigation_with_empty_files() {
    let mut app = App::new();
    app.files.clear();

    app.next();
    assert_eq!(app.selected, None);

    app.previous();
    assert_eq!(app.selected, None);
}

#[test]
fn test_navigation_wraparound() {
    let mut app = App::new();
    app.files = entries(&["file1.txt", "file2.txt", "file3.txt"]);

    app.selected = Some(0);
    app.previous();
    assert_eq!(app.selected, Some(2));

    app.selected = Some(2);
    app.next();
    assert_eq!(app.selected, Some(0));
}

#[test]
fn test_stash_message_clearing() {
    let mut app = App::new();
    app.stash_message = "test stash message".to_string();
    app.input_mode = InputMode::StashMessage;

    let request = app.stash_changes();
    assert_eq!(
        request,
        Some(GitRequest::Stash { message: Some("test stash message".to_string()) })
    );
    app.resume(Ok("Changes stashed: saved".to_string()));

    assert!(app.stash_message.is_empty());
    assert_eq!(app.input_mode, InputMode::Normal);
}

#[test]
fn test_stage_all_files_empty() {
    let mut app = App::new();
    app.files.clear();

    app.stage_all_files();
    assert!(app.status_message.contains("No files to stage"));
}

#[test]
fn integration_test_test_commit_message_validation() {
    let mut app = App::new();

    app.commit_message = String::new();
    app.commit();
    assert!(app.status_message.contains("cannot be empty"));

    app.commit_message = "   ".to_string();
    app.commit();
    assert!(app.status_message.contains("cannot be empty"));

    app.commit_message = "Valid commit message".to_string();
    app.input_mode = InputMode::Commit;
    let request = app.commit();
    assert_eq!(request, Some(GitRequest::Commit { message: "Valid commit message".to_string() }));
    app.resume(Ok("✓ Committed successfully!".to_string()));
    assert_eq!(app.input_mode, InputMode::Normal);
    assert!(app.commit_message.is_empty());
}

#[test]
fn next_returns_after_len_moves() {
    for n in 1..6 {
        let lines: Vec<String> = (0..n).map(|i| format!(" M f{}", i)).collect();
        let refs: Vec<&str> = lines.iter().map(|s| s.as_str()).collect();
        for start in 0..n {
            let mut app = app_with(&refs);
            app.selected = Some(start);
            for k in 1..=n {
                app.next();
                if k < n {
                    assert_ne!(app.selected, Some(start));
                }
            }
            assert_eq!(app.selected, Some(start));
        }
    }
}

#[test]
fn empty_list_navigation_stays_unselected() {
    let mut app = App::new();
    for _ in 0..3 {
        app.next();
        assert_eq!(app.selected, None);
        app.previous();
        assert_eq!(app.selected, None);
    }
}

#[test]
fn blank_commit_keeps_mode_and_says_empty() {
    for text in ["", "   "] {
        let mut app = App::new();
        app.input_mode = InputMode::Commit;
        app.commit_message = text.to_string();
        assert_eq!(app.commit(), None);
        assert_eq!(app.input_mode, InputMode::Commit);
        assert!(app.status_message.contains("empty"));
    }
}

#[test]
fn commit_fix_bug_returns_to_normal() {
    let mut app = App::new();
    app.input_mode = InputMode::Commit;
    app.commit_message = "fix bug".to_string();
    assert_eq!(app.commit(), Some(GitRequest::Commit { message: "fix bug".to_string() }));
    assert_eq!(app.resume(Ok("✓ Committed successfully!".to_string())), Some(GitRequest::Status));
    assert_eq!(app.input_mode, InputMode::Normal);
    assert!(app.commit_message.is_empty());
    assert_eq!(app.status_message, "✓ Committed successfully!");
}

#[test]
fn failed_commit_keeps_buffer_and_mode() {
    let mut app = App::new();
    app.input_mode = InputMode::Commit;
    app.commit_message = "fix bug".to_string();
    app.commit();
    assert_eq!(app.resume(Err("Commit failed: hook".to_string())), None);
    assert_eq!(app.input_mode, InputMode::Commit);
    assert_eq!(app.commit_message, "fix bug");
    assert_eq!(app.status_message, "Error: Commit failed: hook");
}

#[test]
fn five_entries_toggle_at_once() {
    let lines = many(5, false);
    let refs: Vec<&str> = lines.iter().map(|s| s.as_str()).collect();
    let mut app = app_with(&refs);
    assert_eq!(app.stage_all_files(), Some(GitRequest::StageAll));
    assert_eq!(app.input_mode, InputMode::Normal);
    assert_eq!(app.awaiting, Some(Awaiting::BulkToggle));
}

#[test]
fn six_entries_ask_for_confirmation() {
    let lines = many(6, false);
    let refs: Vec<&str> = lines.iter().map(|s| s.as_str()).collect();
    let mut app = app_with(&refs);
    assert_eq!(app.stage_all_files(), None);
    match &app.input_mode {
        InputMode::Confirm { message, action } => {
            assert!(message.contains("6"));
            assert_eq!(message, "Stage all 6 files? (y/n)");
            assert_eq!(*action, ConfirmAction::StageAll);
        },
        other => panic!("unexpected mode {:?}", other),
    }
    assert_eq!(app.handle_confirm(true), Some(GitRequest::StageAll));
    assert_eq!(app.input_mode, InputMode::Normal);
    assert_eq!(app.handle_confirm(true), None);
}

#[test]
fn all_staged_asks_to_unstage_and_can_be_cancelled() {
    let lines = many(7, true);
    let refs: Vec<&str> = lines.iter().map(|s| s.as_str()).collect();
    let mut app = app_with(&refs);
    app.stage_all_files();
    match &app.input_mode {
        InputMode::Confirm { message, action } => {
            assert_eq!(message, "Unstage all 7 files? (y/n)");
            assert_eq!(*action, ConfirmAction::UnstageAll);
        },
        other => panic!("unexpected mode {:?}", other),
    }
    assert_eq!(app.handle_confirm(false), None);
    assert_eq!(app.input_mode, InputMode::Normal);
    assert_eq!(app.status_message, "Operation cancelled");
    assert_eq!(app.awaiting, None);
}

#[test]
fn refresh_resets_out_of_range_selection() {
    let mut app = app_with(&[" M a", " M b", " M c"]);
    app.selected = Some(2);
    assert_eq!(app.refresh_files(), Some(GitRequest::Status));
    assert_eq!(app.resume(Ok(" M a\n".to_string())), Some(GitRequest::CurrentBranch));
    assert_eq!(app.files.len(), 1);
    assert_eq!(app.selected, Some(0));

    app.refresh_files();
    app.resume(Ok(String::new()));
    assert!(app.files.is_empty());
    assert_eq!(app.selected, None);
}

#[test]
fn refresh_keeps_selection_in_range() {
    let mut app = app_with(&[" M a", " M b", " M c"]);
    app.selected = Some(1);
    app.refresh_files();
    app.resume(Ok(" M a\n M b\n".to_string()));
    assert_eq!(app.selected, Some(1));
}

#[test]
fn refresh_chain_updates_branch_and_preview() {
    let mut app = App::new();
    assert_eq!(app.start(), Some(GitRequest::RepoName));
    assert_eq!(app.resume(Ok("project".to_string())), Some(GitRequest::Status));
    assert_eq!(app.repo_name, "project");
    assert_eq!(app.resume(Ok("M  x.rs\n".to_string())), Some(GitRequest::CurrentBranch));
    assert_eq!(app.selected, Some(0));
    assert_eq!(
        app.resume(Ok("main".to_string())),
        Some(GitRequest::Diff { path: "x.rs".to_string() })
    );
    assert_eq!(app.current_branch, "main");
    assert_eq!(app.resume(Err("boom".to_string())), None);
    assert_eq!(app.preview_content, "No preview available");
    assert_eq!(app.awaiting, None);
}

#[test]
fn refresh_error_is_reported() {
    let mut app = App::new();
    app.refresh_files();
    assert_eq!(app.resume(Err("Git status failed: x".to_string())), Some(GitRequest::CurrentBranch));
    assert_eq!(app.status_message, "Error: Git status failed: x");
    assert_eq!(app.resume(Err("e".to_string())), None);
    assert_eq!(app.current_branch, "unknown");
}

#[test]
fn toggle_selected_entry() {
    let mut app = app_with(&["M  a.rs", " M b.rs"]);
    assert_eq!(app.stage_file(), Some(GitRequest::Unstage { path: "a.rs".to_string() }));
    assert_eq!(app.resume(Ok("✓ Unstaged file: a.rs".to_string())), Some(GitRequest::Status));
    assert_eq!(app.status_message, "✓ Unstaged file: a.rs");
    app.selected = Some(1);
    assert_eq!(app.stage_file(), Some(GitRequest::Stage { path: "b.rs".to_string() }));
    assert_eq!(app.resume(Err("no".to_string())), None);
    assert_eq!(app.status_message, "Error: no");
}

#[test]
fn preview_needs_a_selection() {
    let mut app = App::new();
    assert_eq!(app.show_preview(), None);
    assert_eq!(app.status_message, "No file selected for preview");
    assert_eq!(app.input_mode, InputMode::Normal);

    let mut app = app_with(&["?? new.txt"]);
    assert_eq!(app.show_preview(), Some(GitRequest::Diff { path: "new.txt".to_string() }));
    app.resume(Ok("New file content:\nhi".to_string()));
    assert_eq!(
        app.input_mode,
        InputMode::Preview {
            content: "New file content:\nhi".to_string(),
            file_path: "new.txt".to_string()
        }
    );
    app.scroll_preview_down();
    app.scroll_preview_down();
    app.scroll_preview_up();
    assert_eq!(app.preview_scroll, 1);
    app.exit_preview();
    assert_eq!(app.input_mode, InputMode::Normal);
    assert_eq!(app.preview_scroll, 0);
}

#[test]
fn help_scrolling_resets_on_exit() {
    let mut app = App::new();
    app.show_help();
    assert_eq!(app.input_mode, InputMode::Help);
    app.scroll_help_up();
    assert_eq!(app.help_scroll, 0);
    app.scroll_help_down();
    app.scroll_help_down();
    assert_eq!(app.help_scroll, 2);
    app.exit_help();
    assert_eq!(app.input_mode, InputMode::Normal);
    assert_eq!(app.help_scroll, 0);
    app.help_scroll = u16::MAX;
    app.scroll_help_down();
    assert_eq!(app.help_scroll, u16::MAX);
}

#[test]
fn panel_toggle_and_current_path() {
    let mut app = app_with(&[" M a.rs"]);
    assert_eq!(app.toggle_preview_panel(), None);
    assert!(!app.show_preview_panel);
    assert_eq!(app.toggle_preview_panel(), Some(GitRequest::Diff { path: "a.rs".to_string() }));
    assert!(app.show_preview_panel);
    assert_eq!(app.get_current_file_path(), Some("a.rs".to_string()));
    assert_eq!(App::new().get_current_file_path(), None);
}

#[test]
fn stash_list_and_apply() {
    let mut app = App::new();
    assert_eq!(app.list_stashes(), Some(GitRequest::ListStashes));
    assert_eq!(app.resume(Ok("No stashes found".to_string())), None);
    assert_eq!(app.status_message, "No stashes found");
    assert_eq!(app.apply_latest_stash(), Some(GitRequest::ApplyStash));
    assert_eq!(app.resume(Err("No stash to apply".to_string())), None);
    assert_eq!(app.status_message, "Error: No stash to apply");
    assert_eq!(app.apply_latest_stash(), Some(GitRequest::ApplyStash));
    assert_eq!(
        app.resume(Ok("✓ Latest stash applied successfully".to_string())),
        Some(GitRequest::Status)
    );
}

#[test]
fn blank_stash_message_sends_no_message() {
    let mut app = App::new();
    app.stash_message = "  ".to_string();
    assert_eq!(app.stash_changes(), Some(GitRequest::Stash { message: None }));
}

#[test]
fn typing_and_cancelling_commit() {
    let mut app = App::new();
    assert_eq!(app.handle_key(Key::Char('c'), false), Reaction::Stay);
    assert_eq!(app.input_mode, InputMode::Commit);
    app.handle_key(Key::Char('h'), false);
    app.handle_key(Key::Char('i'), false);
    app.handle_key(Key::Char('x'), false);
    app.handle_key(Key::Backspace, false);
    assert_eq!(app.commit_message, "hi");
    assert_eq!(
        app.handle_key(Key::Enter, false),
        Reaction::Send(GitRequest::Commit { message: "hi".to_string() })
    );
    app.awaiting = None;
    app.handle_key(Key::Esc, false);
    assert_eq!(app.input_mode, InputMode::Normal);
    assert!(app.commit_message.is_empty());
}

#[test]
fn keys_by_mode() {
    let mut app = app_with(&[" M a", " M b"]);
    assert_eq!(app.handle_key(Key::Char('q'), false), Reaction::Quit);
    app.handle_key(Key::Down, false);
    assert_eq!(app.selected, Some(1));
    app.handle_key(Key::Char('j'), true);
    assert_eq!(app.selected, Some(1));
    assert_eq!(app.preview_scroll, 1);
    app.handle_key(Key::Char('h'), false);
    assert_eq!(app.input_mode, InputMode::Help);
    let waiting = app.awaiting.clone();
    assert_eq!(app.handle_key(Key::Char('s'), false), Reaction::Stay);
    assert_eq!(app.awaiting, waiting);
    app.handle_key(Key::Char('q'), false);
    assert_eq!(app.input_mode, InputMode::Normal);
    app.handle_key(Key::Char('t'), false);
    app.handle_key(Key::Char('w'), false);
    assert_eq!(app.stash_message, "w");
    app.handle_key(Key::Esc, false);
    assert!(app.stash_message.is_empty());
    assert_eq!(app.handle_key(Key::Char('r'), false), Reaction::Send(GitRequest::Status));
}

#[test]
fn idle_resume_changes_nothing() {
    let mut app = App::new();
    assert_eq!(app.resume(Ok("x".to_string())), None);
    assert_eq!(app.status_message, App::new().status_message);
}
