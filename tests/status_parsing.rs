use pretty_git_ui::git::GitOperations;
use pretty_git_ui::status::{format_file_status, has_unstaged, parse_status, StatusEntry};
use pretty_git_ui::text::{decimal_string, is_blank, is_white_space, trimmed};

fn entry(line: &str) -> StatusEntry {
    StatusEntry::parse(line).unwrap()
}

#[test]
fn test_stage_file_format_parsing() {
    let _git_ops = GitOperations::new();

    let staged_file = entry("M  test.txt");
    assert!(!staged_file.index_flag.is_whitespace());

    let unstaged_file = entry(" M test.txt");
    assert!(unstaged_file.index_flag.is_whitespace());

    let added_file = entry("A  test.txt");
    assert!(!added_file.index_flag.is_whitespace());
}

#[test]
fn test_stage_all_files_detection() {
    let _git_ops = GitOperations::new();

    let all_staged = vec![entry("M  file1.txt"), entry("A  file2.txt")];
    assert!(!has_unstaged(&all_staged));

    let mixed_files = vec![entry("M  file1.txt"), entry(" M file2.txt")];
    assert!(has_unstaged(&mixed_files));
}

#[test]
fn test_file_path_extraction() {
    let file_status = entry("M  src/main.rs");
    assert_eq!(file_status.path, "src/main.rs");

    let file_status_with_spaces = entry(" M src/test.rs");
    assert_eq!(file_status_with_spaces.path, "src/test.rs");
}

#[test]
fn test_file_status_parsing() {
    let staged_modified = entry("M  src/main.rs");
    assert!(!staged_modified.index_flag.is_whitespace());

    let unstaged_modified = entry(" M src/main.rs");
    assert!(unstaged_modified.index_flag.is_whitespace());

    let added = entry("A  new_file.txt");
    assert!(!added.index_flag.is_whitespace());

    let untracked = entry("?? untracked.txt");
    assert!(!untracked.index_flag.is_whitespace());
}

#[test]
fn parsing_gives_path_and_staging() {
    let staged = entry("M  src/a.rs");
    assert_eq!(staged.path, "src/a.rs");
    assert!(staged.is_staged());

    let unstaged = entry(" M src/a.rs");
    assert_eq!(unstaged.path, "src/a.rs");
    assert!(!unstaged.is_staged());

    let untracked = entry("?? new.txt");
    assert_eq!(untracked.path, "new.txt");
    assert!(!untracked.is_staged());
}

#[test]
fn parsing_keeps_both_flags() {
    let e = entry("AM lib/x.rs");
    assert_eq!(e.index_flag, 'A');
    assert_eq!(e.worktree_flag, 'M');
    assert_eq!(e.path, "lib/x.rs");
    assert!(e.is_staged());
    assert!(entry("D  gone.txt").is_staged());
}

#[test]
fn malformed_lines_are_rejected() {
    assert_eq!(StatusEntry::parse(""), None);
    assert_eq!(StatusEntry::parse("M"), None);
    assert_eq!(StatusEntry::parse("M "), None);
    assert_eq!(StatusEntry::parse("M    "), None);
}

#[test]
fn status_text_keeps_order_and_skips_malformed() {
    let files = parse_status("M  b.rs\n\nX\r\n M a.rs\r\n?? c.txt");
    assert_eq!(files.len(), 3);
    assert_eq!(files[0].path, "b.rs");
    assert_eq!(files[1].path, "a.rs");
    assert_eq!(files[1].worktree_flag, 'M');
    assert_eq!(files[2].path, "c.txt");
    assert_eq!(files[2].index_flag, '?');
}

#[test]
fn status_text_empty_and_trailing_newline() {
    assert!(parse_status("").is_empty());
    let files = parse_status("A  new.rs\n");
    assert_eq!(files.len(), 1);
    assert_eq!(files[0].path, "new.rs");
}

#[test]
fn formatting_status_lines() {
    assert_eq!(format_file_status("M  src/main.rs"), "✓ [STAGED   ] src/main.rs");
    assert_eq!(format_file_status(" M src/main.rs"), "Δ [MODIFIED ] src/main.rs");
    assert_eq!(format_file_status("A  x"), "+ [ADDED    ] x");
    assert_eq!(format_file_status(" D x"), "✗ [DELETED  ] x");
    assert_eq!(format_file_status("?? x "), "? [UNTRACKED] x");
    assert_eq!(format_file_status("MM x"), "± [PARTIAL  ] x");
    assert_eq!(format_file_status("R  x"), "• [CHANGED  ] x");
    assert_eq!(format_file_status("M"), "M");
}

#[test]
fn entry_display_matches_line_format() {
    let e = entry("?? notes.md");
    assert_eq!(e.display(), "? [UNTRACKED] notes.md");
}

#[test]
fn text_helpers() {
    assert!(is_blank(""));
    assert!(is_blank(" \t\n"));
    assert!(!is_blank(" a "));
    assert_eq!(trimmed("  a b \n"), "a b");
    assert_eq!(trimmed("   "), "");
    assert_eq!(decimal_string(0), "0");
    assert_eq!(decimal_string(6), "6");
    assert_eq!(decimal_string(1203), "1203");
}

#[test]
fn white_space_agrees_with_char() {
    for c in (0u32..0x3100).filter_map(char::from_u32) {
        assert_eq!(is_white_space(c), c.is_whitespace(), "{:?}", c);
    }
}
