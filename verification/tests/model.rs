//! Tests of the pure model: layout, ordering, snapshot and rendering.

use directory_lister::AppError;
use directory_lister::DirectoryEntry;
use directory_lister::DirectorySnapshot;
use directory_lister::EntryKind;
use directory_lister::Rect;
use directory_lister::build_frame;
use directory_lister::clamp_to_grid;
use directory_lister::content_title;
use directory_lister::entry_line;
use directory_lister::lex_le_exec;
use directory_lister::render_lines;
use directory_lister::sort_entries;
use directory_lister::split;

fn rect(x: u16, y: u16, width: u16, height: u16) -> Rect {
    Rect::new(x, y, width, height)
}

#[test]
fn split_is_deterministic() {
    let total = rect(0, 0, 80, 24);
    let first = split(total, 1);
    let second = split(total, 1);
    assert_eq!(first, second);
}

#[test]
fn split_standard_area() {
    let (title, content, help) = split(rect(0, 0, 80, 24), 1);
    assert_eq!(title, rect(1, 1, 78, 3));
    assert_eq!(content, rect(1, 4, 78, 16));
    assert_eq!(help, rect(1, 20, 78, 3));
}

#[test]
fn split_partitions_height() {
    for height in 8u16..40 {
        let (title, content, help) = split(rect(0, 0, 80, height), 1);
        assert_eq!(title.height + content.height + help.height + 2, height);
    }
}

#[test]
fn split_small_area_clamps_content_to_zero() {
    // Inner height is 3: the title takes all of it, help and content get none.
    let (title, content, help) = split(rect(0, 0, 80, 5), 1);
    assert_eq!(title.height, 3);
    assert_eq!(help.height, 0);
    assert_eq!(content.height, 0);
    // Inner height is 5: title 3, help 2, content still 0.
    let (title, content, help) = split(rect(0, 0, 80, 7), 1);
    assert_eq!(title.height, 3);
    assert_eq!(help.height, 2);
    assert_eq!(content.height, 0);
}

#[test]
fn split_margin_wider_than_area() {
    let (title, content, help) = split(rect(0, 0, 3, 24), 2);
    assert_eq!(title.width, 0);
    assert_eq!(content.width, 0);
    assert_eq!(help.width, 0);
    let (title, _, _) = split(rect(0, 0, 80, 3), 2);
    assert_eq!(title.height, 0);
}

#[test]
fn clamp_keeps_well_formed_area() {
    let a = rect(2, 3, 70, 20);
    assert_eq!(clamp_to_grid(a), a);
    let overflowing = rect(65000, 0, 60000, 10);
    let clamped = clamp_to_grid(overflowing);
    assert_eq!(clamped.x, 65000);
    assert_eq!(clamped.width, 535);
}

#[test]
fn lex_order_on_names() {
    assert!(lex_le_exec("a", "b"));
    assert!(!lex_le_exec("b", "a"));
    assert!(lex_le_exec("a", "a"));
    assert!(lex_le_exec("a", "ab"));
    assert!(!lex_le_exec("ab", "a"));
    // Case-sensitive scalar order: every upper-case letter precedes 'a'.
    assert!(lex_le_exec("B", "a"));
    assert!(lex_le_exec("", "x"));
}

#[test]
fn sort_orders_any_input() {
    let input = vec![
        DirectoryEntry::new("zeta".to_string(), EntryKind::File),
        DirectoryEntry::new("alpha".to_string(), EntryKind::Directory),
        DirectoryEntry::new("beta.txt".to_string(), EntryKind::File),
    ];
    let sorted = sort_entries(input);
    let names: Vec<&str> = sorted.iter().map(|e| e.name.as_str()).collect();
    assert_eq!(names, vec!["alpha", "beta.txt", "zeta"]);
}

#[test]
fn sort_keeps_duplicates() {
    let input = vec![
        DirectoryEntry::new("same".to_string(), EntryKind::File),
        DirectoryEntry::new("other".to_string(), EntryKind::File),
        DirectoryEntry::new("same".to_string(), EntryKind::Directory),
    ];
    let sorted = sort_entries(input);
    assert_eq!(sorted.len(), 3);
    assert_eq!(sorted[0].name, "other");
    assert_eq!(sorted[1].name, "same");
    assert_eq!(sorted[2].name, "same");
}

#[test]
fn sort_empty() {
    let sorted = sort_entries(Vec::new());
    assert!(sorted.is_empty());
}

#[test]
fn snapshot_sorts_entries() {
    let snap = DirectorySnapshot::new(
        "/tmp/example".to_string(),
        vec![
            DirectoryEntry::new("c".to_string(), EntryKind::File),
            DirectoryEntry::new("a".to_string(), EntryKind::File),
            DirectoryEntry::new("b".to_string(), EntryKind::Directory),
        ],
    );
    let names: Vec<&str> = snap.entries().iter().map(|e| e.name.as_str()).collect();
    assert_eq!(names, vec!["a", "b", "c"]);
    assert_eq!(snap.root_path().as_str(), "/tmp/example");
}

#[test]
fn entry_lines_decorate_kind() {
    let dir = DirectoryEntry::new("a".to_string(), EntryKind::Directory);
    let file = DirectoryEntry::new("b.txt".to_string(), EntryKind::File);
    assert_eq!(entry_line(&dir), "📁 a/");
    assert_eq!(entry_line(&file), "📄 b.txt");
}

#[test]
fn rendered_order_is_sorted() {
    let snap = DirectorySnapshot::new(
        "/x".to_string(),
        vec![
            DirectoryEntry::new("b.txt".to_string(), EntryKind::File),
            DirectoryEntry::new("a".to_string(), EntryKind::Directory),
        ],
    );
    let lines = render_lines(&snap);
    assert_eq!(lines, vec!["📁 a/".to_string(), "📄 b.txt".to_string()]);
}

#[test]
fn built_frame_matches_state() {
    let snap = DirectorySnapshot::new(
        "/x".to_string(),
        vec![
            DirectoryEntry::new("b.txt".to_string(), EntryKind::File),
            DirectoryEntry::new("a".to_string(), EntryKind::Directory),
        ],
    );
    let area = rect(0, 0, 80, 24);
    let frame = build_frame(area, &snap);
    let (title_region, content_region, help_region) = split(area, 1);
    assert_eq!(frame.title_region, title_region);
    assert_eq!(frame.content_region, content_region);
    assert_eq!(frame.help_region, help_region);
    assert_eq!(frame.title, "Directory Lister");
    assert_eq!(frame.content_title, "Contents of: /x");
    assert_eq!(frame.lines, vec!["📁 a/".to_string(), "📄 b.txt".to_string()]);
    assert_eq!(frame.help, "Press 'q' or 'Esc' to quit");
}

#[test]
fn content_title_shows_root() {
    assert_eq!(content_title("/home/user"), "Contents of: /home/user");
}

#[test]
fn error_descriptions() {
    assert_eq!(AppError::TerminalUnavailable.describe(), "terminal unavailable");
    assert_eq!(AppError::SnapshotUnavailable.describe(), "cannot list directory");
    assert_eq!(AppError::RenderFailure.describe(), "drawing failed");
    assert_eq!(AppError::InputReadFailure.describe(), "reading input failed");
}
