use vpt::error::{Command, VptError};
use vpt::stat_file::{entry_kind, stat_line, EntryKind};
use vpt::touch_file::touch_target;

#[test]
fn classifies_entries_by_type() {
    assert_eq!(entry_kind(true, true), EntryKind::Dir);
    assert_eq!(entry_kind(true, false), EntryKind::File);
    assert_eq!(entry_kind(false, false), EntryKind::Missing);
    assert_eq!(entry_kind(false, true), EntryKind::Missing);
}

#[test]
fn formats_report_lines() {
    assert_eq!(stat_line("notes/hello.txt", EntryKind::File), "notes/hello.txt: exists");
    assert_eq!(stat_line("missing.txt", EntryKind::Missing), "missing.txt: missing");
    assert_eq!(stat_line("notes", EntryKind::Dir), "notes: dir");
    assert_eq!(stat_line("", EntryKind::Dir), ": dir");
}

#[test]
fn touch_needs_a_file_name() {
    assert!(matches!(touch_target(&[]), Err(VptError::Usage(Command::TouchFile))));
}

#[test]
fn touch_uses_the_first_argument() {
    let args = vec!["a.txt".to_string(), "b.txt".to_string()];
    assert_eq!(touch_target(&args).unwrap(), "a.txt");
}
