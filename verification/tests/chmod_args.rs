use vpt::chmod::chmod_request;
use vpt::error::{Command, ModeErrorKind, VptError};

fn strings(items: &[&str]) -> Vec<String> {
    items.iter().map(|s| s.to_string()).collect()
}

#[test]
fn needs_exactly_two_arguments() {
    for args in [strings(&[]), strings(&["755"]), strings(&["755", "a", "b"])] {
        assert!(matches!(chmod_request(&args, true), Err(VptError::Usage(Command::Chmod))));
        assert!(matches!(chmod_request(&args, false), Err(VptError::Usage(Command::Chmod))));
    }
}

#[test]
fn reads_mode_and_path() {
    let req = chmod_request(&strings(&["755", "bin/run.sh"]), true).unwrap().unwrap();
    assert_eq!(req.mode, 0o755);
    assert_eq!(req.path, "bin/run.sh");
}

#[test]
fn reports_an_invalid_mode() {
    let r = chmod_request(&strings(&["rwx", "a"]), true);
    assert!(matches!(r, Err(VptError::InvalidMode(ModeErrorKind::InvalidDigit))));
    let r = chmod_request(&strings(&["", "a"]), true);
    assert!(matches!(r, Err(VptError::InvalidMode(ModeErrorKind::Empty))));
}

#[test]
fn does_nothing_without_permission_bits() {
    assert!(matches!(chmod_request(&strings(&["755", "a"]), false), Ok(None)));
    assert!(matches!(chmod_request(&strings(&["not-a-mode", "a"]), false), Ok(None)));
}
