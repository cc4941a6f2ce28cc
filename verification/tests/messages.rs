use vpt::error::{Command, ModeErrorKind, VptError};

#[test]
fn usage_messages() {
    assert_eq!(VptError::Usage(Command::Chmod).message(), "Usage: vpt chmod <octal-mode> <path>");
    assert_eq!(VptError::Usage(Command::Cp).message(), "Usage: vpt cp [-r] <src> <dst>");
    assert_eq!(VptError::Usage(Command::TouchFile).message(), "Usage: vpt touch-file <filename>");
}

#[test]
fn copy_messages() {
    assert_eq!(VptError::DirectoryNeedsRecursive.message(), "copying a directory requires -r");
    assert_eq!(VptError::NoFileName.message(), "source has no file name");
}

#[test]
fn mode_messages_match_std() {
    for (text, kind) in [
        ("", ModeErrorKind::Empty),
        ("9", ModeErrorKind::InvalidDigit),
        ("77777777777777", ModeErrorKind::PosOverflow),
    ] {
        let std_message = u32::from_str_radix(text, 8).unwrap_err().to_string();
        assert_eq!(VptError::InvalidMode(kind).message(), std_message);
    }
}
