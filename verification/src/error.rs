use vstd::prelude::*;

verus! {

/// The `vpt` subcommands whose argument lists can be malformed.
#[derive(Clone, Copy, Debug, PartialEq, Eq, Structural)]
pub enum Command {
    Chmod,
    Cp,
    TouchFile,
}

/// Why a text is not an octal `u32`, with the kinds that `u32::from_str_radix` reports.
#[derive(Clone, Copy, Debug, PartialEq, Eq, Structural)]
pub enum ModeErrorKind {
    /// The text is empty.
    Empty,
    /// A character is not an octal digit, or a sign stands alone.
    InvalidDigit,
    /// The value does not fit in a `u32`.
    PosOverflow,
}

/// Every way a `vpt` helper refuses its input before touching the file system.
#[derive(Clone, Copy, Debug, PartialEq, Eq, Structural)]
pub enum VptError {
    /// The argument list does not have the shape the command needs.
    Usage(Command),
    /// The mode given to `chmod` is not an octal number.
    InvalidMode(ModeErrorKind),
    /// `cp` was asked to copy a directory without `-r`.
    DirectoryNeedsRecursive,
    /// `cp` was asked to copy into a directory a source that has no file name.
    NoFileName,
}

/// The usage line printed for a malformed argument list.
pub open spec fn spec_usage_text(cmd: Command) -> Seq<char> {
    match cmd {
        Command::Chmod => "Usage: vpt chmod <octal-mode> <path>"@,
        Command::Cp => "Usage: vpt cp [-r] <src> <dst>"@,
        Command::TouchFile => "Usage: vpt touch-file <filename>"@,
    }
}

/// The text std gives each kind of integer-parsing failure.
pub open spec fn spec_mode_error_text(kind: ModeErrorKind) -> Seq<char> {
    match kind {
        ModeErrorKind::Empty => "cannot parse integer from empty string"@,
        ModeErrorKind::InvalidDigit => "invalid digit found in string"@,
        ModeErrorKind::PosOverflow => "number too large to fit in target type"@,
    }
}

impl VptError {
    /// The message shown to the user for this error.
    pub open spec fn spec_message(self) -> Seq<char> {
        match self {
            VptError::Usage(cmd) => spec_usage_text(cmd),
            VptError::InvalidMode(kind) => spec_mode_error_text(kind),
            VptError::DirectoryNeedsRecursive => "copying a directory requires -r"@,
            VptError::NoFileName => "source has no file name"@,
        }
    }

    /// Renders the error as the message the user sees.
    pub fn message(&self) -> (text: String)
        ensures
            text@ == self.spec_message(),
    {
        match self {
            VptError::Usage(Command::Chmod) => String::from_str("Usage: vpt chmod <octal-mode> <path>"),
            VptError::Usage(Command::Cp) => String::from_str("Usage: vpt cp [-r] <src> <dst>"),
            VptError::Usage(Command::TouchFile) => String::from_str("Usage: vpt touch-file <filename>"),
            VptError::InvalidMode(ModeErrorKind::Empty) => String::from_str(
                "cannot parse integer from empty string",
            ),
            VptError::InvalidMode(ModeErrorKind::InvalidDigit) => String::from_str(
                "invalid digit found in string",
            ),
            VptError::InvalidMode(ModeErrorKind::PosOverflow) => String::from_str(
                "number too large to fit in target type",
            ),
            VptError::DirectoryNeedsRecursive => String::from_str("copying a directory requires -r"),
            VptError::NoFileName => String::from_str("source has no file name"),
        }
    }
}

} // verus!
