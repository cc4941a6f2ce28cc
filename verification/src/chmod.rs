//! `vpt chmod <octal-mode> <path>`: sets POSIX permission bits; where the platform
//! has none (Windows) the command does nothing, so fixtures stay platform-identical.
use vstd::prelude::*;

use crate::error::{Command, VptError};
use crate::octal::{parse_octal_mode, spec_parse_octal_u32};

verus! {

/// The permission change that `chmod` asks for.
pub struct ChmodRequest {
    /// The permission bits, parsed from octal.
    pub mode: u32,
    /// The file or directory whose permissions change.
    pub path: String,
}

/// Decides what `vpt chmod` must do with its arguments.
///
/// `sets_permissions` says whether the platform has POSIX permission bits. Without
/// them the mode is not even read and nothing is to be done (`Ok(None)`).
pub fn chmod_request(args: &[String], sets_permissions: bool) -> (r: Result<
    Option<ChmodRequest>,
    VptError,
>)
    ensures
        args@.len() != 2 ==> r == Err::<Option<ChmodRequest>, VptError>(
            VptError::Usage(Command::Chmod),
        ),
        args@.len() == 2 && !sets_permissions ==> r matches Ok(None),
        args@.len() == 2 && sets_permissions ==> match spec_parse_octal_u32(args@[0]@) {
            Ok(mode) => (r matches Ok(Some(req)) && req.mode == mode && req.path@ == args@[1]@),
            Err(kind) => r == Err::<Option<ChmodRequest>, VptError>(VptError::InvalidMode(kind)),
        },
{
    if args.len() != 2 {
        return Err(VptError::Usage(Command::Chmod));
    }
    if !sets_permissions {
        return Ok(None);
    }
    match parse_octal_mode(args[0].as_str()) {
        Ok(mode) => Ok(Some(ChmodRequest { mode, path: args[1].clone() })),
        Err(kind) => Err(VptError::InvalidMode(kind)),
    }
}

} // verus!
