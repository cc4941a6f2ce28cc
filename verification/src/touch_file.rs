//! `vpt touch-file <filename>`: the cross-platform `touch` replacement for fixtures.
use vstd::prelude::*;

use crate::error::{Command, VptError};

verus! {

/// The file that `vpt touch-file` creates (or leaves as it is): its first argument.
/// Arguments after the first are ignored; without any, the usage error comes back.
pub fn touch_target(args: &[String]) -> (r: Result<String, VptError>)
    ensures
        args@.len() == 0 ==> r == Err::<String, VptError>(VptError::Usage(Command::TouchFile)),
        args@.len() > 0 ==> (r matches Ok(path) && path@ == args@[0]@),
{
    if args.len() == 0 {
        return Err(VptError::Usage(Command::TouchFile));
    }
    Ok(args[0].clone())
}

} // verus!
