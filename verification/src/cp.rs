//! `vpt cp [-r] <src> <dst>`: copies a file, or a directory tree with `-r`.
//! Copying a file onto an existing directory copies it into that directory, as `cp` does.
use vstd::prelude::*;

use crate::error::{Command, VptError};
use crate::text::chars_of;

verus! {

/// The copy that `vpt cp` was asked for.
pub struct CpRequest {
    /// Whether `-r` was given.
    pub recursive: bool,
    /// The path to copy from.
    pub src: String,
    /// The path to copy to.
    pub dst: String,
}

/// The flag that allows copying directories.
pub open spec fn is_recursive_flag(arg: Seq<char>) -> bool {
    arg == seq!['-', 'r']
}

/// The argument lists `cp` accepts: `<src> <dst>`, or `-r <src> <dst>`.
pub open spec fn spec_cp_args_ok(args: Seq<String>) -> bool {
    args.len() == 2 || (args.len() == 3 && is_recursive_flag(args[0]@))
}

/// Reads the arguments of `vpt cp`.
pub fn parse_cp_args(args: &[String]) -> (r: Result<CpRequest, VptError>)
    ensures
        !spec_cp_args_ok(args@) ==> r == Err::<CpRequest, VptError>(VptError::Usage(Command::Cp)),
        args@.len() == 2 ==> (r matches Ok(req) && !req.recursive && req.src@ == args@[0]@
            && req.dst@ == args@[1]@),
        args@.len() == 3 && is_recursive_flag(args@[0]@) ==> (r matches Ok(req) && req.recursive
            && req.src@ == args@[1]@ && req.dst@ == args@[2]@),
{
    if args.len() == 2 {
        return Ok(CpRequest { recursive: false, src: args[0].clone(), dst: args[1].clone() });
    }
    if args.len() == 3 {
        let flag = chars_of(args[0].as_str());
        if flag.len() == 2 && flag[0] == '-' && flag[1] == 'r' {
            assert(flag@ =~= seq!['-', 'r']);
            return Ok(CpRequest { recursive: true, src: args[1].clone(), dst: args[2].clone() });
        }
    }
    Err(VptError::Usage(Command::Cp))
}

/// Where a file copy goes.
pub enum CopyTarget {
    /// To this path exactly.
    Path(String),
    /// Into this existing directory, under this file name.
    IntoDir { dir: String, name: String },
}

/// The copy to perform.
pub enum CpPlan {
    /// Copy the directory tree `src` to `dst`.
    CopyDir { src: String, dst: String },
    /// Copy the file `src` to `target`.
    CopyFile { src: String, target: CopyTarget },
}

/// `plan` is the copy for `req`, given whether the source and the destination are
/// directories and the source's file name (looked at only when a file is copied into
/// a directory).
pub open spec fn spec_cp_plan(
    req: CpRequest,
    src_is_dir: bool,
    dst_is_dir: bool,
    src_name: Option<Seq<char>>,
    plan: Result<CpPlan, VptError>,
) -> bool {
    if src_is_dir {
        if !req.recursive {
            plan == Err::<CpPlan, VptError>(VptError::DirectoryNeedsRecursive)
        } else {
            plan matches Ok(CpPlan::CopyDir { src, dst }) && src@ == req.src@ && dst@ == req.dst@
        }
    } else if !dst_is_dir {
        plan matches Ok(CpPlan::CopyFile { src, target: CopyTarget::Path(to) }) && src@
            == req.src@ && to@ == req.dst@
    } else {
        match src_name {
            None => plan == Err::<CpPlan, VptError>(VptError::NoFileName),
            Some(n) => plan matches Ok(
                CpPlan::CopyFile { src, target: CopyTarget::IntoDir { dir, name } },
            ) && src@ == req.src@ && dir@ == req.dst@ && name@ == n,
        }
    }
}

/// The characters of an optional name.
pub open spec fn name_view(name: Option<String>) -> Option<Seq<char>> {
    match name {
        Some(n) => Some(n@),
        None => None,
    }
}

/// Plans the copy for `req` from what the file system says of its paths and from
/// the file name of the source, as `Path::file_name` gave it.
pub fn plan_cp_with_name(
    req: CpRequest,
    src_is_dir: bool,
    dst_is_dir: bool,
    src_name: Option<String>,
) -> (plan: Result<CpPlan, VptError>)
    ensures
        spec_cp_plan(
            req,
            src_is_dir,
            dst_is_dir,
            name_view(src_name),
            plan,
        ),
        src_is_dir && !req.recursive ==> plan == Err::<CpPlan, VptError>(
            VptError::DirectoryNeedsRecursive,
        ),
        src_is_dir && req.recursive ==> (plan matches Ok(CpPlan::CopyDir { src, dst }) && src@
            == req.src@ && dst@ == req.dst@),
        !src_is_dir && !dst_is_dir ==> (plan matches Ok(
            CpPlan::CopyFile { src, target: CopyTarget::Path(to) },
        ) && src@ == req.src@ && to@ == req.dst@),
        !src_is_dir && dst_is_dir && src_name is None ==> plan == Err::<CpPlan, VptError>(
            VptError::NoFileName,
        ),
        !src_is_dir && dst_is_dir && src_name is Some ==> (plan matches Ok(
            CpPlan::CopyFile { src, target: CopyTarget::IntoDir { dir, name } },
        ) && src@ == req.src@ && dir@ == req.dst@ && name@ == src_name->0@),
{
    if src_is_dir {
        if !req.recursive {
            return Err(VptError::DirectoryNeedsRecursive);
        }
        return Ok(CpPlan::CopyDir { src: req.src, dst: req.dst });
    }
    if !dst_is_dir {
        return Ok(CpPlan::CopyFile { src: req.src, target: CopyTarget::Path(req.dst) });
    }
    match src_name {
        None => Err(VptError::NoFileName),
        Some(name) => Ok(
            CpPlan::CopyFile { src: req.src, target: CopyTarget::IntoDir { dir: req.dst, name } },
        ),
    }
}

/// `c` is an ASCII letter, as a Windows drive letter must be.
pub open spec fn is_ascii_letter(c: char) -> bool {
    ('a' <= c && c <= 'z') || ('A' <= c && c <= 'Z')
}

/// A path whose meaning does not depend on the platform: no `\\`, no drive prefix (an
/// ASCII letter followed by `:` at the start) and no leading `//`, so it has no Windows
/// prefix and `/` alone separates its components on every platform. A `:` anywhere
/// else is an ordinary character.
pub open spec fn is_portable_path(path: Seq<char>) -> bool {
    &&& forall|i: int| 0 <= i < path.len() ==> #[trigger] path[i] != '\\'
    &&& !(path.len() >= 2 && path[1] == ':' && is_ascii_letter(path[0]))
    &&& !(path.len() >= 2 && path[0] == '/' && path[1] == '/')
}

/// The characters after the last `/` of `path` (all of it when there is no `/`).
pub open spec fn last_segment(path: Seq<char>) -> Seq<char>
    decreases path.len(),
{
    if path.len() == 0 {
        path
    } else if path.last() == '/' {
        Seq::empty()
    } else {
        last_segment(path.drop_last()).push(path.last())
    }
}

/// `path` without the trailing separators and `.` components that name no file:
/// `usr/bin/` becomes `usr/bin`, `foo.txt/.//` becomes `foo.txt`.
pub open spec fn trim_trailing(path: Seq<char>) -> Seq<char>
    decreases path.len(),
{
    if path.len() > 0 && path.last() == '/' {
        trim_trailing(path.drop_last())
    } else if path.len() >= 2 && path.last() == '.' && path[path.len() - 2] == '/' {
        trim_trailing(path.drop_last())
    } else {
        path
    }
}

/// The last component of `path` that could name a file.
pub open spec fn final_segment(path: Seq<char>) -> Seq<char> {
    last_segment(trim_trailing(path))
}

/// A segment that is an ordinary name: not empty, not `.` and not `..`.
pub open spec fn is_normal_name(segment: Seq<char>) -> bool {
    segment.len() > 0 && segment != seq!['.'] && segment != seq!['.', '.']
}

/// `c` separates path components on some platform (`/` everywhere, `\\` on Windows).
pub open spec fn is_any_separator(c: char) -> bool {
    c == '/' || c == '\\'
}

/// `path` has nothing that some platform reads as a prefix or a network root: no
/// drive prefix (an ASCII letter and `:` at the start) and no two separators of either
/// kind at the start (as in `\\?\`, `\\server` or `//server`).
pub open spec fn has_no_prefix(path: Seq<char>) -> bool {
    &&& !(path.len() >= 2 && path[1] == ':' && is_ascii_letter(path[0]))
    &&& !(path.len() >= 2 && is_any_separator(path[0]) && is_any_separator(path[1]))
}

/// `path` without trailing separators of either kind and the `.` components after them.
pub open spec fn trim_trailing_any(path: Seq<char>) -> Seq<char>
    decreases path.len(),
{
    if path.len() > 0 && is_any_separator(path.last()) {
        trim_trailing_any(path.drop_last())
    } else if path.len() >= 2 && path.last() == '.' && is_any_separator(path[path.len() - 2]) {
        trim_trailing_any(path.drop_last())
    } else {
        path
    }
}

/// The characters after the last separator of either kind.
pub open spec fn last_segment_any(path: Seq<char>) -> Seq<char>
    decreases path.len(),
{
    if path.len() == 0 {
        path
    } else if is_any_separator(path.last()) {
        Seq::empty()
    } else {
        last_segment_any(path.drop_last()).push(path.last())
    }
}

/// The last component that could name a file when both `/` and `\\` separate
/// components, as on Windows.
pub open spec fn final_segment_any(path: Seq<char>) -> Seq<char> {
    last_segment_any(trim_trailing_any(path))
}

/// The final component of `path`, from `std::path::Path::file_name`.
///
/// Stated, for portable paths only (see `is_portable_path`): after trailing `/` and
/// `/.` are dropped, a last segment that is an ordinary name is the file name, and
/// any other last segment (empty, `.` or `..`) means there is none.
///
/// Also stated, for paths with `\\` but no prefix (see `has_no_prefix`): when the last
/// component is an ordinary name with `\\` read as a separator too (as Windows reads
/// it), there is a file name: on Unix the last `/`-separated segment, on Windows that
/// component. Not stated: which of the two names comes back (that depends on the platform), and
/// the result for paths with a prefix.
#[verifier::external_body]
fn path_file_name(path: &str) -> (name: Option<String>)
    ensures
        is_portable_path(path@) ==> (name is Some <==> is_normal_name(final_segment(path@))),
        is_portable_path(path@) && name is Some ==> name->0@ == final_segment(path@),
        has_no_prefix(path@) && is_normal_name(final_segment_any(path@)) ==> name is Some,
{
    match std::path::Path::new(path).file_name() {
        Some(n) => Some(n.to_string_lossy().into_owned()),
        None => None,
    }
}

/// Plans the copy for `req`; the source's file name is asked for only when a file is
/// copied into a directory. A portable source whose final segment is an ordinary name
/// goes into `req.dst` under that name; any other portable source gives `NoFileName`;
/// for other sources the plan is one of the two.
pub fn plan_cp(req: CpRequest, src_is_dir: bool, dst_is_dir: bool) -> (plan: Result<
    CpPlan,
    VptError,
>)
    ensures
        src_is_dir || !dst_is_dir ==> spec_cp_plan(req, src_is_dir, dst_is_dir, None, plan),
        !src_is_dir && dst_is_dir ==> (plan == Err::<CpPlan, VptError>(VptError::NoFileName)
            || exists|n: Seq<char>| spec_cp_plan(req, src_is_dir, dst_is_dir, Some(n), plan)),
        src_is_dir && !req.recursive ==> plan == Err::<CpPlan, VptError>(
            VptError::DirectoryNeedsRecursive,
        ),
        src_is_dir && req.recursive ==> (plan matches Ok(CpPlan::CopyDir { src, dst }) && src@
            == req.src@ && dst@ == req.dst@),
        !src_is_dir && !dst_is_dir ==> (plan matches Ok(
            CpPlan::CopyFile { src, target: CopyTarget::Path(to) },
        ) && src@ == req.src@ && to@ == req.dst@),
        !src_is_dir && dst_is_dir && is_portable_path(req.src@) && is_normal_name(
            final_segment(req.src@),
        ) ==> (plan matches Ok(CpPlan::CopyFile { src, target: CopyTarget::IntoDir { dir, name } })
            && src@ == req.src@ && dir@ == req.dst@ && name@ == final_segment(req.src@)),
        !src_is_dir && dst_is_dir && is_portable_path(req.src@) && !is_normal_name(
            final_segment(req.src@),
        ) ==> plan == Err::<CpPlan, VptError>(VptError::NoFileName),
        !src_is_dir && dst_is_dir && has_no_prefix(req.src@) && is_normal_name(
            final_segment_any(req.src@),
        ) ==> (plan matches Ok(CpPlan::CopyFile { src, target: CopyTarget::IntoDir { dir, name } })
            && src@ == req.src@ && dir@ == req.dst@),
{
    let src_name = if !src_is_dir && dst_is_dir {
        path_file_name(req.src.as_str())
    } else {
        None
    };
    let ghost viewed = name_view(src_name);
    let plan = plan_cp_with_name(req, src_is_dir, dst_is_dir, src_name);
    proof {
        if let Some(n) = viewed {
            assert(spec_cp_plan(req, src_is_dir, dst_is_dir, Some(n), plan));
        }
    }
    plan
}

/// What to do with one entry found while copying a directory tree.
#[derive(Clone, Copy, Debug, PartialEq, Eq, Structural)]
pub enum EntryAction {
    /// Copy the subdirectory, recursively.
    Descend,
    /// Copy the file.
    Copy,
    /// Leave it out (neither a directory nor a regular file, e.g. a symbolic link).
    Skip,
}

/// Decides what a recursive copy does with an entry of the given file type.
pub fn entry_action(is_dir: bool, is_file: bool) -> (action: EntryAction)
    ensures
        is_dir ==> action == EntryAction::Descend,
        !is_dir && is_file ==> action == EntryAction::Copy,
        !is_dir && !is_file ==> action == EntryAction::Skip,
{
    if is_dir {
        EntryAction::Descend
    } else if is_file {
        EntryAction::Copy
    } else {
        EntryAction::Skip
    }
}

} // verus!
