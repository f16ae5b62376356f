//! What the replacements of the intercepted entry points decide.
//!
//! A replacement rewrites the paths among its arguments, calls the entry
//! point that it stands in for, and reports what came back. The functions
//! here are the decisions around that call: whether it is made at all, with
//! which paths, and what its raw return value means.
//!
//! Two rules hold for every entry point. A replacement that is not
//! implemented aborts; it never lets the call through as it came. A path that
//! is relative to a directory outside every mount makes the call fail with an
//! error of its own; it is never handed on unchanged.

use vstd::prelude::*;
use crate::config::MountPointView;
use crate::interpose::{Errno, LibcResult, PropagateErrno};
use crate::path_remapper::{host_paths, relative_remap_spec, remap_spec, PathRemapper};
use crate::path_remapper::{relative_remap_c_path, relative_remap_c_path_spec};
use crate::path_remapper::lemma_longest_prefix_none;

verus! {

/// The intercepted entry points of the C library.
#[derive(Clone, Copy, Debug, PartialEq, Eq, Hash, Structural)]
pub enum EntryPoint {
    Open,
    Openat,
    Creat,
    Stat,
    Lstat,
    Fstatat,
    Chmod,
    Lchmod,
    Fchmodat,
    Chown,
    Lchown,
    Fchownat,
    Utimes,
    Lutimes,
    Mkdir,
    Mkdirat,
    Rmdir,
    Opendir,
    Link,
    Linkat,
    Unlink,
    Unlinkat,
    Symlink,
    Symlinkat,
    Readlink,
    Readlinkat,
    Rename,
    Renameat,
    Remove,
    Listxattr,
    Getxattr,
    Setxattr,
    Removexattr,
    Access,
    Faccessat,
    Chdir,
    Realpath,
    Statfs,
    Truncate,
    Mknod,
    Unmount,
    Mkfifo,
    Mkfifoat,
    Utimensat,
    Getfh,
    OpenDprotectedNp,
    Searchfs,
    Fsctl,
    Execlp,
    Execv,
    Execve,
    Execvp,
    Execvpe,
    Popen,
    PosixSpawn,
    PosixSpawnp,
    System,
}

/// How a path argument is read.
#[derive(Clone, Copy, Debug, PartialEq, Eq, Structural)]
pub enum PathRule {
    /// As a virtual path of its own.
    Absolute,
    /// As a path below the open directory that the call names.
    Relative,
}

/// How an entry point reports a failure in its return value.
#[derive(Clone, Copy, Debug, PartialEq, Eq, Structural)]
pub enum Convention {
    /// A status: `-1` on failure.
    Status,
    /// A count of bytes: `-1` on failure.
    Count,
    /// A pointer: null on failure.
    Pointer,
}

impl EntryPoint {
    /// The entry point has a replacement that does its work. The entry points
    /// that start programs have none yet.
    pub open spec fn implemented(self) -> bool {
        !matches!(
            self,
            EntryPoint::Execlp | EntryPoint::Execv | EntryPoint::Execve | EntryPoint::Execvp
                | EntryPoint::Execvpe | EntryPoint::Popen | EntryPoint::PosixSpawn
                | EntryPoint::PosixSpawnp | EntryPoint::System
        )
    }

    /// How the first path argument is read.
    pub open spec fn first_rule(self) -> PathRule {
        if matches!(
            self,
            EntryPoint::Openat | EntryPoint::Fstatat | EntryPoint::Fchmodat | EntryPoint::Fchownat
                | EntryPoint::Mkdirat | EntryPoint::Unlinkat | EntryPoint::Readlinkat
                | EntryPoint::Faccessat | EntryPoint::Mkfifoat | EntryPoint::Utimensat
                | EntryPoint::Linkat | EntryPoint::Renameat
        ) {
            PathRule::Relative
        } else {
            PathRule::Absolute
        }
    }

    /// How the second path argument is read; none where the entry point takes
    /// one path only.
    pub open spec fn second_rule(self) -> Option<PathRule> {
        if matches!(self, EntryPoint::Link | EntryPoint::Symlink | EntryPoint::Rename) {
            Some(PathRule::Absolute)
        } else if matches!(self, EntryPoint::Linkat | EntryPoint::Renameat | EntryPoint::Symlinkat) {
            Some(PathRule::Relative)
        } else {
            None
        }
    }

    /// How the entry point reports a failure.
    pub open spec fn convention(self) -> Convention {
        if matches!(
            self,
            EntryPoint::Listxattr | EntryPoint::Readlink | EntryPoint::Readlinkat
                | EntryPoint::Getxattr
        ) {
            Convention::Count
        } else if matches!(self, EntryPoint::Opendir | EntryPoint::Realpath | EntryPoint::Popen) {
            Convention::Pointer
        } else {
            Convention::Status
        }
    }

    /// Whether the entry point has a replacement that does its work.
    pub fn is_implemented(&self) -> (yes: bool)
        ensures
            yes == self.implemented(),
    {
        !matches!(
            self,
            EntryPoint::Execlp | EntryPoint::Execv | EntryPoint::Execve | EntryPoint::Execvp
                | EntryPoint::Execvpe | EntryPoint::Popen | EntryPoint::PosixSpawn
                | EntryPoint::PosixSpawnp | EntryPoint::System
        )
    }

    /// How the first path argument is read.
    pub fn first_path_rule(&self) -> (rule: PathRule)
        ensures
            rule == self.first_rule(),
    {
        if matches!(
            self,
            EntryPoint::Openat | EntryPoint::Fstatat | EntryPoint::Fchmodat | EntryPoint::Fchownat
                | EntryPoint::Mkdirat | EntryPoint::Unlinkat | EntryPoint::Readlinkat
                | EntryPoint::Faccessat | EntryPoint::Mkfifoat | EntryPoint::Utimensat
                | EntryPoint::Linkat | EntryPoint::Renameat
        ) {
            PathRule::Relative
        } else {
            PathRule::Absolute
        }
    }

    /// How the second path argument is read.
    pub fn second_path_rule(&self) -> (rule: Option<PathRule>)
        ensures
            rule == self.second_rule(),
    {
        if matches!(self, EntryPoint::Link | EntryPoint::Symlink | EntryPoint::Rename) {
            Some(PathRule::Absolute)
        } else if matches!(self, EntryPoint::Linkat | EntryPoint::Renameat | EntryPoint::Symlinkat) {
            Some(PathRule::Relative)
        } else {
            None
        }
    }

    /// How the entry point reports a failure.
    pub fn failure_convention(&self) -> (convention: Convention)
        ensures
            convention == self.convention(),
    {
        if matches!(
            self,
            EntryPoint::Listxattr | EntryPoint::Readlink | EntryPoint::Readlinkat
                | EntryPoint::Getxattr
        ) {
            Convention::Count
        } else if matches!(self, EntryPoint::Opendir | EntryPoint::Realpath | EntryPoint::Popen) {
            Convention::Pointer
        } else {
            Convention::Status
        }
    }
}

/// One path argument of a call, as the traced program gave it.
#[derive(Clone, Copy, Debug)]
pub struct PathArgument<'a> {
    /// The path.
    pub path: &'a str,
    /// The host path of the open directory that the call names for this
    /// path: none where the call names none, or where the directory could not
    /// be resolved.
    pub directory: Option<&'a str>,
}

/// The model of [`PathArgument`].
pub struct PathArgumentView {
    pub path: Seq<char>,
    pub directory: Option<Seq<char>>,
}

impl<'a> View for PathArgument<'a> {
    type V = PathArgumentView;

    open spec fn view(&self) -> PathArgumentView {
        PathArgumentView {
            path: self.path@,
            directory: match self.directory {
                Some(d) => Some(d@),
                None => None,
            },
        }
    }
}

/// What a replacement does with a call.
#[derive(Debug, PartialEq, Eq)]
pub enum Plan {
    /// Abort the process: the entry point has no replacement that does its
    /// work, or the replacement was handed fewer paths than the entry point
    /// takes.
    Abort,
    /// Fail with this error number, without calling the entry point.
    Fail(Errno),
    /// Call the entry point with these paths in the place of the ones given.
    Call { first: String, second: Option<String> },
}

/// The model of [`Plan`].
pub enum PlanView {
    Abort,
    Fail(Errno),
    Call { first: Seq<char>, second: Option<Seq<char>> },
}

impl View for Plan {
    type V = PlanView;

    open spec fn view(&self) -> PlanView {
        match self {
            Plan::Abort => PlanView::Abort,
            Plan::Fail(e) => PlanView::Fail(*e),
            Plan::Call { first, second } => PlanView::Call {
                first: first@,
                second: match second {
                    Some(s) => Some(s@),
                    None => None,
                },
            },
        }
    }
}

/// The error number for "no such file or directory".
pub const ENOENT: i32 = 2;

/// The return value by which a call that returns a status or a count reports
/// a failure.
pub const FAILURE: i32 = -1;

/// The error that a directory-relative call fails with where its directory
/// lies outside every mount.
pub open spec fn outside_every_mount() -> Errno {
    Errno { raw: ENOENT }
}

/// The path to hand on for one argument read by `rule`, or the error that
/// the call fails with.
pub open spec fn resolve_spec(
    table: Seq<MountPointView>,
    rule: PathRule,
    argument: PathArgumentView,
) -> Result<Seq<char>, Errno> {
    match rule {
        PathRule::Absolute => Ok(remap_spec(table, argument.path)),
        PathRule::Relative => match relative_remap_c_path_spec(
            table,
            argument.directory,
            Some(argument.path),
        ) {
            Some(remapped) => Ok(remapped),
            None => Err(outside_every_mount()),
        },
    }
}

/// What the replacement of `entry` does with a call whose path arguments are
/// `first` and, where the entry point takes two, `second`. A second path
/// given to an entry point that takes one plays no part. An entry point that
/// takes two and is given one is a fault of the shim: the plan is to abort.
pub open spec fn plan_spec(
    table: Seq<MountPointView>,
    entry: EntryPoint,
    first: PathArgumentView,
    second: Option<PathArgumentView>,
) -> PlanView {
    if !entry.implemented() {
        PlanView::Abort
    } else {
        match resolve_spec(table, entry.first_rule(), first) {
            Err(e) => PlanView::Fail(e),
            Ok(one) => match entry.second_rule() {
                None => PlanView::Call { first: one, second: None },
                Some(rule) => match second {
                    None => PlanView::Abort,
                    Some(argument) => match resolve_spec(table, rule, argument) {
                        Err(e) => PlanView::Fail(e),
                        Ok(two) => PlanView::Call { first: one, second: Some(two) },
                    },
                },
            },
        }
    }
}

/// The path to hand on for `path`, which is relative to the open directory
/// whose host path is `at_path`. Where no mount governs the directory the call
/// is not to be made: it fails with "no such file or directory". It is never
/// made with the path as it came.
pub fn remap_at(remapper: &PathRemapper, at_path: &str, path: &str) -> (r: Result<String, Errno>)
    ensures
        match r {
            Ok(remapped) => relative_remap_spec(remapper@, at_path@, path@) == Some(remapped@),
            Err(e) => relative_remap_spec(remapper@, at_path@, path@) is None && e
                == outside_every_mount(),
        },
{
    match remapper.relative_remap(at_path, path) {
        Some(remapped) => Ok(remapped),
        None => Err(Errno::from_raw(ENOENT)),
    }
}

/// The path to hand on for one argument read by `rule`, or the error number
/// to fail with.
pub fn resolve(remapper: &PathRemapper, rule: PathRule, argument: PathArgument) -> (r: Result<
    String,
    Errno,
>)
    ensures
        match r {
            Ok(remapped) => resolve_spec(remapper@, rule, argument@) == Ok::<Seq<char>, Errno>(
                remapped@,
            ),
            Err(e) => resolve_spec(remapper@, rule, argument@) == Err::<Seq<char>, Errno>(e),
        },
{
    match rule {
        PathRule::Absolute => Ok(remapper.remap(argument.path)),
        PathRule::Relative => match relative_remap_c_path(
            remapper,
            argument.directory,
            Some(argument.path),
        ) {
            Some(remapped) => Ok(remapped),
            None => Err(Errno::from_raw(ENOENT)),
        },
    }
}

/// Decides what the replacement of `entry` does with a call. `second` is the
/// second path argument, for the entry points that take one.
pub fn prepare(
    remapper: &PathRemapper,
    entry: EntryPoint,
    first: PathArgument,
    second: Option<PathArgument>,
) -> (plan: Plan)
    ensures
        plan@ == plan_spec(
            remapper@,
            entry,
            first@,
            match second {
                Some(argument) => Some(argument@),
                None => None,
            },
        ),
{
    if !entry.is_implemented() {
        return Plan::Abort;
    }
    let one = match resolve(remapper, entry.first_path_rule(), first) {
        Ok(path) => path,
        Err(e) => {
            return Plan::Fail(e);
        },
    };
    match entry.second_path_rule() {
        None => Plan::Call { first: one, second: None },
        Some(rule) => match second {
            None => Plan::Abort,
            Some(argument) => match resolve(remapper, rule, argument) {
                Ok(two) => Plan::Call { first: one, second: Some(two) },
                Err(e) => Plan::Fail(e),
            },
        },
    }
}

/// An entry point without a working replacement is never called: the plan is
/// to abort, whatever the arguments.
pub proof fn lemma_unimplemented_aborts(
    table: Seq<MountPointView>,
    entry: EntryPoint,
    first: PathArgumentView,
    second: Option<PathArgumentView>,
)
    requires
        !entry.implemented(),
    ensures
        plan_spec(table, entry, first, second) == PlanView::Abort,
{
}

/// A call is made with exactly the paths that its entry point takes, each of
/// them remapped by the rule of the entry point: a plan to call an entry
/// point never leaves a path as it came.
pub proof fn lemma_call_remaps_every_path(
    table: Seq<MountPointView>,
    entry: EntryPoint,
    first: PathArgumentView,
    second: Option<PathArgumentView>,
)
    requires
        plan_spec(table, entry, first, second) is Call,
    ensures
        entry.implemented(),
        resolve_spec(table, entry.first_rule(), first) == Ok::<Seq<char>, Errno>(
            plan_spec(table, entry, first, second)->first,
        ),
        match entry.second_rule() {
            Some(rule) => second is Some && plan_spec(table, entry, first, second)->second
                is Some && resolve_spec(table, rule, second->0) == Ok::<Seq<char>, Errno>(
                plan_spec(table, entry, first, second)->second->0,
            ),
            None => plan_spec(table, entry, first, second)->second is None,
        },
{
}

/// A call with a path below a directory that lies under no mount's host
/// path, or below a directory that could not be resolved, is never made: the
/// plan is to abort or to fail, and never to call.
pub proof fn lemma_outside_directory_is_never_called(
    table: Seq<MountPointView>,
    entry: EntryPoint,
    first: PathArgumentView,
    second: Option<PathArgumentView>,
)
    requires
        entry.first_rule() == PathRule::Relative,
        first.directory matches Some(d) ==> forall|i: int|
            0 <= i < table.len() ==> !table[i].host_path().is_prefix_of(d),
    ensures
        !(plan_spec(table, entry, first, second) is Call),
        entry.implemented() ==> plan_spec(table, entry, first, second) == PlanView::Fail(
            outside_every_mount(),
        ),
{
    if let Some(d) = first.directory {
        lemma_longest_prefix_none(host_paths(table), d);
    }
}

/// The result of a call that returns a status: `-1` is a failure, whose error
/// number is the one that the call left behind; any other value is returned
/// as it is, the error slot left alone.
pub fn status_result(ret: i32) -> (r: LibcResult<i32>)
    ensures
        r.val == ret,
        r.err == if ret == FAILURE {
            Some(PropagateErrno::Last)
        } else {
            None::<PropagateErrno>
        },
{
    if ret == FAILURE {
        LibcResult::last_error_and_return(ret)
    } else {
        LibcResult::return_value(ret)
    }
}

/// The result of a call that returns a count of bytes: `-1` is a failure,
/// whose error number is the one that the call left behind.
pub fn count_result(ret: i64) -> (r: LibcResult<i64>)
    ensures
        r.val == ret,
        r.err == if ret == FAILURE {
            Some(PropagateErrno::Last)
        } else {
            None::<PropagateErrno>
        },
{
    if ret == -1 {
        LibcResult::last_error_and_return(ret)
    } else {
        LibcResult::return_value(ret)
    }
}

/// The result of a call that returns a pointer, given as its address: the
/// null pointer is a failure, whose error number is the one that the call
/// left behind.
pub fn pointer_result(address: usize) -> (r: LibcResult<usize>)
    ensures
        r.val == address,
        r.err == if address == 0 {
            Some(PropagateErrno::Last)
        } else {
            None::<PropagateErrno>
        },
{
    if address == 0 {
        LibcResult::last_error_and_return(address)
    } else {
        LibcResult::return_value(address)
    }
}

/// The result of a call that returns a status and is not made: the failure
/// value, with `err` as its error number.
pub fn status_failure(err: Errno) -> (r: LibcResult<i32>)
    ensures
        r.val == FAILURE,
        r.err == Some(PropagateErrno::Override(err)),
{
    LibcResult::override_error_and_return(err, FAILURE)
}

/// The result of a call that returns a count of bytes and is not made.
pub fn count_failure(err: Errno) -> (r: LibcResult<i64>)
    ensures
        r.val == FAILURE,
        r.err == Some(PropagateErrno::Override(err)),
{
    LibcResult::override_error_and_return(err, -1)
}

/// The result of a call that returns a pointer and is not made: the null
/// pointer, with `err` as its error number.
pub fn pointer_failure(err: Errno) -> (r: LibcResult<usize>)
    ensures
        r.val == 0,
        r.err == Some(PropagateErrno::Override(err)),
{
    LibcResult::override_error_and_return(err, 0)
}

} // verus!
