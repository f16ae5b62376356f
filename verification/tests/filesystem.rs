use macaroni::config::{Config, MountPoint};
use macaroni::filesystem::{
    prepare, resolve, Convention, EntryPoint, PathArgument, PathRule, Plan, ENOENT,
};
use macaroni::interpose::Errno;
use macaroni::path_remapper::PathRemapper;

const ALL: [EntryPoint; 57] = [
    EntryPoint::Open,
    EntryPoint::Openat,
    EntryPoint::Creat,
    EntryPoint::Stat,
    EntryPoint::Lstat,
    EntryPoint::Fstatat,
    EntryPoint::Chmod,
    EntryPoint::Lchmod,
    EntryPoint::Fchmodat,
    EntryPoint::Chown,
    EntryPoint::Lchown,
    EntryPoint::Fchownat,
    EntryPoint::Utimes,
    EntryPoint::Lutimes,
    EntryPoint::Mkdir,
    EntryPoint::Mkdirat,
    EntryPoint::Rmdir,
    EntryPoint::Opendir,
    EntryPoint::Link,
    EntryPoint::Linkat,
    EntryPoint::Unlink,
    EntryPoint::Unlinkat,
    EntryPoint::Symlink,
    EntryPoint::Symlinkat,
    EntryPoint::Readlink,
    EntryPoint::Readlinkat,
    EntryPoint::Rename,
    EntryPoint::Renameat,
    EntryPoint::Remove,
    EntryPoint::Listxattr,
    EntryPoint::Getxattr,
    EntryPoint::Setxattr,
    EntryPoint::Removexattr,
    EntryPoint::Access,
    EntryPoint::Faccessat,
    EntryPoint::Chdir,
    EntryPoint::Realpath,
    EntryPoint::Statfs,
    EntryPoint::Truncate,
    EntryPoint::Mknod,
    EntryPoint::Unmount,
    EntryPoint::Mkfifo,
    EntryPoint::Mkfifoat,
    EntryPoint::Utimensat,
    EntryPoint::Getfh,
    EntryPoint::OpenDprotectedNp,
    EntryPoint::Searchfs,
    EntryPoint::Fsctl,
    EntryPoint::Execlp,
    EntryPoint::Execv,
    EntryPoint::Execve,
    EntryPoint::Execvp,
    EntryPoint::Execvpe,
    EntryPoint::Popen,
    EntryPoint::PosixSpawn,
    EntryPoint::PosixSpawnp,
    EntryPoint::System,
];

fn remapper() -> PathRemapper {
    PathRemapper::new(Config::new(vec![
        MountPoint::remap("/foo".to_string(), "/host/foo".to_string()),
        MountPoint::remap("/bar".to_string(), "/host/bar".to_string()),
    ]))
}

fn plain(path: &str) -> PathArgument<'_> {
    PathArgument { path, directory: None }
}

fn below<'a>(directory: &'a str, path: &'a str) -> PathArgument<'a> {
    PathArgument { path, directory: Some(directory) }
}

fn second_for(entry: EntryPoint) -> Option<PathArgument<'static>> {
    match entry.second_path_rule() {
        Some(PathRule::Absolute) => Some(plain("/bar/two")),
        Some(PathRule::Relative) => Some(below("/host/bar", "two")),
        None => None,
    }
}

#[test]
fn the_program_starters_are_not_implemented() {
    let missing: Vec<EntryPoint> = ALL.iter().copied().filter(|e| !e.is_implemented()).collect();
    assert_eq!(
        missing,
        vec![
            EntryPoint::Execlp,
            EntryPoint::Execv,
            EntryPoint::Execve,
            EntryPoint::Execvp,
            EntryPoint::Execvpe,
            EntryPoint::Popen,
            EntryPoint::PosixSpawn,
            EntryPoint::PosixSpawnp,
            EntryPoint::System,
        ]
    );
}

#[test]
fn unimplemented_entry_points_abort() {
    let r = remapper();
    for entry in ALL {
        if !entry.is_implemented() {
            assert_eq!(prepare(&r, entry, plain("/foo/a"), second_for(entry)), Plan::Abort);
            assert_eq!(prepare(&r, entry, plain("/anywhere"), second_for(entry)), Plan::Abort);
        }
    }
}

#[test]
fn directory_relative_entry_points() {
    let relative: Vec<EntryPoint> = ALL
        .iter()
        .copied()
        .filter(|e| e.first_path_rule() == PathRule::Relative)
        .collect();
    assert_eq!(
        relative,
        vec![
            EntryPoint::Openat,
            EntryPoint::Fstatat,
            EntryPoint::Fchmodat,
            EntryPoint::Fchownat,
            EntryPoint::Mkdirat,
            EntryPoint::Linkat,
            EntryPoint::Unlinkat,
            EntryPoint::Readlinkat,
            EntryPoint::Renameat,
            EntryPoint::Faccessat,
            EntryPoint::Mkfifoat,
            EntryPoint::Utimensat,
        ]
    );
}

#[test]
fn entry_points_with_two_paths() {
    let two: Vec<(EntryPoint, PathRule, PathRule)> = ALL
        .iter()
        .copied()
        .filter_map(|e| e.second_path_rule().map(|s| (e, e.first_path_rule(), s)))
        .collect();
    assert_eq!(
        two,
        vec![
            (EntryPoint::Link, PathRule::Absolute, PathRule::Absolute),
            (EntryPoint::Linkat, PathRule::Relative, PathRule::Relative),
            (EntryPoint::Symlink, PathRule::Absolute, PathRule::Absolute),
            (EntryPoint::Symlinkat, PathRule::Absolute, PathRule::Relative),
            (EntryPoint::Rename, PathRule::Absolute, PathRule::Absolute),
            (EntryPoint::Renameat, PathRule::Relative, PathRule::Relative),
        ]
    );
}

#[test]
fn failure_conventions() {
    for entry in ALL {
        let expected = match entry {
            EntryPoint::Listxattr
            | EntryPoint::Readlink
            | EntryPoint::Readlinkat
            | EntryPoint::Getxattr => Convention::Count,
            EntryPoint::Opendir | EntryPoint::Realpath | EntryPoint::Popen => Convention::Pointer,
            _ => Convention::Status,
        };
        assert_eq!(entry.failure_convention(), expected, "{:?}", entry);
    }
}

#[test]
fn absolute_paths_are_remapped() {
    let r = remapper();
    assert_eq!(
        prepare(&r, EntryPoint::Open, plain("/foo/a.txt"), None),
        Plan::Call { first: "/host/foo/a.txt".to_string(), second: None }
    );
    assert_eq!(
        prepare(&r, EntryPoint::Getxattr, plain("/elsewhere"), None),
        Plan::Call { first: "/elsewhere".to_string(), second: None }
    );
    // A directory given to an entry point that reads its path absolutely
    // plays no part.
    assert_eq!(
        prepare(&r, EntryPoint::Stat, below("/nowhere", "/bar/b"), None),
        Plan::Call { first: "/host/bar/b".to_string(), second: None }
    );
}

#[test]
fn relative_paths_are_remapped_below_their_directory() {
    let r = remapper();
    assert_eq!(
        prepare(&r, EntryPoint::Openat, below("/host/foo", "a.txt"), None),
        Plan::Call { first: "/host/foo/a.txt".to_string(), second: None }
    );
    assert_eq!(
        prepare(&r, EntryPoint::Mkdirat, below("/host/bar/deep", "d"), None),
        Plan::Call { first: "/host/bar/d".to_string(), second: None }
    );
}

#[test]
fn relative_paths_outside_every_mount_fail_with_no_entry() {
    let r = remapper();
    for entry in ALL {
        if entry.is_implemented() && entry.first_path_rule() == PathRule::Relative {
            assert_eq!(
                prepare(&r, entry, below("/tmp", "a.txt"), second_for(entry)),
                Plan::Fail(Errno::from_raw(ENOENT)),
                "{:?}",
                entry
            );
            assert_eq!(
                prepare(&r, entry, plain("a.txt"), second_for(entry)),
                Plan::Fail(Errno { raw: 2 }),
                "{:?}",
                entry
            );
        }
    }
}

#[test]
fn both_paths_are_remapped() {
    let r = remapper();
    assert_eq!(
        prepare(&r, EntryPoint::Rename, plain("/foo/a"), Some(plain("/bar/b"))),
        Plan::Call { first: "/host/foo/a".to_string(), second: Some("/host/bar/b".to_string()) }
    );
    assert_eq!(
        prepare(
            &r,
            EntryPoint::Renameat,
            below("/host/foo", "a"),
            Some(below("/host/bar", "b"))
        ),
        Plan::Call { first: "/host/foo/a".to_string(), second: Some("/host/bar/b".to_string()) }
    );
    assert_eq!(
        prepare(&r, EntryPoint::Symlinkat, plain("/foo/target"), Some(below("/host/bar", "l"))),
        Plan::Call {
            first: "/host/foo/target".to_string(),
            second: Some("/host/bar/l".to_string())
        }
    );
}

#[test]
fn a_second_path_outside_every_mount_fails_the_call() {
    let r = remapper();
    assert_eq!(
        prepare(&r, EntryPoint::Renameat, below("/host/foo", "a"), Some(below("/tmp", "b"))),
        Plan::Fail(Errno::from_raw(ENOENT))
    );
    assert_eq!(
        prepare(&r, EntryPoint::Symlinkat, plain("/foo/target"), Some(plain("l"))),
        Plan::Fail(Errno::from_raw(ENOENT))
    );
    assert_eq!(
        prepare(&r, EntryPoint::Linkat, below("/tmp", "a"), Some(below("/host/bar", "b"))),
        Plan::Fail(Errno::from_raw(ENOENT))
    );
}

#[test]
fn resolve_by_rule() {
    let r = remapper();
    assert_eq!(
        resolve(&r, PathRule::Absolute, plain("/foo/x")),
        Ok("/host/foo/x".to_string())
    );
    assert_eq!(
        resolve(&r, PathRule::Relative, below("/host/foo", "x")),
        Ok("/host/foo/x".to_string())
    );
    assert_eq!(resolve(&r, PathRule::Relative, plain("x")), Err(Errno::from_raw(2)));
    assert_eq!(resolve(&r, PathRule::Relative, below("/out", "x")), Err(Errno::from_raw(2)));
}

#[test]
fn a_missing_second_path_aborts() {
    let r = remapper();
    for entry in ALL {
        if entry.is_implemented() && entry.second_path_rule().is_some() {
            let first = match entry.first_path_rule() {
                PathRule::Absolute => plain("/foo/a"),
                PathRule::Relative => below("/host/foo", "a"),
            };
            assert_eq!(prepare(&r, entry, first, None), Plan::Abort, "{:?}", entry);
        }
    }
}

#[test]
fn a_second_path_that_is_not_taken_plays_no_part() {
    let r = remapper();
    assert_eq!(
        prepare(&r, EntryPoint::Unlink, plain("/foo/a"), Some(below("/tmp", "b"))),
        Plan::Call { first: "/host/foo/a".to_string(), second: None }
    );
}

#[test]
fn every_implemented_entry_point_calls_with_remapped_paths() {
    let r = remapper();
    for entry in ALL {
        if !entry.is_implemented() {
            continue;
        }
        let first = match entry.first_path_rule() {
            PathRule::Absolute => plain("/foo/one"),
            PathRule::Relative => below("/host/foo", "one"),
        };
        let expected_second = second_for(entry).map(|_| "/host/bar/two".to_string());
        assert_eq!(
            prepare(&r, entry, first, second_for(entry)),
            Plan::Call { first: "/host/foo/one".to_string(), second: expected_second },
            "{:?}",
            entry
        );
    }
}
