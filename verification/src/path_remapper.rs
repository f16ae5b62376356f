//! Remapping of paths through a mount table.
//!
//! A path is remapped by the mount whose destination is its longest prefix:
//! that prefix is replaced with the mount's host path and the rest of the path
//! is kept. Two rules settle what the longest prefix leaves open:
//!
//! * Among several mounts whose matching prefixes are equally long, the one
//!   declared first wins.
//! * The empty string is a prefix of every path, so a mount with an empty
//!   destination matches every path and is selected where no mount with a
//!   longer destination matches.
//!
//! The same two rules hold in the other direction, from a host path to the
//! mount that governs it.

use vstd::prelude::*;
use crate::config::{Config, MountOptionsView, MountPoint, MountPointView};
use crate::text::{after_prefix, catenate, ends_with_slash, starts_with, tail_from};
use crate::text::lemma_prefix_len_order;
use vstd::utf8::encode_utf8;

verus! {

/// The destination prefixes of a table, in order.
pub open spec fn destinations(table: Seq<MountPointView>) -> Seq<Seq<char>> {
    table.map_values(|m: MountPointView| m.destination_path)
}

/// The host prefixes of a table, in order.
pub open spec fn host_paths(table: Seq<MountPointView>) -> Seq<Seq<char>> {
    table.map_values(|m: MountPointView| m.host_path())
}

/// `keys[i]` is a prefix of `path`.
pub open spec fn is_candidate(keys: Seq<Seq<char>>, path: Seq<char>, i: int) -> bool {
    0 <= i < keys.len() && keys[i].is_prefix_of(path)
}

/// `keys[i]` is the longest prefix of `path` among `keys`, and the first of
/// that length.
pub open spec fn is_longest_prefix(keys: Seq<Seq<char>>, path: Seq<char>, i: int) -> bool {
    &&& is_candidate(keys, path, i)
    &&& forall|j: int| is_candidate(keys, path, j) ==> keys[j].len() <= keys[i].len()
    &&& forall|j: int| j < i && is_candidate(keys, path, j) ==> keys[j].len() < keys[i].len()
}

/// The position of the longest prefix of `path` among `keys`, if any of them
/// is a prefix of it.
pub open spec fn longest_prefix(keys: Seq<Seq<char>>, path: Seq<char>) -> Option<int> {
    if exists|i: int| is_longest_prefix(keys, path, i) {
        Some(choose|i: int| is_longest_prefix(keys, path, i))
    } else {
        None
    }
}

/// `path` with the destination of mount `i` replaced by its host path.
pub open spec fn substitute(table: Seq<MountPointView>, path: Seq<char>, i: int) -> Seq<char> {
    table[i].host_path() + tail_from(path, table[i].destination_path.len())
}

/// The remapped form of `path`: unchanged where no destination is a prefix of
/// it, otherwise rewritten by the selected mount.
pub open spec fn remap_spec(table: Seq<MountPointView>, path: Seq<char>) -> Seq<char> {
    match longest_prefix(destinations(table), path) {
        Some(i) => substitute(table, path, i),
        None => path,
    }
}

/// The host path of the mount that governs `host_path`.
pub open spec fn inverse_map_spec(table: Seq<MountPointView>, host_path: Seq<char>) -> Option<
    Seq<char>,
> {
    match longest_prefix(host_paths(table), host_path) {
        Some(i) => Some(table[i].host_path()),
        None => None,
    }
}

/// `prefix`, followed by a slash unless it ends with one.
pub open spec fn with_separator(prefix: Seq<char>) -> Seq<char> {
    if prefix.len() > 0 && prefix.last() == '/' {
        prefix
    } else {
        prefix.push('/')
    }
}

/// The absolute virtual path of `relative` below the mount at position `i`.
pub open spec fn virtual_path(table: Seq<MountPointView>, i: int, relative: Seq<char>) -> Seq<
    char,
> {
    with_separator(table[i].destination_path) + relative
}

/// The remapped form of `relative` taken below the directory `at`, a host path:
/// none where no mount governs `at`.
pub open spec fn relative_remap_spec(
    table: Seq<MountPointView>,
    at: Seq<char>,
    relative: Seq<char>,
) -> Option<Seq<char>> {
    match longest_prefix(host_paths(table), at) {
        Some(i) => Some(remap_spec(table, virtual_path(table, i, relative))),
        None => None,
    }
}

/// At most one position is the longest prefix.
pub proof fn lemma_longest_prefix_unique(keys: Seq<Seq<char>>, path: Seq<char>, i: int, j: int)
    requires
        is_longest_prefix(keys, path, i),
        is_longest_prefix(keys, path, j),
    ensures
        i == j,
{
}

/// The position that meets `is_longest_prefix` is the one `longest_prefix`
/// names.
pub proof fn lemma_longest_prefix_is(keys: Seq<Seq<char>>, path: Seq<char>, i: int)
    requires
        is_longest_prefix(keys, path, i),
    ensures
        longest_prefix(keys, path) == Some(i),
{
    let c = choose|k: int| is_longest_prefix(keys, path, k);
    lemma_longest_prefix_unique(keys, path, i, c);
}

/// Where no key is a prefix of `path`, there is no longest prefix.
pub proof fn lemma_longest_prefix_none(keys: Seq<Seq<char>>, path: Seq<char>)
    requires
        forall|i: int| !is_candidate(keys, path, i),
    ensures
        longest_prefix(keys, path) is None,
{
}

/// Among the first `n` keys, where one of them is a prefix of `path`, one is
/// the longest prefix and the first of its length.
proof fn lemma_best_among(keys: Seq<Seq<char>>, path: Seq<char>, n: int) -> (g: int)
    requires
        0 <= n <= keys.len(),
        exists|i: int| 0 <= i < n && is_candidate(keys, path, i),
    ensures
        0 <= g < n,
        is_candidate(keys, path, g),
        forall|j: int| 0 <= j < n && is_candidate(keys, path, j) ==> keys[j].len() <= keys[g].len(),
        forall|j: int| 0 <= j < g && is_candidate(keys, path, j) ==> keys[j].len() < keys[g].len(),
    decreases n,
{
    let last = n - 1;
    if exists|i: int| 0 <= i < last && is_candidate(keys, path, i) {
        let g0 = lemma_best_among(keys, path, last);
        if is_candidate(keys, path, last) && keys[last].len() > keys[g0].len() {
            last
        } else {
            g0
        }
    } else {
        last
    }
}

/// Where some key is a prefix of `path`, there is a longest prefix.
pub proof fn lemma_longest_prefix_exists(keys: Seq<Seq<char>>, path: Seq<char>, i: int)
    requires
        is_candidate(keys, path, i),
    ensures
        longest_prefix(keys, path) matches Some(g) && is_longest_prefix(keys, path, g),
{
    let g = lemma_best_among(keys, path, keys.len() as int);
    assert(is_longest_prefix(keys, path, g));
    lemma_longest_prefix_is(keys, path, g);
}

/// A path that no destination is a prefix of is remapped to itself.
pub proof fn lemma_remap_identity(table: Seq<MountPointView>, path: Seq<char>)
    requires
        forall|i: int| 0 <= i < table.len() ==> !table[i].destination_path.is_prefix_of(path),
    ensures
        remap_spec(table, path) == path,
{
    lemma_longest_prefix_none(destinations(table), path);
}

/// A path that some destination is a prefix of is remapped to a path below
/// the host path of a mount, which the inverse direction then finds governed:
/// a rewritten path never falls outside every mount.
pub proof fn lemma_remapped_path_is_governed(table: Seq<MountPointView>, path: Seq<char>, i: int)
    requires
        0 <= i < table.len(),
        table[i].destination_path.is_prefix_of(path),
    ensures
        exists|g: int|
            is_longest_prefix(destinations(table), path, g) && table[g].host_path().is_prefix_of(
                remap_spec(table, path),
            ),
        inverse_map_spec(table, remap_spec(table, path)) is Some,
{
    lemma_longest_prefix_exists(destinations(table), path, i);
    let g = longest_prefix(destinations(table), path)->0;
    let remapped = remap_spec(table, path);
    assert(remapped.subrange(0, table[g].host_path().len() as int) =~= table[g].host_path());
    assert(is_candidate(host_paths(table), remapped, g));
    lemma_longest_prefix_exists(host_paths(table), remapped, g);
}

/// Mount `k` is the first of the table with the destination `d`.
pub open spec fn is_first_with_destination(
    table: Seq<MountPointView>,
    d: Seq<char>,
    k: int,
) -> bool {
    &&& 0 <= k < table.len()
    &&& table[k].destination_path == d
    &&& forall|j: int| 0 <= j < k ==> table[j].destination_path != d
}

/// A path below the destination of mount `i` is remapped to the same path
/// below that mount's host path, where no longer destination is a prefix of
/// the path too, and where the first mount declared with the same destination
/// leads to the same host path (the first declared wins).
pub proof fn lemma_remap_replaces_prefix(table: Seq<MountPointView>, i: int, suffix: Seq<char>)
    requires
        0 <= i < table.len(),
        forall|j: int|
            0 <= j < table.len() && table[j].destination_path.is_prefix_of(
                table[i].destination_path + suffix,
            ) ==> table[j].destination_path.len() <= table[i].destination_path.len(),
        exists|k: int|
            is_first_with_destination(table, table[i].destination_path, k) && table[k].host_path()
                == table[i].host_path(),
    ensures
        remap_spec(table, table[i].destination_path + suffix) == table[i].host_path() + suffix,
{
    let d = table[i].destination_path;
    let path = d + suffix;
    let ks = destinations(table);
    let k = choose|k: int|
        is_first_with_destination(table, d, k) && table[k].host_path() == table[i].host_path();
    // The first mount with the destination `d` is selected: `d` is a prefix
    // of the path, no longer destination is, and an earlier destination of
    // the same length would be `d` itself.
    assert(is_candidate(ks, path, k));
    assert(is_longest_prefix(ks, path, k));
    lemma_longest_prefix_is(ks, path, k);
    assert(tail_from(path, d.len()) =~= suffix);
}

/// Remapping is not idempotent. Where the host path of a mount lies below the
/// mount's own destination (`destination + below`, with `below` not empty),
/// every path below the destination is remapped to a path that a second
/// remapping changes once more.
pub proof fn lemma_remap_not_idempotent(
    destination: Seq<char>,
    below: Seq<char>,
    suffix: Seq<char>,
)
    requires
        below.len() > 0,
    ensures
        ({
            let table = seq![
                MountPointView {
                    destination_path: destination,
                    options: MountOptionsView::Remap { host_path: destination + below },
                },
            ];
            let once = remap_spec(table, destination + suffix);
            &&& once == destination + below + suffix
            &&& remap_spec(table, once) == destination + below + below + suffix
            &&& remap_spec(table, once) != once
        }),
{
    let table = seq![
        MountPointView {
            destination_path: destination,
            options: MountOptionsView::Remap { host_path: destination + below },
        },
    ];
    assert(is_first_with_destination(table, destination, 0));
    lemma_remap_replaces_prefix(table, 0, suffix);
    let once = destination + below + suffix;
    assert(once =~= destination + (below + suffix));
    lemma_remap_replaces_prefix(table, 0, below + suffix);
    // The second remapping is longer than the first by the length of `below`.
    let twice = destination + below + below + suffix;
    assert(twice =~= (destination + below) + (below + suffix));
    assert(twice.len() == once.len() + below.len());
}

/// Below a directory that lies under no mount's host path, nothing is
/// remapped: the result is none, whatever the relative path.
pub proof fn lemma_relative_remap_outside(
    table: Seq<MountPointView>,
    at: Seq<char>,
    relative: Seq<char>,
)
    requires
        forall|i: int| 0 <= i < table.len() ==> !table[i].host_path().is_prefix_of(at),
    ensures
        relative_remap_spec(table, at, relative) is None,
        inverse_map_spec(table, at) is None,
{
    lemma_longest_prefix_none(host_paths(table), at);
}

/// Below a directory that lies under some mount's host path, the relative
/// path is remapped as the absolute path that it has below the destination of
/// the governing mount, a separator put between the two where the destination
/// does not end with one.
pub proof fn lemma_relative_remap_inside(
    table: Seq<MountPointView>,
    at: Seq<char>,
    relative: Seq<char>,
    i: int,
)
    requires
        0 <= i < table.len(),
        table[i].host_path().is_prefix_of(at),
    ensures
        exists|g: int|
            is_longest_prefix(host_paths(table), at, g) && relative_remap_spec(table, at, relative)
                == Some(
                remap_spec(table, with_separator(table[g].destination_path) + relative),
            ) && inverse_map_spec(table, at) == Some(table[g].host_path()),
{
    lemma_longest_prefix_exists(host_paths(table), at, i);
}

/// Which side of a mount is searched.
#[derive(Clone, Copy, Debug, PartialEq, Eq, Structural)]
pub enum Direction {
    /// From a virtual path to the mount whose destination covers it.
    Forward,
    /// From a host path to the mount whose host path covers it.
    Inverse,
}

/// The prefix by which a search in `direction` knows a mount.
pub open spec fn key(mount: MountPointView, direction: Direction) -> Seq<char> {
    match direction {
        Direction::Forward => mount.destination_path,
        Direction::Inverse => mount.host_path(),
    }
}

/// The prefixes that a search in `direction` goes through.
pub open spec fn keys(table: Seq<MountPointView>, direction: Direction) -> Seq<Seq<char>> {
    match direction {
        Direction::Forward => destinations(table),
        Direction::Inverse => host_paths(table),
    }
}

/// Remaps paths through the mount table it was made with.
pub struct PathRemapper {
    remap_config: Config,
}

impl View for PathRemapper {
    type V = Seq<MountPointView>;

    closed spec fn view(&self) -> Seq<MountPointView> {
        self.remap_config@
    }
}

fn key_of(mount: &MountPoint, direction: Direction) -> (k: &str)
    ensures
        k@ == key(mount@, direction),
{
    match direction {
        Direction::Forward => mount.destination(),
        Direction::Inverse => mount.host_path(),
    }
}

impl PathRemapper {
    /// A remapper over the table `cfg`.
    pub fn new(cfg: Config) -> (r: Self)
        ensures
            r@ == cfg@,
    {
        PathRemapper { remap_config: cfg }
    }

    /// The table this remapper was made with.
    pub fn config(&self) -> (c: &Config)
        ensures
            c@ == self@,
    {
        &self.remap_config
    }

    /// The position of the mount selected for `path` in `direction`.
    pub fn find(&self, path: &str, direction: Direction) -> (found: Option<usize>)
        ensures
            match found {
                Some(i) => longest_prefix(keys(self@, direction), path@) == Some(i as int),
                None => longest_prefix(keys(self@, direction), path@) is None,
            },
    {
        let ghost ks = keys(self@, direction);
        let n = self.remap_config.len();
        let mut best: Option<usize> = None;
        let mut best_len: usize = 0;
        let mut i: usize = 0;
        while i < n
            invariant
                i <= n,
                n == self@.len(),
                self@ == self.remap_config@,
                ks == keys(self@, direction),
                ks.len() == n,
                match best {
                    Some(b) => {
                        &&& b < i
                        &&& is_candidate(ks, path@, b as int)
                        &&& best_len == encode_utf8(ks[b as int]).len()
                        &&& forall|j: int|
                            0 <= j < i && is_candidate(ks, path@, j) ==> ks[j].len()
                                <= ks[b as int].len()
                        &&& forall|j: int|
                            0 <= j < b && is_candidate(ks, path@, j) ==> ks[j].len()
                                < ks[b as int].len()
                    },
                    None => forall|j: int| 0 <= j < i ==> !is_candidate(ks, path@, j),
                },
            decreases n - i,
        {
            let key = key_of(&self.remap_config.mounts[i], direction);
            if starts_with(path, key) {
                let len = key.as_bytes().len();
                let better = match best {
                    Some(b) => {
                        proof {
                            lemma_prefix_len_order(ks[b as int], ks[i as int], path@);
                        }
                        len > best_len
                    },
                    None => true,
                };
                if better {
                    best = Some(i);
                    best_len = len;
                }
            }
            i += 1;
        }
        proof {
            match best {
                Some(b) => {
                    lemma_longest_prefix_is(ks, path@, b as int);
                },
                None => {
                    lemma_longest_prefix_none(ks, path@);
                },
            }
        }
        best
    }

    /// Remaps `original_path`: the destination of the selected mount is
    /// replaced with its host path; a path that no destination is a prefix of
    /// comes back unchanged.
    pub fn remap(&self, original_path: &str) -> (remapped: String)
        ensures
            remapped@ == remap_spec(self@, original_path@),
    {
        match self.find(original_path, Direction::Forward) {
            Some(i) => {
                let mount = &self.remap_config.mounts[i];
                let suffix = after_prefix(original_path, mount.destination());
                catenate(mount.host_path(), suffix)
            },
            None => original_path.to_owned(),
        }
    }

    /// The host path of the mount that governs `remapped_path`, a path on the
    /// host; none where it lies below no mount's host path.
    pub fn inverse_map(&self, remapped_path: &str) -> (host: Option<String>)
        ensures
            host.is_some() == inverse_map_spec(self@, remapped_path@).is_some(),
            host matches Some(h) ==> Some(h@) == inverse_map_spec(self@, remapped_path@),
    {
        match self.find(remapped_path, Direction::Inverse) {
            Some(i) => Some(self.remap_config.mounts[i].host_path().to_owned()),
            None => None,
        }
    }

    /// Remaps `original_path`, which is relative to the open directory whose
    /// host path is `at_path`: the path is taken below the destination of the
    /// mount that governs the directory and then remapped as `remap` does.
    /// None where no mount governs the directory.
    pub fn relative_remap(&self, at_path: &str, original_path: &str) -> (remapped: Option<String>)
        ensures
            remapped.is_some() == relative_remap_spec(self@, at_path@, original_path@).is_some(),
            remapped matches Some(r) ==> Some(r@) == relative_remap_spec(
                self@,
                at_path@,
                original_path@,
            ),
    {
        match self.find(at_path, Direction::Inverse) {
            Some(i) => {
                let destination = self.remap_config.mounts[i].destination();
                let base = if ends_with_slash(destination) {
                    destination.to_owned()
                } else {
                    catenate(destination, "/")
                };
                proof {
                    reveal_strlit("/");
                    assert(base@ =~= with_separator(destination@));
                }
                let reconstructed = catenate(base.as_str(), original_path);
                Some(self.remap(reconstructed.as_str()))
            },
            None => None,
        }
    }
}

/// Remaps a path that may be absent, as a path handed over by pointer may
/// be: an absent path stays absent, a present one is remapped.
pub fn remap_c_path(remapper: &PathRemapper, path: Option<&str>) -> (remapped: Option<String>)
    ensures
        match path {
            Some(p) => remapped matches Some(r) && r@ == remap_spec(remapper@, p@),
            None => remapped is None,
        },
{
    match path {
        Some(p) => Some(remapper.remap(p)),
        None => None,
    }
}

/// The remapped form of a path that may be absent, below a directory whose
/// host path may be unknown: none where either is missing, and none where no
/// mount governs the directory.
pub open spec fn relative_remap_c_path_spec(
    table: Seq<MountPointView>,
    at: Option<Seq<char>>,
    path: Option<Seq<char>>,
) -> Option<Seq<char>> {
    match (at, path) {
        (Some(directory), Some(relative)) => relative_remap_spec(table, directory, relative),
        _ => None,
    }
}

/// Remaps a path that may be absent and is relative to the directory whose
/// host path is `at`. The host path is absent where the directory is not
/// known; such a directory is governed by no mount. The result is none where
/// the path is absent, where the directory is not known, and where no mount
/// governs the directory.
pub fn relative_remap_c_path(
    remapper: &PathRemapper,
    at: Option<&str>,
    path: Option<&str>,
) -> (remapped: Option<String>)
    ensures
        remapped.is_some() == relative_remap_c_path_spec(
            remapper@,
            match at {
                Some(a) => Some(a@),
                None => None,
            },
            match path {
                Some(p) => Some(p@),
                None => None,
            },
        ).is_some(),
        remapped matches Some(r) ==> Some(r@) == relative_remap_c_path_spec(
            remapper@,
            match at {
                Some(a) => Some(a@),
                None => None,
            },
            match path {
                Some(p) => Some(p@),
                None => None,
            },
        ),
        at is None ==> remapped is None,
        path is None ==> remapped is None,
{
    match (at, path) {
        (Some(directory), Some(relative)) => remapper.relative_remap(directory, relative),
        _ => None,
    }
}

} // verus!
