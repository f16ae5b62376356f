//! The mount table of a sandbox.

use vstd::prelude::*;
use crate::text::{join_path, join_spec};

verus! {

/// The environment variable that names the directory of a sandbox.
pub const SANDBOX_PATH_VARIABLE: &'static str = "MACARONI_SANDBOX_PATH";

/// The name of the file, below the directory of a sandbox, that holds its
/// mount table.
pub const CONFIG_FILE_NAME: &'static str = "config.json";

/// The path of the file that holds the mount table of the sandbox whose
/// directory is `sandbox_path`.
pub fn config_path(sandbox_path: &str) -> (path: String)
    ensures
        path@ == join_spec(sandbox_path@, CONFIG_FILE_NAME@),
{
    join_path(sandbox_path, CONFIG_FILE_NAME)
}

/// What a mount does with the paths below its destination. The set of
/// strategies is open: new strategies become new variants.
#[derive(Clone, Debug)]
#[non_exhaustive]
pub enum MountOptions {
    /// Paths below the destination are found below `host_path` on the host.
    Remap { host_path: String },
}

/// One entry of the mount table: a virtual prefix and its strategy.
#[derive(Clone, Debug)]
pub struct MountPoint {
    pub destination_path: String,
    pub options: MountOptions,
}

/// The mount table, in the order in which the mounts were declared.
#[derive(Clone, Debug)]
pub struct Config {
    pub mounts: Vec<MountPoint>,
}

/// The model of [`MountOptions`].
pub enum MountOptionsView {
    Remap { host_path: Seq<char> },
}

/// The model of [`MountPoint`].
pub struct MountPointView {
    pub destination_path: Seq<char>,
    pub options: MountOptionsView,
}

impl MountPointView {
    /// The host prefix that paths below this mount are remapped to.
    pub open spec fn host_path(self) -> Seq<char> {
        match self.options {
            MountOptionsView::Remap { host_path } => host_path,
        }
    }
}

impl View for MountOptions {
    type V = MountOptionsView;

    open spec fn view(&self) -> MountOptionsView {
        match self {
            MountOptions::Remap { host_path } => MountOptionsView::Remap { host_path: host_path@ },
        }
    }
}

impl View for MountPoint {
    type V = MountPointView;

    open spec fn view(&self) -> MountPointView {
        MountPointView { destination_path: self.destination_path@, options: self.options@ }
    }
}

impl View for Config {
    type V = Seq<MountPointView>;

    open spec fn view(&self) -> Seq<MountPointView> {
        self.mounts@.map_values(|m: MountPoint| m@)
    }
}

impl MountPoint {
    /// A mount that remaps `destination_path` to `host_path`.
    pub fn remap(destination_path: String, host_path: String) -> (m: MountPoint)
        ensures
            m@ == (MountPointView {
                destination_path: destination_path@,
                options: MountOptionsView::Remap { host_path: host_path@ },
            }),
    {
        MountPoint { destination_path, options: MountOptions::Remap { host_path } }
    }

    /// The virtual prefix of this mount.
    pub fn destination(&self) -> (d: &str)
        ensures
            d@ == self@.destination_path,
    {
        self.destination_path.as_str()
    }

    /// The host prefix of this mount.
    pub fn host_path(&self) -> (h: &str)
        ensures
            h@ == self@.host_path(),
    {
        match &self.options {
            MountOptions::Remap { host_path } => host_path.as_str(),
        }
    }
}

impl Config {
    /// A table of the given mounts, in their order.
    pub fn new(mounts: Vec<MountPoint>) -> (c: Config)
        ensures
            c.mounts == mounts,
    {
        Config { mounts }
    }

    /// The number of mounts.
    pub fn len(&self) -> (n: usize)
        ensures
            n == self@.len(),
    {
        self.mounts.len()
    }

    /// The mount declared at position `i`; none where the table has no such
    /// position.
    pub fn get(&self, i: usize) -> (m: Option<&MountPoint>)
        ensures
            match m {
                Some(mount) => i < self@.len() && mount@ == self@[i as int],
                None => i >= self@.len(),
            },
    {
        if i < self.mounts.len() {
            Some(&self.mounts[i])
        } else {
            None
        }
    }
}

} // verus!
