//! The sandboxes that the control plane knows, by identifier.
//!
//! A sandbox is created with a mount table and lives until it is destroyed;
//! there is no state in between. Commands run only in a sandbox that exists.

use vstd::prelude::*;
use vstd::hash_map::StringHashMap;
use crate::config::{Config, MountPointView};

verus! {

/// A sandbox: its identifier and the mount table that confines it.
#[derive(Debug)]
pub struct Sandbox {
    pub id: String,
    pub mounts: Config,
}

/// Why an operation on a sandbox was refused.
#[derive(Clone, Copy, Debug, PartialEq, Eq, Structural)]
pub enum LifecycleError {
    /// No sandbox has the identifier.
    NotFound,
}

impl LifecycleError {
    /// The error in words, as clients of the control plane read it.
    pub fn message(&self) -> (text: &'static str)
        ensures
            text@ == "Sandbox not found"@,
    {
        match self {
            LifecycleError::NotFound => "Sandbox not found",
        }
    }
}

/// A command to execute in a sandbox: the sandbox, whose mount table the
/// process is to see, and the command line.
#[derive(Debug)]
pub struct Execution<'a> {
    pub sandbox: &'a Sandbox,
    pub args: Vec<String>,
}

/// What a command left behind.
#[derive(Debug)]
pub struct CommandOutput {
    pub exit_code: i32,
    pub stdout: String,
    pub stderr: String,
}

impl CommandOutput {
    /// The output of a command that ended with `exit_code` and wrote `stdout`
    /// and `stderr`.
    pub fn new(exit_code: i32, stdout: String, stderr: String) -> (output: CommandOutput)
        ensures
            output.exit_code == exit_code,
            output.stdout == stdout,
            output.stderr == stderr,
    {
        CommandOutput { exit_code, stdout, stderr }
    }
}

/// `c` is a digit or one of the letters a to f.
pub open spec fn is_lower_hex(c: char) -> bool {
    ('0' <= c <= '9') || ('a' <= c <= 'f')
}

/// `text` has the form of a random identifier: thirty-two lower-case
/// hexadecimal digits in groups of 8, 4, 4, 4 and 12, with a hyphen between
/// the groups; the third group begins with 4 and the fourth with 8, 9, a or b.
pub open spec fn is_random_id(text: Seq<char>) -> bool {
    &&& text.len() == 36
    &&& forall|i: int|
        0 <= i < 36 ==> if i == 8 || i == 13 || i == 18 || i == 23 {
            text[i] == '-'
        } else {
            is_lower_hex(#[trigger] text[i])
        }
    &&& text[14] == '4'
    &&& (text[19] == '8' || text[19] == '9' || text[19] == 'a' || text[19] == 'b')
}

/// Draws a new random identifier: `uuid::Uuid::new_v4`, written out as
/// `to_string` does. Which identifier comes is up to the random source of the
/// operating system, so the contract states the form only: that of
/// [`is_random_id`]. It does not say that two calls differ.
#[verifier::external_body]
fn random_id() -> (id: String)
    ensures
        is_random_id(id@),
{
    uuid::Uuid::new_v4().to_string()
}

/// The registry of the sandboxes that exist.
pub struct SandboxService {
    sandboxes: StringHashMap<Sandbox>,
}

impl View for SandboxService {
    type V = Map<Seq<char>, Seq<MountPointView>>;

    closed spec fn view(&self) -> Map<Seq<char>, Seq<MountPointView>> {
        self.sandboxes@.map_values(|s: Sandbox| s.mounts@)
    }
}

/// The registry after `destroy` of `id`, and what the call returns.
pub open spec fn destroy_spec(
    registry: Map<Seq<char>, Seq<MountPointView>>,
    id: Seq<char>,
) -> (Map<Seq<char>, Seq<MountPointView>>, Result<(), LifecycleError>) {
    if registry.contains_key(id) {
        (registry.remove(id), Ok(()))
    } else {
        (registry, Err(LifecycleError::NotFound))
    }
}

impl SandboxService {
    /// The registry holds finitely many sandboxes, each filed under its own
    /// identifier.
    pub closed spec fn well_formed(&self) -> bool {
        &&& self.sandboxes@.dom().finite()
        &&& forall|k: Seq<char>| #[trigger]
            self.sandboxes@.contains_key(k) ==> self.sandboxes@[k].id@ == k
    }

    /// A well-formed registry has finitely many identifiers, so that its
    /// sandboxes can be counted.
    pub proof fn lemma_finite(&self)
        requires
            self.well_formed(),
        ensures
            self@.dom().finite(),
    {
        assert(self@.dom() =~= self.sandboxes@.dom());
    }

    /// A registry without sandboxes.
    pub fn new() -> (service: Self)
        ensures
            service.well_formed(),
            service@ == Map::<Seq<char>, Seq<MountPointView>>::empty(),
            service@.dom().finite(),
    {
        SandboxService { sandboxes: StringHashMap::new() }
    }

    /// The number of sandboxes.
    pub fn len(&self) -> (n: usize)
        ensures
            n == self@.len(),
    {
        broadcast use vstd::hash_map::group_hash_map_axioms;

        proof {
            assert(self@.dom() =~= self.sandboxes@.dom());
        }
        self.sandboxes.len()
    }

    /// Whether a sandbox has the identifier `id`.
    pub fn contains(&self, id: &str) -> (found: bool)
        ensures
            found == self@.contains_key(id@),
    {
        self.sandboxes.contains_key(id)
    }

    /// Files a new sandbox with the mount table `mounts` under the identifier
    /// `id`. A sandbox already filed under `id` is replaced.
    pub fn register(&mut self, id: String, mounts: Config)
        requires
            old(self).well_formed(),
        ensures
            final(self).well_formed(),
            final(self)@.dom().finite(),
            final(self)@ == old(self)@.insert(id@, mounts@),
    {
        let sandbox = Sandbox { id: id.clone(), mounts };
        self.sandboxes.insert(id, sandbox);
        proof {
            self.lemma_finite();
        }
    }

    /// Creates a sandbox with the mount table `mounts` under a new random
    /// identifier, and returns the identifier.
    pub fn create(&mut self, mounts: Config) -> (id: String)
        requires
            old(self).well_formed(),
        ensures
            final(self).well_formed(),
            final(self)@.dom().finite(),
            is_random_id(id@),
            final(self)@ == old(self)@.insert(id@, mounts@),
    {
        let id = random_id();
        self.register(id.clone(), mounts);
        id
    }

    /// Destroys the sandbox `id`. Fails with `NotFound`, and changes nothing,
    /// where no sandbox has that identifier.
    pub fn destroy(&mut self, id: &str) -> (r: Result<(), LifecycleError>)
        requires
            old(self).well_formed(),
        ensures
            final(self).well_formed(),
            final(self)@.dom().finite(),
            (final(self)@, r) == destroy_spec(old(self)@, id@),
    {
        let found = self.sandboxes.contains_key(id);
        if found {
            self.sandboxes.remove(id);
        }
        proof {
            self.lemma_finite();
        }
        if found {
            Ok(())
        } else {
            Err(LifecycleError::NotFound)
        }
    }

    /// Looks up the sandbox in which the command `args` is to run. Fails with
    /// `NotFound` where no sandbox has the identifier `id`; otherwise hands
    /// out the sandbox together with the command, untouched.
    pub fn run_command<'a>(&'a self, id: &str, args: Vec<String>) -> (r: Result<
        Execution<'a>,
        LifecycleError,
    >)
        requires
            self.well_formed(),
        ensures
            match r {
                Ok(execution) => {
                    &&& self@.contains_key(id@)
                    &&& execution.sandbox.id@ == id@
                    &&& execution.sandbox.mounts@ == self@[id@]
                    &&& execution.args == args
                },
                Err(e) => e == LifecycleError::NotFound && !self@.contains_key(id@),
            },
    {
        match self.sandboxes.get(id) {
            Some(sandbox) => Ok(Execution { sandbox, args }),
            None => Err(LifecycleError::NotFound),
        }
    }
}

/// A sandbox that was destroyed cannot be destroyed again: of two calls of
/// `destroy` with one identifier that exists, the first succeeds and the
/// second fails with `NotFound`, leaving the registry as the first left it.
pub proof fn lemma_destroy_twice(registry: Map<Seq<char>, Seq<MountPointView>>, id: Seq<char>)
    requires
        registry.contains_key(id),
    ensures
        destroy_spec(registry, id).1 == Ok::<(), LifecycleError>(()),
        destroy_spec(destroy_spec(registry, id).0, id) == (
            destroy_spec(registry, id).0,
            Err::<(), LifecycleError>(LifecycleError::NotFound),
        ),
{
}

/// Creating a sandbox under an identifier that is not in use loses none of
/// the sandboxes that exist, and adds exactly one.
pub proof fn lemma_register_fresh(
    registry: Map<Seq<char>, Seq<MountPointView>>,
    id: Seq<char>,
    mounts: Seq<MountPointView>,
)
    requires
        registry.dom().finite(),
        !registry.contains_key(id),
    ensures
        forall|k: Seq<char>| #[trigger]
            registry.contains_key(k) ==> registry.insert(id, mounts).contains_key(k)
                && registry.insert(id, mounts)[k] == registry[k],
        registry.insert(id, mounts)[id] == mounts,
        registry.insert(id, mounts).len() == registry.len() + 1,
{
}

/// The registry after sandboxes with the mount tables `tables` were filed
/// under the identifiers `ids`, one after the other.
pub open spec fn register_all(
    registry: Map<Seq<char>, Seq<MountPointView>>,
    ids: Seq<Seq<char>>,
    tables: Seq<Seq<MountPointView>>,
) -> Map<Seq<char>, Seq<MountPointView>>
    decreases ids.len(),
{
    if ids.len() == 0 {
        registry
    } else {
        register_all(registry, ids.drop_last(), tables.drop_last()).insert(
            ids.last(),
            tables.last(),
        )
    }
}

/// Creating sandboxes under identifiers that differ from one another and
/// from those in use yields as many new sandboxes as there were creations,
/// each with its own mount table, and loses none of the sandboxes that
/// existed before.
pub proof fn lemma_register_all_distinct(
    registry: Map<Seq<char>, Seq<MountPointView>>,
    ids: Seq<Seq<char>>,
    tables: Seq<Seq<MountPointView>>,
)
    requires
        registry.dom().finite(),
        ids.len() == tables.len(),
        forall|i: int, j: int| 0 <= i < j < ids.len() ==> ids[i] != ids[j],
        forall|i: int| 0 <= i < ids.len() ==> !registry.contains_key(ids[i]),
    ensures
        register_all(registry, ids, tables).dom().finite(),
        register_all(registry, ids, tables).len() == registry.len() + ids.len(),
        forall|i: int|
            #![trigger ids[i]]
            0 <= i < ids.len() ==> register_all(registry, ids, tables).contains_key(ids[i])
                && register_all(registry, ids, tables)[ids[i]] == tables[i],
        forall|k: Seq<char>| #[trigger]
            registry.contains_key(k) ==> register_all(registry, ids, tables).contains_key(k)
                && register_all(registry, ids, tables)[k] == registry[k],
        forall|k: Seq<char>| #[trigger]
            register_all(registry, ids, tables).contains_key(k) ==> registry.contains_key(k)
                || ids.contains(k),
    decreases ids.len(),
{
    if ids.len() > 0 {
        let before = register_all(registry, ids.drop_last(), tables.drop_last());
        lemma_register_all_distinct(registry, ids.drop_last(), tables.drop_last());
        let after = before.insert(ids.last(), tables.last());
        assert forall|i: int| #![trigger ids[i]] 0 <= i < ids.len() implies after.contains_key(
            ids[i],
        ) && after[ids[i]] == tables[i] by {
            if i < ids.len() - 1 {
                assert(ids.drop_last()[i] == ids[i]);
                assert(tables.drop_last()[i] == tables[i]);
                assert(ids[i] != ids[ids.len() - 1]);
                assert(before.contains_key(ids.drop_last()[i]));
                assert(before[ids.drop_last()[i]] == tables.drop_last()[i]);
            }
        }
    }
}

} // verus!
