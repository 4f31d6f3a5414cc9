//! Worker roles and the handles that stand for running worker processes.

use crate::text::str_equal;
use vstd::prelude::*;
use vstd::string::*;

verus! {

/// The closed set of roles a supervised worker can have.
#[derive(Clone, Copy, Debug, PartialEq, Eq, Structural)]
pub enum WorkerRole {
    /// The worker that talks to the messaging service and handles the login.
    Provider,
    /// The worker that hosts the plugins and writes the log stream.
    Wrapper,
}

/// The name under which the provider worker is registered.
pub const PROVIDER_CHILD_NAME: &'static str = "provider";

/// The name under which the wrapper worker is registered.
pub const WRAPPER_CHILD_NAME: &'static str = "wrapper";

impl WorkerRole {
    /// The name under which a worker of this role is registered.
    pub open spec fn name_spec(self) -> Seq<char> {
        match self {
            WorkerRole::Provider => "provider"@,
            WorkerRole::Wrapper => "wrapper"@,
        }
    }

    /// The name under which a worker of this role is registered.
    pub fn name(self) -> (name: &'static str)
        ensures
            name@ == self.name_spec(),
    {
        match self {
            WorkerRole::Provider => PROVIDER_CHILD_NAME,
            WorkerRole::Wrapper => WRAPPER_CHILD_NAME,
        }
    }

    /// The role registered under `name`, if `name` is the name of a role.
    pub fn from_name(name: &str) -> (role: Option<WorkerRole>)
        ensures
            match role {
                Some(r) => r.name_spec() == name@,
                None => forall|r: WorkerRole| r.name_spec() != name@,
            },
    {
        if str_equal(name, PROVIDER_CHILD_NAME) {
            Some(WorkerRole::Provider)
        } else if str_equal(name, WRAPPER_CHILD_NAME) {
            Some(WorkerRole::Wrapper)
        } else {
            None
        }
    }
}

/// Different roles are registered under different names.
pub proof fn lemma_role_names_distinct(a: WorkerRole, b: WorkerRole)
    ensures
        a.name_spec() == b.name_spec() <==> a == b,
{
    reveal_strlit("provider");
    reveal_strlit("wrapper");
    assert("provider"@.len() != "wrapper"@.len());
}

/// An owned handle to one launched worker process.
///
/// The handle carries the identity that the launcher gave to the process.
/// It cannot be copied: whoever holds the value is the one owner of the
/// process behind it.
#[derive(Debug, PartialEq, Eq, Structural)]
pub struct WorkerHandle {
    id: u64,
}

impl View for WorkerHandle {
    type V = u64;

    closed spec fn view(&self) -> u64 {
        self.id
    }
}

impl WorkerHandle {
    /// A handle to the process that the launcher identifies by `id`.
    pub fn new(id: u64) -> (handle: WorkerHandle)
        ensures
            handle@ == id,
    {
        WorkerHandle { id }
    }

    /// The identity of the process behind this handle.
    pub fn id(&self) -> (id: u64)
        ensures
            id == self@,
    {
        self.id
    }
}

} // verus!
