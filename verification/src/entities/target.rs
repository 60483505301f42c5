//! References to resources.

use vstd::prelude::*;

verus! {

/// A reference to one managed entity: its kind, and its id.
#[derive(Debug, Clone, PartialEq, Eq, Hash)]
pub enum ResourceTarget {
    /// The system as a whole.
    System(String),
    /// A server.
    Server(String),
    /// A stack.
    Stack(String),
    /// A deployment.
    Deployment(String),
    /// A build.
    Build(String),
    /// A repo.
    Repo(String),
    /// A procedure.
    Procedure(String),
    /// An action.
    Action(String),
    /// A builder.
    Builder(String),
    /// An alerter.
    Alerter(String),
    /// A resource sync.
    ResourceSync(String),
}

impl ResourceTarget {
    /// The id of the entity referred to.
    pub open spec fn spec_id(&self) -> Seq<char> {
        match self {
            ResourceTarget::System(id) => id@,
            ResourceTarget::Server(id) => id@,
            ResourceTarget::Stack(id) => id@,
            ResourceTarget::Deployment(id) => id@,
            ResourceTarget::Build(id) => id@,
            ResourceTarget::Repo(id) => id@,
            ResourceTarget::Procedure(id) => id@,
            ResourceTarget::Action(id) => id@,
            ResourceTarget::Builder(id) => id@,
            ResourceTarget::Alerter(id) => id@,
            ResourceTarget::ResourceSync(id) => id@,
        }
    }

    /// The id of the entity referred to.
    pub fn id(&self) -> (id: &str)
        ensures
            id@ == self.spec_id(),
    {
        match self {
            ResourceTarget::System(id) => id.as_str(),
            ResourceTarget::Server(id) => id.as_str(),
            ResourceTarget::Stack(id) => id.as_str(),
            ResourceTarget::Deployment(id) => id.as_str(),
            ResourceTarget::Build(id) => id.as_str(),
            ResourceTarget::Repo(id) => id.as_str(),
            ResourceTarget::Procedure(id) => id.as_str(),
            ResourceTarget::Action(id) => id.as_str(),
            ResourceTarget::Builder(id) => id.as_str(),
            ResourceTarget::Alerter(id) => id.as_str(),
            ResourceTarget::ResourceSync(id) => id.as_str(),
        }
    }
}

} // verus!
