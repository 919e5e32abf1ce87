//! Actor identifiers: the one place that decides whether a request names
//! an actor, and how.

use vstd::prelude::*;

verus! {

/// How a request names a person or a community.
#[derive(Clone, Debug, PartialEq, Eq)]
pub enum ActorIdentifier {
    /// By its id in the local store; no lookup beyond the store is needed.
    ById(i32),
    /// By its handle, which may end in the domain of another instance and
    /// has to be resolved before use.
    ByName(String),
}

/// The identifier a request gives when it may carry an id, a name or both,
/// and the name wins.
pub open spec fn identifier_preferring_name(id: Option<i32>, name: Option<String>) -> Option<
    ActorIdentifier,
> {
    match (name, id) {
        (Some(name), _) => Some(ActorIdentifier::ByName(name)),
        (None, Some(id)) => Some(ActorIdentifier::ById(id)),
        (None, None) => None,
    }
}

/// The identifier a request gives when it may carry an id, a name or both,
/// and the id wins.
pub open spec fn identifier_preferring_id(id: Option<i32>, name: Option<String>) -> Option<
    ActorIdentifier,
> {
    match (id, name) {
        (Some(id), _) => Some(ActorIdentifier::ById(id)),
        (None, Some(name)) => Some(ActorIdentifier::ByName(name)),
        (None, None) => None,
    }
}

impl ActorIdentifier {
    /// Reads an identifier off an optional id and an optional name, taking
    /// the name where both are given. `None` means that neither is.
    pub fn preferring_name(id: Option<i32>, name: &Option<String>) -> (identifier: Option<
        ActorIdentifier,
    >)
        ensures
            identifier == identifier_preferring_name(id, *name),
    {
        match name {
            Some(name) => Some(ActorIdentifier::ByName(name.clone())),
            None => match id {
                Some(id) => Some(ActorIdentifier::ById(id)),
                None => None,
            },
        }
    }

    /// Reads an identifier off an optional id and an optional name, taking
    /// the id where both are given. `None` means that neither is.
    pub fn preferring_id(id: Option<i32>, name: &Option<String>) -> (identifier: Option<
        ActorIdentifier,
    >)
        ensures
            identifier == identifier_preferring_id(id, *name),
    {
        match id {
            Some(id) => Some(ActorIdentifier::ById(id)),
            None => match name {
                Some(name) => Some(ActorIdentifier::ByName(name.clone())),
                None => None,
            },
        }
    }
}

} // verus!
