//! The server's description of itself.

use crate::identity::Identity;
use crate::identity::IdentityView;
use vstd::prelude::*;

verus! {

/// `serde_json::Value`, a JSON value of any shape. It is carried, never
/// read: nothing is known here of what it holds.
#[verifier::external_type_specification]
#[verifier::external_body]
pub struct ExValue(serde_json::Value);

/// `serde_json::Value::clone`, which `serde_json` derives for its JSON
/// value. Taken on trust: the copy is the same value as the one copied.
pub assume_specification[ <serde_json::Value as Clone>::clone ](
    value: &serde_json::Value,
) -> (copy: serde_json::Value)
    ensures
        copy == *value,
;

/// What a [`Manifest`] stands for in contracts.
pub struct ManifestView {
    pub identity: IdentityView,
    pub name: Seq<char>,
    pub substrate: Option<Seq<char>>,
    pub metadata: serde_json::Value,
}

/// Manifest describing a server's capabilities and requirements.
///
/// Created once at server start and sent to every newly authenticated
/// session.
#[derive(Debug)]
pub struct Manifest {
    /// Server's identity (for verification).
    pub identity: Identity,
    /// Human-readable server name.
    pub name: String,
    /// Substrate hash (if applicable).
    pub substrate: Option<String>,
    /// Additional metadata (app-defined).
    pub metadata: serde_json::Value,
}

impl View for Manifest {
    type V = ManifestView;

    open spec fn view(&self) -> ManifestView {
        ManifestView {
            identity: self.identity@,
            name: self.name@,
            substrate: match self.substrate {
                Some(s) => Some(s@),
                None => None,
            },
            metadata: self.metadata,
        }
    }
}

impl Clone for Manifest {
    fn clone(&self) -> (copy: Manifest)
        ensures
            copy@ == self@,
    {
        let substrate = match &self.substrate {
            Some(s) => Some(s.clone()),
            None => None,
        };
        Manifest {
            identity: self.identity.clone(),
            name: self.name.clone(),
            substrate,
            metadata: self.metadata.clone(),
        }
    }
}

} // verus!
