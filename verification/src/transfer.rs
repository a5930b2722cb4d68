//! Transfer types for server-to-server handoff.

use crate::identity::Identity;
use crate::identity::IdentityView;
use vstd::prelude::*;

verus! {

/// What a [`Passport`] stands for in contracts.
pub struct PassportView {
    pub identity: IdentityView,
    pub data: Seq<u8>,
    pub signature: Option<Seq<u8>>,
}

/// What a [`Transfer`] stands for in contracts.
pub struct TransferView {
    pub destination: Seq<char>,
    pub passport: PassportView,
}

/// The view of optional bytes.
pub open spec fn bytes_view(bytes: Option<Vec<u8>>) -> Option<Seq<u8>> {
    match bytes {
        Some(b) => Some(b@),
        None => None,
    }
}

/// A copy of optional bytes.
fn clone_bytes(bytes: &Option<Vec<u8>>) -> (copy: Option<Vec<u8>>)
    ensures
        bytes_view(copy) == bytes_view(*bytes),
{
    match bytes {
        Some(b) => Some(b.clone()),
        None => None,
    }
}

/// A passport carried during transfer.
///
/// Contains the user's identity and app-defined data that travels with them.
/// The data is moved as bytes and never read here.
#[derive(Debug)]
pub struct Passport {
    /// The user's identity.
    pub identity: Identity,
    /// App-defined payload (inventory, stats, etc.).
    pub data: Vec<u8>,
    /// Optional signature (scheme-dependent).
    pub signature: Option<Vec<u8>>,
}

impl View for Passport {
    type V = PassportView;

    open spec fn view(&self) -> PassportView {
        PassportView {
            identity: self.identity@,
            data: self.data@,
            signature: bytes_view(self.signature),
        }
    }
}

impl Clone for Passport {
    fn clone(&self) -> (copy: Passport)
        ensures
            copy@ == self@,
    {
        Passport {
            identity: self.identity.clone(),
            data: self.data.clone(),
            signature: clone_bytes(&self.signature),
        }
    }
}

impl Passport {
    /// Create a new unsigned passport.
    pub fn new(identity: Identity, data: Vec<u8>) -> (passport: Passport)
        ensures
            passport@ == (PassportView { identity: identity@, data: data@, signature: None }),
            passport.identity == identity,
            passport.data == data,
    {
        Passport { identity, data, signature: None }
    }

    /// Create a passport with a signature.
    pub fn signed(identity: Identity, data: Vec<u8>, signature: Vec<u8>) -> (passport: Passport)
        ensures
            passport@ == (PassportView {
                identity: identity@,
                data: data@,
                signature: Some(signature@),
            }),
            passport.identity == identity,
            passport.data == data,
            passport.signature == Some(signature),
    {
        Passport { identity, data, signature: Some(signature) }
    }
}

/// A transfer directive, telling the client to connect to another server.
#[derive(Debug)]
pub struct Transfer {
    /// Where to connect (app-defined format, typically a URL).
    pub destination: String,
    /// The passport to present to the destination.
    pub passport: Passport,
}

impl View for Transfer {
    type V = TransferView;

    open spec fn view(&self) -> TransferView {
        TransferView { destination: self.destination@, passport: self.passport@ }
    }
}

impl Clone for Transfer {
    fn clone(&self) -> (copy: Transfer)
        ensures
            copy@ == self@,
    {
        Transfer { destination: self.destination.clone(), passport: self.passport.clone() }
    }
}

} // verus!
