use vstd::prelude::*;

use crate::credential::Credential;

verus! {

/// An ordered mapping of names to string values.  It carries proof
/// material the core does not interpret: the presence and shape of a
/// proof are checked elsewhere, never a signature scheme.
#[derive(Clone, Debug)]
pub struct Properties {
    pub entries: Vec<(String, String)>,
}

impl Properties {
    /// An empty mapping, for credentials whose signing happens out of
    /// band.
    pub fn new() -> (r: Properties)
        ensures
            r.entries@.len() == 0,
    {
        Properties { entries: Vec::new() }
    }

    /// Appends one name-to-value entry, keeping insertion order.
    pub fn entry(self, name: String, value: String) -> (r: Properties)
        ensures
            r.entries@ == self.entries@.push((name, value)),
    {
        let mut p = self;
        p.entries.push((name, value));
        p
    }
}

/// A credential together with opaque proof material.  Wrapping always
/// succeeds, the proof may be empty, and the wrapped credential is never
/// mutated afterwards.
#[derive(Clone, Debug)]
pub struct VerifiableCredential {
    pub credential: Credential,
    pub proof_material: Properties,
}

impl VerifiableCredential {
    pub fn new(credential: Credential, proof_material: Properties) -> (r: VerifiableCredential)
        ensures
            r.credential == credential,
            r.proof_material == proof_material,
    {
        VerifiableCredential { credential, proof_material }
    }

    /// Read-only view of the wrapped credential.
    pub fn credential(&self) -> (r: &Credential)
        ensures
            r == self.credential,
    {
        &self.credential
    }

    /// Read-only view of the attached proof material.
    pub fn proof_material(&self) -> (r: &Properties)
        ensures
            r == self.proof_material,
    {
        &self.proof_material
    }
}

} // verus!
