//! Trust anchors: the self-asserted root identities.

use vstd::prelude::*;

verus! {

/// A trust anchor: a subject distinguished name, the key that speaks for
/// it, and optional name constraints it imposes on everything below it.
/// The distinguished name is the `Name` contents; the key is the
/// `SubjectPublicKeyInfo` contents.
pub struct TrustAnchor {
    /// The subject `Name` contents.
    pub subject_dn: Vec<u8>,
    /// The `SubjectPublicKeyInfo` contents.
    pub spki: Vec<u8>,
    /// The name-constraints extension value this anchor imposes.
    pub name_constraints: Option<Vec<u8>>,
}

} // verus!
