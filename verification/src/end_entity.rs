//! The end-entity certificate a validation call is about.

use vstd::prelude::*;

use crate::cert::Cert;

verus! {

/// An end-entity certificate, ready for chain building and identity
/// matching.
pub struct EndEntityCert {
    /// The parsed certificate.
    pub inner: Cert,
}

impl EndEntityCert {
    /// Wraps a parsed certificate.
    pub fn from_cert(cert: Cert) -> (r: EndEntityCert)
        ensures
            r.inner == cert,
    {
        EndEntityCert { inner: cert }
    }

    /// The parsed certificate.
    pub fn inner(&self) -> (r: &Cert)
        ensures
            r == &self.inner,
    {
        &self.inner
    }
}

} // verus!
