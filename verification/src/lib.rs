//! Web PKI X.509 certificate path building and identity matching.
//!
//! The library works on parsed certificate views ([`Cert`]): it searches
//! bounded-depth paths from an end entity through intermediates to a
//! trust anchor, holding every candidate to its validity window, its
//! basic constraints, and the name constraints of the authorities above
//! it; algorithm identifiers are matched byte-exactly, and every
//! cryptographic primitive is delegated to caller-supplied
//! [`SignatureVerificationAlgorithm`] values. It also matches a
//! certificate's subject-alternative-name entries against the DNS name
//! or IP address the caller intends to authenticate, and provides the
//! strict DER framing reader the views are cut with.
//!
//! What the chain builder does not do, a caller must do itself: it
//! consults no revocation lists, checks no key-usage and no
//! extended-key-usage extension, and does not parse whole certificates
//! from DER — each [`Cert`] view is filled in by the caller, so
//! critical extensions the caller does not understand must be rejected
//! when the view is built.

use vstd::prelude::*;

pub mod alg_id;
mod bytes;
mod cert;
pub mod der;
pub mod dns_name;
mod end_entity;
mod error;
pub mod ip_address;
pub mod signed_data;
pub mod subject_name;
mod trust_anchor;
pub mod verify_cert;

pub use crate::alg_id::AlgorithmIdentifier;
pub use crate::cert::Cert;
pub use crate::dns_name::{DnsName, InvalidDnsNameError};
pub use crate::end_entity::EndEntityCert;
pub use crate::error::{DerTypeId, Error};
pub use crate::trust_anchor::TrustAnchor;
pub use crate::verify_cert::{build_chain, Budget, MAX_SUB_CA_COUNT};
pub use crate::ip_address::{AddrParseError, IpAddr};
pub use crate::subject_name::{
    check_name_constraints, check_presented_id_conforms_to_constraints, list_cert_dns_names,
    verify_cert_dns_name, verify_cert_subject_name, GeneralDnsName, GeneralName,
    SubjectCommonNameContents, SubjectName,
};
pub use crate::signed_data::{InvalidSignature, SignatureVerificationAlgorithm, SignedData};

verus! {

} // verus!
