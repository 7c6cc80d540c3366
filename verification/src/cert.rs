//! The parsed certificate view.

use vstd::prelude::*;

use crate::signed_data::SignedData;

verus! {

/// A parsed certificate: owned copies of the byte windows the validator
/// reads, filled in by the caller. Distinguished names are stored as the
/// contents of the `Name` SEQUENCE; `spki` is the contents of the
/// `SubjectPublicKeyInfo` SEQUENCE; every optional extension slice is
/// the raw `extnValue` OCTET STRING contents of that extension.
///
/// The chain builder consults `signed_data`, `issuer`, `subject`,
/// `spki`, the validity seconds, `basic_constraints`,
/// `subject_alt_name` and `name_constraints`. The remaining fields —
/// `serial`, `key_usage`, `eku`, `crl_distribution_points` — are
/// carried for callers that enforce key usage or revocation themselves;
/// nothing in this crate reads them.
pub struct Cert {
    /// The `signedData` triple over the whole certificate.
    pub signed_data: SignedData,
    /// The serial number's INTEGER contents.
    pub serial: Vec<u8>,
    /// The issuer `Name` contents.
    pub issuer: Vec<u8>,
    /// Seconds since the UNIX epoch at which validity begins.
    pub not_before: i64,
    /// Seconds since the UNIX epoch at which validity ends.
    pub not_after: i64,
    /// The subject `Name` contents.
    pub subject: Vec<u8>,
    /// The `SubjectPublicKeyInfo` contents.
    pub spki: Vec<u8>,
    /// The basic-constraints extension value.
    pub basic_constraints: Option<Vec<u8>>,
    /// The key-usage extension value.
    pub key_usage: Option<Vec<u8>>,
    /// The subject-alternative-name extension value.
    pub subject_alt_name: Option<Vec<u8>>,
    /// The extended-key-usage extension value.
    pub eku: Option<Vec<u8>>,
    /// The name-constraints extension value.
    pub name_constraints: Option<Vec<u8>>,
    /// The CRL distribution points extension value.
    pub crl_distribution_points: Option<Vec<u8>>,
}

} // verus!
