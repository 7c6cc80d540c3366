//! The single flat error taxonomy of the validation engine.

use vstd::prelude::*;

verus! {

/// Identifies the DER production whose encoding had bytes left over.
#[derive(Debug, Clone, Copy, PartialEq, Eq, Structural)]
pub enum DerTypeId {
    /// The outermost `Certificate` SEQUENCE.
    Certificate,
    /// The `tbsCertificate` contents.
    CertificateTbsCertificate,
    /// A `SubjectPublicKeyInfo` value.
    SubjectPublicKeyInfo,
    /// A `GeneralName` inside a SAN or a name-constraint subtree.
    GeneralName,
    /// A relative distinguished name inside the subject.
    DistinguishedName,
    /// An extension value.
    Extension,
}

/// Everything that can go wrong while parsing certificates, building a chain,
/// checking revocation, or matching names.
#[derive(Debug, Clone, Copy, PartialEq, Eq, Structural)]
pub enum Error {
    /// A DER encoding broke one of the rules of the profile.
    BadDer,
    /// A `UTCTime` or `GeneralizedTime` value was malformed.
    BadDerTime,
    /// A CA certificate stood where an end entity was required.
    CaUsedAsEndEntity,
    /// The certificate's validity window ended before the verification time.
    CertExpired,
    /// The certificate's validity window begins after the verification time.
    CertNotValidYet,
    /// No presented identifier matched the reference identifier.
    CertNotValidForName,
    /// An in-scope revocation list lists the certificate's serial number.
    CertRevoked,
    /// The revocation list's `nextUpdate` is in the past.
    CrlExpired,
    /// The revocation list's signature did not verify under the issuer's key.
    CrlInvalidSignatureForPublicKey,
    /// An end-entity certificate stood where a CA was required.
    EndEntityUsedAsCa,
    /// An extension value did not parse under its own grammar.
    ExtensionValueInvalid,
    /// `notBefore` is later than `notAfter`.
    InvalidCertValidity,
    /// The serial number is out of profile.
    InvalidSerialNumber,
    /// The signature did not verify under the selected public key.
    InvalidSignatureForPublicKey,
    /// The certificate that signed a revocation list is not its issuer.
    IssuerNotCrlSigner,
    /// A presented DNS identifier was not well formed.
    MalformedDnsIdentifier,
    /// A name-constraint subtree was not well formed.
    MalformedNameConstraint,
    /// The path-build budget was exhausted.
    MaximumPathBuildCallsExceeded,
    /// The signature-check budget was exhausted.
    MaximumSignatureChecksExceeded,
    /// A certificate lacked a required extension or carried a malformed one.
    MissingOrMalformedExtensions,
    /// A name fell outside the permitted subtrees or inside the excluded ones.
    NameConstraintViolation,
    /// A CA's `pathLenConstraint` was smaller than the sub-CA count below it.
    PathLenConstraintViolated,
    /// The required extended key usage was absent.
    RequiredEkuNotFound,
    /// A value had bytes after the end of its outermost production.
    TrailingData(DerTypeId),
    /// No trust anchor and no intermediate could vouch for an issuer.
    UnknownIssuer,
    /// Revocation status could not be established for a covered certificate.
    UnknownRevocationStatus,
    /// The certificate's version field is not v3 where v3 is required.
    UnsupportedCertVersion,
    /// A critical extension outside the recognized set was present.
    UnsupportedCriticalExtension,
    /// No supported algorithm matched the `signatureAlgorithm` identifier.
    UnsupportedSignatureAlgorithm,
    /// An algorithm matched the signature but not the subject public key.
    UnsupportedSignatureAlgorithmForPublicKey,
}

} // verus!
