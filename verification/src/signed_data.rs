//! Signed-data triples and signature-verification dispatch.

use vstd::prelude::*;
use vstd::slice::slice_index_get;

use crate::alg_id::AlgorithmIdentifier;
use crate::der;
use crate::error::Error;

verus! {

/// The "tbs || signatureAlgorithm || signature" pattern that X.509
/// certificates and revocation lists share. `data` is the full encoding of
/// the to-be-signed value (tag and length included), `algorithm` is the
/// contents of the `AlgorithmIdentifier` SEQUENCE, and `signature` is the
/// BIT STRING contents after the zero unused-bits octet.
#[derive(Debug, Clone)]
pub struct SignedData {
    /// The octets the signature covers.
    pub data: Vec<u8>,
    /// The `AlgorithmIdentifier` value, outer SEQUENCE excluded.
    pub algorithm: Vec<u8>,
    /// The signature octets.
    pub signature: Vec<u8>,
}

impl View for SignedData {
    type V = (Seq<u8>, Seq<u8>, Seq<u8>);

    open spec fn view(&self) -> (Seq<u8>, Seq<u8>, Seq<u8>) {
        (self.data@, self.algorithm@, self.signature@)
    }
}

/// The boundaries that parsing "tbs || signatureAlgorithm || signature" at
/// `pos` inside `[pos, end)` yields: the to-be-signed SEQUENCE (whole
/// encoding and content window), the algorithm SEQUENCE contents, the
/// signature BIT STRING contents, and the offset after the signature. The
/// to-be-signed SEQUENCE's content length must stay within `size_limit`.
pub open spec fn spec_signed_data_from_der(b: Seq<u8>, pos: int, end: int, size_limit: int) -> Option<
    ((int, int), (int, int), (int, int), int),
> {
    match der::spec_read_tlv(b, pos, end) {
        Some((t1, s1, l1)) => {
            if t1 != der::TAG_SEQUENCE || l1 > size_limit {
                None
            } else {
                match der::spec_read_tlv(b, s1 + l1, end) {
                    Some((t2, s2, l2)) => {
                        if t2 != der::TAG_SEQUENCE {
                            None
                        } else {
                            match der::spec_bit_string_value(b, s2 + l2, end) {
                                Some((s3, l3)) => Some(
                                    ((s1, l1), (s2, l2), (s3, l3), s3 + l3),
                                ),
                                None => None,
                            }
                        }
                    },
                    None => None,
                }
            }
        },
        None => None,
    }
}

/// Parses "tbs || signatureAlgorithm || signature" at `pos`.
///
/// On success returns the content window `(start, len)` of the
/// to-be-signed SEQUENCE, the parsed [`SignedData`], and the offset of the
/// first octet after the signature. The to-be-signed SEQUENCE's content is
/// refused beyond `size_limit` octets.
pub fn signed_data_from_der(input: &[u8], pos: usize, end: usize, size_limit: usize) -> (r: Result<
    ((usize, usize), SignedData, usize),
    Error,
>)
    requires
        pos <= end <= input@.len(),
    ensures
        match r {
            Ok(((tbs_start, tbs_len), sd, next)) => {
                &&& spec_signed_data_from_der(input@, pos as int, end as int, size_limit as int)
                    is Some
                &&& ({
                    let ((s1, l1), (s2, l2), (s3, l3), n) = spec_signed_data_from_der(
                        input@,
                        pos as int,
                        end as int,
                        size_limit as int,
                    )->Some_0;
                    &&& tbs_start == s1 && tbs_len == l1
                    &&& pos <= tbs_start && tbs_start + tbs_len <= end
                    &&& sd.data@ == input@.subrange(pos as int, s1 + l1)
                    &&& sd.algorithm@ == input@.subrange(s2, s2 + l2)
                    &&& sd.signature@ == input@.subrange(s3, s3 + l3)
                    &&& next == n
                    &&& pos < next <= end
                })
            },
            Err(e) => {
                &&& e == Error::BadDer
                &&& spec_signed_data_from_der(input@, pos as int, end as int, size_limit as int)
                    is None
            },
        },
{
    let (tbs_start, tbs_len) = der::expect_tag_and_get_value(input, pos, end, der::TAG_SEQUENCE)?;
    if tbs_len > size_limit {
        return Err(Error::BadDer);
    }
    let alg_pos = tbs_start + tbs_len;
    let (alg_start, alg_len) = der::expect_tag_and_get_value(input, alg_pos, end, der::TAG_SEQUENCE)?;
    let sig_pos = alg_start + alg_len;
    let (sig_start, sig_len) = der::bit_string_with_no_unused_bits(input, sig_pos, end)?;
    let data = der::subvec(input, pos, tbs_start + tbs_len);
    let algorithm = der::subvec(input, alg_start, alg_start + alg_len);
    let signature = der::subvec(input, sig_start, sig_start + sig_len);
    Ok(((tbs_start, tbs_len), SignedData { data, algorithm, signature }, sig_start + sig_len))
}

/// The algorithm identifier and key octets of a `SubjectPublicKeyInfo`
/// value, or `None` where the value breaks the grammar or has trailing
/// octets.
pub open spec fn spec_parse_spki(b: Seq<u8>) -> Option<(Seq<u8>, Seq<u8>)> {
    match der::spec_read_tlv(b, 0, b.len() as int) {
        Some((t1, s1, l1)) => {
            if t1 != der::TAG_SEQUENCE {
                None
            } else {
                match der::spec_bit_string_value(b, s1 + l1, b.len() as int) {
                    Some((s2, l2)) => {
                        if s2 + l2 == b.len() {
                            Some((b.subrange(s1, s1 + l1), b.subrange(s2, s2 + l2)))
                        } else {
                            None
                        }
                    },
                    None => None,
                }
            }
        },
        None => None,
    }
}

/// A parsed `SubjectPublicKeyInfo`: the `AlgorithmIdentifier` contents and
/// the `subjectPublicKey` BIT STRING contents.
pub struct SubjectPublicKeyInfo {
    /// The `AlgorithmIdentifier` value, outer SEQUENCE excluded.
    pub algorithm_id_value: Vec<u8>,
    /// The public-key octets.
    pub key_value: Vec<u8>,
}

impl SubjectPublicKeyInfo {
    /// Parses the contents of a `SubjectPublicKeyInfo` SEQUENCE: the
    /// algorithm identifier followed by the key BIT STRING, with nothing
    /// after.
    pub fn from_der(spki_value: &[u8]) -> (r: Result<Self, Error>)
        ensures
            match r {
                Ok(spki) => {
                    &&& spec_parse_spki(spki_value@) == Some((spki.algorithm_id_value@, spki.key_value@))
                },
                Err(e) => {
                    &&& e == Error::BadDer
                    &&& spec_parse_spki(spki_value@) is None
                },
            },
    {
        let end = spki_value.len();
        let (alg_start, alg_len) = der::expect_tag_and_get_value(
            spki_value,
            0,
            end,
            der::TAG_SEQUENCE,
        )?;
        let (key_start, key_len) = der::bit_string_with_no_unused_bits(
            spki_value,
            alg_start + alg_len,
            end,
        )?;
        if key_start + key_len != end {
            return Err(Error::BadDer);
        }
        Ok(
            SubjectPublicKeyInfo {
                algorithm_id_value: der::subvec(spki_value, alg_start, alg_start + alg_len),
                key_value: der::subvec(spki_value, key_start, key_start + key_len),
            },
        )
    }
}

/// An abstract signature verification algorithm, one per supported pair of
/// public-key type and `signatureAlgorithm`. The engine matches the two
/// identifier encodings byte-exactly and delegates all cryptography to
/// `verify_signature`; implementations are supplied by the caller and are
/// assumed pure and reentrant.
pub trait SignatureVerificationAlgorithm: Send + Sync {
    /// The `AlgorithmIdentifier` that must be present on a
    /// `subjectPublicKeyInfo` for this algorithm to apply.
    fn public_key_alg_id(&self) -> AlgorithmIdentifier;

    /// The `AlgorithmIdentifier` that must be present as the
    /// `signatureAlgorithm` on the data to be verified for this algorithm
    /// to be considered.
    fn signature_alg_id(&self) -> AlgorithmIdentifier;

    /// Verifies a signature: `public_key` is the `subjectPublicKey`
    /// octets, `message` is the unhashed data the signature allegedly
    /// covers, and the result is `Ok` only for a valid signature.
    fn verify_signature(&self, public_key: &[u8], message: &[u8], signature: &[u8]) -> Result<
        (),
        InvalidSignature,
    >;
}

/// A detail-less error when a signature is not valid.
#[derive(Debug, Copy, Clone)]
pub struct InvalidSignature;

/// Verifies `signature` over `msg` with the key of `spki_value` under
/// `signature_alg`.
///
/// The SPKI parse and the identifier comparison are exact: a malformed
/// SPKI yields `BadDer`, a public-key identifier that differs from the
/// algorithm's yields `UnsupportedSignatureAlgorithmForPublicKey`, and
/// otherwise the outcome is the verifier's, with a cryptographic failure
/// reported as `InvalidSignatureForPublicKey`.
pub fn verify_signature<A: SignatureVerificationAlgorithm>(
    signature_alg: &A,
    spki_value: &[u8],
    msg: &[u8],
    signature: &[u8],
) -> (r: Result<(), Error>)
    ensures
        spec_parse_spki(spki_value@) is None <==> r == Err::<(), Error>(Error::BadDer),
        r is Ok || r == Err::<(), Error>(Error::BadDer) || r == Err::<(), Error>(
            Error::UnsupportedSignatureAlgorithmForPublicKey,
        ) || r == Err::<(), Error>(Error::InvalidSignatureForPublicKey),
{
    let spki = match SubjectPublicKeyInfo::from_der(spki_value) {
        Ok(spki) => spki,
        Err(e) => { return Err(Error::BadDer) },
    };
    if !signature_alg.public_key_alg_id().matches_algorithm_id_value(
        spki.algorithm_id_value.as_slice(),
    ) {
        return Err(Error::UnsupportedSignatureAlgorithmForPublicKey);
    }
    match signature_alg.verify_signature(spki.key_value.as_slice(), msg, signature) {
        Ok(()) => Ok(()),
        Err(InvalidSignature) => Err(Error::InvalidSignatureForPublicKey),
    }
}

/// Verifies `signed_data` with the key of `spki_value` using one of the
/// `supported_algorithms`, scanned in order.
///
/// Algorithms whose `signature_alg_id` does not byte-match
/// `signed_data.algorithm` are skipped. The first applicable algorithm
/// decides, except that a key mismatch keeps scanning. When the scan
/// exhausts: `UnsupportedSignatureAlgorithmForPublicKey` where some
/// algorithm matched the signature algorithm but none matched the key, and
/// `UnsupportedSignatureAlgorithm` where none matched at all.
pub fn verify_signed_data<A: SignatureVerificationAlgorithm>(
    supported_algorithms: &[A],
    spki_value: &[u8],
    signed_data: &SignedData,
) -> (r: Result<(), Error>)
    ensures
        r is Ok || r == Err::<(), Error>(Error::BadDer) || r == Err::<(), Error>(
            Error::UnsupportedSignatureAlgorithmForPublicKey,
        ) || r == Err::<(), Error>(Error::InvalidSignatureForPublicKey) || r == Err::<(), Error>(
            Error::UnsupportedSignatureAlgorithm,
        ),
        supported_algorithms@.len() == 0 ==> r == Err::<(), Error>(
            Error::UnsupportedSignatureAlgorithm,
        ),
{
    let mut found_signature_alg_match = false;
    let n = supported_algorithms.len();
    let mut i: usize = 0;
    while i < n
        invariant
            n == supported_algorithms@.len(),
            i <= n,
            n == 0 ==> !found_signature_alg_match,
        decreases n - i,
    {
        let supported_alg = slice_index_get(supported_algorithms, i);
        if supported_alg.signature_alg_id().matches_algorithm_id_value(
            signed_data.algorithm.as_slice(),
        ) {
            match verify_signature(
                supported_alg,
                spki_value,
                signed_data.data.as_slice(),
                signed_data.signature.as_slice(),
            ) {
                Err(Error::UnsupportedSignatureAlgorithmForPublicKey) => {
                    found_signature_alg_match = true;
                },
                result => { return result },
            }
        }
        i += 1;
    }
    if found_signature_alg_match {
        Err(Error::UnsupportedSignatureAlgorithmForPublicKey)
    } else {
        Err(Error::UnsupportedSignatureAlgorithm)
    }
}

} // verus!
