//! Byte-exact PKIX `AlgorithmIdentifier` encodings.

use vstd::prelude::*;

verus! {

/// An `AlgorithmIdentifier` encoding: the DER of the `algorithm` OID plus
/// the optional `parameters`, with the outer SEQUENCE tag and length
/// omitted. Equality of identifiers is byte-exact.
#[derive(Debug, Clone, PartialEq, Eq)]
pub struct AlgorithmIdentifier {
    asn1_id_value: Vec<u8>,
}

impl View for AlgorithmIdentifier {
    type V = Seq<u8>;

    closed spec fn view(&self) -> Seq<u8> {
        self.asn1_id_value@
    }
}

impl AlgorithmIdentifier {
    /// Makes a new `AlgorithmIdentifier` from an octet string. The contents
    /// are not validated.
    pub fn new(bytes: &[u8]) -> (r: Self)
        ensures
            r@ == bytes@,
    {
        AlgorithmIdentifier { asn1_id_value: vstd::slice::slice_to_vec(bytes) }
    }

    /// True exactly when `encoded` is byte-for-byte this identifier.
    pub fn matches_algorithm_id_value(&self, encoded: &[u8]) -> (r: bool)
        ensures
            r == (self@ == encoded@),
    {
        crate::bytes::bytes_eq(self.asn1_id_value.as_slice(), encoded)
    }
}

/// AlgorithmIdentifier for `id-ecPublicKey` with named curve `secp256r1`.
pub fn ecdsa_p256() -> (r: AlgorithmIdentifier)
    ensures
        r@ =~= seq![0x06u8, 0x07, 0x2a, 0x86, 0x48, 0xce, 0x3d, 0x02, 0x01, 0x06, 0x08, 0x2a, 0x86, 0x48, 0xce, 0x3d, 0x03, 0x01, 0x07],
{
    let v: Vec<u8> = vec![0x06, 0x07, 0x2a, 0x86, 0x48, 0xce, 0x3d, 0x02, 0x01, 0x06, 0x08, 0x2a, 0x86, 0x48, 0xce, 0x3d, 0x03, 0x01, 0x07];
    AlgorithmIdentifier::new(v.as_slice())
}

/// AlgorithmIdentifier for `id-ecPublicKey` with named curve `secp384r1`.
pub fn ecdsa_p384() -> (r: AlgorithmIdentifier)
    ensures
        r@ =~= seq![0x06u8, 0x07, 0x2a, 0x86, 0x48, 0xce, 0x3d, 0x02, 0x01, 0x06, 0x05, 0x2b, 0x81, 0x04, 0x00, 0x22],
{
    let v: Vec<u8> = vec![0x06, 0x07, 0x2a, 0x86, 0x48, 0xce, 0x3d, 0x02, 0x01, 0x06, 0x05, 0x2b, 0x81, 0x04, 0x00, 0x22];
    AlgorithmIdentifier::new(v.as_slice())
}

/// AlgorithmIdentifier for `ecdsa-with-SHA256`.
pub fn ecdsa_sha256() -> (r: AlgorithmIdentifier)
    ensures
        r@ =~= seq![0x06u8, 0x08, 0x2a, 0x86, 0x48, 0xce, 0x3d, 0x04, 0x03, 0x02],
{
    let v: Vec<u8> = vec![0x06, 0x08, 0x2a, 0x86, 0x48, 0xce, 0x3d, 0x04, 0x03, 0x02];
    AlgorithmIdentifier::new(v.as_slice())
}

/// AlgorithmIdentifier for `ecdsa-with-SHA384`.
pub fn ecdsa_sha384() -> (r: AlgorithmIdentifier)
    ensures
        r@ =~= seq![0x06u8, 0x08, 0x2a, 0x86, 0x48, 0xce, 0x3d, 0x04, 0x03, 0x03],
{
    let v: Vec<u8> = vec![0x06, 0x08, 0x2a, 0x86, 0x48, 0xce, 0x3d, 0x04, 0x03, 0x03];
    AlgorithmIdentifier::new(v.as_slice())
}

/// AlgorithmIdentifier for `rsaEncryption` with absent-NULL parameters.
pub fn rsa_encryption() -> (r: AlgorithmIdentifier)
    ensures
        r@ =~= seq![0x06u8, 0x09, 0x2a, 0x86, 0x48, 0x86, 0xf7, 0x0d, 0x01, 0x01, 0x01, 0x05, 0x00],
{
    let v: Vec<u8> = vec![0x06, 0x09, 0x2a, 0x86, 0x48, 0x86, 0xf7, 0x0d, 0x01, 0x01, 0x01, 0x05, 0x00];
    AlgorithmIdentifier::new(v.as_slice())
}

/// AlgorithmIdentifier for `sha256WithRSAEncryption`.
pub fn rsa_pkcs1_sha256() -> (r: AlgorithmIdentifier)
    ensures
        r@ =~= seq![0x06u8, 0x09, 0x2a, 0x86, 0x48, 0x86, 0xf7, 0x0d, 0x01, 0x01, 0x0b, 0x05, 0x00],
{
    let v: Vec<u8> = vec![0x06, 0x09, 0x2a, 0x86, 0x48, 0x86, 0xf7, 0x0d, 0x01, 0x01, 0x0b, 0x05, 0x00];
    AlgorithmIdentifier::new(v.as_slice())
}

/// AlgorithmIdentifier for `sha384WithRSAEncryption`.
pub fn rsa_pkcs1_sha384() -> (r: AlgorithmIdentifier)
    ensures
        r@ =~= seq![0x06u8, 0x09, 0x2a, 0x86, 0x48, 0x86, 0xf7, 0x0d, 0x01, 0x01, 0x0c, 0x05, 0x00],
{
    let v: Vec<u8> = vec![0x06, 0x09, 0x2a, 0x86, 0x48, 0x86, 0xf7, 0x0d, 0x01, 0x01, 0x0c, 0x05, 0x00];
    AlgorithmIdentifier::new(v.as_slice())
}

/// AlgorithmIdentifier for `sha512WithRSAEncryption`.
pub fn rsa_pkcs1_sha512() -> (r: AlgorithmIdentifier)
    ensures
        r@ =~= seq![0x06u8, 0x09, 0x2a, 0x86, 0x48, 0x86, 0xf7, 0x0d, 0x01, 0x01, 0x0d, 0x05, 0x00],
{
    let v: Vec<u8> = vec![0x06, 0x09, 0x2a, 0x86, 0x48, 0x86, 0xf7, 0x0d, 0x01, 0x01, 0x0d, 0x05, 0x00];
    AlgorithmIdentifier::new(v.as_slice())
}

/// AlgorithmIdentifier for `RSASSA-PSS` with SHA-256, MGF1 with SHA-256,
/// and salt length 32.
pub fn rsa_pss_sha256() -> (r: AlgorithmIdentifier)
    ensures
        r@ =~= seq![0x06u8, 0x09, 0x2a, 0x86, 0x48, 0x86, 0xf7, 0x0d, 0x01, 0x01, 0x0a, 0x30, 0x30, 0xa0, 0x0d, 0x30, 0x0b, 0x06, 0x09, 0x60, 0x86, 0x48, 0x01, 0x65, 0x03, 0x04, 0x02, 0x01, 0xa1, 0x1a, 0x30, 0x18, 0x06, 0x09, 0x2a, 0x86, 0x48, 0x86, 0xf7, 0x0d, 0x01, 0x01, 0x08, 0x30, 0x0b, 0x06, 0x09, 0x60, 0x86, 0x48, 0x01, 0x65, 0x03, 0x04, 0x02, 0x01, 0xa2, 0x03, 0x02, 0x01, 0x20],
{
    let v: Vec<u8> = vec![0x06, 0x09, 0x2a, 0x86, 0x48, 0x86, 0xf7, 0x0d, 0x01, 0x01, 0x0a, 0x30, 0x30, 0xa0, 0x0d, 0x30, 0x0b, 0x06, 0x09, 0x60, 0x86, 0x48, 0x01, 0x65, 0x03, 0x04, 0x02, 0x01, 0xa1, 0x1a, 0x30, 0x18, 0x06, 0x09, 0x2a, 0x86, 0x48, 0x86, 0xf7, 0x0d, 0x01, 0x01, 0x08, 0x30, 0x0b, 0x06, 0x09, 0x60, 0x86, 0x48, 0x01, 0x65, 0x03, 0x04, 0x02, 0x01, 0xa2, 0x03, 0x02, 0x01, 0x20];
    AlgorithmIdentifier::new(v.as_slice())
}

/// AlgorithmIdentifier for `RSASSA-PSS` with SHA-384, MGF1 with SHA-384,
/// and salt length 48.
pub fn rsa_pss_sha384() -> (r: AlgorithmIdentifier)
    ensures
        r@ =~= seq![0x06u8, 0x09, 0x2a, 0x86, 0x48, 0x86, 0xf7, 0x0d, 0x01, 0x01, 0x0a, 0x30, 0x30, 0xa0, 0x0d, 0x30, 0x0b, 0x06, 0x09, 0x60, 0x86, 0x48, 0x01, 0x65, 0x03, 0x04, 0x02, 0x02, 0xa1, 0x1a, 0x30, 0x18, 0x06, 0x09, 0x2a, 0x86, 0x48, 0x86, 0xf7, 0x0d, 0x01, 0x01, 0x08, 0x30, 0x0b, 0x06, 0x09, 0x60, 0x86, 0x48, 0x01, 0x65, 0x03, 0x04, 0x02, 0x02, 0xa2, 0x03, 0x02, 0x01, 0x30],
{
    let v: Vec<u8> = vec![0x06, 0x09, 0x2a, 0x86, 0x48, 0x86, 0xf7, 0x0d, 0x01, 0x01, 0x0a, 0x30, 0x30, 0xa0, 0x0d, 0x30, 0x0b, 0x06, 0x09, 0x60, 0x86, 0x48, 0x01, 0x65, 0x03, 0x04, 0x02, 0x02, 0xa1, 0x1a, 0x30, 0x18, 0x06, 0x09, 0x2a, 0x86, 0x48, 0x86, 0xf7, 0x0d, 0x01, 0x01, 0x08, 0x30, 0x0b, 0x06, 0x09, 0x60, 0x86, 0x48, 0x01, 0x65, 0x03, 0x04, 0x02, 0x02, 0xa2, 0x03, 0x02, 0x01, 0x30];
    AlgorithmIdentifier::new(v.as_slice())
}

/// AlgorithmIdentifier for `RSASSA-PSS` with SHA-512, MGF1 with SHA-512,
/// and salt length 64.
pub fn rsa_pss_sha512() -> (r: AlgorithmIdentifier)
    ensures
        r@ =~= seq![0x06u8, 0x09, 0x2a, 0x86, 0x48, 0x86, 0xf7, 0x0d, 0x01, 0x01, 0x0a, 0x30, 0x30, 0xa0, 0x0d, 0x30, 0x0b, 0x06, 0x09, 0x60, 0x86, 0x48, 0x01, 0x65, 0x03, 0x04, 0x02, 0x03, 0xa1, 0x1a, 0x30, 0x18, 0x06, 0x09, 0x2a, 0x86, 0x48, 0x86, 0xf7, 0x0d, 0x01, 0x01, 0x08, 0x30, 0x0b, 0x06, 0x09, 0x60, 0x86, 0x48, 0x01, 0x65, 0x03, 0x04, 0x02, 0x03, 0xa2, 0x03, 0x02, 0x01, 0x40],
{
    let v: Vec<u8> = vec![0x06, 0x09, 0x2a, 0x86, 0x48, 0x86, 0xf7, 0x0d, 0x01, 0x01, 0x0a, 0x30, 0x30, 0xa0, 0x0d, 0x30, 0x0b, 0x06, 0x09, 0x60, 0x86, 0x48, 0x01, 0x65, 0x03, 0x04, 0x02, 0x03, 0xa1, 0x1a, 0x30, 0x18, 0x06, 0x09, 0x2a, 0x86, 0x48, 0x86, 0xf7, 0x0d, 0x01, 0x01, 0x08, 0x30, 0x0b, 0x06, 0x09, 0x60, 0x86, 0x48, 0x01, 0x65, 0x03, 0x04, 0x02, 0x03, 0xa2, 0x03, 0x02, 0x01, 0x40];
    AlgorithmIdentifier::new(v.as_slice())
}

/// AlgorithmIdentifier for `Ed25519`.
pub fn ed25519() -> (r: AlgorithmIdentifier)
    ensures
        r@ =~= seq![0x06u8, 0x03, 0x2b, 0x65, 0x70],
{
    let v: Vec<u8> = vec![0x06, 0x03, 0x2b, 0x65, 0x70];
    AlgorithmIdentifier::new(v.as_slice())
}

} // verus!
