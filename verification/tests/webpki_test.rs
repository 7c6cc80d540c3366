use webpki::alg_id;
use webpki::der;
use webpki::dns_name;
use webpki::ip_address;
use webpki::signed_data::{
    signed_data_from_der, verify_signed_data, InvalidSignature, SignatureVerificationAlgorithm,
    SignedData, SubjectPublicKeyInfo,
};
use webpki::subject_name::GeneralDnsName;
use webpki::{AlgorithmIdentifier, Cert, EndEntityCert, Error};

fn tlv(tag: u8, content: &[u8]) -> Vec<u8> {
    let mut out = vec![tag];
    let n = content.len();
    if n < 0x80 {
        out.push(n as u8);
    } else if n < 0x100 {
        out.push(0x81);
        out.push(n as u8);
    } else {
        out.push(0x82);
        out.push((n / 0x100) as u8);
        out.push((n % 0x100) as u8);
    }
    out.extend_from_slice(content);
    out
}

fn san_dns(name: &str) -> Vec<u8> {
    tlv(0x82, name.as_bytes())
}

fn empty_signed_data() -> SignedData {
    SignedData { data: Vec::new(), algorithm: Vec::new(), signature: Vec::new() }
}

fn cert_with(subject: Vec<u8>, san: Option<Vec<u8>>) -> Cert {
    Cert {
        signed_data: empty_signed_data(),
        serial: vec![1],
        issuer: Vec::new(),
        not_before: 0,
        not_after: 1,
        subject,
        spki: Vec::new(),
        basic_constraints: None,
        key_usage: None,
        subject_alt_name: san,
        eku: None,
        name_constraints: None,
        crl_distribution_points: None,
    }
}

fn subject_with_cn(cn: &str) -> Vec<u8> {
    let attr = {
        let mut v = tlv(0x06, &[85, 4, 3]);
        v.extend_from_slice(&tlv(0x0c, cn.as_bytes()));
        v
    };
    let rdn = tlv(0x30, &attr);
    tlv(0x31, &rdn)
}

#[test]
fn test_algorithm_identifer() {
    let id = AlgorithmIdentifier::new(&[1, 2, 3]);
    let _ = id.clone();
    let _ = id;
    let id = AlgorithmIdentifier::new(&[1, 2, 3]);
    assert!(format!("{:?}", id).starts_with("AlgorithmIdentifier "));
}

#[test]
fn tlv_framing_short_form() {
    let v = tlv(0x30, &[1, 2, 3]);
    let (tag, start, len) = der::read_tag_and_get_value(&v, 0, v.len()).unwrap();
    assert_eq!(tag, 0x30);
    assert_eq!(start, 2);
    assert_eq!(len, 3);
}

#[test]
fn tlv_framing_long_form() {
    let content = vec![0xabu8; 300];
    let v = tlv(0x30, &content);
    let (tag, start, len) = der::read_tag_and_get_value(&v, 0, v.len()).unwrap();
    assert_eq!(tag, 0x30);
    assert_eq!(start, 4);
    assert_eq!(len, 300);
    assert_eq!(start + len, v.len());
}

#[test]
fn tlv_rejects_non_minimal_length() {
    // A five-octet content length written in long form must be refused.
    let v = vec![0x30u8, 0x81, 0x05, 1, 2, 3, 4, 5];
    assert_eq!(der::read_tag_and_get_value(&v, 0, v.len()), Err(Error::BadDer));
}

#[test]
fn tlv_rejects_indefinite_length() {
    let v = vec![0x30u8, 0x80, 0x00, 0x00];
    assert_eq!(der::read_tag_and_get_value(&v, 0, v.len()), Err(Error::BadDer));
}

#[test]
fn tlv_rejects_truncated_content() {
    let v = vec![0x30u8, 0x05, 1, 2];
    assert_eq!(der::read_tag_and_get_value(&v, 0, v.len()), Err(Error::BadDer));
}

#[test]
fn dns_match_exact_and_case() {
    assert_eq!(
        dns_name::presented_id_matches_reference_id(b"example.com", b"example.com"),
        Ok(true)
    );
    assert_eq!(
        dns_name::presented_id_matches_reference_id(b"EXAMPLE.com", b"example.COM"),
        Ok(true)
    );
    assert_eq!(
        dns_name::presented_id_matches_reference_id(b"example.com", b"example.org"),
        Ok(false)
    );
}

#[test]
fn dns_match_wildcard_single_label() {
    assert_eq!(
        dns_name::presented_id_matches_reference_id(b"*.example.com", b"foo.example.com"),
        Ok(true)
    );
    assert_eq!(
        dns_name::presented_id_matches_reference_id(b"*.example.com", b"a.b.example.com"),
        Ok(false)
    );
    assert_eq!(
        dns_name::presented_id_matches_reference_id(b"*.example.com", b"example.com"),
        Ok(false)
    );
}

#[test]
fn dns_rejects_misplaced_wildcard() {
    assert_eq!(
        dns_name::presented_id_matches_reference_id(b"f*.example.com", b"fo.example.com"),
        Err(Error::MalformedDnsIdentifier)
    );
    assert_eq!(
        dns_name::presented_id_matches_reference_id(b"foo.*.com", b"foo.bar.com"),
        Err(Error::MalformedDnsIdentifier)
    );
    assert_eq!(
        dns_name::presented_id_matches_reference_id(b"example.com.", b"example.com"),
        Err(Error::MalformedDnsIdentifier)
    );
}

#[test]
fn dns_constraint_suffix() {
    assert!(dns_name::presented_id_matches_constraint(b"mail.example.com", b"example.com"));
    assert!(dns_name::presented_id_matches_constraint(b"example.com", b"example.com"));
    assert!(!dns_name::presented_id_matches_constraint(b"badexample.com", b"example.com"));
    assert!(dns_name::presented_id_matches_constraint(b"anything.at.all", b""));
}

#[test]
fn ip_constraint_non_contiguous_mask_rejected() {
    let presented = [192u8, 0, 2, 1];
    let constraint = [192u8, 0, 2, 0, 255, 0, 255, 0];
    assert_eq!(
        ip_address::presented_id_matches_constraint(&presented, &constraint),
        Err(Error::MalformedNameConstraint)
    );
}

#[test]
fn ip_constraint_matching() {
    let presented = [192u8, 0, 2, 77];
    let inside = [192u8, 0, 2, 0, 255, 255, 255, 0];
    let outside = [192u8, 0, 3, 0, 255, 255, 255, 0];
    assert_eq!(ip_address::presented_id_matches_constraint(&presented, &inside), Ok(true));
    assert_eq!(ip_address::presented_id_matches_constraint(&presented, &outside), Ok(false));
    // A version-4 address never matches a version-6 constraint.
    let v6 = [0u8; 32];
    assert_eq!(ip_address::presented_id_matches_constraint(&presented, &v6), Ok(false));
    // A constraint of a length other than 8 or 32 is malformed.
    assert_eq!(
        ip_address::presented_id_matches_constraint(&presented, &[1, 2, 3]),
        Err(Error::BadDer)
    );
}

#[test]
fn signed_data_framing() {
    let tbs = tlv(0x30, b"to-be-signed");
    let alg = tlv(0x30, &[6, 1, 42]);
    let mut sig_content = vec![0u8];
    sig_content.extend_from_slice(b"signature");
    let sig = tlv(0x03, &sig_content);
    let mut input = tbs.clone();
    input.extend_from_slice(&alg);
    input.extend_from_slice(&sig);
    let ((tbs_start, tbs_len), sd, next) =
        signed_data_from_der(&input, 0, input.len(), 1 << 16).unwrap();
    assert_eq!(&input[tbs_start..tbs_start + tbs_len], b"to-be-signed");
    assert_eq!(sd.data, tbs);
    assert_eq!(sd.algorithm, vec![6, 1, 42]);
    assert_eq!(sd.signature, b"signature".to_vec());
    assert_eq!(next, input.len());
}

#[test]
fn signed_data_rejects_nonzero_unused_bits() {
    let tbs = tlv(0x30, b"to-be-signed");
    let alg = tlv(0x30, &[6, 1, 42]);
    let sig = tlv(0x03, &[3u8, 0xff]);
    let mut input = tbs;
    input.extend_from_slice(&alg);
    input.extend_from_slice(&sig);
    assert!(signed_data_from_der(&input, 0, input.len(), 1 << 16).is_err());
}

struct FakeAlg {
    pk_id: Vec<u8>,
    sig_id: Vec<u8>,
}

impl SignatureVerificationAlgorithm for FakeAlg {
    fn public_key_alg_id(&self) -> AlgorithmIdentifier {
        AlgorithmIdentifier::new(&self.pk_id)
    }
    fn signature_alg_id(&self) -> AlgorithmIdentifier {
        AlgorithmIdentifier::new(&self.sig_id)
    }
    fn verify_signature(
        &self,
        public_key: &[u8],
        _message: &[u8],
        signature: &[u8],
    ) -> Result<(), InvalidSignature> {
        // The test algorithm accepts exactly the signature equal to the key.
        if public_key == signature {
            Ok(())
        } else {
            Err(InvalidSignature)
        }
    }
}

fn spki_bytes(alg_id_value: &[u8], key: &[u8]) -> Vec<u8> {
    let mut v = tlv(0x30, alg_id_value);
    let mut bits = vec![0u8];
    bits.extend_from_slice(key);
    v.extend_from_slice(&tlv(0x03, &bits));
    v
}

#[test]
fn spki_parsing() {
    let spki = spki_bytes(&[6, 1, 9], b"key-bytes");
    let parsed = SubjectPublicKeyInfo::from_der(&spki).unwrap();
    assert_eq!(parsed.algorithm_id_value, vec![6, 1, 9]);
    assert_eq!(parsed.key_value, b"key-bytes".to_vec());
    // Trailing octets after the key are refused.
    let mut bad = spki.clone();
    bad.push(0);
    assert!(SubjectPublicKeyInfo::from_der(&bad).is_err());
}

#[test]
fn verify_signed_data_dispatch() {
    let alg = FakeAlg { pk_id: vec![6, 1, 9], sig_id: vec![6, 1, 7] };
    let spki = spki_bytes(&[6, 1, 9], b"key");
    let good = SignedData {
        data: b"message".to_vec(),
        algorithm: vec![6, 1, 7],
        signature: b"key".to_vec(),
    };
    assert_eq!(verify_signed_data(std::slice::from_ref(&alg), &spki, &good), Ok(()));

    // The supported list omits the signature algorithm entirely.
    let other = FakeAlg { pk_id: vec![6, 1, 9], sig_id: vec![6, 1, 8] };
    assert_eq!(
        verify_signed_data(std::slice::from_ref(&other), &spki, &good),
        Err(Error::UnsupportedSignatureAlgorithm)
    );
    assert_eq!(
        verify_signed_data::<FakeAlg>(&[], &spki, &good),
        Err(Error::UnsupportedSignatureAlgorithm)
    );

    // The signature algorithm matches but the key's identifier differs.
    let wrong_key_spki = spki_bytes(&[6, 1, 5], b"key");
    assert_eq!(
        verify_signed_data(std::slice::from_ref(&alg), &wrong_key_spki, &good),
        Err(Error::UnsupportedSignatureAlgorithmForPublicKey)
    );

    // Everything matches but the signature is cryptographically wrong.
    let bad = SignedData {
        data: b"message".to_vec(),
        algorithm: vec![6, 1, 7],
        signature: b"not-the-key".to_vec(),
    };
    assert_eq!(
        verify_signed_data(std::slice::from_ref(&alg), &spki, &bad),
        Err(Error::InvalidSignatureForPublicKey)
    );
}

#[test]
fn well_known_algorithm_identifiers() {
    let rsa = alg_id::rsa_pkcs1_sha256();
    assert!(rsa.matches_algorithm_id_value(&[
        0x06, 0x09, 0x2a, 0x86, 0x48, 0x86, 0xf7, 0x0d, 0x01, 0x01, 0x0b, 0x05, 0x00
    ]));
    let ed = alg_id::ed25519();
    assert!(ed.matches_algorithm_id_value(&[0x06, 0x03, 0x2b, 0x65, 0x70]));
    assert!(!ed.matches_algorithm_id_value(&[0x06, 0x03, 0x2b, 0x65, 0x71]));
}

#[test]
fn common_name_extraction() {
    let subject = subject_with_cn("cn.example.com");
    assert_eq!(
        webpki::subject_name::common_name(&subject),
        Ok(Some(b"cn.example.com".to_vec()))
    );
}

#[test]
fn verify_dns_name_in_san() {
    let san = san_dns("example.com");
    let cert = EndEntityCert::from_cert(cert_with(subject_with_cn("ignored.example.com"), Some(san)));
    let name = webpki::DnsName::try_from_ascii(b"example.com").unwrap();
    assert_eq!(webpki::verify_cert_dns_name(&cert, &name), Ok(()));
    let other = webpki::DnsName::try_from_ascii(b"example.org").unwrap();
    assert_eq!(webpki::verify_cert_dns_name(&cert, &other), Err(Error::CertNotValidForName));
}

#[test]
fn verify_dns_name_wildcard_san() {
    let san = san_dns("*.example.com");
    let cert = EndEntityCert::from_cert(cert_with(Vec::new(), Some(san)));
    let foo = webpki::DnsName::try_from_ascii(b"foo.example.com").unwrap();
    assert_eq!(webpki::verify_cert_dns_name(&cert, &foo), Ok(()));
    let deep = webpki::DnsName::try_from_ascii(b"a.b.example.com").unwrap();
    assert_eq!(webpki::verify_cert_dns_name(&cert, &deep), Err(Error::CertNotValidForName));
}

#[test]
fn verify_subject_name_ip() {
    let mut san = san_dns("example.com");
    san.extend_from_slice(&tlv(0x87, &[192, 0, 2, 1]));
    let cert = EndEntityCert::from_cert(cert_with(Vec::new(), Some(san)));
    let ip = webpki::IpAddr::try_from_octets(&[192, 0, 2, 1]).unwrap();
    assert_eq!(
        webpki::verify_cert_subject_name(&cert, &webpki::SubjectName::IpAddress(ip)),
        Ok(())
    );
    let miss = webpki::IpAddr::try_from_octets(&[192, 0, 2, 2]).unwrap();
    assert_eq!(
        webpki::verify_cert_subject_name(&cert, &webpki::SubjectName::IpAddress(miss)),
        Err(Error::CertNotValidForName)
    );
}

fn nc_value(permitted: Option<Vec<u8>>, excluded: Option<Vec<u8>>) -> Vec<u8> {
    let mut out = Vec::new();
    if let Some(p) = permitted {
        out.extend_from_slice(&tlv(0xa0, &p));
    }
    if let Some(e) = excluded {
        out.extend_from_slice(&tlv(0xa1, &e));
    }
    out
}

fn dns_subtree(name: &str) -> Vec<u8> {
    tlv(0x30, &tlv(0x82, name.as_bytes()))
}

#[test]
fn name_constraints_permitted_mismatch_rejected() {
    // The anchor permits only names under .example.com; a SAN of
    // example.org violates the constraint.
    let nc = nc_value(Some(dns_subtree(".example.com")), None);
    let ee = cert_with(Vec::new(), Some(san_dns("example.org")));
    let intermediates: Vec<Cert> = Vec::new();
    let path: Vec<usize> = Vec::new();
    assert_eq!(
        webpki::check_name_constraints(
            &nc,
            webpki::SubjectCommonNameContents::Ignore,
            &ee,
            &intermediates,
            &path,
        ),
        Err(Error::NameConstraintViolation)
    );
}

#[test]
fn name_constraints_permitted_match_accepted() {
    let nc = nc_value(Some(dns_subtree("example.com")), None);
    let ee = cert_with(Vec::new(), Some(san_dns("mail.example.com")));
    let intermediates: Vec<Cert> = Vec::new();
    let path: Vec<usize> = Vec::new();
    assert_eq!(
        webpki::check_name_constraints(
            &nc,
            webpki::SubjectCommonNameContents::Ignore,
            &ee,
            &intermediates,
            &path,
        ),
        Ok(())
    );
}

#[test]
fn name_constraints_excluded_match_rejected() {
    let nc = nc_value(None, Some(dns_subtree("example.com")));
    let ee = cert_with(Vec::new(), Some(san_dns("mail.example.com")));
    let intermediates: Vec<Cert> = Vec::new();
    let path: Vec<usize> = Vec::new();
    assert_eq!(
        webpki::check_name_constraints(
            &nc,
            webpki::SubjectCommonNameContents::Ignore,
            &ee,
            &intermediates,
            &path,
        ),
        Err(Error::NameConstraintViolation)
    );
}

#[test]
fn name_constraints_other_form_ignored() {
    // An IP constraint says nothing about a DNS presented name.
    let ip_subtree = tlv(0x30, &tlv(0x87, &[192, 0, 2, 0, 255, 255, 255, 0]));
    let nc = nc_value(Some(ip_subtree), None);
    let ee = cert_with(Vec::new(), Some(san_dns("mail.example.com")));
    let intermediates: Vec<Cert> = Vec::new();
    let path: Vec<usize> = Vec::new();
    assert_eq!(
        webpki::check_name_constraints(
            &nc,
            webpki::SubjectCommonNameContents::Ignore,
            &ee,
            &intermediates,
            &path,
        ),
        Ok(())
    );
}

#[test]
fn list_cert_dns_names_collects_san_and_cn() {
    let mut san = san_dns("example.com");
    san.extend_from_slice(&tlv(0x82, b"*.example.com"));
    san.extend_from_slice(&tlv(0x87, &[192, 0, 2, 1]));
    let cert = EndEntityCert::from_cert(cert_with(subject_with_cn("cn.example.com"), Some(san)));
    let names = webpki::list_cert_dns_names(&cert).unwrap();
    assert_eq!(names.len(), 3);
    assert!(matches!(&names[0], GeneralDnsName::DnsName(v) if v == b"example.com"));
    assert!(matches!(&names[1], GeneralDnsName::Wildcard(v) if v == b"*.example.com"));
    assert!(matches!(&names[2], GeneralDnsName::DnsName(v) if v == b"cn.example.com"));
}

fn bc_ca_true() -> Vec<u8> {
    tlv(0x30, &tlv(0x01, &[0xff]))
}

fn cert_signed(
    subject: &[u8],
    issuer: &[u8],
    spki: Vec<u8>,
    signer_key: &[u8],
    ca: bool,
    san: Option<Vec<u8>>,
) -> Cert {
    Cert {
        signed_data: SignedData {
            data: b"tbs".to_vec(),
            algorithm: vec![6, 1, 7],
            signature: signer_key.to_vec(),
        },
        serial: vec![1],
        issuer: issuer.to_vec(),
        not_before: 0,
        not_after: 100,
        subject: subject.to_vec(),
        spki,
        basic_constraints: if ca { Some(bc_ca_true()) } else { None },
        key_usage: None,
        subject_alt_name: san,
        eku: None,
        name_constraints: None,
        crl_distribution_points: None,
    }
}

fn test_alg() -> FakeAlg {
    FakeAlg { pk_id: vec![6, 1, 9], sig_id: vec![6, 1, 7] }
}

fn anchor(dn: &[u8], key: &[u8]) -> webpki::TrustAnchor {
    webpki::TrustAnchor {
        subject_dn: dn.to_vec(),
        spki: spki_bytes(&[6, 1, 9], key),
        name_constraints: None,
    }
}

#[test]
fn chain_through_intermediate_accepted() {
    let algs = [test_alg()];
    let anchors = vec![anchor(b"anchor", b"root-key")];
    let inter = cert_signed(
        b"inter",
        b"anchor",
        spki_bytes(&[6, 1, 9], b"inter-key"),
        b"root-key",
        true,
        None,
    );
    let ee = cert_signed(
        b"leaf",
        b"inter",
        spki_bytes(&[6, 1, 9], b"leaf-key"),
        b"inter-key",
        false,
        Some(san_dns("example.com")),
    );
    let intermediates = vec![inter];
    let mut budget = webpki::Budget::new();
    assert_eq!(
        webpki::build_chain(&algs, &anchors, &intermediates, &ee, 50, &mut budget),
        Ok(())
    );
}

#[test]
fn chain_depth_limit_gives_unknown_issuer() {
    // Seven intermediates under one anchor exceed the depth bound.
    let algs = [test_alg()];
    let anchors = vec![anchor(b"anchor", b"root-key")];
    let mut intermediates = Vec::new();
    for d in 0..7u8 {
        let subject = vec![b'i', d];
        let issuer = if d == 6 { b"anchor".to_vec() } else { vec![b'i', d + 1] };
        let key = vec![b'k', d];
        let signer_key = if d == 6 { b"root-key".to_vec() } else { vec![b'k', d + 1] };
        intermediates.push(cert_signed(
            &subject,
            &issuer,
            spki_bytes(&[6, 1, 9], &key),
            &signer_key,
            true,
            None,
        ));
    }
    let ee = cert_signed(
        b"leaf",
        &[b'i', 0],
        spki_bytes(&[6, 1, 9], b"leaf-key"),
        &[b'k', 0],
        false,
        None,
    );
    let mut budget = webpki::Budget {
        sig_checks: 100,
        path_builds: 100,
    };
    assert_eq!(
        webpki::build_chain(&algs, &anchors, &intermediates, &ee, 50, &mut budget),
        Err(Error::UnknownIssuer)
    );
}

#[test]
fn chain_expired_certificate_rejected() {
    let algs = [test_alg()];
    let anchors = vec![anchor(b"anchor", b"root-key")];
    let ee = cert_signed(
        b"leaf",
        b"anchor",
        spki_bytes(&[6, 1, 9], b"leaf-key"),
        b"root-key",
        false,
        None,
    );
    let intermediates: Vec<Cert> = Vec::new();
    let mut budget = webpki::Budget::new();
    assert_eq!(
        webpki::build_chain(&algs, &anchors, &intermediates, &ee, 200, &mut budget),
        Err(Error::CertExpired)
    );
}

#[test]
fn chain_anchor_name_constraint_enforced() {
    let algs = [test_alg()];
    let mut a = anchor(b"anchor", b"root-key");
    a.name_constraints = Some(nc_value(Some(dns_subtree(".example.com")), None));
    let anchors = vec![a];
    let ee = cert_signed(
        b"leaf",
        b"anchor",
        spki_bytes(&[6, 1, 9], b"leaf-key"),
        b"root-key",
        false,
        Some(san_dns("example.org")),
    );
    let intermediates: Vec<Cert> = Vec::new();
    let mut budget = webpki::Budget::new();
    assert_eq!(
        webpki::build_chain(&algs, &anchors, &intermediates, &ee, 50, &mut budget),
        Err(Error::NameConstraintViolation)
    );
}

#[test]
fn chain_unsupported_algorithm_errors() {
    let anchors = vec![anchor(b"anchor", b"root-key")];
    let ee = cert_signed(
        b"leaf",
        b"anchor",
        spki_bytes(&[6, 1, 9], b"leaf-key"),
        b"root-key",
        false,
        None,
    );
    let intermediates: Vec<Cert> = Vec::new();
    // The supported list omits the chain's signature algorithm.
    let wrong_sig = [FakeAlg { pk_id: vec![6, 1, 9], sig_id: vec![6, 1, 8] }];
    let mut budget = webpki::Budget::new();
    assert_eq!(
        webpki::build_chain(&wrong_sig, &anchors, &intermediates, &ee, 50, &mut budget),
        Err(Error::UnsupportedSignatureAlgorithm)
    );
    // The algorithm matches the signature but not the anchor's key type.
    let wrong_key = [FakeAlg { pk_id: vec![6, 1, 5], sig_id: vec![6, 1, 7] }];
    let mut budget = webpki::Budget::new();
    assert_eq!(
        webpki::build_chain(&wrong_key, &anchors, &intermediates, &ee, 50, &mut budget),
        Err(Error::UnsupportedSignatureAlgorithmForPublicKey)
    );
}

#[test]
fn chain_budget_exhaustion_is_fatal() {
    let algs = [test_alg()];
    let anchors = vec![anchor(b"anchor", b"root-key")];
    let ee = cert_signed(
        b"leaf",
        b"anchor",
        spki_bytes(&[6, 1, 9], b"leaf-key"),
        b"root-key",
        false,
        None,
    );
    let intermediates: Vec<Cert> = Vec::new();
    let mut budget = webpki::Budget { sig_checks: 0, path_builds: 10 };
    assert_eq!(
        webpki::build_chain(&algs, &anchors, &intermediates, &ee, 50, &mut budget),
        Err(Error::MaximumSignatureChecksExceeded)
    );
}

#[test]
fn chain_ca_as_end_entity_rejected() {
    let algs = [test_alg()];
    let anchors = vec![anchor(b"anchor", b"root-key")];
    let mut ee = cert_signed(
        b"leaf",
        b"anchor",
        spki_bytes(&[6, 1, 9], b"leaf-key"),
        b"root-key",
        false,
        None,
    );
    ee.basic_constraints = Some(bc_ca_true());
    let intermediates: Vec<Cert> = Vec::new();
    let mut budget = webpki::Budget::new();
    assert_eq!(
        webpki::build_chain(&algs, &anchors, &intermediates, &ee, 50, &mut budget),
        Err(Error::CaUsedAsEndEntity)
    );
}

#[test]
fn reference_id_trailing_dot_stripped() {
    let d = webpki::DnsName::try_from_ascii(b"example.com.").unwrap();
    assert_eq!(d.as_bytes(), &b"example.com".to_vec());
    assert!(webpki::DnsName::try_from_ascii(b"example.com..").is_err());
    assert!(webpki::DnsName::try_from_ascii(b".example.com").is_err());
}
