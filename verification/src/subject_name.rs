//! Subject names: general names, identity verification, and RFC 5280
//! name-constraint enforcement.

use vstd::prelude::*;
use vstd::slice::slice_subrange;

use crate::cert::Cert;
use crate::der;
use crate::dns_name;
use crate::error::Error;
use crate::ip_address;

verus! {

/// The spec-level image of a [`GeneralName`].
pub enum GeneralNameView {
    /// A dNSName entry.
    DnsName(Seq<u8>),
    /// A directoryName entry.
    DirectoryName(Seq<u8>),
    /// An iPAddress entry.
    IpAddress(Seq<u8>),
    /// A uniformResourceIdentifier entry.
    UniformResourceIdentifier(Seq<u8>),
    /// Any other recognized form, by its low tag number.
    Unsupported(u8),
}

/// One entry of a subject-alternative-name or name-constraint subtree.
/// For the forms the validator does not interpret only the low tag bits
/// are kept, so a constraint of the same form can still force rejection.
pub enum GeneralName {
    /// A dNSName entry.
    DnsName(Vec<u8>),
    /// A directoryName entry.
    DirectoryName(Vec<u8>),
    /// An iPAddress entry.
    IpAddress(Vec<u8>),
    /// A uniformResourceIdentifier entry.
    UniformResourceIdentifier(Vec<u8>),
    /// Any other recognized form, by its low tag number.
    Unsupported(u8),
}

impl View for GeneralName {
    type V = GeneralNameView;

    open spec fn view(&self) -> GeneralNameView {
        match self {
            GeneralName::DnsName(v) => GeneralNameView::DnsName(v@),
            GeneralName::DirectoryName(v) => GeneralNameView::DirectoryName(v@),
            GeneralName::IpAddress(v) => GeneralNameView::IpAddress(v@),
            GeneralName::UniformResourceIdentifier(v) => GeneralNameView::UniformResourceIdentifier(
                v@,
            ),
            GeneralName::Unsupported(t) => GeneralNameView::Unsupported(*t),
        }
    }
}

/// Parses the `GeneralName` at `pos`: the recognized context-specific tags
/// keep their contents, the other tagged forms keep their low tag bits,
/// and any other tag is refused. Yields the name and the offset after it.
pub open spec fn spec_general_name_from_der(b: Seq<u8>, pos: int, end: int) -> Result<
    (GeneralNameView, int),
    Error,
> {
    match der::spec_read_tlv(b, pos, end) {
        Some((t, s, l)) => {
            let v = b.subrange(s, s + l);
            if t == 0x82 {
                Ok((GeneralNameView::DnsName(v), s + l))
            } else if t == 0xa4 {
                Ok((GeneralNameView::DirectoryName(v), s + l))
            } else if t == 0x87 {
                Ok((GeneralNameView::IpAddress(v), s + l))
            } else if t == 0x86 {
                Ok((GeneralNameView::UniformResourceIdentifier(v), s + l))
            } else if t == 0xa0 || t == 0x81 || t == 0xa3 || t == 0xa5 || t == 0x88 {
                Ok((GeneralNameView::Unsupported((t & 0x1f) as u8), s + l))
            } else {
                Err(Error::BadDer)
            }
        },
        None => Err(Error::BadDer),
    }
}

impl GeneralName {
    /// Parses the `GeneralName` at `pos` within `[pos, end)`, as
    /// [`spec_general_name_from_der`] prescribes.
    pub fn from_der(input: &[u8], pos: usize, end: usize) -> (r: Result<(Self, usize), Error>)
        requires
            pos <= end <= input@.len(),
        ensures
            match r {
                Ok((name, next)) => {
                    &&& spec_general_name_from_der(input@, pos as int, end as int) == Ok::<
                        _,
                        Error,
                    >((name@, next as int))
                    &&& pos < next <= end
                },
                Err(e) => spec_general_name_from_der(input@, pos as int, end as int) == Err::<
                    (GeneralNameView, int),
                    _,
                >(e),
            },
    {
        let (t, s, l) = der::read_tag_and_get_value(input, pos, end)?;
        let next = s + l;
        if t == 0x82 {
            Ok((GeneralName::DnsName(der::subvec(input, s, next)), next))
        } else if t == 0xa4 {
            Ok((GeneralName::DirectoryName(der::subvec(input, s, next)), next))
        } else if t == 0x87 {
            Ok((GeneralName::IpAddress(der::subvec(input, s, next)), next))
        } else if t == 0x86 {
            Ok((GeneralName::UniformResourceIdentifier(der::subvec(input, s, next)), next))
        } else if t == 0xa0 || t == 0x81 || t == 0xa3 || t == 0xa5 || t == 0x88 {
            Ok((GeneralName::Unsupported(t & 0x1f), next))
        } else {
            Err(Error::BadDer)
        }
    }
}

/// Scans the SAN entries from `pos` for a dNSName that matches the
/// reference identifier; entries of other forms and presented identifiers
/// that are malformed or do not match are passed over.
pub open spec fn spec_san_matches_dns(b: Seq<u8>, pos: int, end: int, refid: Seq<u8>) -> Result<
    bool,
    Error,
>
    decreases end - pos,
{
    if pos >= end {
        Ok(false)
    } else {
        match spec_general_name_from_der(b, pos, end) {
            Ok((name, next)) => {
                if next <= pos || next > end {
                    Err(Error::BadDer)
                } else {
                    match name {
                        GeneralNameView::DnsName(p) => {
                            if !dns_name::spec_valid_dns_id(p, true) {
                                spec_san_matches_dns(b, next, end, refid)
                            } else if dns_name::spec_presented_matches_reference(p, refid) {
                                Ok(true)
                            } else {
                                spec_san_matches_dns(b, next, end, refid)
                            }
                        },
                        _ => spec_san_matches_dns(b, next, end, refid),
                    }
                }
            },
            Err(e) => Err(e),
        }
    }
}

/// Scans the SAN entries from `pos` for an iPAddress equal to the
/// reference octets.
pub open spec fn spec_san_matches_ip(b: Seq<u8>, pos: int, end: int, refid: Seq<u8>) -> Result<
    bool,
    Error,
>
    decreases end - pos,
{
    if pos >= end {
        Ok(false)
    } else {
        match spec_general_name_from_der(b, pos, end) {
            Ok((name, next)) => {
                if next <= pos || next > end {
                    Err(Error::BadDer)
                } else {
                    match name {
                        GeneralNameView::IpAddress(p) => {
                            if p == refid {
                                Ok(true)
                            } else {
                                spec_san_matches_ip(b, next, end, refid)
                            }
                        },
                        _ => spec_san_matches_ip(b, next, end, refid),
                    }
                }
            },
            Err(e) => Err(e),
        }
    }
}

/// Identity matching is case-insensitive on ASCII through the whole SAN
/// scan: two reference identifiers that agree after lowercasing get the
/// same verdict against every subject-alternative-name value.
pub proof fn lemma_san_scan_case_insensitive(
    b: Seq<u8>,
    pos: int,
    end: int,
    r1: Seq<u8>,
    r2: Seq<u8>,
)
    requires
        dns_name::spec_lower_seq(r1) == dns_name::spec_lower_seq(r2),
    ensures
        spec_san_matches_dns(b, pos, end, r1) == spec_san_matches_dns(b, pos, end, r2),
    decreases end - pos,
{
    if pos < end {
        match spec_general_name_from_der(b, pos, end) {
            Ok((name, next)) => {
                if !(next <= pos || next > end) {
                    match name {
                        GeneralNameView::DnsName(p) => {
                            dns_name::lemma_match_case_insensitive(p, r1);
                            dns_name::lemma_match_case_insensitive(p, r2);
                            lemma_san_scan_case_insensitive(b, next, end, r1, r2);
                        },
                        _ => {
                            lemma_san_scan_case_insensitive(b, next, end, r1, r2);
                        },
                    }
                }
            },
            Err(_) => {},
        }
    }
}

/// Scans the SAN contents `san` for a dNSName matching `refid`, as
/// [`spec_san_matches_dns`] prescribes from offset zero.
pub fn san_matches_dns(san: &[u8], refid: &[u8]) -> (r: Result<bool, Error>)
    ensures
        r == spec_san_matches_dns(san@, 0, san@.len() as int, refid@),
{
    let end = san.len();
    let mut pos: usize = 0;
    loop
        invariant
            pos <= end,
            end == san@.len(),
            spec_san_matches_dns(san@, 0, end as int, refid@) == spec_san_matches_dns(
                san@,
                pos as int,
                end as int,
                refid@,
            ),
        decreases end - pos,
    {
        if pos >= end {
            return Ok(false);
        }
        match GeneralName::from_der(san, pos, end) {
            Ok((name, next)) => {
                match name {
                    GeneralName::DnsName(p) => {
                        match dns_name::presented_id_matches_reference_id(p.as_slice(), refid) {
                            Ok(true) => { return Ok(true) },
                            Ok(false) => {},
                            Err(Error::MalformedDnsIdentifier) => {},
                            Err(e) => { return Err(e) },
                        }
                    },
                    _ => {},
                }
                pos = next;
            },
            Err(e) => { return Err(e) },
        }
    }
}

/// Scans the SAN contents `san` for an iPAddress equal to `refid`, as
/// [`spec_san_matches_ip`] prescribes from offset zero.
pub fn san_matches_ip(san: &[u8], refid: &[u8]) -> (r: Result<bool, Error>)
    ensures
        r == spec_san_matches_ip(san@, 0, san@.len() as int, refid@),
{
    let end = san.len();
    let mut pos: usize = 0;
    loop
        invariant
            pos <= end,
            end == san@.len(),
            spec_san_matches_ip(san@, 0, end as int, refid@) == spec_san_matches_ip(
                san@,
                pos as int,
                end as int,
                refid@,
            ),
        decreases end - pos,
    {
        if pos >= end {
            return Ok(false);
        }
        match GeneralName::from_der(san, pos, end) {
            Ok((name, next)) => {
                match name {
                    GeneralName::IpAddress(p) => {
                        if ip_address::presented_id_matches_reference_id(p.as_slice(), refid) {
                            return Ok(true);
                        }
                    },
                    _ => {},
                }
                pos = next;
            },
            Err(e) => { return Err(e) },
        }
    }
}

/// The attribute OID of the subject Common Name.
pub open spec fn spec_cn_oid() -> Seq<u8> {
    seq![85u8, 4, 3]
}

/// Scans the attributes of the first relative distinguished name for the
/// Common Name, from `pos`: each attribute is an OID followed by a value;
/// a Common Name must be a UTF8String and must close the window.
pub open spec fn spec_cn_attrs(b: Seq<u8>, pos: int, end: int) -> Result<Option<Seq<u8>>, Error>
    decreases end - pos,
{
    if pos >= end {
        Ok(None)
    } else {
        match der::spec_read_tlv(b, pos, end) {
            Some((t, s, l)) => {
                if t != der::TAG_OID {
                    Err(Error::BadDer)
                } else if b.subrange(s, s + l) == spec_cn_oid() {
                    match der::spec_read_tlv(b, s + l, end) {
                        Some((t2, s2, l2)) => {
                            if t2 != der::TAG_UTF8_STRING {
                                Err(Error::BadDer)
                            } else if s2 + l2 == end {
                                Ok(Some(b.subrange(s2, s2 + l2)))
                            } else {
                                Err(Error::BadDer)
                            }
                        },
                        None => Err(Error::BadDer),
                    }
                } else {
                    match der::spec_read_tlv(b, s + l, end) {
                        Some((_, s2, l2)) => {
                            if s2 + l2 <= s + l {
                                Err(Error::BadDer)
                            } else {
                                spec_cn_attrs(b, s2 + l2, end)
                            }
                        },
                        None => Err(Error::BadDer),
                    }
                }
            },
            None => Err(Error::BadDer),
        }
    }
}

/// The Common Name of the first relative distinguished name of the
/// subject `Name` contents `b`: the first RDN must be a SET holding one
/// attribute SEQUENCE; inside it, a Common Name attribute yields its
/// UTF8String value.
pub open spec fn spec_common_name(b: Seq<u8>) -> Result<Option<Seq<u8>>, Error> {
    match der::spec_read_tlv(b, 0, b.len() as int) {
        Some((t1, s1, l1)) => {
            if t1 != der::TAG_SET {
                Err(Error::BadDer)
            } else {
                match der::spec_read_tlv(b, s1, s1 + l1) {
                    Some((t2, s2, l2)) => {
                        if t2 != der::TAG_SEQUENCE {
                            Err(Error::BadDer)
                        } else if s2 + l2 != s1 + l1 {
                            Err(Error::BadDer)
                        } else {
                            spec_cn_attrs(b, s2, s2 + l2)
                        }
                    },
                    None => Err(Error::BadDer),
                }
            }
        },
        None => Err(Error::BadDer),
    }
}

/// Reads the Common Name out of the subject `Name` contents, as
/// [`spec_common_name`] prescribes.
pub fn common_name(subject: &[u8]) -> (r: Result<Option<Vec<u8>>, Error>)
    ensures
        match r {
            Ok(Some(cn)) => spec_common_name(subject@) == Ok::<_, Error>(Some(cn@)),
            Ok(None) => spec_common_name(subject@) == Ok::<Option<Seq<u8>>, Error>(None),
            Err(e) => spec_common_name(subject@) == Err::<Option<Seq<u8>>, Error>(e),
        },
{
    let slen = subject.len();
    let (s1, l1) = match der::expect_tag_and_get_value(subject, 0, slen, der::TAG_SET) {
        Ok(v) => v,
        Err(e) => { return Err(Error::BadDer) },
    };
    let rdn_end = s1 + l1;
    let (s2, l2) = match der::expect_tag_and_get_value(subject, s1, rdn_end, der::TAG_SEQUENCE) {
        Ok(v) => v,
        Err(e) => { return Err(Error::BadDer) },
    };
    if s2 + l2 != rdn_end {
        return Err(Error::BadDer);
    }
    let end = s2 + l2;
    let mut pos: usize = s2;
    loop
        invariant
            s2 <= pos <= end <= subject@.len(),
            spec_cn_attrs(subject@, s2 as int, end as int) == spec_cn_attrs(
                subject@,
                pos as int,
                end as int,
            ),
            spec_common_name(subject@) == spec_cn_attrs(subject@, s2 as int, end as int),
        decreases end - pos,
    {
        if pos >= end {
            return Ok(None);
        }
        let (os, ol) = match der::expect_tag_and_get_value(subject, pos, end, der::TAG_OID) {
            Ok(v) => v,
            Err(e) => { return Err(Error::BadDer) },
        };
        let oid = slice_subrange(subject, os, os + ol);
        let cn_oid: Vec<u8> = vec![85u8, 4, 3];
        let is_cn = crate::bytes::bytes_eq(oid, cn_oid.as_slice());
        proof {
            assert(cn_oid@ =~= spec_cn_oid());
        }
        if is_cn {
            let (vs, vl) = match der::expect_tag_and_get_value(
                subject,
                os + ol,
                end,
                der::TAG_UTF8_STRING,
            ) {
                Ok(v) => v,
                Err(e) => { return Err(Error::BadDer) },
            };
            if vs + vl == end {
                return Ok(Some(der::subvec(subject, vs, vs + vl)));
            } else {
                return Err(Error::BadDer);
            }
        } else {
            let (_, vs, vl) = match der::read_tag_and_get_value(subject, os + ol, end) {
                Ok(v) => v,
                Err(e) => { return Err(Error::BadDer) },
            };
            pos = vs + vl;
        }
    }
}

/// Parses the `GeneralSubtree` at `pos`: a SEQUENCE holding exactly one
/// `GeneralName`; `minimum` and `maximum` must be absent, so any octet
/// after the base name is refused.
pub open spec fn spec_general_subtree(b: Seq<u8>, pos: int, end: int) -> Result<
    (GeneralNameView, int),
    Error,
> {
    match der::spec_read_tlv(b, pos, end) {
        Some((t, s, l)) => {
            if t != der::TAG_SEQUENCE {
                Err(Error::BadDer)
            } else {
                match spec_general_name_from_der(b, s, s + l) {
                    Ok((name, next)) => {
                        if next == s + l {
                            Ok((name, s + l))
                        } else {
                            Err(Error::BadDer)
                        }
                    },
                    Err(e) => Err(e),
                }
            }
        },
        None => Err(Error::BadDer),
    }
}

/// How one presented name fares against one constraint base: `None` where
/// the forms differ (the constraint is silent on this name), `Some(m)`
/// where the base speaks, and an error where the base is malformed or of
/// a form that must force rejection. Directory-name constraints are not
/// interpreted: they never permit and always exclude.
pub open spec fn spec_constraint_decision(
    name: GeneralNameView,
    base: GeneralNameView,
    excluded: bool,
) -> Result<Option<bool>, Error> {
    match (name, base) {
        (GeneralNameView::DnsName(n), GeneralNameView::DnsName(c)) => Ok(
            Some(dns_name::spec_dns_matches_constraint(n, c)),
        ),
        (GeneralNameView::DirectoryName(n), GeneralNameView::DirectoryName(c)) => Ok(
            Some(excluded),
        ),
        (GeneralNameView::IpAddress(n), GeneralNameView::IpAddress(c)) => match ip_address::spec_ip_constraint_result(
            n,
            c,
        ) {
            Ok(m) => Ok(Some(m)),
            Err(e) => Err(e),
        },
        (GeneralNameView::Unsupported(tn), GeneralNameView::Unsupported(tc)) => if tn == tc {
            Err(Error::NameConstraintViolation)
        } else {
            Ok(None)
        },
        _ => Ok(None),
    }
}

/// Scans the permitted subtrees in `[pos, end)` against `name`, yielding
/// whether any base of the name's form matched and whether any failed to
/// match; `m` and `mm` carry what earlier subtrees already decided.
pub open spec fn spec_scan_permitted(
    b: Seq<u8>,
    pos: int,
    end: int,
    name: GeneralNameView,
    m: bool,
    mm: bool,
) -> Result<(bool, bool), Error>
    decreases end - pos,
{
    if pos >= end {
        Ok((m, mm))
    } else {
        match spec_general_subtree(b, pos, end) {
            Ok((base, next)) => {
                if next <= pos || next > end {
                    Err(Error::BadDer)
                } else {
                    match spec_constraint_decision(name, base, false) {
                        Err(e) => Err(e),
                        Ok(decision) => spec_scan_permitted(
                            b,
                            next,
                            end,
                            name,
                            m || decision == Some(true),
                            mm || decision == Some(false),
                        ),
                    }
                }
            },
            Err(e) => Err(e),
        }
    }
}

/// Scans the excluded subtrees in `[pos, end)` against `name`: the first
/// base of the name's form that matches rejects the name.
pub open spec fn spec_scan_excluded(b: Seq<u8>, pos: int, end: int, name: GeneralNameView) -> Result<
    (),
    Error,
>
    decreases end - pos,
{
    if pos >= end {
        Ok(())
    } else {
        match spec_general_subtree(b, pos, end) {
            Ok((base, next)) => {
                if next <= pos || next > end {
                    Err(Error::BadDer)
                } else {
                    match spec_constraint_decision(name, base, true) {
                        Err(e) => Err(e),
                        Ok(Some(true)) => Err(Error::NameConstraintViolation),
                        Ok(_) => spec_scan_excluded(b, next, end, name),
                    }
                }
            },
            Err(e) => Err(e),
        }
    }
}

/// One presented name against both subtree lists: where permitted
/// subtrees of its form exist, at least one must match; no excluded
/// subtree of its form may match.
pub open spec fn spec_check_name(
    b: Seq<u8>,
    permitted: Option<(int, int)>,
    excluded: Option<(int, int)>,
    name: GeneralNameView,
) -> Result<(), Error> {
    let pres = match permitted {
        Some((s, e)) => spec_scan_permitted(b, s, e, name, false, false),
        None => Ok((false, false)),
    };
    match pres {
        Err(e) => Err(e),
        Ok((m, mm)) => {
            if mm && !m {
                Err(Error::NameConstraintViolation)
            } else {
                match excluded {
                    Some((s, e)) => spec_scan_excluded(b, s, e, name),
                    None => Ok(()),
                }
            }
        },
    }
}

/// The spec image of an optional byte window.
pub open spec fn spec_win(w: Option<(usize, usize)>) -> Option<(int, int)> {
    match w {
        Some((s, e)) => Some((s as int, e as int)),
        None => None,
    }
}

/// Scans the permitted subtrees against `name`, as
/// [`spec_scan_permitted`] prescribes from clean accumulators.
fn scan_permitted_exec(name: &GeneralName, nc: &[u8], ps: usize, pe: usize) -> (r: Result<
    (bool, bool),
    Error,
>)
    requires
        ps <= pe <= nc@.len(),
    ensures
        r == spec_scan_permitted(nc@, ps as int, pe as int, name@, false, false),
{
    let mut pos = ps;
    let mut m = false;
    let mut mm = false;
    loop
        invariant
            ps <= pos <= pe <= nc@.len(),
            spec_scan_permitted(nc@, ps as int, pe as int, name@, false, false)
                == spec_scan_permitted(nc@, pos as int, pe as int, name@, m, mm),
        decreases pe - pos,
    {
        if pos >= pe {
            return Ok((m, mm));
        }
        match scan_one_subtree(name, nc, pos, pe, false) {
            Ok((decision, next)) => {
                match decision {
                    Some(true) => { m = true },
                    Some(false) => { mm = true },
                    None => {},
                }
                pos = next;
            },
            Err(e) => { return Err(e) },
        }
    }
}

/// Scans the excluded subtrees against `name`, as
/// [`spec_scan_excluded`] prescribes.
fn scan_excluded_exec(name: &GeneralName, nc: &[u8], es: usize, ee: usize) -> (r: Result<
    (),
    Error,
>)
    requires
        es <= ee <= nc@.len(),
    ensures
        r == spec_scan_excluded(nc@, es as int, ee as int, name@),
{
    let mut pos = es;
    loop
        invariant
            es <= pos <= ee <= nc@.len(),
            spec_scan_excluded(nc@, es as int, ee as int, name@) == spec_scan_excluded(
                nc@,
                pos as int,
                ee as int,
                name@,
            ),
        decreases ee - pos,
    {
        if pos >= ee {
            return Ok(());
        }
        match scan_one_subtree(name, nc, pos, ee, true) {
            Ok((decision, next)) => {
                match decision {
                    Some(true) => { return Err(Error::NameConstraintViolation) },
                    _ => {},
                }
                pos = next;
            },
            Err(e) => { return Err(e) },
        }
    }
}

/// Checks one presented name against the parsed subtree windows of a
/// name-constraints value, as [`spec_check_name`] prescribes. `nc` is the
/// name-constraints extension contents; the windows point into it.
pub fn check_presented_id_conforms_to_constraints(
    name: &GeneralName,
    nc: &[u8],
    permitted: Option<(usize, usize)>,
    excluded: Option<(usize, usize)>,
) -> (r: Result<(), Error>)
    requires
        match permitted {
            Some((s, e)) => s <= e <= nc@.len(),
            None => true,
        },
        match excluded {
            Some((s, e)) => s <= e <= nc@.len(),
            None => true,
        },
    ensures
        r == spec_check_name(nc@, spec_win(permitted), spec_win(excluded), name@),
{
    let (m, mm) = match permitted {
        Some((ps, pe)) => {
            match scan_permitted_exec(name, nc, ps, pe) {
                Ok(v) => v,
                Err(e) => { return Err(e) },
            }
        },
        None => (false, false),
    };
    if mm && !m {
        return Err(Error::NameConstraintViolation);
    }
    match excluded {
        Some((es, ee)) => scan_excluded_exec(name, nc, es, ee),
        None => Ok(()),
    }
}

/// Reads the `GeneralSubtree` at `pos` and decides it against `name`:
/// yields the decision of [`spec_constraint_decision`] and the offset
/// after the subtree.
fn scan_one_subtree(name: &GeneralName, nc: &[u8], pos: usize, end: usize, excluded: bool) -> (r:
    Result<(Option<bool>, usize), Error>)
    requires
        pos < end <= nc@.len(),
    ensures
        match r {
            Ok((decision, next)) => {
                &&& pos < next <= end
                &&& match spec_general_subtree(nc@, pos as int, end as int) {
                    Ok((base, n2)) => n2 == next && spec_constraint_decision(name@, base, excluded)
                        == Ok::<Option<bool>, Error>(decision),
                    Err(_) => false,
                }
            },
            Err(e) => {
                match spec_general_subtree(nc@, pos as int, end as int) {
                    Ok((base, _)) => spec_constraint_decision(name@, base, excluded) == Err::<
                        Option<bool>,
                        Error,
                    >(e),
                    Err(e2) => e == e2,
                }
            },
        },
{
    let (s, l) = match der::expect_tag_and_get_value(nc, pos, end, der::TAG_SEQUENCE) {
        Ok(v) => v,
        Err(_) => { return Err(Error::BadDer) },
    };
    let (base, next) = GeneralName::from_der(nc, s, s + l)?;
    if next != s + l {
        return Err(Error::BadDer);
    }
    let decision: Option<bool> = match (name, &base) {
        (GeneralName::DnsName(n), GeneralName::DnsName(c)) => Some(
            dns_name::presented_id_matches_constraint(n.as_slice(), c.as_slice()),
        ),
        (GeneralName::DirectoryName(_), GeneralName::DirectoryName(_)) => Some(excluded),
        (GeneralName::IpAddress(n), GeneralName::IpAddress(c)) => {
            match ip_address::presented_id_matches_constraint(n.as_slice(), c.as_slice()) {
                Ok(m) => Some(m),
                Err(e) => { return Err(e) },
            }
        },
        (GeneralName::Unsupported(tn), GeneralName::Unsupported(tc)) => {
            if *tn == *tc {
                return Err(Error::NameConstraintViolation);
            } else {
                None
            }
        },
        _ => None,
    };
    Ok((decision, s + l))
}

/// Whether the subject Common Name is offered as a DNS name during
/// name-constraint enforcement. It is never used for identity matching.
#[derive(Clone, Copy)]
pub enum SubjectCommonNameContents {
    /// Offer the Common Name as a dNSName.
    DnsName,
    /// Leave the Common Name out.
    Ignore,
}

/// The name-relevant image of one certificate: its SAN extension
/// contents, if any, and its subject `Name` contents.
pub open spec fn spec_cert_names(san: Option<Vec<u8>>, subject: Vec<u8>) -> (
    Option<Seq<u8>>,
    Seq<u8>,
) {
    (
        match san {
            Some(v) => Some(v@),
            None => None,
        },
        subject@,
    )
}

/// Checks every name of one certificate against the subtree windows: the
/// SAN entries in order, the subject as a directoryName, and, where
/// `cn_dns` holds, the subject Common Name as a dNSName.
pub open spec fn spec_check_cert_names(
    names: (Option<Seq<u8>>, Seq<u8>),
    cn_dns: bool,
    nc: Seq<u8>,
    permitted: Option<(int, int)>,
    excluded: Option<(int, int)>,
) -> Result<(), Error> {
    let san_res = match names.0 {
        Some(s) => spec_check_san_names(s, 0, s.len() as int, nc, permitted, excluded),
        None => Ok(()),
    };
    match san_res {
        Err(e) => Err(e),
        Ok(()) => match spec_check_name(
            nc,
            permitted,
            excluded,
            GeneralNameView::DirectoryName(names.1),
        ) {
            Err(e) => Err(e),
            Ok(()) => {
                if cn_dns {
                    match spec_common_name(names.1) {
                        Err(e) => Err(e),
                        Ok(None) => Ok(()),
                        Ok(Some(cn)) => spec_check_name(
                            nc,
                            permitted,
                            excluded,
                            GeneralNameView::DnsName(cn),
                        ),
                    }
                } else {
                    Ok(())
                }
            },
        },
    }
}

/// Checks each SAN entry from `pos` against the subtree windows.
pub open spec fn spec_check_san_names(
    b: Seq<u8>,
    pos: int,
    end: int,
    nc: Seq<u8>,
    permitted: Option<(int, int)>,
    excluded: Option<(int, int)>,
) -> Result<(), Error>
    decreases end - pos,
{
    if pos >= end {
        Ok(())
    } else {
        match spec_general_name_from_der(b, pos, end) {
            Ok((name, next)) => {
                if next <= pos || next > end {
                    Err(Error::BadDer)
                } else {
                    match spec_check_name(nc, permitted, excluded, name) {
                        Err(e) => Err(e),
                        Ok(()) => spec_check_san_names(b, next, end, nc, permitted, excluded),
                    }
                }
            },
            Err(e) => Err(e),
        }
    }
}

/// Checks the names of every certificate of `chain`, topmost first, as
/// [`spec_check_cert_names`] prescribes per certificate.
pub open spec fn spec_check_chain_names(
    chain: Seq<(Option<Seq<u8>>, Seq<u8>)>,
    i: int,
    cn_dns: bool,
    nc: Seq<u8>,
    permitted: Option<(int, int)>,
    excluded: Option<(int, int)>,
) -> Result<(), Error>
    decreases chain.len() - i,
{
    if i < 0 || i >= chain.len() {
        Ok(())
    } else {
        match spec_check_cert_names(chain[i], cn_dns, nc, permitted, excluded) {
            Err(e) => Err(e),
            Ok(()) => spec_check_chain_names(chain, i + 1, cn_dns, nc, permitted, excluded),
        }
    }
}

/// The two subtree windows of a name-constraints value: an optional
/// permitted list under context tag 0 and an optional excluded list under
/// context tag 1, with nothing after them.
pub open spec fn spec_subtree_windows(nc: Seq<u8>) -> Result<
    (Option<(int, int)>, Option<(int, int)>),
    Error,
> {
    let (permitted, p1) = if nc.len() > 0 && nc[0] == der::TAG_CONTEXT_SPECIFIC_CONSTRUCTED_0 {
        match der::spec_read_tlv(nc, 0, nc.len() as int) {
            Some((t, s, l)) => (Some(Some((s, s + l))), s + l),
            None => (None, 0),
        }
    } else {
        (Some(None), 0)
    };
    match permitted {
        None => Err(Error::BadDer),
        Some(pwin) => {
            let (excluded, p2) = if p1 < nc.len() && nc[p1]
                == der::TAG_CONTEXT_SPECIFIC_CONSTRUCTED_1 {
                match der::spec_read_tlv(nc, p1, nc.len() as int) {
                    Some((t, s, l)) => (Some(Some((s, s + l))), s + l),
                    None => (None, 0),
                }
            } else {
                (Some(None), p1)
            };
            match excluded {
                None => Err(Error::BadDer),
                Some(ewin) => {
                    if p2 != nc.len() {
                        Err(Error::BadDer)
                    } else {
                        Ok((pwin, ewin))
                    }
                },
            }
        },
    }
}

/// Enforces a CA's name constraints over every certificate below it:
/// both subtree lists are parsed out of `nc` and every name of every
/// chain member is held to them, as [`spec_check_chain_names`]
/// prescribes over the chain image.
#[verifier::rlimit(100)]
pub fn check_name_constraints(
    nc: &Vec<u8>,
    cn_contents: SubjectCommonNameContents,
    ee: &Cert,
    intermediates: &Vec<Cert>,
    path: &Vec<usize>,
) -> (r: Result<(), Error>)
    requires
        path@.len() < usize::MAX,
        forall|j: int| 0 <= j < path@.len() ==> (#[trigger] path@[j]) < intermediates@.len(),
    ensures
        match spec_subtree_windows(nc@) {
            Err(e) => r == Err::<(), Error>(e),
            Ok((pwin, ewin)) => r == spec_check_chain_names(
                spec_chain_names(ee, intermediates, path),
                0,
                cn_contents is DnsName,
                nc@,
                pwin,
                ewin,
            ),
        },
{
    let nlen = nc.len();
    let ncs = nc.as_slice();
    let (permitted, p1): (Option<(usize, usize)>, usize) = if der::peek_tag(
        ncs,
        0,
        nlen,
        der::TAG_CONTEXT_SPECIFIC_CONSTRUCTED_0,
    ) {
        let (s, l) = match der::read_tag_and_get_value(ncs, 0, nlen) {
            Ok((_, s, l)) => (s, l),
            Err(e) => { return Err(e) },
        };
        (Some((s, s + l)), s + l)
    } else {
        (None, 0)
    };
    let (excluded, p2): (Option<(usize, usize)>, usize) = if der::peek_tag(
        ncs,
        p1,
        nlen,
        der::TAG_CONTEXT_SPECIFIC_CONSTRUCTED_1,
    ) {
        let (s, l) = match der::read_tag_and_get_value(ncs, p1, nlen) {
            Ok((_, s, l)) => (s, l),
            Err(e) => { return Err(e) },
        };
        (Some((s, s + l)), s + l)
    } else {
        (None, p1)
    };
    if p2 != nlen {
        return Err(Error::BadDer);
    }
    proof {
        assert(spec_subtree_windows(nc@) == Ok::<(Option<(int, int)>, Option<(int, int)>), Error>(
            (spec_win(permitted), spec_win(excluded)),
        ));
    }
    let cn_dns = match cn_contents {
        SubjectCommonNameContents::DnsName => true,
        SubjectCommonNameContents::Ignore => false,
    };
    check_chain_names_exec(0, ee, intermediates, path, cn_dns, ncs, permitted, excluded)
}

/// Checks the names of the chain members from position `j` on, topmost
/// first, as [`spec_check_chain_names`] prescribes.
fn check_chain_names_exec(
    j: usize,
    ee: &Cert,
    intermediates: &Vec<Cert>,
    path: &Vec<usize>,
    cn_dns: bool,
    nc: &[u8],
    permitted: Option<(usize, usize)>,
    excluded: Option<(usize, usize)>,
) -> (r: Result<(), Error>)
    requires
        path@.len() < usize::MAX,
        j <= path@.len() + 1,
        forall|k: int| 0 <= k < path@.len() ==> (#[trigger] path@[k]) < intermediates@.len(),
        match permitted {
            Some((s, e)) => s <= e <= nc@.len(),
            None => true,
        },
        match excluded {
            Some((s, e)) => s <= e <= nc@.len(),
            None => true,
        },
    ensures
        r == spec_check_chain_names(
            spec_chain_names(ee, intermediates, path),
            j as int,
            cn_dns,
            nc@,
            spec_win(permitted),
            spec_win(excluded),
        ),
    decreases path@.len() + 1 - j,
{
    let ghost chain = spec_chain_names(ee, intermediates, path);
    if j >= path.len() + 1 {
        return Ok(());
    }
    let cert: &Cert = if j < path.len() {
        let idx = path[path.len() - 1 - j];
        &intermediates[idx]
    } else {
        ee
    };
    proof {
        assert(chain[j as int] == spec_cert_names(cert.subject_alt_name, cert.subject));
    }
    match check_one_cert_names(cert, cn_dns, nc, permitted, excluded) {
        Ok(()) => {},
        Err(e) => { return Err(e) },
    }
    check_chain_names_exec(j + 1, ee, intermediates, path, cn_dns, nc, permitted, excluded)
}

/// The name images of the chain from its top CA down to the end entity:
/// `path` holds intermediate indices from the end entity upward.
pub open spec fn spec_chain_names_seq(
    ee: Cert,
    intermediates: Seq<Cert>,
    path: Seq<usize>,
) -> Seq<(Option<Seq<u8>>, Seq<u8>)> {
    Seq::new(
        (path.len() + 1) as nat,
        |j: int|
            if j < path.len() {
                spec_cert_names(
                    intermediates[path[path.len() - 1 - j] as int].subject_alt_name,
                    intermediates[path[path.len() - 1 - j] as int].subject,
                )
            } else {
                spec_cert_names(ee.subject_alt_name, ee.subject)
            },
    )
}

/// [`spec_chain_names_seq`] over the exec views.
pub open spec fn spec_chain_names(ee: &Cert, intermediates: &Vec<Cert>, path: &Vec<usize>) -> Seq<
    (Option<Seq<u8>>, Seq<u8>),
> {
    spec_chain_names_seq(*ee, intermediates@, path@)
}

/// Checks each SAN entry from `pos` against the subtree windows, as
/// [`spec_check_san_names`] prescribes.
fn check_san_names_exec(
    san: &[u8],
    pos: usize,
    nc: &[u8],
    permitted: Option<(usize, usize)>,
    excluded: Option<(usize, usize)>,
) -> (r: Result<(), Error>)
    requires
        pos <= san@.len(),
        match permitted {
            Some((s, e)) => s <= e <= nc@.len(),
            None => true,
        },
        match excluded {
            Some((s, e)) => s <= e <= nc@.len(),
            None => true,
        },
    ensures
        r == spec_check_san_names(
            san@,
            pos as int,
            san@.len() as int,
            nc@,
            spec_win(permitted),
            spec_win(excluded),
        ),
    decreases san@.len() - pos,
{
    if pos >= san.len() {
        return Ok(());
    }
    let (name, next) = match GeneralName::from_der(san, pos, san.len()) {
        Ok(v) => v,
        Err(e) => { return Err(e) },
    };
    match check_presented_id_conforms_to_constraints(&name, nc, permitted, excluded) {
        Ok(()) => {},
        Err(e) => { return Err(e) },
    }
    check_san_names_exec(san, next, nc, permitted, excluded)
}

/// Checks every name of one certificate against the subtree windows, as
/// [`spec_check_cert_names`] prescribes: the SAN entries, the subject as
/// a directoryName, and optionally the Common Name as a dNSName.
#[verifier::rlimit(100)]
fn check_one_cert_names(
    cert: &Cert,
    cn_dns: bool,
    nc: &[u8],
    permitted: Option<(usize, usize)>,
    excluded: Option<(usize, usize)>,
) -> (r: Result<(), Error>)
    requires
        match permitted {
            Some((s, e)) => s <= e <= nc@.len(),
            None => true,
        },
        match excluded {
            Some((s, e)) => s <= e <= nc@.len(),
            None => true,
        },
    ensures
        r == spec_check_cert_names(
            spec_cert_names(cert.subject_alt_name, cert.subject),
            cn_dns,
            nc@,
            spec_win(permitted),
            spec_win(excluded),
        ),
{
    match &cert.subject_alt_name {
        Some(san) => {
            match check_san_names_exec(san.as_slice(), 0, nc, permitted, excluded) {
                Ok(()) => {},
                Err(e) => { return Err(e) },
            }
        },
        None => {},
    }
    let dir_name = GeneralName::DirectoryName(crate::der::subvec(
        cert.subject.as_slice(),
        0,
        cert.subject.len(),
    ));
    proof {
        assert(cert.subject@.subrange(0, cert.subject@.len() as int) =~= cert.subject@);
    }
    match check_presented_id_conforms_to_constraints(&dir_name, nc, permitted, excluded) {
        Ok(()) => {},
        Err(e) => { return Err(e) },
    }
    if cn_dns {
        match common_name(cert.subject.as_slice()) {
            Ok(Some(cn)) => {
                let cn_name = GeneralName::DnsName(cn);
                check_presented_id_conforms_to_constraints(&cn_name, nc, permitted, excluded)
            },
            Ok(None) => Ok(()),
            Err(e) => Err(e),
        }
    } else {
        Ok(())
    }
}

/// The subject the caller intends to authenticate: a DNS reference
/// identifier or an IP address.
pub enum SubjectName {
    /// A DNS reference identifier.
    DnsName(crate::dns_name::DnsName),
    /// An IP address of four or sixteen octets.
    IpAddress(crate::ip_address::IpAddr),
}

/// Decides whether the certificate vouches for `dns_name`: only the SAN
/// entries are consulted, the first matching dNSName accepts, and a
/// certificate without a match is refused with `CertNotValidForName`.
/// The subject Common Name is never used for identity matching.
pub fn verify_cert_dns_name(
    cert: &crate::end_entity::EndEntityCert,
    dns_name: &crate::dns_name::DnsName,
) -> (r: Result<(), Error>)
    ensures
        r == (match cert.inner.subject_alt_name {
            Some(san) => match spec_san_matches_dns(san@, 0, san@.len() as int, dns_name@) {
                Ok(true) => Ok::<(), Error>(()),
                Ok(false) => Err(Error::CertNotValidForName),
                Err(e) => Err(e),
            },
            None => Err(Error::CertNotValidForName),
        }),
{
    match &cert.inner.subject_alt_name {
        Some(san) => {
            match san_matches_dns(san.as_slice(), dns_name.as_bytes().as_slice()) {
                Ok(true) => Ok(()),
                Ok(false) => Err(Error::CertNotValidForName),
                Err(e) => Err(e),
            }
        },
        None => Err(Error::CertNotValidForName),
    }
}

/// Decides whether the certificate vouches for `subject_name`: DNS names
/// go through [`verify_cert_dns_name`]; IP addresses are compared
/// byte-exactly against the SAN iPAddress entries alone.
pub fn verify_cert_subject_name(
    cert: &crate::end_entity::EndEntityCert,
    subject_name: &SubjectName,
) -> (r: Result<(), Error>)
    ensures
        r == (match subject_name {
            SubjectName::DnsName(d) => match cert.inner.subject_alt_name {
                Some(san) => match spec_san_matches_dns(san@, 0, san@.len() as int, d@) {
                    Ok(true) => Ok::<(), Error>(()),
                    Ok(false) => Err(Error::CertNotValidForName),
                    Err(e) => Err(e),
                },
                None => Err(Error::CertNotValidForName),
            },
            SubjectName::IpAddress(ip) => match cert.inner.subject_alt_name {
                Some(san) => match spec_san_matches_ip(san@, 0, san@.len() as int, ip@) {
                    Ok(true) => Ok::<(), Error>(()),
                    Ok(false) => Err(Error::CertNotValidForName),
                    Err(e) => Err(e),
                },
                None => Err(Error::CertNotValidForName),
            },
        }),
{
    match subject_name {
        SubjectName::DnsName(d) => verify_cert_dns_name(cert, d),
        SubjectName::IpAddress(ip) => {
            match &cert.inner.subject_alt_name {
                Some(san) => {
                    match san_matches_ip(san.as_slice(), ip.as_bytes().as_slice()) {
                        Ok(true) => Ok(()),
                        Ok(false) => Err(Error::CertNotValidForName),
                        Err(e) => Err(e),
                    }
                },
                None => Err(Error::CertNotValidForName),
            }
        },
    }
}

/// The spec-level image of a [`GeneralDnsName`].
pub enum GeneralDnsNameView {
    /// A plain DNS name.
    DnsName(Seq<u8>),
    /// A wildcard DNS name, `*.` followed by a plain suffix.
    Wildcard(Seq<u8>),
}

/// A DNS name a certificate presents: plain, or with a leftmost
/// wildcard label.
#[derive(Debug, Clone)]
pub enum GeneralDnsName {
    /// A plain DNS name.
    DnsName(Vec<u8>),
    /// A wildcard DNS name, `*.` followed by a plain suffix.
    Wildcard(Vec<u8>),
}

impl View for GeneralDnsName {
    type V = GeneralDnsNameView;

    open spec fn view(&self) -> GeneralDnsNameView {
        match self {
            GeneralDnsName::DnsName(v) => GeneralDnsNameView::DnsName(v@),
            GeneralDnsName::Wildcard(v) => GeneralDnsNameView::Wildcard(v@),
        }
    }
}

/// The image of a vector of presented DNS names.
pub open spec fn spec_gdn_seq(v: Seq<GeneralDnsName>) -> Seq<GeneralDnsNameView> {
    v.map_values(|g: GeneralDnsName| g@)
}

/// How one presented dNSName value is listed: plain where it is a valid
/// identifier, wildcard where it carries a leading `*.`, and not at all
/// where it is neither.
pub open spec fn spec_classify_dns(p: Seq<u8>, acc: Seq<GeneralDnsNameView>) -> Seq<
    GeneralDnsNameView,
> {
    if dns_name::spec_valid_dns_id(p, false) {
        acc.push(GeneralDnsNameView::DnsName(p))
    } else if dns_name::spec_wildcard_form(p) && dns_name::spec_valid_dns_id(p, true) {
        acc.push(GeneralDnsNameView::Wildcard(p))
    } else {
        acc
    }
}

/// Collects the dNSName SAN entries from `pos` on into `acc`, in order.
pub open spec fn spec_collect_san_dns(b: Seq<u8>, pos: int, end: int, acc: Seq<GeneralDnsNameView>) -> Result<
    Seq<GeneralDnsNameView>,
    Error,
>
    decreases end - pos,
{
    if pos >= end {
        Ok(acc)
    } else {
        match spec_general_name_from_der(b, pos, end) {
            Ok((name, next)) => {
                if next <= pos || next > end {
                    Err(Error::BadDer)
                } else {
                    match name {
                        GeneralNameView::DnsName(p) => spec_collect_san_dns(
                            b,
                            next,
                            end,
                            spec_classify_dns(p, acc),
                        ),
                        _ => spec_collect_san_dns(b, next, end, acc),
                    }
                }
            },
            Err(e) => Err(e),
        }
    }
}

/// Every DNS name the certificate presents, in SAN order, with the
/// subject Common Name last where it parses and is itself a DNS name.
pub open spec fn spec_list_dns_names(san: Option<Seq<u8>>, subject: Seq<u8>) -> Result<
    Seq<GeneralDnsNameView>,
    Error,
> {
    let san_res = match san {
        Some(s) => spec_collect_san_dns(s, 0, s.len() as int, Seq::empty()),
        None => Ok(Seq::empty()),
    };
    match san_res {
        Err(e) => Err(e),
        Ok(names) => match spec_common_name(subject) {
            Err(e) => Err(e),
            Ok(None) => Ok(names),
            Ok(Some(cn)) => Ok(spec_classify_dns(cn, names)),
        },
    }
}

/// Lists every DNS name the certificate presents, as
/// [`spec_list_dns_names`] prescribes over the SAN contents and the
/// subject.
pub fn list_cert_dns_names(cert: &crate::end_entity::EndEntityCert) -> (r: Result<
    Vec<GeneralDnsName>,
    Error,
>)
    ensures
        match r {
            Ok(names) => spec_list_dns_names(
                match cert.inner.subject_alt_name {
                    Some(s) => Some(s@),
                    None => None,
                },
                cert.inner.subject@,
            ) == Ok::<_, Error>(spec_gdn_seq(names@)),
            Err(e) => spec_list_dns_names(
                match cert.inner.subject_alt_name {
                    Some(s) => Some(s@),
                    None => None,
                },
                cert.inner.subject@,
            ) == Err::<Seq<GeneralDnsNameView>, Error>(e),
        },
{
    let mut names: Vec<GeneralDnsName> = Vec::new();
    proof {
        assert(spec_gdn_seq(names@) =~= Seq::<GeneralDnsNameView>::empty());
    }
    match &cert.inner.subject_alt_name {
        Some(san) => {
            match collect_san_dns_exec(san.as_slice(), 0, &mut names) {
                Ok(()) => {},
                Err(e) => { return Err(e) },
            }
        },
        None => {},
    }
    match common_name(cert.inner.subject.as_slice()) {
        Ok(Some(cn)) => {
            classify_dns_exec(cn, &mut names);
            Ok(names)
        },
        Ok(None) => Ok(names),
        Err(e) => Err(e),
    }
}

/// Appends `p` to `names` as [`spec_classify_dns`] prescribes.
fn classify_dns_exec(p: Vec<u8>, names: &mut Vec<GeneralDnsName>)
    ensures
        spec_gdn_seq(final(names)@) == spec_classify_dns(p@, spec_gdn_seq(old(names)@)),
{
    if dns_name::valid_dns_id(p.as_slice(), false) {
        let ghost before = spec_gdn_seq(names@);
        names.push(GeneralDnsName::DnsName(p));
        proof {
            assert(spec_gdn_seq(names@) =~= before.push(
                GeneralDnsNameView::DnsName(names@[names@.len() - 1]->DnsName_0@),
            ));
        }
    } else {
        let is_wild = {
            let ps = p.as_slice();
            ps.len() >= 2 && *vstd::slice::slice_index_get(ps, 0) == 0x2a
                && *vstd::slice::slice_index_get(ps, 1) == 0x2e
        };
        if is_wild && dns_name::valid_dns_id(p.as_slice(), true) {
            let ghost before = spec_gdn_seq(names@);
            names.push(GeneralDnsName::Wildcard(p));
            proof {
                assert(spec_gdn_seq(names@) =~= before.push(
                    GeneralDnsNameView::Wildcard(names@[names@.len() - 1]->Wildcard_0@),
                ));
            }
        }
    }
}

/// Collects the dNSName SAN entries from `pos` on, as
/// [`spec_collect_san_dns`] prescribes.
fn collect_san_dns_exec(san: &[u8], pos: usize, names: &mut Vec<GeneralDnsName>) -> (r: Result<
    (),
    Error,
>)
    requires
        pos <= san@.len(),
    ensures
        match r {
            Ok(()) => spec_collect_san_dns(
                san@,
                pos as int,
                san@.len() as int,
                spec_gdn_seq(old(names)@),
            ) == Ok::<_, Error>(spec_gdn_seq(final(names)@)),
            Err(e) => spec_collect_san_dns(
                san@,
                pos as int,
                san@.len() as int,
                spec_gdn_seq(old(names)@),
            ) == Err::<Seq<GeneralDnsNameView>, Error>(e),
        },
    decreases san@.len() - pos,
{
    if pos >= san.len() {
        return Ok(());
    }
    let (name, next) = match GeneralName::from_der(san, pos, san.len()) {
        Ok(v) => v,
        Err(e) => { return Err(e) },
    };
    match name {
        GeneralName::DnsName(p) => {
            classify_dns_exec(p, names);
        },
        _ => {},
    }
    collect_san_dns_exec(san, next, names)
}

} // verus!
