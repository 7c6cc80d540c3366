//! Chain building: bounded depth-first search from the end entity to a
//! trust anchor, enforcing per-certificate constraints along the way.

use vstd::prelude::*;
use vstd::slice::slice_index_get;

use crate::cert::Cert;
use crate::der;
use crate::error::Error;
use crate::signed_data::{verify_signed_data, SignatureVerificationAlgorithm};
use crate::subject_name::{check_name_constraints, SubjectCommonNameContents};
use crate::trust_anchor::TrustAnchor;

verus! {

/// The deepest chain the search will build: intermediates above the end
/// entity, the anchor not counted.
pub const MAX_SUB_CA_COUNT: usize = 6;

/// Caps on the expensive operations of one validation call. Both
/// counters fall as the work is done; an exhausted counter is a fatal
/// error. `sig_checks` counts signed-data verifications, one per
/// candidate issuer tried, whatever the supported-algorithm scan inside
/// each costs.
pub struct Budget {
    /// Signature verifications left.
    pub sig_checks: usize,
    /// Path-build descents left.
    pub path_builds: usize,
}

impl Budget {
    /// The default budget: one hundred signature checks and ten
    /// path-build descents.
    pub fn new() -> (b: Budget)
        ensures
            b.sig_checks == 100,
            b.path_builds == 10,
    {
        Budget { sig_checks: 100, path_builds: 10 }
    }
}

/// The outcome of holding a certificate's validity window against the
/// verification time.
pub open spec fn spec_check_validity(not_before: i64, not_after: i64, now: i64) -> Result<
    (),
    Error,
> {
    if not_before > not_after {
        Err(Error::InvalidCertValidity)
    } else if now < not_before {
        Err(Error::CertNotValidYet)
    } else if now > not_after {
        Err(Error::CertExpired)
    } else {
        Ok(())
    }
}

/// Holds the certificate's validity window against `now`, as
/// [`spec_check_validity`] prescribes.
pub fn check_validity(cert: &Cert, now: i64) -> (r: Result<(), Error>)
    ensures
        r == spec_check_validity(cert.not_before, cert.not_after, now),
{
    if cert.not_before > cert.not_after {
        Err(Error::InvalidCertValidity)
    } else if now < cert.not_before {
        Err(Error::CertNotValidYet)
    } else if now > cert.not_after {
        Err(Error::CertExpired)
    } else {
        Ok(())
    }
}

/// The `cA` flag and path-length constraint of a basic-constraints
/// extension value, or `None` where the value breaks the grammar: a
/// SEQUENCE filling the whole value, holding an optional BOOLEAN and an
/// optional small non-negative INTEGER.
pub open spec fn spec_parse_basic_constraints(b: Seq<u8>) -> Option<(bool, Option<u8>)> {
    match der::spec_read_tlv(b, 0, b.len() as int) {
        Some((t, s, l)) => {
            if t != der::TAG_SEQUENCE || s + l != b.len() {
                None
            } else {
                let (ca, p1) = if s < s + l && b[s] == der::TAG_BOOLEAN {
                    match der::spec_read_tlv(b, s, s + l) {
                        Some((_, s2, l2)) => {
                            if l2 == 1 && (b[s2] == 0xff || b[s2] == 0x00) {
                                (Some(b[s2] == 0xff), s2 + l2)
                            } else {
                                (None, 0)
                            }
                        },
                        None => (None, 0),
                    }
                } else {
                    (Some(false), s)
                };
                match ca {
                    None => None,
                    Some(ca_flag) => {
                        if p1 == s + l {
                            Some((ca_flag, None))
                        } else if b[p1] == der::TAG_INTEGER {
                            match der::spec_read_tlv(b, p1, s + l) {
                                Some((_, s3, l3)) => {
                                    if l3 == 1 && b[s3] < 0x80 && s3 + l3 == s + l {
                                        Some((ca_flag, Some(b[s3])))
                                    } else {
                                        None
                                    }
                                },
                                None => None,
                            }
                        } else {
                            None
                        }
                    },
                }
            }
        },
        None => None,
    }
}

/// The role-dependent verdict over a basic-constraints extension: an end
/// entity must not be a CA; an intermediate must be one, and its
/// path-length constraint must cover the sub-CAs below it.
pub open spec fn spec_check_basic_constraints(
    bc: Option<Seq<u8>>,
    is_ee: bool,
    sub_ca_count: int,
) -> Result<(), Error> {
    let parsed = match bc {
        Some(v) => spec_parse_basic_constraints(v),
        None => Some((false, None)),
    };
    match parsed {
        None => Err(Error::ExtensionValueInvalid),
        Some((ca, path_len)) => {
            if is_ee {
                if ca {
                    Err(Error::CaUsedAsEndEntity)
                } else {
                    Ok(())
                }
            } else if !ca {
                Err(Error::EndEntityUsedAsCa)
            } else {
                match path_len {
                    Some(n) => if (n as int) < sub_ca_count {
                        Err(Error::PathLenConstraintViolated)
                    } else {
                        Ok(())
                    },
                    None => Ok(()),
                }
            }
        },
    }
}

/// Parses and judges the basic-constraints extension, as
/// [`spec_check_basic_constraints`] prescribes.
pub fn check_basic_constraints(bc: &Option<Vec<u8>>, is_ee: bool, sub_ca_count: usize) -> (r:
    Result<(), Error>)
    ensures
        r == spec_check_basic_constraints(spec_opt_bytes(*bc), is_ee, sub_ca_count as int),
{
    let (ca, path_len): (bool, Option<u8>) = match bc {
        Some(v) => {
            let vs = v.as_slice();
            let vlen = v.len();
            let (s, l) = match der::expect_tag_and_get_value(vs, 0, vlen, der::TAG_SEQUENCE) {
                Ok(x) => x,
                Err(_) => { return Err(Error::ExtensionValueInvalid) },
            };
            if s + l != vlen {
                return Err(Error::ExtensionValueInvalid);
            }
            let end = s + l;
            let (ca, p1): (bool, usize) = if der::peek_tag(vs, s, end, der::TAG_BOOLEAN) {
                let (s2, l2) = match der::read_tag_and_get_value(vs, s, end) {
                    Ok((_, s2, l2)) => (s2, l2),
                    Err(_) => { return Err(Error::ExtensionValueInvalid) },
                };
                if l2 != 1 {
                    return Err(Error::ExtensionValueInvalid);
                }
                let flag = *slice_index_get(vs, s2);
                if flag != 0xff && flag != 0x00 {
                    return Err(Error::ExtensionValueInvalid);
                }
                (flag == 0xff, s2 + l2)
            } else {
                (false, s)
            };
            if p1 == end {
                (ca, None)
            } else if der::peek_tag(vs, p1, end, der::TAG_INTEGER) {
                let (s3, l3) = match der::read_tag_and_get_value(vs, p1, end) {
                    Ok((_, s3, l3)) => (s3, l3),
                    Err(_) => { return Err(Error::ExtensionValueInvalid) },
                };
                if l3 != 1 || s3 + l3 != end {
                    return Err(Error::ExtensionValueInvalid);
                }
                let n = *slice_index_get(vs, s3);
                if n >= 0x80 {
                    return Err(Error::ExtensionValueInvalid);
                }
                (ca, Some(n))
            } else {
                return Err(Error::ExtensionValueInvalid);
            }
        },
        None => (false, None),
    };
    if is_ee {
        if ca {
            Err(Error::CaUsedAsEndEntity)
        } else {
            Ok(())
        }
    } else if !ca {
        Err(Error::EndEntityUsedAsCa)
    } else {
        match path_len {
            Some(n) => {
                if (n as usize) < sub_ca_count {
                    Err(Error::PathLenConstraintViolated)
                } else {
                    Ok(())
                }
            },
            None => Ok(()),
        }
    }
}

/// The spec image of an optional byte field.
pub open spec fn spec_opt_bytes(o: Option<Vec<u8>>) -> Option<Seq<u8>> {
    match o {
        Some(v) => Some(v@),
        None => None,
    }
}

/// The chain member at depth `j`: the end entity at depth zero, else
/// the intermediate the path names just below that depth. Depth
/// `path.len()` is the deepest member.
pub open spec fn spec_member(ee: Cert, intermediates: Seq<Cert>, path: Seq<usize>, j: int) -> Cert {
    if j == 0 {
        ee
    } else {
        intermediates[path[j - 1] as int]
    }
}

/// The self-consistency checks of one search step: the validity window
/// covers `now` and the basic constraints fit the certificate's place
/// in the chain.
pub open spec fn spec_self_checks_ok(c: Cert, is_ee: bool, sub_ca_count: int, now: i64) -> bool {
    &&& spec_check_validity(c.not_before, c.not_after, now) is Ok
    &&& spec_check_basic_constraints(spec_opt_bytes(c.basic_constraints), is_ee, sub_ca_count)
        is Ok
}

/// An authority's name constraints, where it has any, parse into their
/// two subtree lists and pass over every certificate of the chain below
/// the authority.
pub open spec fn spec_nc_ok(
    nc: Option<Vec<u8>>,
    ee: Cert,
    intermediates: Seq<Cert>,
    path: Seq<usize>,
) -> bool {
    match nc {
        None => true,
        Some(v) => match crate::subject_name::spec_subtree_windows(v@) {
            Ok((pwin, ewin)) => crate::subject_name::spec_check_chain_names(
                crate::subject_name::spec_chain_names_seq(ee, intermediates, path),
                0,
                false,
                v@,
                pwin,
                ewin,
            ) is Ok,
            Err(_) => false,
        },
    }
}

/// A chain the search can accept: at most [`MAX_SUB_CA_COUNT`]
/// intermediates, each member's issuer the subject of the authority
/// above it, ending at anchor `a`; every member passes its
/// self-consistency checks at its depth, and the name constraints of
/// every authority pass over the chain below it. Signatures are not
/// spoken of here: whether they verify is the caller's
/// [`SignatureVerificationAlgorithm`]'s to decide.
pub open spec fn spec_acceptable_chain(
    ee: Cert,
    intermediates: Seq<Cert>,
    trust_anchors: Seq<TrustAnchor>,
    path: Seq<usize>,
    a: int,
    now: i64,
) -> bool {
    &&& path.len() <= MAX_SUB_CA_COUNT
    &&& 0 <= a < trust_anchors.len()
    &&& forall|j: int| 0 <= j < path.len() ==> (#[trigger] path[j]) < intermediates.len()
    &&& spec_self_checks_ok(ee, true, 0, now)
    &&& forall|j: int|
        0 <= j < path.len() ==> spec_self_checks_ok(
            intermediates[(#[trigger] path[j]) as int],
            false,
            j,
            now,
        )
    &&& forall|j: int|
        0 <= j < path.len() ==> spec_member(ee, intermediates, path, j).issuer@
            == intermediates[(#[trigger] path[j]) as int].subject@
    &&& spec_member(ee, intermediates, path, path.len() as int).issuer@
        == trust_anchors[a].subject_dn@
    &&& forall|j: int|
        0 <= j < path.len() ==> spec_nc_ok(
            intermediates[(#[trigger] path[j]) as int].name_constraints,
            ee,
            intermediates,
            path.subrange(0, j),
        )
    &&& spec_nc_ok(trust_anchors[a].name_constraints, ee, intermediates, path)
}

/// What the frames above a search step have established about the path
/// below its current child: indices in range, issuers chained, every
/// member but the deepest already self-checked, and every authority's
/// name constraints already enforced over the chain below it.
pub open spec fn spec_prefix_ok(
    ee: Cert,
    intermediates: Seq<Cert>,
    path: Seq<usize>,
    now: i64,
) -> bool {
    &&& forall|j: int| 0 <= j < path.len() ==> (#[trigger] path[j]) < intermediates.len()
    &&& forall|j: int|
        0 <= j < path.len() ==> spec_member(ee, intermediates, path, j).issuer@
            == intermediates[(#[trigger] path[j]) as int].subject@
    &&& path.len() > 0 ==> spec_self_checks_ok(ee, true, 0, now)
    &&& forall|j: int|
        0 <= j < path.len() - 1 ==> spec_self_checks_ok(
            intermediates[(#[trigger] path[j]) as int],
            false,
            j,
            now,
        )
    &&& forall|j: int|
        0 <= j < path.len() ==> spec_nc_ok(
            intermediates[(#[trigger] path[j]) as int].name_constraints,
            ee,
            intermediates,
            path.subrange(0, j),
        )
}

/// A search step that reached a matching anchor has assembled an
/// acceptable chain: the frames above it established everything but
/// the current child's own checks and the anchor's part, which the
/// premises supply.
proof fn lemma_accept(
    ee: Cert,
    intermediates: Seq<Cert>,
    trust_anchors: Seq<TrustAnchor>,
    path: Seq<usize>,
    a: int,
    now: i64,
)
    requires
        path.len() <= MAX_SUB_CA_COUNT,
        0 <= a < trust_anchors.len(),
        spec_prefix_ok(ee, intermediates, path, now),
        spec_self_checks_ok(
            spec_member(ee, intermediates, path, path.len() as int),
            path.len() == 0,
            if path.len() == 0 {
                0int
            } else {
                path.len() as int - 1
            },
            now,
        ),
        spec_member(ee, intermediates, path, path.len() as int).issuer@
            == trust_anchors[a].subject_dn@,
        spec_nc_ok(trust_anchors[a].name_constraints, ee, intermediates, path),
    ensures
        spec_acceptable_chain(ee, intermediates, trust_anchors, path, a, now),
{
    if path.len() == 0 {
        assert(spec_member(ee, intermediates, path, 0) == ee);
    }
    assert(spec_self_checks_ok(ee, true, 0, now));
    assert forall|j: int| 0 <= j < path.len() implies spec_self_checks_ok(
        intermediates[(#[trigger] path[j]) as int],
        false,
        j,
        now,
    ) by {
        if j == path.len() - 1 {
            assert(spec_member(ee, intermediates, path, path.len() as int) == intermediates[path[j] as int]);
        }
    }
}

/// Descending into intermediate `i` extends the established prefix:
/// the current child's own checks, the issuer link to `i`, and `i`'s
/// name constraints over the chain so far carry to the longer path.
proof fn lemma_extend_prefix(
    ee: Cert,
    intermediates: Seq<Cert>,
    path: Seq<usize>,
    i: usize,
    now: i64,
)
    requires
        spec_prefix_ok(ee, intermediates, path, now),
        i < intermediates.len(),
        spec_self_checks_ok(
            spec_member(ee, intermediates, path, path.len() as int),
            path.len() == 0,
            if path.len() == 0 {
                0int
            } else {
                path.len() as int - 1
            },
            now,
        ),
        spec_member(ee, intermediates, path, path.len() as int).issuer@
            == intermediates[i as int].subject@,
        spec_nc_ok(intermediates[i as int].name_constraints, ee, intermediates, path),
    ensures
        spec_prefix_ok(ee, intermediates, path.push(i), now),
{
    let p2 = path.push(i);
    let len = path.len() as int;
    assert(p2[len] == i);
    assert(forall|j: int| 0 <= j < len ==> p2[j] == path[j]);
    assert forall|j: int| 0 <= j <= len implies p2.subrange(0, j) == path.subrange(0, j) by {
        assert(p2.subrange(0, j) =~= path.subrange(0, j));
    }
    assert(path.subrange(0, len) =~= path);
    if len == 0 {
        assert(spec_member(ee, intermediates, path, 0) == ee);
        assert(spec_self_checks_ok(ee, true, 0, now));
    }
    assert forall|j: int| 0 <= j < p2.len() implies spec_member(ee, intermediates, p2, j).issuer@
        == intermediates[(#[trigger] p2[j]) as int].subject@ by {
        if j < len {
            assert(spec_member(ee, intermediates, p2, j) == spec_member(ee, intermediates, path, j));
        } else {
            assert(spec_member(ee, intermediates, p2, len) == spec_member(ee, intermediates, path, len));
        }
    }
    assert forall|j: int| 0 <= j < p2.len() - 1 implies spec_self_checks_ok(
        intermediates[(#[trigger] p2[j]) as int],
        false,
        j,
        now,
    ) by {
        if j == len - 1 {
            assert(spec_member(ee, intermediates, path, len) == intermediates[path[j] as int]);
        }
    }
    assert forall|j: int| 0 <= j < p2.len() implies spec_nc_ok(
        intermediates[(#[trigger] p2[j]) as int].name_constraints,
        ee,
        intermediates,
        p2.subrange(0, j),
    ) by {
        if j < len {
            assert(p2.subrange(0, j) == path.subrange(0, j));
        } else {
            assert(p2.subrange(0, len) == path.subrange(0, len));
        }
    }
}

/// How specific a per-candidate failure is: the search keeps the most
/// specific failure of the deepest partial path.
pub open spec fn spec_error_rank(e: Error) -> int {
    match e {
        Error::UnknownIssuer => 1,
        Error::InvalidSignatureForPublicKey => 2,
        Error::UnsupportedSignatureAlgorithm => 3,
        Error::UnsupportedSignatureAlgorithmForPublicKey => 4,
        Error::UnknownRevocationStatus => 5,
        Error::CertRevoked => 6,
        Error::InvalidCertValidity => 7,
        _ => 8,
    }
}

/// Keeps the more specific of two failures, as [`spec_error_rank`]
/// orders them; the incumbent wins ties.
fn better_error(best: Error, candidate: Error) -> (r: Error)
    ensures
        r == (if spec_error_rank(candidate) > spec_error_rank(best) {
            candidate
        } else {
            best
        }),
{
    let rb: i32 = match best {
        Error::UnknownIssuer => 1,
        Error::InvalidSignatureForPublicKey => 2,
        Error::UnsupportedSignatureAlgorithm => 3,
        Error::UnsupportedSignatureAlgorithmForPublicKey => 4,
        Error::UnknownRevocationStatus => 5,
        Error::CertRevoked => 6,
        Error::InvalidCertValidity => 7,
        _ => 8,
    };
    let rc: i32 = match candidate {
        Error::UnknownIssuer => 1,
        Error::InvalidSignatureForPublicKey => 2,
        Error::UnsupportedSignatureAlgorithm => 3,
        Error::UnsupportedSignatureAlgorithmForPublicKey => 4,
        Error::UnknownRevocationStatus => 5,
        Error::CertRevoked => 6,
        Error::InvalidCertValidity => 7,
        _ => 8,
    };
    if rc > rb {
        candidate
    } else {
        best
    }
}

/// A fatal failure ends the whole search at once.
fn is_fatal(e: &Error) -> (r: bool)
    ensures
        r == (e is MaximumSignatureChecksExceeded || e is MaximumPathBuildCallsExceeded),
{
    match e {
        Error::MaximumSignatureChecksExceeded => true,
        Error::MaximumPathBuildCallsExceeded => true,
        _ => false,
    }
}

/// Copies a path of intermediate indices.
fn clone_path(path: &Vec<usize>) -> (r: Vec<usize>)
    ensures
        r@ == path@,
{
    let mut out: Vec<usize> = Vec::new();
    let n = path.len();
    let mut i: usize = 0;
    while i < n
        invariant
            i <= n == path@.len(),
            out@ == path@.subrange(0, i as int),
        decreases n - i,
    {
        out.push(path[i]);
        i += 1;
    }
    proof {
        assert(path@.subrange(0, n as int) =~= path@);
    }
    out
}

/// Builds and validates a chain from the end entity to some trust
/// anchor, trying anchors before intermediates at every level, each in
/// the caller's order.
///
/// The search is bounded three ways: by [`MAX_SUB_CA_COUNT`], by the
/// signature-check budget, and by the path-build budget; no run uses
/// more of either budget than the caller granted, and the counters never
/// rise. A fatal budget failure ends the search; any other
/// per-candidate failure only turns the search elsewhere, and the most
/// specific failure is reported when no chain exists.
///
/// Success is possible only on an acceptable chain: whenever `Ok` comes
/// back, some path of intermediate indices ends at some trust anchor
/// with every validity window, every basic constraint and every
/// applicable name constraint satisfied — see
/// [`spec_acceptable_chain`]. Whether `Ok` in fact comes back on such a
/// chain turns on the caller's verifier, so it is not promised here.
/// The end entity's own failures, which precede any verifier call, are
/// exact: a bad validity window or bad basic constraints is reported as
/// such, and with nothing to search, `UnknownIssuer`.
pub fn build_chain<A: SignatureVerificationAlgorithm>(
    supported_sig_algs: &[A],
    trust_anchors: &Vec<TrustAnchor>,
    intermediates: &Vec<Cert>,
    ee: &Cert,
    now: i64,
    budget: &mut Budget,
) -> (r: Result<(), Error>)
    ensures
        final(budget).sig_checks <= old(budget).sig_checks,
        final(budget).path_builds <= old(budget).path_builds,
        r is Ok ==> exists|p: Seq<usize>, a: int|
            spec_acceptable_chain(*ee, intermediates@, trust_anchors@, p, a, now),
        ({
            let v = spec_check_validity(ee.not_before, ee.not_after, now);
            let bc = spec_check_basic_constraints(spec_opt_bytes(ee.basic_constraints), true, 0);
            &&& (v is Err ==> r == Err::<(), Error>(v->Err_0))
            &&& (v is Ok && bc is Err ==> r == Err::<(), Error>(bc->Err_0))
            &&& (v is Ok && bc is Ok && trust_anchors@.len() == 0 && intermediates@.len() == 0
                ==> r == Err::<(), Error>(Error::UnknownIssuer))
        }),
{
    let path: Vec<usize> = Vec::new();
    proof {
        assert(spec_prefix_ok(*ee, intermediates@, path@, now));
        assert(spec_member(*ee, intermediates@, path@, 0) == *ee);
    }
    build_chain_inner(supported_sig_algs, trust_anchors, intermediates, ee, &path, now, budget)
}

/// One level of the search: `path` holds the intermediate indices from
/// the end entity upward; the current child is the last of them, or the
/// end entity itself where the path is empty.
#[verifier::rlimit(100)]
fn build_chain_inner<A: SignatureVerificationAlgorithm>(
    supported_sig_algs: &[A],
    trust_anchors: &Vec<TrustAnchor>,
    intermediates: &Vec<Cert>,
    ee: &Cert,
    path: &Vec<usize>,
    now: i64,
    budget: &mut Budget,
) -> (r: Result<(), Error>)
    requires
        path@.len() <= MAX_SUB_CA_COUNT,
        spec_prefix_ok(*ee, intermediates@, path@, now),
    ensures
        final(budget).sig_checks <= old(budget).sig_checks,
        final(budget).path_builds <= old(budget).path_builds,
        r is Ok ==> exists|p: Seq<usize>, a: int|
            spec_acceptable_chain(*ee, intermediates@, trust_anchors@, p, a, now),
        ({
            let c = spec_member(*ee, intermediates@, path@, path@.len() as int);
            let v = spec_check_validity(c.not_before, c.not_after, now);
            let bc = spec_check_basic_constraints(
                spec_opt_bytes(c.basic_constraints),
                path@.len() == 0,
                if path@.len() == 0 {
                    0int
                } else {
                    path@.len() as int - 1
                },
            );
            &&& (v is Err ==> r == Err::<(), Error>(v->Err_0))
            &&& (v is Ok && bc is Err ==> r == Err::<(), Error>(bc->Err_0))
            &&& (v is Ok && bc is Ok && trust_anchors@.len() == 0 && intermediates@.len() == 0
                ==> r == Err::<(), Error>(Error::UnknownIssuer))
        }),
    decreases MAX_SUB_CA_COUNT - path@.len(),
{
    let child: &Cert = if path.len() == 0 {
        ee
    } else {
        &intermediates[path[path.len() - 1]]
    };
    proof {
        assert(*child == spec_member(*ee, intermediates@, path@, path@.len() as int));
    }
    // Self-consistency of the current candidate.
    match check_validity(child, now) {
        Ok(()) => {},
        Err(e) => { return Err(e) },
    }
    match check_basic_constraints(
        &child.basic_constraints,
        path.len() == 0,
        if path.len() == 0 {
            0
        } else {
            path.len() - 1
        },
    ) {
        Ok(()) => {},
        Err(e) => { return Err(e) },
    }
    proof {
        assert(spec_self_checks_ok(
            *child,
            path@.len() == 0,
            if path@.len() == 0 {
                0int
            } else {
                path@.len() as int - 1
            },
            now,
        ));
    }
    let mut best = Error::UnknownIssuer;
    // Trust anchors first.
    let n_anchors = trust_anchors.len();
    let mut a: usize = 0;
    while a < n_anchors
        invariant
            n_anchors == trust_anchors@.len(),
            a <= n_anchors,
            path@.len() <= MAX_SUB_CA_COUNT,
            spec_prefix_ok(*ee, intermediates@, path@, now),
            *child == spec_member(*ee, intermediates@, path@, path@.len() as int),
            spec_self_checks_ok(
                *child,
                path@.len() == 0,
                if path@.len() == 0 {
                    0int
                } else {
                    path@.len() as int - 1
                },
                now,
            ),
            n_anchors == 0 ==> best == Error::UnknownIssuer,
            budget.sig_checks <= old(budget).sig_checks,
            budget.path_builds <= old(budget).path_builds,
        decreases n_anchors - a,
    {
        let anchor = &trust_anchors[a];
        if crate::bytes::bytes_eq(anchor.subject_dn.as_slice(), child.issuer.as_slice()) {
            if budget.sig_checks == 0 {
                return Err(Error::MaximumSignatureChecksExceeded);
            }
            budget.sig_checks = budget.sig_checks - 1;
            match verify_signed_data(supported_sig_algs, anchor.spki.as_slice(), &child.signed_data) {
                Ok(()) => {
                    let nc_ok: Result<(), Error> = match &anchor.name_constraints {
                        Some(nc) => check_name_constraints(
                            nc,
                            SubjectCommonNameContents::Ignore,
                            ee,
                            intermediates,
                            path,
                        ),
                        None => Ok(()),
                    };
                    match nc_ok {
                        Ok(()) => {
                            proof {
                                assert(trust_anchors@[a as int] == *anchor);
                                assert(spec_nc_ok(
                                    trust_anchors@[a as int].name_constraints,
                                    *ee,
                                    intermediates@,
                                    path@,
                                ));
                                lemma_accept(
                                    *ee,
                                    intermediates@,
                                    trust_anchors@,
                                    path@,
                                    a as int,
                                    now,
                                );
                            }
                            return Ok(());
                        },
                        Err(e) => { best = better_error(best, e) },
                    }
                },
                Err(e) => { best = better_error(best, e) },
            }
        }
        a += 1;
    }
    // Then intermediates, deepening the path.
    let n_inters = intermediates.len();
    let mut i: usize = 0;
    while i < n_inters
        invariant
            n_inters == intermediates@.len(),
            n_anchors == trust_anchors@.len(),
            i <= n_inters,
            path@.len() <= MAX_SUB_CA_COUNT,
            spec_prefix_ok(*ee, intermediates@, path@, now),
            *child == spec_member(*ee, intermediates@, path@, path@.len() as int),
            spec_self_checks_ok(
                *child,
                path@.len() == 0,
                if path@.len() == 0 {
                    0int
                } else {
                    path@.len() as int - 1
                },
                now,
            ),
            n_anchors == 0 && n_inters == 0 ==> best == Error::UnknownIssuer,
            budget.sig_checks <= old(budget).sig_checks,
            budget.path_builds <= old(budget).path_builds,
        decreases n_inters - i,
    {
        let candidate = &intermediates[i];
        let issuer_match = crate::bytes::bytes_eq(
            candidate.subject.as_slice(),
            child.issuer.as_slice(),
        );
        if issuer_match && path.len() < MAX_SUB_CA_COUNT {
            // Reject a path that revisits a public key.
            let mut seen = crate::bytes::bytes_eq(candidate.spki.as_slice(), ee.spki.as_slice());
            let mut k: usize = 0;
            let plen = path.len();
            while k < plen
                invariant
                    plen == path@.len(),
                    k <= plen,
                    i < intermediates@.len(),
                    forall|j: int|
                        0 <= j < path@.len() ==> (#[trigger] path@[j]) < intermediates@.len(),
                decreases plen - k,
            {
                if crate::bytes::bytes_eq(
                    candidate.spki.as_slice(),
                    intermediates[path[k]].spki.as_slice(),
                ) {
                    seen = true;
                }
                k += 1;
            }
            if !seen {
                if budget.path_builds == 0 {
                    return Err(Error::MaximumPathBuildCallsExceeded);
                }
                budget.path_builds = budget.path_builds - 1;
                if budget.sig_checks == 0 {
                    return Err(Error::MaximumSignatureChecksExceeded);
                }
                budget.sig_checks = budget.sig_checks - 1;
                match verify_signed_data(
                    supported_sig_algs,
                    candidate.spki.as_slice(),
                    &child.signed_data,
                ) {
                    Ok(()) => {
                        let nc_ok: Result<(), Error> = match &candidate.name_constraints {
                            Some(nc) => check_name_constraints(
                                nc,
                                SubjectCommonNameContents::Ignore,
                                ee,
                                intermediates,
                                path,
                            ),
                            None => Ok(()),
                        };
                        match nc_ok {
                            Ok(()) => {
                                let mut deeper = clone_path(path);
                                deeper.push(i);
                                proof {
                                    assert(*candidate == intermediates@[i as int]);
                                    assert(spec_nc_ok(
                                        intermediates@[i as int].name_constraints,
                                        *ee,
                                        intermediates@,
                                        path@,
                                    ));
                                    lemma_extend_prefix(*ee, intermediates@, path@, i, now);
                                    assert(deeper@ == path@.push(i));
                                }
                                match build_chain_inner(
                                    supported_sig_algs,
                                    trust_anchors,
                                    intermediates,
                                    ee,
                                    &deeper,
                                    now,
                                    budget,
                                ) {
                                    Ok(()) => { return Ok(()) },
                                    Err(e) => {
                                        if is_fatal(&e) {
                                            return Err(e);
                                        }
                                        best = better_error(best, e);
                                    },
                                }
                            },
                            Err(e) => { best = better_error(best, e) },
                        }
                    },
                    Err(e) => { best = better_error(best, e) },
                }
            }
        }
        i += 1;
    }
    Err(best)
}

} // verus!
