//! IP-address presented-ID matching and CIDR name constraints.

use vstd::prelude::*;
use vstd::slice::slice_index_get;

use crate::error::Error;

verus! {

/// An octet a contiguous network mask may hold: a run of set bits from the
/// top, or none.
pub open spec fn spec_mask_byte_ok(b: u8) -> bool {
    b == 0x00 || b == 0x80 || b == 0xc0 || b == 0xe0 || b == 0xf0 || b == 0xf8 || b == 0xfc || b
        == 0xfe || b == 0xff
}

/// The mask is a contiguous prefix of set bits: every octet is a top run,
/// and after any octet short of 0xff only zero octets follow.
pub open spec fn spec_mask_contiguous(m: Seq<u8>) -> bool {
    &&& forall|i: int| 0 <= i < m.len() ==> spec_mask_byte_ok(#[trigger] m[i])
    &&& forall|i: int, j: int| 0 <= i < j < m.len() && (#[trigger] m[i]) != 0xff ==> (#[trigger] m[j]) == 0
}

/// Does presented IP address `p` satisfy the constraint `c`, an
/// `address || mask` pair of 8 or 32 octets? It does exactly when the
/// lengths correspond, the mask is a contiguous prefix, and the presented
/// address agrees with the constraint address on every masked bit. A
/// non-contiguous mask is unsatisfiable: nothing matches it.
pub open spec fn spec_ip_matches_constraint(p: Seq<u8>, c: Seq<u8>) -> bool {
    &&& ((p.len() == 4 && c.len() == 8) || (p.len() == 16 && c.len() == 32))
    &&& spec_mask_contiguous(c.subrange(p.len() as int, c.len() as int))
    &&& forall|i: int| 0 <= i < p.len() ==> ((#[trigger] p[i]) & c[p.len() + i]) == (c[i] & c[
        p.len() + i])
}

/// The exact outcome of checking `p` against constraint `c`: a constraint
/// of a length other than 8 or 32 octets is refused as `BadDer`; a
/// version mismatch between address and constraint is no match and no
/// error; a non-contiguous mask is refused as `MalformedNameConstraint`;
/// otherwise the masked octets decide.
pub open spec fn spec_ip_constraint_result(p: Seq<u8>, c: Seq<u8>) -> Result<bool, Error> {
    if c.len() != 8 && c.len() != 32 {
        Err(Error::BadDer)
    } else if p.len() * 2 != c.len() {
        Ok(false)
    } else if !spec_mask_contiguous(c.subrange(p.len() as int, c.len() as int)) {
        Err(Error::MalformedNameConstraint)
    } else {
        Ok(
            forall|i: int|
                0 <= i < p.len() ==> ((#[trigger] p[i]) & c[p.len() + i]) == (c[i] & c[p.len()
                    + i]),
        )
    }
}

/// Exact byte equality of a presented IP address and the reference
/// address.
pub fn presented_id_matches_reference_id(presented: &[u8], reference: &[u8]) -> (r: bool)
    ensures
        r == (presented@ == reference@),
{
    crate::bytes::bytes_eq(presented, reference)
}

/// Decides [`spec_ip_matches_constraint`].
///
/// A constraint of a length other than 8 or 32 octets is refused as
/// `BadDer`; one whose mask is not a contiguous prefix is refused as
/// `MalformedNameConstraint`, so a certificate presenting any address
/// under such a constraint is rejected rather than matched. A version
/// mismatch between address and constraint is no match and no error.
pub fn presented_id_matches_constraint(presented: &[u8], constraint: &[u8]) -> (r: Result<
    bool,
    Error,
>)
    ensures
        r == spec_ip_constraint_result(presented@, constraint@),
        r == Ok::<bool, Error>(true) ==> spec_ip_matches_constraint(presented@, constraint@),
        r is Err ==> !spec_ip_matches_constraint(presented@, constraint@),
{
    if constraint.len() != 8 && constraint.len() != 32 {
        return Err(Error::BadDer);
    }
    if presented.len() != constraint.len() / 2 {
        proof {
            assert(presented@.len() * 2 != constraint@.len());
        }
        return Ok(false);
    }
    proof {
        assert(presented@.len() * 2 == constraint@.len());
    }
    let n = presented.len();
    let clen = constraint.len();
    // The mask must be a contiguous prefix of set bits.
    let mut i: usize = 0;
    let mut partial_seen = false;
    while i < n
        invariant
            n == presented@.len(),
            clen == constraint@.len() && clen == 2 * n,
            clen == 8 || clen == 32,
            i <= n,
            forall|k: int| 0 <= k < i ==> spec_mask_byte_ok(#[trigger] constraint@[n + k]),
            partial_seen == exists|k: int| 0 <= k < i && #[trigger] constraint@[n + k] != 0xff,
            forall|k1: int, k2: int|
                0 <= k1 < k2 < i && (#[trigger] constraint@[n + k1]) != 0xff ==> (
                #[trigger] constraint@[n + k2]) == 0,
        decreases n - i,
    {
        let b = *slice_index_get(constraint, n + i);
        if partial_seen {
            if b != 0x00 {
                proof {
                    let m = constraint@.subrange(n as int, 2 * n as int);
                    let k = choose|k: int| 0 <= k < i && #[trigger] constraint@[n + k] != 0xff;
                    assert(m[k] == constraint@[n + k]);
                    assert(m[i as int] == constraint@[n + i]);
                    assert(!spec_mask_contiguous(m));
                    assert(spec_ip_constraint_result(presented@, constraint@) == Err::<
                        bool,
                        Error,
                    >(Error::MalformedNameConstraint));
                }
                return Err(Error::MalformedNameConstraint);
            }
        } else {
            let ok = b == 0x00 || b == 0x80 || b == 0xc0 || b == 0xe0 || b == 0xf0 || b == 0xf8
                || b == 0xfc || b == 0xfe || b == 0xff;
            if !ok {
                proof {
                    let m = constraint@.subrange(n as int, 2 * n as int);
                    assert(m[i as int] == constraint@[n + i]);
                    assert(!spec_mask_contiguous(m));
                    assert(spec_ip_constraint_result(presented@, constraint@) == Err::<
                        bool,
                        Error,
                    >(Error::MalformedNameConstraint));
                }
                return Err(Error::MalformedNameConstraint);
            }
            if b != 0xff {
                partial_seen = true;
            }
        }
        i += 1;
    }
    proof {
        let m = constraint@.subrange(n as int, 2 * n as int);
        assert(forall|k: int| 0 <= k < m.len() ==> #[trigger] m[k] == constraint@[n + k]);
        assert(spec_mask_contiguous(m));
    }
    // Compare the masked address octets.
    let mut j: usize = 0;
    while j < n
        invariant
            n == presented@.len(),
            clen == constraint@.len() && clen == 2 * n,
            clen == 8 || clen == 32,
            spec_mask_contiguous(constraint@.subrange(n as int, clen as int)),
            j <= n,
            forall|k: int| 0 <= k < j ==> ((#[trigger] presented@[k]) & constraint@[n + k]) == (
            constraint@[k] & constraint@[n + k]),
        decreases n - j,
    {
        let pm = *slice_index_get(presented, j) & *slice_index_get(constraint, n + j);
        let cm = *slice_index_get(constraint, j) & *slice_index_get(constraint, n + j);
        if pm != cm {
            proof {
                let wj = j as int;
                assert((presented@[wj] & constraint@[n + wj]) != (constraint@[wj] & constraint@[n
                    + wj]));
            }
            return Ok(false);
        }
        j += 1;
    }
    Ok(true)
}

/// A name constraint with a non-contiguous mask is unsatisfiable: no
/// presented address matches it, whatever its octets.
pub proof fn lemma_noncontiguous_mask_matches_nothing(p: Seq<u8>, c: Seq<u8>)
    requires
        !spec_mask_contiguous(c.subrange(p.len() as int, c.len() as int)),
    ensures
        !spec_ip_matches_constraint(p, c),
{
}

/// The error of an IP address of the wrong width.
#[derive(Debug, Clone, Copy)]
pub struct AddrParseError;

/// An IP address as raw octets: four for version 4, sixteen for
/// version 6.
#[derive(Debug, Clone)]
pub struct IpAddr {
    octets: Vec<u8>,
}

impl View for IpAddr {
    type V = Seq<u8>;

    closed spec fn view(&self) -> Seq<u8> {
        self.octets@
    }
}

impl IpAddr {
    /// Takes a copy of `input`, which must hold four or sixteen octets.
    pub fn try_from_octets(input: &[u8]) -> (r: Result<IpAddr, AddrParseError>)
        ensures
            match r {
                Ok(a) => a@ == input@ && (input@.len() == 4 || input@.len() == 16),
                Err(_) => input@.len() != 4 && input@.len() != 16,
            },
    {
        if input.len() == 4 || input.len() == 16 {
            Ok(IpAddr { octets: vstd::slice::slice_to_vec(input) })
        } else {
            Err(AddrParseError)
        }
    }

    /// The address octets.
    pub fn as_bytes(&self) -> (r: &Vec<u8>)
        ensures
            r@ == self@,
    {
        &self.octets
    }
}

} // verus!
