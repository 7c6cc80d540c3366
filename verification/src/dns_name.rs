//! DNS presented-ID and reference-ID syntax and matching.
//!
//! Identifiers are ASCII byte strings of dot-separated labels. Matching is
//! case-insensitive on ASCII; a presented identifier may carry a single
//! wildcard label, exactly `*`, in the leftmost position only, and it
//! matches exactly one label of the reference identifier.

use vstd::prelude::*;
use vstd::slice::{slice_index_get, slice_subrange, slice_to_vec};

use crate::error::Error;

verus! {

/// ASCII lowercasing of one octet.
pub open spec fn spec_lower(c: u8) -> u8 {
    if 0x41 <= c <= 0x5a {
        (c + 0x20) as u8
    } else {
        c
    }
}

/// ASCII lowercasing of a byte string.
pub open spec fn spec_lower_seq(s: Seq<u8>) -> Seq<u8> {
    s.map_values(|c: u8| spec_lower(c))
}

/// The characters a DNS label may hold: ASCII letters, digits, hyphen.
pub open spec fn spec_is_label_char(c: u8) -> bool {
    (0x30 <= c <= 0x39) || (0x41 <= c <= 0x5a) || (0x61 <= c <= 0x7a) || c == 0x2d
}

/// Scans the labels of `s` from position `i`; `lab` octets of the current
/// label have been read. Labels are separated by dots, hold 1 to 63
/// label characters each, and no label begins or ends with a hyphen.
pub open spec fn spec_labels_ok(s: Seq<u8>, i: int, lab: int) -> bool
    decreases s.len() - i,
    when 0 <= i <= s.len()
{
    if i >= s.len() {
        1 <= lab && s[i - 1] != 0x2d
    } else if s[i] == 0x2e {
        1 <= lab && s[i - 1] != 0x2d && spec_labels_ok(s, i + 1, 0)
    } else {
        &&& spec_is_label_char(s[i])
        &&& (lab == 0 ==> s[i] != 0x2d)
        &&& lab < 63
        &&& spec_labels_ok(s, i + 1, lab + 1)
    }
}

/// Some dot stands at or after position `from`.
pub open spec fn spec_has_dot(s: Seq<u8>, from: int) -> bool {
    exists|i: int| from <= i < s.len() && s[i] == 0x2e
}

/// `s` begins with the wildcard label: `*` followed by a dot.
pub open spec fn spec_wildcard_form(s: Seq<u8>) -> bool {
    s.len() >= 2 && s[0] == 0x2a && s[1] == 0x2e
}

/// Syntactic validity of a DNS identifier: at most 253 octets, at least
/// one dot, well-formed labels; where `allow_wildcard` is set, a leading
/// `*.` is permitted and the rules apply to the remainder.
pub open spec fn spec_valid_dns_id(s: Seq<u8>, allow_wildcard: bool) -> bool {
    if allow_wildcard && spec_wildcard_form(s) {
        s.len() <= 253 && spec_has_dot(s, 2) && spec_labels_ok(s, 2, 0)
    } else {
        s.len() <= 253 && spec_has_dot(s, 0) && spec_labels_ok(s, 0, 0)
    }
}

/// Index of the first dot of `s` at or after `i`, or the length where
/// there is none.
pub open spec fn spec_first_dot(s: Seq<u8>, i: int) -> int
    decreases s.len() - i,
    when 0 <= i <= s.len()
{
    if i >= s.len() {
        s.len() as int
    } else if s[i] == 0x2e {
        i
    } else {
        spec_first_dot(s, i + 1)
    }
}

/// Does presented identifier `p` match reference identifier `r`?
/// Without a wildcard the two must be equal after lowercasing; with one,
/// the part of `p` after `*.` must equal the part of `r` after its first
/// label, and `r` must have a non-empty first label followed by a dot.
pub open spec fn spec_presented_matches_reference(p: Seq<u8>, r: Seq<u8>) -> bool {
    if spec_wildcard_form(p) {
        let dot = spec_first_dot(r, 0);
        &&& 1 <= dot < r.len()
        &&& spec_lower_seq(p.subrange(2, p.len() as int)) == spec_lower_seq(
            r.subrange(dot + 1, r.len() as int),
        )
    } else {
        spec_lower_seq(p) == spec_lower_seq(r)
    }
}

/// Does presented identifier `name` fall under the name-constraint domain
/// suffix `constraint`? It does exactly when it equals the constraint or
/// ends with a dot followed by the constraint, both lowercased; the empty
/// constraint covers every name.
pub open spec fn spec_dns_matches_constraint(name: Seq<u8>, constraint: Seq<u8>) -> bool {
    if constraint.len() == 0 {
        true
    } else {
        let n = spec_lower_seq(name);
        let c = spec_lower_seq(constraint);
        ||| n == c
        ||| (n.len() > c.len() && n.subrange(n.len() - c.len(), n.len() as int) == c && n[n.len()
            - c.len() - 1] == 0x2e)
    }
}

/// True exactly when the label characters are valid from `i` on, per
/// [`spec_labels_ok`].
fn labels_ok(s: &[u8], i: usize, lab: usize) -> (r: bool)
    requires
        i <= s@.len() <= 253,
        lab >= 1 ==> i >= 1,
    ensures
        r == spec_labels_ok(s@, i as int, lab as int),
    decreases s@.len() - i,
{
    if i >= s.len() {
        1 <= lab && *slice_index_get(s, i - 1) != 0x2d
    } else {
        let c = *slice_index_get(s, i);
        if c == 0x2e {
            1 <= lab && *slice_index_get(s, i - 1) != 0x2d && labels_ok(s, i + 1, 0)
        } else {
            let char_ok = (0x30 <= c && c <= 0x39) || (0x41 <= c && c <= 0x5a) || (0x61 <= c && c
                <= 0x7a) || c == 0x2d;
            char_ok && !(lab == 0 && c == 0x2d) && lab < 63 && labels_ok(s, i + 1, lab + 1)
        }
    }
}

/// True exactly when a dot stands at or after `from`.
fn has_dot(s: &[u8], from: usize) -> (r: bool)
    requires
        from <= s@.len(),
    ensures
        r == spec_has_dot(s@, from as int),
    decreases s@.len() - from,
{
    if from >= s.len() {
        false
    } else if *slice_index_get(s, from) == 0x2e {
        true
    } else {
        has_dot(s, from + 1)
    }
}

/// Index of the first dot at or after `i`, per [`spec_first_dot`].
fn first_dot(s: &[u8], i: usize) -> (r: usize)
    requires
        i <= s@.len(),
    ensures
        r == spec_first_dot(s@, i as int),
        i <= r <= s@.len(),
    decreases s@.len() - i,
{
    if i >= s.len() {
        s.len()
    } else if *slice_index_get(s, i) == 0x2e {
        i
    } else {
        first_dot(s, i + 1)
    }
}

/// True exactly when `s` begins with the wildcard label `*.`.
fn wildcard_form(s: &[u8]) -> (r: bool)
    ensures
        r == spec_wildcard_form(s@),
{
    s.len() >= 2 && *slice_index_get(s, 0) == 0x2a && *slice_index_get(s, 1) == 0x2e
}

/// Decides [`spec_valid_dns_id`] for `s`.
pub fn valid_dns_id(s: &[u8], allow_wildcard: bool) -> (r: bool)
    ensures
        r == spec_valid_dns_id(s@, allow_wildcard),
{
    if s.len() > 253 {
        return false;
    }
    if allow_wildcard && wildcard_form(s) {
        has_dot(s, 2) && labels_ok(s, 2, 0)
    } else {
        has_dot(s, 0) && labels_ok(s, 0, 0)
    }
}

/// True exactly when the two byte strings are equal after ASCII
/// lowercasing.
pub fn eq_ignore_ascii_case(a: &[u8], b: &[u8]) -> (r: bool)
    ensures
        r == (spec_lower_seq(a@) == spec_lower_seq(b@)),
{
    if a.len() != b.len() {
        assert(spec_lower_seq(a@).len() != spec_lower_seq(b@).len());
        return false;
    }
    let n = a.len();
    let mut i: usize = 0;
    while i < n
        invariant
            n == a@.len() == b@.len(),
            i <= n,
            forall|j: int| 0 <= j < i ==> spec_lower(a@[j]) == spec_lower(b@[j]),
        decreases n - i,
    {
        let ca = *slice_index_get(a, i);
        let cb = *slice_index_get(b, i);
        let la: u8 = if 0x41 <= ca && ca <= 0x5a {
            ca + 0x20
        } else {
            ca
        };
        let lb: u8 = if 0x41 <= cb && cb <= 0x5a {
            cb + 0x20
        } else {
            cb
        };
        if la != lb {
            assert(spec_lower_seq(a@)[i as int] != spec_lower_seq(b@)[i as int]);
            return false;
        }
        i += 1;
    }
    assert(spec_lower_seq(a@) =~= spec_lower_seq(b@));
    true
}

/// Decides whether the presented identifier `presented` matches the
/// reference identifier `reference`, as [`spec_presented_matches_reference`]
/// prescribes. A syntactically invalid presented identifier is refused
/// with `MalformedDnsIdentifier`.
pub fn presented_id_matches_reference_id(presented: &[u8], reference: &[u8]) -> (r: Result<
    bool,
    Error,
>)
    ensures
        match r {
            Ok(m) => {
                &&& spec_valid_dns_id(presented@, true)
                &&& m == spec_presented_matches_reference(presented@, reference@)
            },
            Err(e) => {
                &&& e == Error::MalformedDnsIdentifier
                &&& !spec_valid_dns_id(presented@, true)
            },
        },
{
    if !valid_dns_id(presented, true) {
        return Err(Error::MalformedDnsIdentifier);
    }
    if wildcard_form(presented) {
        let dot = first_dot(reference, 0);
        if dot < 1 || dot >= reference.len() {
            return Ok(false);
        }
        let p_rest = slice_subrange(presented, 2, presented.len());
        let r_rest = slice_subrange(reference, dot + 1, reference.len());
        Ok(eq_ignore_ascii_case(p_rest, r_rest))
    } else {
        Ok(eq_ignore_ascii_case(presented, reference))
    }
}

/// Decides whether `name` falls under the domain-suffix `constraint`, as
/// [`spec_dns_matches_constraint`] prescribes.
pub fn presented_id_matches_constraint(name: &[u8], constraint: &[u8]) -> (r: bool)
    ensures
        r == spec_dns_matches_constraint(name@, constraint@),
{
    if constraint.len() == 0 {
        return true;
    }
    if name.len() == constraint.len() {
        let res = eq_ignore_ascii_case(name, constraint);
        if res {
            return true;
        }
        assert(spec_lower_seq(name@).len() == spec_lower_seq(constraint@).len());
        return false;
    }
    if name.len() < constraint.len() {
        assert(spec_lower_seq(name@).len() != spec_lower_seq(constraint@).len());
        assert(!(spec_lower_seq(name@).len() > spec_lower_seq(constraint@).len()));
        return false;
    }
    let cut = name.len() - constraint.len();
    let tail = slice_subrange(name, cut, name.len());
    let dot_ok = *slice_index_get(name, cut - 1) == 0x2e;
    let suffix_eq = eq_ignore_ascii_case(tail, constraint);
    proof {
        let n = spec_lower_seq(name@);
        let c = spec_lower_seq(constraint@);
        assert(n.len() == name@.len() && c.len() == constraint@.len());
        assert(spec_lower_seq(tail@) =~= n.subrange(cut as int, n.len() as int));
        assert(n[cut - 1] == spec_lower(name@[cut - 1]));
        assert((n[cut - 1] == 0x2e) == (name@[cut - 1] == 0x2e));
    }
    dot_ok && suffix_eq
}

/// The error of a DNS identifier that breaks the reference-ID syntax.
#[derive(Debug, Clone, Copy)]
pub struct InvalidDnsNameError;

/// A byte string after dropping one trailing dot, where it has one.
pub open spec fn spec_strip_trailing_dot(s: Seq<u8>) -> Seq<u8> {
    if s.len() > 0 && s[s.len() - 1] == 0x2e {
        s.subrange(0, s.len() - 1)
    } else {
        s
    }
}

/// A validated DNS reference identifier: ASCII, dotted labels, no
/// wildcard. A single trailing dot on the input is stripped before
/// validation.
#[derive(Debug, Clone)]
pub struct DnsName {
    name: Vec<u8>,
}

impl View for DnsName {
    type V = Seq<u8>;

    closed spec fn view(&self) -> Seq<u8> {
        self.name@
    }
}

impl DnsName {
    /// Strips one trailing dot, validates what is left as a reference
    /// identifier, and takes a copy of it.
    pub fn try_from_ascii(input: &[u8]) -> (r: Result<DnsName, InvalidDnsNameError>)
        ensures
            match r {
                Ok(d) => d@ == spec_strip_trailing_dot(input@) && spec_valid_dns_id(
                    spec_strip_trailing_dot(input@),
                    false,
                ),
                Err(_) => !spec_valid_dns_id(spec_strip_trailing_dot(input@), false),
            },
    {
        let n = input.len();
        let stripped: &[u8] = if n > 0 && *slice_index_get(input, n - 1) == 0x2e {
            slice_subrange(input, 0, n - 1)
        } else {
            input
        };
        if valid_dns_id(stripped, false) {
            Ok(DnsName { name: slice_to_vec(stripped) })
        } else {
            Err(InvalidDnsNameError)
        }
    }

    /// The identifier octets.
    pub fn as_bytes(&self) -> (r: &Vec<u8>)
        ensures
            r@ == self@,
    {
        &self.name
    }
}

/// Every octet of a well-formed label region is a label character or a
/// dot.
proof fn lemma_labels_chars(s: Seq<u8>, j: int, lab: int, k: int)
    requires
        0 <= j <= s.len(),
        spec_labels_ok(s, j, lab),
        j <= k < s.len(),
    ensures
        spec_is_label_char(s[k]) || s[k] == 0x2e,
    decreases k - j,
{
    if k > j {
        if s[j] == 0x2e {
            lemma_labels_chars(s, j + 1, 0, k);
        } else {
            lemma_labels_chars(s, j + 1, lab + 1, k);
        }
    }
}

/// Matching is reflexive: a presented identifier that equals a valid
/// reference identifier after lowercasing matches it.
pub proof fn lemma_match_reflexive(p: Seq<u8>, r: Seq<u8>)
    requires
        spec_valid_dns_id(r, false),
        spec_lower_seq(p) == spec_lower_seq(r),
    ensures
        spec_presented_matches_reference(p, r),
{
    assert(p.len() == r.len()) by {
        assert(spec_lower_seq(p).len() == p.len());
        assert(spec_lower_seq(r).len() == r.len());
    }
    if spec_wildcard_form(p) {
        assert(spec_lower_seq(p)[0] == spec_lower(p[0]));
        assert(spec_lower_seq(r)[0] == spec_lower(r[0]));
        assert(spec_lower(p[0]) == 0x2a);
        assert(r[0] == 0x2a);
        assert(spec_labels_ok(r, 0, 0));
        assert(false);
    }
}

/// Validation admits a wildcard only as the sole leftmost label: in a
/// valid presented identifier, an asterisk stands at position zero of
/// the wildcard form and nowhere else.
pub proof fn lemma_wildcard_only_leftmost(p: Seq<u8>, i: int)
    requires
        spec_valid_dns_id(p, true),
        0 <= i < p.len(),
        p[i] == 0x2a,
    ensures
        spec_wildcard_form(p),
        i == 0,
{
    if spec_wildcard_form(p) {
        if i >= 2 {
            lemma_labels_chars(p, 2, 0, i);
        }
        assert(i != 1);
    } else {
        lemma_labels_chars(p, 0, 0, i);
    }
}

/// Lowercasing is idempotent.
proof fn lemma_lower_idempotent(x: Seq<u8>)
    ensures
        spec_lower_seq(spec_lower_seq(x)) == spec_lower_seq(x),
{
    assert(spec_lower_seq(spec_lower_seq(x)) =~= spec_lower_seq(x)) by {
        assert forall|i: int| 0 <= i < x.len() implies spec_lower_seq(spec_lower_seq(x))[i]
            == spec_lower_seq(x)[i] by {
            assert(spec_lower_seq(x)[i] == spec_lower(x[i]));
            assert(spec_lower_seq(spec_lower_seq(x))[i] == spec_lower(spec_lower(x[i])));
        }
    }
}

/// The first dot of a string does not move under lowercasing.
proof fn lemma_first_dot_lower(r: Seq<u8>, i: int)
    requires
        0 <= i <= r.len(),
    ensures
        spec_first_dot(spec_lower_seq(r), i) == spec_first_dot(r, i),
    decreases r.len() - i,
{
    assert(spec_lower_seq(r).len() == r.len());
    if i < r.len() {
        assert(spec_lower_seq(r)[i] == spec_lower(r[i]));
        assert((spec_lower_seq(r)[i] == 0x2e) == (r[i] == 0x2e));
        lemma_first_dot_lower(r, i + 1);
    }
}

/// Lowercasing commutes with taking a subrange.
proof fn lemma_lower_subrange(x: Seq<u8>, a: int, b: int)
    requires
        0 <= a <= b <= x.len(),
    ensures
        spec_lower_seq(x.subrange(a, b)) == spec_lower_seq(x).subrange(a, b),
{
    assert(spec_lower_seq(x.subrange(a, b)) =~= spec_lower_seq(x).subrange(a, b));
}

/// Matching is insensitive to case: the outcome on the lowercased pair
/// is the outcome on the originals.
pub proof fn lemma_match_case_insensitive(p: Seq<u8>, r: Seq<u8>)
    ensures
        spec_presented_matches_reference(spec_lower_seq(p), spec_lower_seq(r))
            == spec_presented_matches_reference(p, r),
{
    let lp = spec_lower_seq(p);
    let lr = spec_lower_seq(r);
    assert(lp.len() == p.len() && lr.len() == r.len());
    if p.len() >= 2 {
        assert(lp[0] == spec_lower(p[0]) && lp[1] == spec_lower(p[1]));
        assert((lp[0] == 0x2a) == (p[0] == 0x2a));
        assert((lp[1] == 0x2e) == (p[1] == 0x2e));
    }
    assert(spec_wildcard_form(lp) == spec_wildcard_form(p));
    if spec_wildcard_form(p) {
        lemma_first_dot_lower(r, 0);
        let dot = spec_first_dot(r, 0);
        assert(0 <= dot <= r.len()) by {
            lemma_first_dot_bounds(r, 0);
        }
        if 1 <= dot < r.len() {
            lemma_lower_subrange(p, 2, p.len() as int);
            lemma_lower_subrange(r, dot + 1, r.len() as int);
            lemma_lower_idempotent(p.subrange(2, p.len() as int));
            lemma_lower_idempotent(r.subrange(dot + 1, r.len() as int));
        }
    } else {
        lemma_lower_idempotent(p);
        lemma_lower_idempotent(r);
    }
}

/// The first dot lies between `i` and the length.
proof fn lemma_first_dot_bounds(r: Seq<u8>, i: int)
    requires
        0 <= i <= r.len(),
    ensures
        i <= spec_first_dot(r, i) <= r.len(),
    decreases r.len() - i,
{
    if i < r.len() && r[i] != 0x2e {
        lemma_first_dot_bounds(r, i + 1);
    }
}

} // verus!
