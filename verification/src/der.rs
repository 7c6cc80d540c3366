//! Strict DER tag-length-value decoding over untrusted byte slices.
//!
//! Only definite, minimally encoded lengths of at most four length bytes are
//! accepted; multi-byte tags are rejected. Every reader works on an explicit
//! window `[pos, end)` of the input so nested values never alias or copy
//! until a caller keeps one.

use vstd::prelude::*;
use vstd::slice::{slice_index_get, slice_subrange, slice_to_vec};

use crate::error::Error;

verus! {

/// Bit set on constructed tags.
pub const CONSTRUCTED: u8 = 0x20;
/// Bit set on context-specific tags.
pub const CONTEXT_SPECIFIC: u8 = 0x80;

/// Tag of a BOOLEAN value.
pub const TAG_BOOLEAN: u8 = 0x01;
/// Tag of an INTEGER value.
pub const TAG_INTEGER: u8 = 0x02;
/// Tag of a BIT STRING value.
pub const TAG_BIT_STRING: u8 = 0x03;
/// Tag of an OCTET STRING value.
pub const TAG_OCTET_STRING: u8 = 0x04;
/// Tag of an OBJECT IDENTIFIER value.
pub const TAG_OID: u8 = 0x06;
/// Tag of a UTF8String value.
pub const TAG_UTF8_STRING: u8 = 0x0c;
/// Tag of a PrintableString value.
pub const TAG_PRINTABLE_STRING: u8 = 0x13;
/// Tag of a TeletexString value.
pub const TAG_TELETEX_STRING: u8 = 0x14;
/// Tag of an IA5String value.
pub const TAG_IA5_STRING: u8 = 0x16;
/// Tag of a UTCTime value.
pub const TAG_UTC_TIME: u8 = 0x17;
/// Tag of a GeneralizedTime value.
pub const TAG_GENERALIZED_TIME: u8 = 0x18;
/// Tag of a BMPString value.
pub const TAG_BMP_STRING: u8 = 0x1e;
/// Tag of a SEQUENCE value.
pub const TAG_SEQUENCE: u8 = 0x30;
/// Tag of a SET value.
pub const TAG_SET: u8 = 0x31;
/// Tag of the constructed context-specific value number 0.
pub const TAG_CONTEXT_SPECIFIC_CONSTRUCTED_0: u8 = 0xa0;
/// Tag of the constructed context-specific value number 1.
pub const TAG_CONTEXT_SPECIFIC_CONSTRUCTED_1: u8 = 0xa1;
/// Tag of the constructed context-specific value number 3.
pub const TAG_CONTEXT_SPECIFIC_CONSTRUCTED_3: u8 = 0xa3;

/// The minimal DER encoding of a content length. Lengths at or above 2^32
/// are outside the profile and get the empty sequence.
pub open spec fn spec_len_bytes(len: nat) -> Seq<u8> {
    if len < 0x80 {
        seq![len as u8]
    } else if len < 0x100 {
        seq![0x81u8, len as u8]
    } else if len < 0x10000 {
        seq![0x82u8, (len / 0x100) as u8, (len % 0x100) as u8]
    } else if len < 0x1000000 {
        seq![0x83u8, (len / 0x10000) as u8, ((len / 0x100) % 0x100) as u8, (len % 0x100) as u8]
    } else if len < 0x100000000 {
        seq![
            0x84u8,
            (len / 0x1000000) as u8,
            ((len / 0x10000) % 0x100) as u8,
            ((len / 0x100) % 0x100) as u8,
            (len % 0x100) as u8,
        ]
    } else {
        seq![]
    }
}

/// The header (tag octet followed by length octets) that DER prescribes for
/// a value of `len` content octets under `tag`.
pub open spec fn spec_header(tag: u8, len: nat) -> Seq<u8> {
    seq![tag] + spec_len_bytes(len)
}

/// Helper for [`spec_read_tlv`]: the parse succeeds when the content fits
/// inside the window.
pub open spec fn spec_tlv_fit(end: int, pos: int, tag: u8, hdr: int, len: int) -> Option<
    (u8, int, int),
> {
    if pos + hdr + len <= end {
        Some((tag, pos + hdr, len))
    } else {
        None
    }
}

/// Reads one tag-length-value at `pos` inside the window `[pos, end)` of
/// `b`. Yields the tag, the offset of the first content octet, and the
/// content length, or `None` where the framing breaks the profile:
/// multi-byte tags, indefinite lengths, lengths of more than four octets,
/// lengths that are not minimally encoded, and content that overruns the
/// window are all refused.
pub open spec fn spec_read_tlv(b: Seq<u8>, pos: int, end: int) -> Option<(u8, int, int)> {
    if pos < 0 || pos + 2 > end || end > b.len() {
        None
    } else {
        let tag = b[pos];
        if tag & 0x1f == 0x1f {
            None
        } else {
            let l0 = b[pos + 1];
            if l0 < 0x80 {
                spec_tlv_fit(end, pos, tag, 2, l0 as int)
            } else if l0 == 0x81 {
                if pos + 3 > end {
                    None
                } else {
                    let l = b[pos + 2] as int;
                    if l < 0x80 {
                        None
                    } else {
                        spec_tlv_fit(end, pos, tag, 3, l)
                    }
                }
            } else if l0 == 0x82 {
                if pos + 4 > end {
                    None
                } else {
                    let l = (b[pos + 2] as int) * 0x100 + (b[pos + 3] as int);
                    if l < 0x100 {
                        None
                    } else {
                        spec_tlv_fit(end, pos, tag, 4, l)
                    }
                }
            } else if l0 == 0x83 {
                if pos + 5 > end {
                    None
                } else {
                    let l = (b[pos + 2] as int) * 0x10000 + (b[pos + 3] as int) * 0x100 + (b[pos
                        + 4] as int);
                    if l < 0x10000 {
                        None
                    } else {
                        spec_tlv_fit(end, pos, tag, 5, l)
                    }
                }
            } else if l0 == 0x84 {
                if pos + 6 > end {
                    None
                } else {
                    let l = (b[pos + 2] as int) * 0x1000000 + (b[pos + 3] as int) * 0x10000 + (b[
                        pos + 4] as int) * 0x100 + (b[pos + 5] as int);
                    if l < 0x1000000 {
                        None
                    } else {
                        spec_tlv_fit(end, pos, tag, 6, l)
                    }
                }
            } else {
                None
            }
        }
    }
}

/// Reads the tag-length-value at `pos` within `[pos, end)`. On success the
/// returned triple is the tag, the offset of the first content octet, and
/// the content length, exactly as [`spec_read_tlv`] prescribes.
pub fn read_tag_and_get_value(input: &[u8], pos: usize, end: usize) -> (r: Result<
    (u8, usize, usize),
    Error,
>)
    requires
        pos <= end <= input@.len(),
    ensures
        match r {
            Ok((tag, start, len)) => {
                &&& spec_read_tlv(input@, pos as int, end as int) == Some(
                    (tag, start as int, len as int),
                )
                &&& pos + 2 <= start <= end
                &&& start + len <= end
            },
            Err(e) => {
                &&& e == Error::BadDer
                &&& spec_read_tlv(input@, pos as int, end as int) is None
            },
        },
{
    if end - pos < 2 {
        return Err(Error::BadDer);
    }
    let tag = *slice_index_get(input, pos);
    if tag & 0x1f == 0x1f {
        return Err(Error::BadDer);
    }
    let l0 = *slice_index_get(input, pos + 1);
    let (hdr, len): (usize, usize) = if l0 < 0x80 {
        (2, l0 as usize)
    } else if l0 == 0x81 {
        if end - pos < 3 {
            return Err(Error::BadDer);
        }
        let l = *slice_index_get(input, pos + 2) as usize;
        if l < 0x80 {
            return Err(Error::BadDer);
        }
        (3, l)
    } else if l0 == 0x82 {
        if end - pos < 4 {
            return Err(Error::BadDer);
        }
        let l = (*slice_index_get(input, pos + 2) as usize) * 0x100 + (*slice_index_get(
            input,
            pos + 3,
        ) as usize);
        if l < 0x100 {
            return Err(Error::BadDer);
        }
        (4, l)
    } else if l0 == 0x83 {
        if end - pos < 5 {
            return Err(Error::BadDer);
        }
        let l = (*slice_index_get(input, pos + 2) as usize) * 0x10000 + (*slice_index_get(
            input,
            pos + 3,
        ) as usize) * 0x100 + (*slice_index_get(input, pos + 4) as usize);
        if l < 0x10000 {
            return Err(Error::BadDer);
        }
        (5, l)
    } else if l0 == 0x84 {
        if end - pos < 6 {
            return Err(Error::BadDer);
        }
        let l = (*slice_index_get(input, pos + 2) as usize) * 0x1000000 + (*slice_index_get(
            input,
            pos + 3,
        ) as usize) * 0x10000 + (*slice_index_get(input, pos + 4) as usize) * 0x100
            + (*slice_index_get(input, pos + 5) as usize);
        if l < 0x1000000 {
            return Err(Error::BadDer);
        }
        (6, l)
    } else {
        return Err(Error::BadDer);
    };
    if len > end - pos - hdr {
        return Err(Error::BadDer);
    }
    Ok((tag, pos + hdr, len))
}

/// Reads the value at `pos` and checks its tag. On success returns the
/// offset of the first content octet and the content length.
pub fn expect_tag_and_get_value(input: &[u8], pos: usize, end: usize, tag: u8) -> (r: Result<
    (usize, usize),
    Error,
>)
    requires
        pos <= end <= input@.len(),
    ensures
        match r {
            Ok((start, len)) => {
                &&& spec_read_tlv(input@, pos as int, end as int) == Some(
                    (tag, start as int, len as int),
                )
                &&& pos + 2 <= start <= end
                &&& start + len <= end
            },
            Err(e) => {
                &&& e == Error::BadDer
                &&& match spec_read_tlv(input@, pos as int, end as int) {
                    Some((t, _, _)) => t != tag,
                    None => true,
                }
            },
        },
{
    let (t, start, len) = read_tag_and_get_value(input, pos, end)?;
    if t != tag {
        return Err(Error::BadDer);
    }
    Ok((start, len))
}

/// True when a value begins at `pos` and carries `tag`.
pub fn peek_tag(input: &[u8], pos: usize, end: usize, tag: u8) -> (r: bool)
    requires
        pos <= end <= input@.len(),
    ensures
        r == (pos < end && input@[pos as int] == tag),
{
    pos < end && *slice_index_get(input, pos) == tag
}

/// Copies the window `[start, end)` of `input` into an owned vector.
pub fn subvec(input: &[u8], start: usize, end: usize) -> (r: Vec<u8>)
    requires
        start <= end <= input@.len(),
    ensures
        r@ == input@.subrange(start as int, end as int),
{
    slice_to_vec(slice_subrange(input, start, end))
}

/// The contents of a BIT STRING whose unused-bits octet demands zero unused
/// bits, or `None` where the BIT STRING breaks that rule.
pub open spec fn spec_bit_string_value(b: Seq<u8>, pos: int, end: int) -> Option<(int, int)> {
    match spec_read_tlv(b, pos, end) {
        Some((tag, start, len)) => if tag == TAG_BIT_STRING && len >= 1 && b[start] == 0 {
            Some((start + 1, (len - 1) as int))
        } else {
            None
        },
        None => None,
    }
}

/// Reads a BIT STRING at `pos` and requires its unused-bit count octet to be
/// zero; returns the offset and length of the remaining content octets.
pub fn bit_string_with_no_unused_bits(input: &[u8], pos: usize, end: usize) -> (r: Result<
    (usize, usize),
    Error,
>)
    requires
        pos <= end <= input@.len(),
    ensures
        match r {
            Ok((start, len)) => {
                &&& spec_bit_string_value(input@, pos as int, end as int) == Some(
                    (start as int, len as int),
                )
                &&& pos < start <= end
                &&& start + len <= end
            },
            Err(e) => {
                &&& e == Error::BadDer
                &&& spec_bit_string_value(input@, pos as int, end as int) is None
            },
        },
{
    let (start, len) = expect_tag_and_get_value(input, pos, end, TAG_BIT_STRING)?;
    if len < 1 {
        return Err(Error::BadDer);
    }
    if *slice_index_get(input, start) != 0 {
        return Err(Error::BadDer);
    }
    Ok((start + 1, len - 1))
}

/// Framing round trip, one direction: wherever a tag-length-value parses,
/// the octets of its header are exactly the header DER prescribes for its
/// tag and content length, so re-encoding the parsed boundaries reproduces
/// the input offsets.
pub proof fn lemma_tlv_header_round_trip(b: Seq<u8>, pos: int, end: int)
    requires
        spec_read_tlv(b, pos, end) is Some,
    ensures
        ({
            let (tag, start, len) = spec_read_tlv(b, pos, end)->Some_0;
            &&& b.subrange(pos, start) =~= spec_header(tag, len as nat)
            &&& start == pos + spec_header(tag, len as nat).len()
            &&& start + len <= end <= b.len()
        }),
{
    let (tag, start, len) = spec_read_tlv(b, pos, end)->Some_0;
    let l0 = b[pos + 1];
    if l0 < 0x80 {
        assert(b.subrange(pos, start) =~= spec_header(tag, len as nat));
    } else if l0 == 0x81 {
        assert(b.subrange(pos, start) =~= spec_header(tag, len as nat));
    } else if l0 == 0x82 {
        let hi = b[pos + 2] as int;
        let lo = b[pos + 3] as int;
        assert(len == hi * 0x100 + lo);
        assert(len / 0x100 == hi && len % 0x100 == lo) by (nonlinear_arith)
            requires
                len == hi * 0x100 + lo,
                0 <= hi < 0x100,
                0 <= lo < 0x100,
        ;
        assert(b.subrange(pos, start) =~= spec_header(tag, len as nat));
    } else if l0 == 0x83 {
        let b2 = b[pos + 2] as int;
        let b3 = b[pos + 3] as int;
        let b4 = b[pos + 4] as int;
        assert(len == b2 * 0x10000 + b3 * 0x100 + b4);
        assert(len / 0x10000 == b2 && (len / 0x100) % 0x100 == b3 && len % 0x100 == b4)
            by (nonlinear_arith)
            requires
                len == b2 * 0x10000 + b3 * 0x100 + b4,
                0 <= b2 < 0x100,
                0 <= b3 < 0x100,
                0 <= b4 < 0x100,
        ;
        assert(b.subrange(pos, start) =~= spec_header(tag, len as nat));
    } else {
        let b2 = b[pos + 2] as int;
        let b3 = b[pos + 3] as int;
        let b4 = b[pos + 4] as int;
        let b5 = b[pos + 5] as int;
        assert(len == b2 * 0x1000000 + b3 * 0x10000 + b4 * 0x100 + b5);
        assert(len / 0x1000000 == b2 && (len / 0x10000) % 0x100 == b3 && (len / 0x100) % 0x100
            == b4 && len % 0x100 == b5) by (nonlinear_arith)
            requires
                len == b2 * 0x1000000 + b3 * 0x10000 + b4 * 0x100 + b5,
                0 <= b2 < 0x100,
                0 <= b3 < 0x100,
                0 <= b4 < 0x100,
                0 <= b5 < 0x100,
        ;
        assert(b.subrange(pos, start) =~= spec_header(tag, len as nat));
    }
}

/// Framing round trip, the other direction: wherever the input holds the
/// DER header for `tag` and `len` followed by `len` content octets inside
/// the window, the parse yields exactly those boundaries.
pub proof fn lemma_tlv_parse_of_encoding(b: Seq<u8>, pos: int, end: int, tag: u8, len: nat)
    requires
        0 <= pos,
        tag & 0x1f != 0x1f,
        len < 0x100000000,
        pos + spec_header(tag, len).len() + len <= end <= b.len(),
        b.subrange(pos, pos + spec_header(tag, len).len()) =~= spec_header(tag, len),
    ensures
        spec_read_tlv(b, pos, end) == Some(
            (tag, pos + spec_header(tag, len).len(), len as int),
        ),
{
    let hdr = spec_header(tag, len);
    assert(b[pos] == hdr[0]);
    assert(b[pos + 1] == hdr[1]);
    if len < 0x80 {
    } else if len < 0x100 {
        assert(b[pos + 2] == hdr[2]);
    } else if len < 0x10000 {
        assert(b[pos + 2] == hdr[2]);
        assert(b[pos + 3] == hdr[3]);
        assert((len / 0x100) * 0x100 + (len % 0x100) == len && len / 0x100 >= 1) by (
        nonlinear_arith)
            requires
                0x100 <= len < 0x10000,
        ;
    } else if len < 0x1000000 {
        assert(b[pos + 2] == hdr[2]);
        assert(b[pos + 3] == hdr[3]);
        assert(b[pos + 4] == hdr[4]);
        assert((len / 0x10000) * 0x10000 + ((len / 0x100) % 0x100) * 0x100 + (len % 0x100) == len
            && len / 0x10000 >= 1) by (nonlinear_arith)
            requires
                0x10000 <= len < 0x1000000,
        ;
    } else {
        assert(b[pos + 2] == hdr[2]);
        assert(b[pos + 3] == hdr[3]);
        assert(b[pos + 4] == hdr[4]);
        assert(b[pos + 5] == hdr[5]);
        assert((len / 0x1000000) * 0x1000000 + ((len / 0x10000) % 0x100) * 0x10000 + ((len / 0x100)
            % 0x100) * 0x100 + (len % 0x100) == len && len / 0x1000000 >= 1) by (nonlinear_arith)
            requires
                0x1000000 <= len < 0x100000000,
        ;
    }
}

} // verus!
