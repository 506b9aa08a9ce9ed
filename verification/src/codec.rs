use vstd::prelude::*;
use crate::byte_len;
use crate::record::layout_size;
use crate::record::serialized_len;
use crate::record::TokenKind;
use crate::record::TokenRecord;

verus! {

/// A `u16` in little-endian byte order.
pub open spec fn u16_le(v: u16) -> Seq<u8> {
    seq![(v & 0xff) as u8, ((v >> 8) & 0xff) as u8]
}

/// A `u32` in little-endian byte order.
pub open spec fn u32_le(v: u32) -> Seq<u8> {
    seq![
        (v & 0xff) as u8,
        ((v >> 8) & 0xff) as u8,
        ((v >> 16) & 0xff) as u8,
        ((v >> 24) & 0xff) as u8,
    ]
}

/// A `u64` in little-endian byte order.
pub open spec fn u64_le(v: u64) -> Seq<u8> {
    seq![
        (v & 0xff) as u8,
        ((v >> 8) & 0xff) as u8,
        ((v >> 16) & 0xff) as u8,
        ((v >> 24) & 0xff) as u8,
        ((v >> 32) & 0xff) as u8,
        ((v >> 40) & 0xff) as u8,
        ((v >> 48) & 0xff) as u8,
        ((v >> 56) & 0xff) as u8,
    ]
}

/// A bounded text field on the wire: a little-endian byte-length
/// prefix, then the encoded bytes at their actual length.
pub open spec fn string_field(s: Seq<char>) -> Seq<u8> {
    u32_le(byte_len(s) as u32) + vstd::utf8::encode_utf8(s)
}

/// The tag byte of a record kind.
pub open spec fn kind_tag(k: TokenKind) -> u8 {
    match k {
        TokenKind::Standard => 0,
        TokenKind::Rwa => 1,
    }
}

/// A record's serialized content, in declaration order, as the storage
/// layer lays it down behind its 8-byte header: fixed-width fields
/// as-is, text fields length-prefixed, and the optional sub-record
/// behind a presence flag.
pub open spec fn record_bytes(r: TokenRecord) -> Seq<u8> {
    seq![r.bump] + seq![kind_tag(r.kind)] + r.authority@ + r.mint@ + seq![r.decimals] + u64_le(
        r.supply,
    ) + string_field(r.name@) + string_field(r.symbol@) + string_field(r.uri@) + (match r.rwa {
        None => seq![0u8],
        Some(d) => seq![1u8] + string_field(d.asset_id@) + u64_le(d.valuation) + u16_le(
            d.yield_bps,
        ),
    })
}

fn push_bytes(out: &mut Vec<u8>, b: &[u8])
    ensures
        final(out)@ == old(out)@ + b@,
{
    let n = b.len();
    let mut i: usize = 0;
    while i < n
        invariant
            n == b@.len(),
            i <= n,
            out@ == old(out)@ + b@.subrange(0, i as int),
        decreases n - i,
    {
        out.push(b[i]);
        proof {
            assert(out@ =~= old(out)@ + b@.subrange(0, i + 1));
        }
        i += 1;
    }
    proof {
        assert(out@ =~= old(out)@ + b@);
    }
}

fn push_u16(out: &mut Vec<u8>, v: u16)
    ensures
        final(out)@ == old(out)@ + u16_le(v),
{
    out.push((v & 0xff) as u8);
    out.push(((v >> 8) & 0xff) as u8);
    proof {
        assert(out@ =~= old(out)@ + u16_le(v));
    }
}

fn push_u32(out: &mut Vec<u8>, v: u32)
    ensures
        final(out)@ == old(out)@ + u32_le(v),
{
    out.push((v & 0xff) as u8);
    out.push(((v >> 8) & 0xff) as u8);
    out.push(((v >> 16) & 0xff) as u8);
    out.push(((v >> 24) & 0xff) as u8);
    proof {
        assert(out@ =~= old(out)@ + u32_le(v));
    }
}

fn push_u64(out: &mut Vec<u8>, v: u64)
    ensures
        final(out)@ == old(out)@ + u64_le(v),
{
    out.push((v & 0xff) as u8);
    out.push(((v >> 8) & 0xff) as u8);
    out.push(((v >> 16) & 0xff) as u8);
    out.push(((v >> 24) & 0xff) as u8);
    out.push(((v >> 32) & 0xff) as u8);
    out.push(((v >> 40) & 0xff) as u8);
    out.push(((v >> 48) & 0xff) as u8);
    out.push(((v >> 56) & 0xff) as u8);
    proof {
        assert(out@ =~= old(out)@ + u64_le(v));
    }
}

fn push_string(out: &mut Vec<u8>, s: &String)
    requires
        byte_len(s@) <= u32::MAX,
    ensures
        final(out)@ == old(out)@ + string_field(s@),
{
    let b = s.as_str().as_bytes();
    push_u32(out, b.len() as u32);
    push_bytes(out, b);
    proof {
        assert(out@ =~= old(out)@ + string_field(s@));
    }
}

/// Serializes a well-formed record to the exact bytes the storage
/// layer persists behind its header; the result always fits the
/// reserved slot, whatever the text fields' actual lengths.
pub fn encode_record(r: &TokenRecord) -> (out: Vec<u8>)
    requires
        r.wf(),
    ensures
        out@ == record_bytes(*r),
        out@.len() + 8 == serialized_len(*r),
        out@.len() + 8 <= layout_size(r.kind),
{
    let mut out: Vec<u8> = Vec::new();
    out.push(r.bump);
    out.push(
        match r.kind {
            TokenKind::Standard => 0,
            TokenKind::Rwa => 1,
        },
    );
    push_bytes(&mut out, r.authority.as_slice());
    push_bytes(&mut out, r.mint.as_slice());
    out.push(r.decimals);
    push_u64(&mut out, r.supply);
    push_string(&mut out, &r.name);
    push_string(&mut out, &r.symbol);
    push_string(&mut out, &r.uri);
    match &r.rwa {
        None => out.push(0),
        Some(d) => {
            out.push(1);
            push_string(&mut out, &d.asset_id);
            push_u64(&mut out, d.valuation);
            push_u16(&mut out, d.yield_bps);
        },
    }
    proof {
        assert(out@ =~= record_bytes(*r));
    }
    out
}

/// The serialized content's length is the record's serialized size
/// less the storage engine's 8-byte header.
pub proof fn lemma_record_bytes_len(r: TokenRecord)
    ensures
        record_bytes(r).len() + 8 == serialized_len(r),
{
}

} // verus!
