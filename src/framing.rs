use vstd::prelude::*;
use bytes::BufMut;
use vstd::string::StringSliceAdditionalSpecFns;

verus! {

/// The eight bytes of `n`, most significant first.
pub open spec fn u64_be_bytes(n: u64) -> Seq<u8> {
    seq![
        (n >> 56u64) as u8,
        (n >> 48u64) as u8,
        (n >> 40u64) as u8,
        (n >> 32u64) as u8,
        (n >> 24u64) as u8,
        (n >> 16u64) as u8,
        (n >> 8u64) as u8,
        n as u8,
    ]
}

/// The number that eight bytes encode, most significant first.
pub open spec fn u64_from_be_bytes(b: Seq<u8>) -> u64
    recommends
        b.len() == 8,
{
    ((b[0] as u64) << 56u64) | ((b[1] as u64) << 48u64) | ((b[2] as u64) << 40u64) | ((
    b[3] as u64) << 32u64) | ((b[4] as u64) << 24u64) | ((b[5] as u64) << 16u64) | ((
    b[6] as u64) << 8u64) | (b[7] as u64)
}

/// A payload framed under a namespace: the namespace's length as eight big-endian
/// bytes, the namespace, then the proposal.
pub open spec fn framed(namespace: Seq<u8>, proposal: Seq<u8>) -> Seq<u8> {
    u64_be_bytes(namespace.len() as u64) + namespace + proposal
}

/// Relies on bytes::BufMut::put_u64 for Vec<u8>: appends `n` as eight big-endian bytes.
#[verifier::external_body]
fn put_u64(buf: &mut Vec<u8>, n: u64)
    ensures
        final(buf)@ == old(buf)@ + u64_be_bytes(n),
{
    buf.put_u64(n)
}

/// Relies on bytes::BufMut::put_slice for Vec<u8>: appends the bytes of `src` as they are.
#[verifier::external_body]
fn put_slice(buf: &mut Vec<u8>, src: &[u8])
    ensures
        final(buf)@ == old(buf)@ + src@,
{
    buf.put_slice(src)
}

/// Frames `proposal` under `namespace` so that a reader can tell which namespace it
/// belongs to.
pub fn frame(namespace: &str, proposal: &[u8]) -> (r: Vec<u8>)
    ensures
        r@ == framed(namespace.spec_bytes(), proposal@),
{
    let mut data: Vec<u8> = Vec::new();
    let tag: &[u8] = namespace.as_bytes();
    put_u64(&mut data, tag.len() as u64);
    put_slice(&mut data, tag);
    put_slice(&mut data, proposal);
    assert(data@ =~= framed(namespace.spec_bytes(), proposal@));
    data
}

/// The length prefix of a framed payload gives back the namespace's length, and
/// what follows it is the namespace and then the proposal.
pub proof fn lemma_frame_prefix_decodes(namespace: Seq<u8>, proposal: Seq<u8>)
    requires
        namespace.len() <= u64::MAX,
    ensures
        framed(namespace, proposal).len() == 8 + namespace.len() as int + proposal.len(),
        u64_from_be_bytes(framed(namespace, proposal).subrange(0, 8)) == namespace.len(),
        framed(namespace, proposal).subrange(8, 8 + namespace.len() as int) == namespace,
        framed(namespace, proposal).subrange(8 + namespace.len() as int, framed(namespace, proposal).len() as int) == proposal,
{
    let n = namespace.len() as u64;
    let f = framed(namespace, proposal);
    let p = f.subrange(0, 8);
    assert(p =~= u64_be_bytes(n));
    assert(((((n >> 56u64) as u8) as u64) << 56u64) | ((((n >> 48u64) as u8) as u64) << 48u64)
        | ((((n >> 40u64) as u8) as u64) << 40u64) | ((((n >> 32u64) as u8) as u64) << 32u64)
        | ((((n >> 24u64) as u8) as u64) << 24u64) | ((((n >> 16u64) as u8) as u64) << 16u64)
        | ((((n >> 8u64) as u8) as u64) << 8u64) | ((n as u8) as u64) == n) by (bit_vector);
    assert(f.subrange(8, 8 + namespace.len() as int) =~= namespace);
    assert(f.subrange(8 + namespace.len() as int, f.len() as int) =~= proposal);
}

} // verus!
