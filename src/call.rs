use vstd::prelude::*;

verus! {

/// The `k` low bytes of `n`, least significant first.
pub open spec fn le_bytes(n: nat, k: nat) -> Seq<u8>
    decreases k,
{
    if k == 0 {
        Seq::empty()
    } else {
        seq![(n % 256) as u8] + le_bytes(n / 256, (k - 1) as nat)
    }
}

/// SCALE compact encoding of a 32-bit length: the two low bits of the first
/// byte tell whether one, two or four bytes follow the mode, or a full
/// little-endian `u32` after a marker byte.
pub open spec fn compact_len_bytes(n: nat) -> Seq<u8> {
    if n < 0x40 {
        le_bytes(n * 4, 1)
    } else if n < 0x4000 {
        le_bytes(n * 4 + 1, 2)
    } else if n < 0x4000_0000 {
        le_bytes(n * 4 + 2, 4)
    } else {
        seq![3u8] + le_bytes(n, 4)
    }
}

/// Encoding of the remote call `(module, call, cid, size)`: each field in turn,
/// the content id behind its compact length.
pub open spec fn order_call_bytes(module: u8, call: u8, cid: Seq<u8>, size: u64) -> Seq<u8> {
    seq![module, call] + compact_len_bytes(cid.len()) + cid + le_bytes(size as nat, 8)
}

/// Relies on `parity_scale_codec::Encode::encode` for the tuple
/// `(u8, u8, &Vec<u8>, u64)`: the fields one after another, a `u8` as its byte,
/// a byte vector as its compact length then its bytes, a `u64` as eight
/// little-endian bytes. The length prefix panics above `u32::MAX` elements.
#[verifier::external_body]
pub(crate) fn encode_order_call(module: u8, call: u8, cid: &Vec<u8>, size: u64) -> (r: Vec<u8>)
    requires
        cid@.len() <= u32::MAX,
    ensures
        r@ == order_call_bytes(module, call, cid@, size),
{
    parity_scale_codec::Encode::encode(&(module, call, cid, size))
}

} // verus!
