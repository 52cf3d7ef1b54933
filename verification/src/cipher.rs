//! The keystream transform: a buffer combined byte by byte with a pad.

use vstd::prelude::*;

verus! {

/// `data` with each byte combined by exclusive or with the byte of `pad` at
/// the same place.
pub open spec fn xor_bytes(data: Seq<u8>, pad: Seq<u8>) -> Seq<u8> {
    Seq::new(data.len(), |i: int| data[i] ^ pad[i])
}

/// Combining twice with the same pad gives the data back.
pub proof fn lemma_xor_bytes_twice(data: Seq<u8>, pad: Seq<u8>)
    ensures
        xor_bytes(xor_bytes(data, pad), pad) == data,
{
    let once = xor_bytes(data, pad);
    let twice = xor_bytes(once, pad);
    assert forall|i: int| 0 <= i < data.len() implies twice[i] == data[i] by {
        let d = data[i];
        let p = pad[i];
        assert((d ^ p) ^ p == d) by (bit_vector);
    }
    assert(twice =~= data);
}

} // verus!
