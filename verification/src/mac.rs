//! The message that is authenticated: ciphertext and associated data, each
//! behind its length.

use vstd::prelude::*;

verus! {

/// The eight bytes of `n`, most significant first.
pub open spec fn be_bytes(n: u64) -> Seq<u8> {
    seq![
        (n >> 56) as u8,
        (n >> 48) as u8,
        (n >> 40) as u8,
        (n >> 32) as u8,
        (n >> 24) as u8,
        (n >> 16) as u8,
        (n >> 8) as u8,
        n as u8,
    ]
}

/// `data` behind the eight-byte big-endian encoding of its length.
pub open spec fn length_prefixed(data: Seq<u8>) -> Seq<u8> {
    be_bytes(data.len() as u64) + data
}

/// The bytes that the tag is computed over: the length-prefixed ciphertext,
/// followed by the length-prefixed associated data where there is any.
/// Absent data adds nothing; empty data adds its eight-byte length.
pub open spec fn mac_message(ciphertext: Seq<u8>, data: Option<Seq<u8>>) -> Seq<u8> {
    match data {
        None => length_prefixed(ciphertext),
        Some(d) => length_prefixed(ciphertext) + length_prefixed(d),
    }
}

/// Encodes a length as the prefix that goes before a field of the message.
pub fn length_prefix(len: usize) -> (prefix: [u8; 8])
    ensures
        prefix@ == be_bytes(len as u64),
{
    let n: u64 = len as u64;
    let prefix: [u8; 8] = [
        (n >> 56) as u8,
        (n >> 48) as u8,
        (n >> 40) as u8,
        (n >> 32) as u8,
        (n >> 24) as u8,
        (n >> 16) as u8,
        (n >> 8) as u8,
        n as u8,
    ];
    prefix
}

/// Two numbers with the same encoding are the same number.
pub proof fn lemma_be_bytes_injective(a: u64, b: u64)
    requires
        be_bytes(a) == be_bytes(b),
    ensures
        a == b,
{
    let x = be_bytes(a);
    let y = be_bytes(b);
    assert(x[0] == y[0] && x[1] == y[1] && x[2] == y[2] && x[3] == y[3]);
    assert(x[4] == y[4] && x[5] == y[5] && x[6] == y[6] && x[7] == y[7]);
    assert(a == b) by (bit_vector)
        requires
            (a >> 56) as u8 == (b >> 56) as u8,
            (a >> 48) as u8 == (b >> 48) as u8,
            (a >> 40) as u8 == (b >> 40) as u8,
            (a >> 32) as u8 == (b >> 32) as u8,
            (a >> 24) as u8 == (b >> 24) as u8,
            (a >> 16) as u8 == (b >> 16) as u8,
            (a >> 8) as u8 == (b >> 8) as u8,
            a as u8 == b as u8,
    ;
}

/// The message can be read back in one way only: two pairs of ciphertext and
/// associated data that give the same message are the same pair. Without the
/// lengths, bytes could move from the end of one field to the start of the
/// next and leave the message as it was.
pub proof fn lemma_mac_message_injective(
    ciphertext1: Seq<u8>,
    data1: Option<Seq<u8>>,
    ciphertext2: Seq<u8>,
    data2: Option<Seq<u8>>,
)
    requires
        ciphertext1.len() <= u64::MAX,
        ciphertext2.len() <= u64::MAX,
        data1 matches Some(d) ==> d.len() <= u64::MAX,
        data2 matches Some(d) ==> d.len() <= u64::MAX,
        mac_message(ciphertext1, data1) == mac_message(ciphertext2, data2),
    ensures
        ciphertext1 == ciphertext2,
        data1 == data2,
{
    let m1 = mac_message(ciphertext1, data1);
    let m2 = mac_message(ciphertext2, data2);
    let n1 = ciphertext1.len() as int;
    let n2 = ciphertext2.len() as int;
    assert(m1.subrange(0, 8) =~= be_bytes(n1 as u64));
    assert(m2.subrange(0, 8) =~= be_bytes(n2 as u64));
    lemma_be_bytes_injective(n1 as u64, n2 as u64);
    assert(m1.subrange(8, 8 + n1) =~= ciphertext1);
    assert(m2.subrange(8, 8 + n2) =~= ciphertext2);
    let rest1 = m1.subrange(8 + n1, m1.len() as int);
    let rest2 = m2.subrange(8 + n2, m2.len() as int);
    assert(rest1 == rest2);
    match (data1, data2) {
        (Some(d1), Some(d2)) => {
            assert(rest1 =~= length_prefixed(d1));
            assert(rest2 =~= length_prefixed(d2));
            assert(rest1.subrange(0, 8) =~= be_bytes(d1.len() as u64));
            assert(rest2.subrange(0, 8) =~= be_bytes(d2.len() as u64));
            lemma_be_bytes_injective(d1.len() as u64, d2.len() as u64);
            assert(rest1.subrange(8, 8 + d1.len() as int) =~= d1);
            assert(rest2.subrange(8, 8 + d2.len() as int) =~= d2);
        },
        (Some(d1), None) => {
            assert(rest1 =~= length_prefixed(d1));
            assert(rest2.len() == 0);
        },
        (None, Some(d2)) => {
            assert(rest2 =~= length_prefixed(d2));
            assert(rest1.len() == 0);
        },
        (None, None) => {},
    }
}

/// No data and empty data are told apart: the message for empty data is
/// eight bytes longer than the message for none.
pub proof fn lemma_absent_data_differs_from_empty(ciphertext: Seq<u8>)
    ensures
        mac_message(ciphertext, Some(Seq::<u8>::empty())).len() == mac_message(
            ciphertext,
            None,
        ).len() + 8,
        mac_message(ciphertext, None) != mac_message(ciphertext, Some(Seq::<u8>::empty())),
{
}

} // verus!
