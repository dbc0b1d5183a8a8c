//! Facts about UTF-8 encoding and decoding of joined text.

use vstd::prelude::*;
use vstd::utf8::*;

verus! {

/// Encoding distributes over joining text.
pub proof fn lemma_encode_utf8_concat(a: Seq<char>, b: Seq<char>)
    ensures
        encode_utf8(a + b) == encode_utf8(a) + encode_utf8(b),
    decreases a.len(),
{
    if a.len() == 0 {
        assert(a + b == b);
    } else {
        lemma_encode_utf8_concat(a.drop_first(), b);
        assert((a + b).drop_first() == a.drop_first() + b);
        assert((a + b)[0] == a[0]);
        assert(encode_utf8(a + b) == encode_scalar(a[0] as u32) + encode_utf8(a.drop_first() + b));
        assert(encode_utf8(a) == encode_scalar(a[0] as u32) + encode_utf8(a.drop_first()));
    }
}

/// Decoding distributes over joining valid UTF-8.
pub proof fn lemma_decode_utf8_concat(a: Seq<u8>, b: Seq<u8>)
    requires
        valid_utf8(a),
        valid_utf8(b),
    ensures
        valid_utf8(a + b),
        decode_utf8(a + b) == decode_utf8(a) + decode_utf8(b),
{
    broadcast use valid_utf8_concat, decode_utf8_encode_utf8, encode_utf8_decode_utf8;

    lemma_encode_utf8_concat(decode_utf8(a), decode_utf8(b));
    assert(encode_utf8(decode_utf8(a) + decode_utf8(b)) == a + b);
}

} // verus!
