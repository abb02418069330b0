//! Comparing texts without telling, by the time taken, where they differ.

use vstd::prelude::*;
use vstd::string::*;
use vstd::utf8::encode_utf8;
use vstd::utf8::encode_utf8_decode_utf8;

verus! {

/// What an optional text holds.
pub open spec fn text_of(t: Option<String>) -> Option<Seq<char>> {
    match t {
        Some(s) => Some(s@),
        None => None,
    }
}

/// Whether two byte strings are equal. The time taken depends on the lengths
/// alone: strings of one length are read to the end, whatever they hold.
pub fn bytes_equal(a: &[u8], b: &[u8]) -> (r: bool)
    ensures
        r == (a@ == b@),
{
    if a.len() != b.len() {
        return false;
    }
    let n = a.len();
    let mut diff: u8 = 0;
    let mut i: usize = 0;
    assert(a@.subrange(0, 0) == b@.subrange(0, 0));
    while i < n
        invariant
            i <= n,
            n == a@.len(),
            n == b@.len(),
            (diff == 0) <==> (a@.subrange(0, i as int) == b@.subrange(0, i as int)),
        decreases n - i,
    {
        let x: u8 = a[i];
        let y: u8 = b[i];
        let ghost before = diff;
        diff = diff | (x ^ y);
        proof {
            assert((before | (x ^ y)) == 0 <==> (before == 0 && x == y)) by (bit_vector);
            let pa = a@.subrange(0, i as int);
            let pb = b@.subrange(0, i as int);
            let na = a@.subrange(0, i as int + 1);
            let nb = b@.subrange(0, i as int + 1);
            assert(na == pa.push(x));
            assert(nb == pb.push(y));
            if na == nb {
                assert(na.drop_last() == nb.drop_last());
                assert(na.drop_last() == pa);
                assert(nb.drop_last() == pb);
                assert(na.last() == nb.last());
            }
        }
        i = i + 1;
    }
    proof {
        assert(a@.subrange(0, n as int) == a@);
        assert(b@.subrange(0, n as int) == b@);
    }
    diff == 0
}

/// Whether two texts are equal, compared as `bytes_equal` compares their
/// UTF-8 bytes.
pub fn text_equal(a: &str, b: &str) -> (r: bool)
    ensures
        r == (a@ == b@),
{
    proof {
        encode_utf8_decode_utf8(a@);
        encode_utf8_decode_utf8(b@);
        assert(encode_utf8(a@) == encode_utf8(b@) ==> a@ == b@);
    }
    bytes_equal(a.as_bytes(), b.as_bytes())
}

} // verus!
