//! Bearer tokens.

use vstd::prelude::*;

use crate::text;
use crate::text::strip_prefix;

verus! {

/// Collecting the differing bits of two bytes leaves nothing just when nothing
/// was collected before and the bytes are the same.
proof fn lemma_collect(diff: u8, x: u8, y: u8)
    ensures
        (diff | (x ^ y)) == 0 <==> diff == 0 && x == y,
{
    assert((diff | (x ^ y)) == 0 <==> diff == 0 && x == y) by (bit_vector);
}

/// Tells whether two secrets are the same, in a time that does not depend on
/// where they differ.
pub fn constant_time_eq(a: &str, b: &str) -> (r: bool)
    ensures
        r == (a@ == b@),
{
    let x = a.as_bytes();
    let y = b.as_bytes();
    proof {
        vstd::utf8::encode_utf8_decode_utf8(a@);
        vstd::utf8::encode_utf8_decode_utf8(b@);
    }
    if x.len() != y.len() {
        return false;
    }
    assert(x@.take(0) =~= y@.take(0));
    let mut diff: u8 = 0;
    let mut i: usize = 0;
    while i < x.len()
        invariant
            i <= x.len(),
            x.len() == y.len(),
            diff == 0 <==> x@.take(i as int) == y@.take(i as int),
        decreases x.len() - i,
    {
        proof {
            lemma_collect(diff, x@[i as int], y@[i as int]);
            let p = x@.take(i + 1);
            let q = y@.take(i + 1);
            assert(p.drop_last() =~= x@.take(i as int));
            assert(q.drop_last() =~= y@.take(i as int));
            assert(p == q <==> x@.take(i as int) == y@.take(i as int) && x@[i as int] == y@[i as int]) by {
                if x@.take(i as int) == y@.take(i as int) && x@[i as int] == y@[i as int] {
                    assert(p =~= p.drop_last().push(x@[i as int]));
                    assert(q =~= q.drop_last().push(y@[i as int]));
                }
                if p == q {
                    assert(p[i as int] == x@[i as int]);
                    assert(q[i as int] == y@[i as int]);
                }
            }
        }
        diff = diff | (x[i] ^ y[i]);
        i += 1;
    }
    proof {
        assert(x@.take(x.len() as int) =~= x@);
        assert(y@.take(y.len() as int) =~= y@);
    }
    diff == 0
}

/// The token that an `Authorization` header presents.
pub open spec fn bearer(header: Option<Seq<char>>) -> Option<Seq<char>> {
    match header {
        Some(h) => text::after_prefix(h, "Bearer "@),
        None => None,
    }
}

/// Reads the token out of an `Authorization` header.
pub fn bearer_token(header: Option<&str>) -> (r: Option<String>)
    ensures
        text::optional_string(r) == bearer(text::optional(header)),
{
    match header {
        Some(h) => strip_prefix(h, "Bearer "),
        None => None,
    }
}

} // verus!
