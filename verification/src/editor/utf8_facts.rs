//! Facts about UTF-8 byte sequences that the decoding loop relies on.

use vstd::prelude::*;
use vstd::utf8::*;

verus! {

/// Decoding two valid UTF-8 byte sequences one after the other gives the
/// characters of the first followed by those of the second.
pub proof fn lemma_decode_utf8_concat(a: Seq<u8>, b: Seq<u8>)
    requires
        valid_utf8(a),
        valid_utf8(b),
    ensures
        valid_utf8(a + b),
        decode_utf8(a + b) == decode_utf8(a) + decode_utf8(b),
    decreases a.len(),
{
    broadcast use valid_utf8_concat;

    if a.len() == 0 {
        assert(a + b =~= b);
        assert(decode_utf8(a) =~= Seq::<char>::empty());
        assert(decode_utf8(a) + decode_utf8(b) =~= decode_utf8(b));
    } else {
        let ab = a + b;
        let n = length_of_first_scalar(a);
        assert(ab[0] == a[0]);
        assert(a.len() >= n);
        assert forall|i: int| 0 <= i < n implies ab[i] == a[i] by {}
        assert(length_of_first_scalar(ab) == n);
        assert(decode_first_scalar(ab) == decode_first_scalar(a));
        let rest = pop_first_scalar(a);
        assert(rest.len() < a.len());
        assert(pop_first_scalar(ab) =~= rest + b);
        lemma_decode_utf8_concat(rest, b);
        assert(decode_utf8(ab) == seq![decode_first_scalar(a) as char] + decode_utf8(rest + b));
        assert(decode_utf8(a) == seq![decode_first_scalar(a) as char] + decode_utf8(rest));
        assert(decode_utf8(ab) =~= decode_utf8(a) + decode_utf8(b));
    }
}

/// The empty byte sequence is valid UTF-8 and decodes to no characters.
pub proof fn lemma_decode_utf8_empty()
    ensures
        valid_utf8(Seq::<u8>::empty()),
        decode_utf8(Seq::<u8>::empty()) == Seq::<char>::empty(),
{
}

} // verus!
