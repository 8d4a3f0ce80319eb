//! Decoding of NUL-terminated byte buffers handed over by the core, such as
//! ROM titles and GBS metadata fields.

use vstd::prelude::*;

verus! {

/// Index of the first NUL byte of `bytes`, or the length if there is none.
pub open spec fn first_nul(bytes: Seq<u8>) -> int
    decreases bytes.len(),
{
    if bytes.len() == 0 {
        0
    } else if bytes[0] == 0 {
        0
    } else {
        1 + first_nul(bytes.drop_first())
    }
}

/// The prefix of `bytes` before its first NUL byte (all of `bytes` if there
/// is none).
pub open spec fn nul_prefix(bytes: Seq<u8>) -> Seq<u8> {
    bytes.take(first_nul(bytes))
}

/// `first_nul` names the first NUL: everything before it is non-NUL, and it
/// is a NUL unless the whole buffer is NUL-free.
pub proof fn lemma_first_nul(bytes: Seq<u8>)
    ensures
        0 <= first_nul(bytes) <= bytes.len(),
        forall|i: int| 0 <= i < first_nul(bytes) ==> bytes[i] != 0,
        first_nul(bytes) < bytes.len() ==> bytes[first_nul(bytes)] == 0,
    decreases bytes.len(),
{
    if bytes.len() == 0 {
    } else if bytes[0] == 0 {
    } else {
        lemma_first_nul(bytes.drop_first());
        assert(forall|i: int|
            1 <= i < first_nul(bytes) ==> bytes[i] == bytes.drop_first()[i - 1]);
    }
}

/// Copy out the prefix of `bytes` before its first NUL byte.
pub fn c_str_prefix(bytes: &[u8]) -> (r: Vec<u8>)
    ensures
        r@ == nul_prefix(bytes@),
{
    proof {
        lemma_first_nul(bytes@);
    }
    let mut r: Vec<u8> = Vec::new();
    let mut i: usize = 0;
    while i < bytes.len() && bytes[i] != 0
        invariant
            i <= bytes@.len(),
            r@ == bytes@.take(i as int),
            forall|j: int| 0 <= j < i ==> bytes@[j] != 0,
        decreases bytes@.len() - i,
    {
        r.push(bytes[i]);
        i += 1;
    }
    proof {
        if i < bytes@.len() {
            // stopped on a NUL: nothing before it is NUL, so it is the first
            if first_nul(bytes@) < i {
                assert(bytes@[first_nul(bytes@)] != 0);
            }
            if first_nul(bytes@) > i {
                assert(bytes@[i as int] != 0);
            }
        } else {
            // no NUL anywhere: the prefix is the whole buffer
            if first_nul(bytes@) < bytes@.len() {
                assert(bytes@[first_nul(bytes@)] != 0);
            }
        }
        assert(r@ =~= nul_prefix(bytes@));
    }
    r
}

/// What `String::from_utf8_lossy` decodes the given bytes to.
pub uninterp spec fn lossy_decode_of(bytes: Seq<u8>) -> Seq<char>;

/// Relies on `String::from_utf8_lossy`: the result depends on the bytes
/// alone, and no bytes decode to no characters.
#[verifier::external_body]
pub(crate) fn lossy_decode(bytes: &[u8]) -> (r: String)
    ensures
        r@ == lossy_decode_of(bytes@),
        bytes@.len() == 0 ==> r@.len() == 0,
{
    String::from_utf8_lossy(bytes).into_owned()
}

} // verus!
