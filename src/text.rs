use vstd::prelude::*;
use vstd::string::StringSliceAdditionalSpecFns;

verus! {

broadcast use vstd::utf8::encode_utf8_decode_utf8;

/// Compares two strings character by character: true exactly when they hold
/// the same sequence of characters.
pub fn str_eq(a: &str, b: &str) -> (r: bool)
    ensures
        r == (a@ == b@),
{
    let x = a.as_bytes();
    let y = b.as_bytes();
    if x.len() != y.len() {
        return false;
    }
    let mut i: usize = 0;
    while i < x.len()
        invariant
            x@ == a.spec_bytes(),
            y@ == b.spec_bytes(),
            x@.len() == y@.len(),
            i <= x@.len(),
            forall|j: int| 0 <= j < i ==> x@[j] == y@[j],
        decreases x@.len() - i,
    {
        if x[i] != y[i] {
            return false;
        }
        i = i + 1;
    }
    assert(x@ =~= y@);
    assert(vstd::utf8::decode_utf8(a.spec_bytes()) == a@);
    assert(vstd::utf8::decode_utf8(b.spec_bytes()) == b@);
    true
}

/// A short signature of a name: its length, its first two characters and its
/// last two. Two names with different signatures are different names.
pub open spec fn name_key(s: Seq<char>) -> (int, char, char, char, char) {
    (s.len() as int, s[0], s[1], s[s.len() - 2], s[s.len() - 1])
}

} // verus!
