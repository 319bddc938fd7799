//! Comparing strings by their UTF-8 bytes.
use vstd::prelude::*;
use vstd::utf8::{encode_utf8, encode_utf8_decode_utf8};

verus! {

/// Whether two strings are equal.
pub fn str_eq(a: &str, b: &str) -> (eq: bool)
    ensures
        eq == (a@ == b@),
{
    let x = a.as_bytes();
    let y = b.as_bytes();
    proof {
        encode_utf8_decode_utf8(a@);
        encode_utf8_decode_utf8(b@);
    }
    if x.len() != y.len() {
        return false;
    }
    let mut i: usize = 0;
    while i < x.len()
        invariant
            x@ == encode_utf8(a@),
            y@ == encode_utf8(b@),
            x@.len() == y@.len(),
            i <= x@.len(),
            forall|k: int| 0 <= k < i ==> x@[k] == y@[k],
        decreases x@.len() - i,
    {
        if x[i] != y[i] {
            return false;
        }
        i += 1;
    }
    assert(x@ =~= y@);
    true
}

/// Whether the UTF-8 bytes of `prefix` start the UTF-8 bytes of `s`, which is
/// what `str::starts_with` with a string pattern tests.
pub open spec fn spec_starts_with(s: Seq<char>, prefix: Seq<char>) -> bool {
    let sb = encode_utf8(s);
    let pb = encode_utf8(prefix);
    pb.len() <= sb.len() && sb.subrange(0, pb.len() as int) == pb
}

/// Whether `s` starts with `prefix`.
pub fn starts_with(s: &str, prefix: &str) -> (r: bool)
    ensures
        r == spec_starts_with(s@, prefix@),
{
    let x = s.as_bytes();
    let y = prefix.as_bytes();
    if y.len() > x.len() {
        return false;
    }
    let mut i: usize = 0;
    while i < y.len()
        invariant
            x@ == encode_utf8(s@),
            y@ == encode_utf8(prefix@),
            y@.len() <= x@.len(),
            i <= y@.len(),
            forall|k: int| 0 <= k < i ==> x@[k] == y@[k],
        decreases y@.len() - i,
    {
        if x[i] != y[i] {
            assert(x@.subrange(0, y@.len() as int)[i as int] != y@[i as int]);
            return false;
        }
        i += 1;
    }
    assert(x@.subrange(0, y@.len() as int) =~= y@);
    true
}

/// Whether the UTF-8 bytes of `pattern` occur in the UTF-8 bytes of `s`,
/// which is what `str::contains` with a string pattern tests.
pub open spec fn spec_contains(s: Seq<char>, pattern: Seq<char>) -> bool {
    let sb = encode_utf8(s);
    let pb = encode_utf8(pattern);
    exists|i: int| 0 <= i && i + pb.len() <= sb.len() && #[trigger] sb.subrange(i, i + pb.len()) == pb
}

/// Whether `s` contains `pattern`.
pub fn contains(s: &str, pattern: &str) -> (r: bool)
    ensures
        r == spec_contains(s@, pattern@),
{
    let x = s.as_bytes();
    let y = pattern.as_bytes();
    if y.len() > x.len() {
        return false;
    }
    let last = x.len() - y.len();
    let mut i: usize = 0;
    while i <= last
        invariant
            x@ == encode_utf8(s@),
            y@ == encode_utf8(pattern@),
            last + y@.len() == x@.len(),
            forall|k: int| 0 <= k < i ==> #[trigger] x@.subrange(k, k + y@.len()) != y@,
        decreases last + 1 - i,
    {
        let mut j: usize = 0;
        let mut same = true;
        while j < y.len() && same
            invariant
                x@ == encode_utf8(s@),
                y@ == encode_utf8(pattern@),
                last + y@.len() == x@.len(),
                last + y.len() == x.len(),
                i <= last,
                j <= y@.len(),
                same ==> forall|k: int| 0 <= k < j ==> x@[i + k] == y@[k],
                !same ==> x@.subrange(i as int, i + y@.len()) != y@,
            decreases y@.len() - j + if same {
                1int
            } else {
                0int
            },
        {
            if x[i + j] != y[j] {
                assert(x@.subrange(i as int, i + y@.len())[j as int] != y@[j as int]);
                same = false;
            } else {
                j += 1;
            }
        }
        if same {
            assert(x@.subrange(i as int, i + y@.len()) =~= y@);
            return true;
        }
        if i == last {
            assert forall|k: int| 0 <= k && k + y@.len() <= x@.len() implies #[trigger] x@.subrange(k, k + y@.len())
                != y@ by {
                assert(k <= i);
                if k < i {
                } else {
                }
            }
            return false;
        }
        i += 1;
    }
    false
}

} // verus!
