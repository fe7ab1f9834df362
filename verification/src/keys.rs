//! Storage-key framing: the service prefixes every namespaced storage key
//! with the namespace's length as a two-byte big-endian integer.

use vstd::prelude::*;

verus! {

/// The length-prefixed form of a namespace: its length as two big-endian
/// bytes, followed by the namespace bytes themselves.
pub open spec fn spec_length_prefixed(ns: Seq<u8>) -> Seq<u8> {
    seq![(ns.len() / 256) as u8, (ns.len() % 256) as u8] + ns
}

/// The raw storage key under which the configuration record lives.
pub open spec fn spec_config_key() -> Seq<u8> {
    spec_length_prefixed(seq![99u8, 111u8, 110u8, 102u8, 105u8, 103u8])
}

/// The prefix of every raw storage key that addresses one holder's balance.
pub open spec fn spec_balance_prefix() -> Seq<u8> {
    spec_length_prefixed(seq![98u8, 97u8, 108u8, 97u8, 110u8, 99u8, 101u8])
}

/// Prefix a storage namespace with its two-byte big-endian length.
pub fn length_prefixed(ns: &Vec<u8>) -> (r: Vec<u8>)
    requires
        ns@.len() <= 0xFFFF,
    ensures
        r@ == spec_length_prefixed(ns@),
{
    let n = ns.len();
    let mut out: Vec<u8> = Vec::new();
    out.push((n / 256) as u8);
    out.push((n % 256) as u8);
    let mut i: usize = 0;
    while i < ns.len()
        invariant
            i <= ns@.len(),
            n == ns@.len(),
            n <= 0xFFFF,
            out@ == seq![(n / 256) as u8, (n % 256) as u8] + ns@.subrange(0, i as int),
        decreases ns@.len() - i,
    {
        let b = ns[i];
        out.push(b);
        proof {
            assert(out@ =~= seq![(n / 256) as u8, (n % 256) as u8] + ns@.subrange(
                0,
                i + 1 as int,
            ));
        }
        i = i + 1;
    }
    proof {
        assert(ns@.subrange(0, ns@.len() as int) =~= ns@);
    }
    out
}

/// The configuration storage key as bytes.
pub fn config_key() -> (r: Vec<u8>)
    ensures
        r@ == spec_config_key(),
{
    let ns: Vec<u8> = vec![99u8, 111u8, 110u8, 102u8, 105u8, 103u8];
    proof {
        assert(ns@ =~= seq![99u8, 111u8, 110u8, 102u8, 105u8, 103u8]);
    }
    length_prefixed(&ns)
}

/// The balance storage-key prefix as bytes.
pub fn balance_prefix() -> (r: Vec<u8>)
    ensures
        r@ == spec_balance_prefix(),
{
    let ns: Vec<u8> = vec![98u8, 97u8, 108u8, 97u8, 110u8, 99u8, 101u8];
    proof {
        assert(ns@ =~= seq![98u8, 97u8, 108u8, 97u8, 110u8, 99u8, 101u8]);
    }
    length_prefixed(&ns)
}

/// Whether `a` equals `b` byte for byte.
pub fn bytes_eq(a: &Vec<u8>, b: &Vec<u8>) -> (r: bool)
    ensures
        r == (a@ == b@),
{
    if a.len() != b.len() {
        proof {
            assert(a@ != b@);
        }
        return false;
    }
    let mut i: usize = 0;
    while i < a.len()
        invariant
            i <= a@.len(),
            a@.len() == b@.len(),
            forall|j: int| 0 <= j < i ==> a@[j] == b@[j],
        decreases a@.len() - i,
    {
        if a[i] != b[i] {
            return false;
        }
        i = i + 1;
    }
    proof {
        assert(a@ =~= b@);
    }
    true
}

/// Whether `a` begins with `prefix`.
pub fn starts_with(a: &Vec<u8>, prefix: &Vec<u8>) -> (r: bool)
    ensures
        r == (a@.len() >= prefix@.len() && a@.subrange(0, prefix@.len() as int) == prefix@),
{
    if a.len() < prefix.len() {
        return false;
    }
    let mut i: usize = 0;
    while i < prefix.len()
        invariant
            i <= prefix@.len(),
            prefix@.len() <= a@.len(),
            forall|j: int| 0 <= j < i ==> a@[j] == prefix@[j],
        decreases prefix@.len() - i,
    {
        if a[i] != prefix[i] {
            proof {
                assert(a@.subrange(0, prefix@.len() as int)[i as int] != prefix@[i as int]);
            }
            return false;
        }
        i = i + 1;
    }
    proof {
        assert(a@.subrange(0, prefix@.len() as int) =~= prefix@);
    }
    true
}

/// Copy the bytes of `a` from `from` to its end.
pub fn tail_from(a: &Vec<u8>, from: usize) -> (r: Vec<u8>)
    requires
        from <= a@.len(),
    ensures
        r@ == a@.subrange(from as int, a@.len() as int),
{
    let mut out: Vec<u8> = Vec::new();
    let mut i: usize = from;
    while i < a.len()
        invariant
            from <= i <= a@.len(),
            out@ == a@.subrange(from as int, i as int),
        decreases a@.len() - i,
    {
        let b = a[i];
        out.push(b);
        proof {
            assert(out@ =~= a@.subrange(from as int, i + 1 as int));
        }
        i = i + 1;
    }
    out
}

/// Copy a byte buffer.
pub fn copy_bytes(a: &Vec<u8>) -> (r: Vec<u8>)
    ensures
        r@ == a@,
{
    let r = tail_from(a, 0);
    proof {
        assert(a@.subrange(0, a@.len() as int) =~= a@);
    }
    r
}

} // verus!
