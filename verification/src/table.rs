//! Fixture tables, kept as association lists with unique keys.  Lookup takes
//! the first matching entry; seeding replaces a table wholesale, with
//! last-write-wins semantics for duplicate keys in the seed list.

use vstd::prelude::*;

use crate::types::Coin;

verus! {

/// Index of the first entry whose key reads as `k`, or -1 if none does.
pub open spec fn idx_of<V>(s: Seq<(String, V)>, k: Seq<char>) -> int
    decreases s.len(),
{
    if s.len() == 0 {
        -1
    } else if s[0].0@ == k {
        0
    } else {
        let r = idx_of(s.drop_first(), k);
        if r < 0 {
            -1
        } else {
            r + 1
        }
    }
}

/// Whether the table holds an entry for key `k`.
pub open spec fn has_key<V>(s: Seq<(String, V)>, k: Seq<char>) -> bool {
    idx_of(s, k) >= 0
}

/// The value stored under key `k`.
pub open spec fn val_of<V>(s: Seq<(String, V)>, k: Seq<char>) -> V
    recommends
        has_key(s, k),
{
    s[idx_of(s, k)].1
}

/// The value stored under key `k`, or `None` when the key is absent.
pub open spec fn lookup<V>(s: Seq<(String, V)>, k: Seq<char>) -> Option<V> {
    if has_key(s, k) {
        Option::Some(val_of(s, k))
    } else {
        Option::None
    }
}

/// The last value a seed list gives to key `k`, or `None` if it never does.
pub open spec fn lookup_last<V>(s: Seq<(String, V)>, k: Seq<char>) -> Option<V>
    decreases s.len(),
{
    if s.len() == 0 {
        Option::None
    } else if s.last().0@ == k {
        Option::Some(s.last().1)
    } else {
        lookup_last(s.drop_last(), k)
    }
}

/// No two entries share a key.
pub open spec fn unique_keys<V>(s: Seq<(String, V)>) -> bool {
    forall|i: int, j: int| 0 <= i < j < s.len() ==> s[i].0@ != s[j].0@
}

pub proof fn lemma_idx_of_props<V>(s: Seq<(String, V)>, k: Seq<char>)
    ensures
        idx_of(s, k) == -1 || 0 <= idx_of(s, k) < s.len(),
        idx_of(s, k) >= 0 ==> s[idx_of(s, k)].0@ == k,
        idx_of(s, k) >= 0 ==> forall|j: int| 0 <= j < idx_of(s, k) ==> s[j].0@ != k,
        idx_of(s, k) == -1 ==> forall|j: int| 0 <= j < s.len() ==> s[j].0@ != k,
    decreases s.len(),
{
    if s.len() != 0 && s[0].0@ != k {
        let t = s.drop_first();
        lemma_idx_of_props(t, k);
        if idx_of(s, k) >= 0 {
            assert forall|j: int| 0 <= j < idx_of(s, k) implies s[j].0@ != k by {
                if j > 0 {
                    assert(t[j - 1] == s[j]);
                }
            }
        } else {
            assert forall|j: int| 0 <= j < s.len() implies s[j].0@ != k by {
                if j > 0 {
                    assert(t[j - 1] == s[j]);
                }
            }
        }
    }
}

/// A seed list that never mentions key `k` gives it no value.
pub proof fn lemma_lookup_last_none<V>(s: Seq<(String, V)>, k: Seq<char>)
    requires
        forall|j: int| 0 <= j < s.len() ==> s[j].0@ != k,
    ensures
        lookup_last(s, k) == Option::<V>::None,
    decreases s.len(),
{
    if s.len() != 0 {
        lemma_lookup_last_none(s.drop_last(), k);
    }
}

pub proof fn lemma_idx_of_first_match<V>(s: Seq<(String, V)>, k: Seq<char>, i: int)
    requires
        0 <= i < s.len(),
        s[i].0@ == k,
        forall|j: int| 0 <= j < i ==> s[j].0@ != k,
    ensures
        idx_of(s, k) == i,
    decreases i,
{
    if i > 0 {
        assert(s[0].0@ != k);
        assert(forall|j: int| 0 <= j < s.drop_first().len() ==> s.drop_first()[j] == s[j + 1]);
        lemma_idx_of_first_match(s.drop_first(), k, i - 1);
    }
}

/// Two tables whose keys agree position by position index identically.
pub proof fn lemma_idx_of_same_keys<V>(a: Seq<(String, V)>, b: Seq<(String, V)>, k: Seq<char>)
    requires
        a.len() == b.len(),
        forall|j: int| 0 <= j < a.len() ==> a[j].0@ == b[j].0@,
    ensures
        idx_of(a, k) == idx_of(b, k),
    decreases a.len(),
{
    if a.len() != 0 {
        assert(forall|j: int| 0 <= j < a.drop_first().len() ==> a.drop_first()[j] == a[j + 1]);
        assert(forall|j: int| 0 <= j < b.drop_first().len() ==> b.drop_first()[j] == b[j + 1]);
        lemma_idx_of_same_keys(a.drop_first(), b.drop_first(), k);
    }
}

pub proof fn lemma_idx_of_push<V>(s: Seq<(String, V)>, p: (String, V), k: Seq<char>)
    ensures
        has_key(s, k) ==> idx_of(s.push(p), k) == idx_of(s, k),
        !has_key(s, k) && p.0@ == k ==> idx_of(s.push(p), k) == s.len(),
        !has_key(s, k) && p.0@ != k ==> idx_of(s.push(p), k) == -1,
    decreases s.len(),
{
    lemma_idx_of_props(s, k);
    lemma_idx_of_props(s.push(p), k);
    if has_key(s, k) {
        lemma_idx_of_first_match(s.push(p), k, idx_of(s, k));
    } else if p.0@ == k {
        lemma_idx_of_first_match(s.push(p), k, s.len() as int);
    } else {
        if idx_of(s.push(p), k) >= 0 {
            let i = idx_of(s.push(p), k);
            assert(s.push(p)[i].0@ == k);
            if i < s.len() {
                assert(s[i].0@ == k);
            }
            assert(false);
        }
    }
}

/// Find the index of the entry stored under `key`.
pub fn find_idx<V>(v: &Vec<(String, V)>, key: &String) -> (r: Option<usize>)
    ensures
        match r {
            Option::Some(i) => idx_of(v@, key@) == i as int,
            Option::None => idx_of(v@, key@) == -1,
        },
{
    let mut i: usize = 0;
    while i < v.len()
        invariant
            i <= v@.len(),
            forall|j: int| 0 <= j < i ==> v@[j].0@ != key@,
        decreases v@.len() - i,
    {
        if v[i].0 == *key {
            proof {
                lemma_idx_of_first_match(v@, key@, i as int);
            }
            return Option::Some(i);
        }
        i = i + 1;
    }
    proof {
        lemma_idx_of_props(v@, key@);
    }
    Option::None
}

/// Store `val` under `key`, overwriting in place if the key is present.
pub fn upsert<V>(v: &mut Vec<(String, V)>, key: String, val: V)
    ensures
        has_key(final(v)@, key@) && val_of(final(v)@, key@) == val,
        forall|k2: Seq<char>|
            k2 != key@ ==> #[trigger] has_key(final(v)@, k2) == has_key(old(v)@, k2),
        forall|k2: Seq<char>|
            k2 != key@ && has_key(old(v)@, k2) ==> #[trigger] val_of(final(v)@, k2) == val_of(
                old(v)@,
                k2,
            ),
        !has_key(old(v)@, key@) ==> final(v)@ == old(v)@.push((key, val)),
        unique_keys(old(v)@) ==> unique_keys(final(v)@),
{
    let ghost s = v@;
    match find_idx(v, &key) {
        Option::Some(i) => {
            proof {
                lemma_idx_of_props(s, key@);
            }
            v.remove(i);
            v.insert(i, (key, val));
            proof {
                assert(v@ =~= s.update(i as int, (v@[i as int].0, v@[i as int].1)));
                assert(forall|j: int| 0 <= j < s.len() ==> v@[j].0@ == s[j].0@);
                assert forall|k2: Seq<char>| true implies idx_of(v@, k2) == idx_of(s, k2) by {
                    lemma_idx_of_same_keys(v@, s, k2);
                }
                assert(val_of(v@, key@) == val);
                assert forall|k2: Seq<char>|
                    k2 != key@ && has_key(s, k2) implies #[trigger] val_of(v@, k2) == val_of(
                    s,
                    k2,
                ) by {
                    lemma_idx_of_props(s, k2);
                    assert(s[idx_of(s, k2)].0@ == k2);
                    assert(idx_of(s, k2) != i as int);
                }
            }
        },
        Option::None => {
            v.push((key, val));
            proof {
                assert(v@ =~= s.push((v@[s.len() as int].0, v@[s.len() as int].1)));
                let p = v@[s.len() as int];
                assert forall|k2: Seq<char>| k2 != p.0@ implies #[trigger] idx_of(v@, k2)
                    == idx_of(s, k2) by {
                    lemma_idx_of_push(s, p, k2);
                    lemma_idx_of_props(s, k2);
                }
                lemma_idx_of_push(s, p, p.0@);
                lemma_idx_of_props(s, p.0@);
                assert forall|k2: Seq<char>|
                    k2 != p.0@ && has_key(s, k2) implies #[trigger] val_of(v@, k2) == val_of(
                    s,
                    k2,
                ) by {
                    lemma_idx_of_push(s, p, k2);
                    lemma_idx_of_props(s, k2);
                }
                if unique_keys(s) {
                    assert forall|a: int, b: int| 0 <= a < b < v@.len() implies v@[a].0@
                        != v@[b].0@ by {
                        if b == s.len() as int {
                            lemma_idx_of_props(s, p.0@);
                        }
                    }
                }
            }
        },
    }
}

/// Rebuild a holder-amount list with unique keys, duplicate holders in the
/// seed taking last-write-wins.
pub fn caps_to_map(caps: &Vec<(String, u128)>) -> (r: Vec<(String, u128)>)
    ensures
        unique_keys(r@),
        forall|k: Seq<char>| #[trigger] lookup(r@, k) == lookup_last(caps@, k),
        unique_keys(caps@) ==> r@ == caps@,
{
    let mut out: Vec<(String, u128)> = Vec::new();
    let mut i: usize = 0;
    while i < caps.len()
        invariant
            i <= caps@.len(),
            unique_keys(out@),
            forall|k: Seq<char>| #[trigger] lookup(out@, k) == lookup_last(
                caps@.subrange(0, i as int),
                k,
            ),
            unique_keys(caps@) ==> out@ == caps@.subrange(0, i as int),
        decreases caps@.len() - i,
    {
        let ghost prev = out@;
        let key = caps[i].0.clone();
        let val = caps[i].1;
        upsert(&mut out, key, val);
        proof {
            let pre = caps@.subrange(0, i as int);
            let cur = caps@.subrange(0, i + 1 as int);
            let kk = caps@[i as int].0@;
            assert(cur.drop_last() =~= pre);
            assert(cur.last() == caps@[i as int]);
            assert forall|k: Seq<char>| true implies #[trigger] lookup(out@, k) == lookup_last(
                cur,
                k,
            ) by {
                if k == kk {
                    assert(has_key(out@, k) && val_of(out@, k) == caps@[i as int].1);
                } else {
                    assert(has_key(out@, k) == has_key(prev, k));
                    if has_key(prev, k) {
                        assert(val_of(out@, k) == val_of(prev, k));
                    }
                    assert(lookup(prev, k) == lookup_last(pre, k));
                }
            }
            if unique_keys(caps@) {
                assert forall|j: int| 0 <= j < i implies prev[j].0@ != kk by {
                    assert(prev[j] == caps@[j]);
                }
                lemma_lookup_last_none(prev, kk);
                assert(lookup(prev, kk) == lookup_last(pre, kk));
                assert(!has_key(prev, kk));
                assert(out@ == prev.push((caps@[i as int].0, caps@[i as int].1)));
                assert(out@ =~= cur);
            }
        }
        i = i + 1;
    }
    proof {
        assert(caps@.subrange(0, caps@.len() as int) =~= caps@);
    }
    out
}

/// Rebuild a native-balance table: each account maps to a single coin,
/// duplicate accounts in the seed taking last-write-wins.
pub fn native_balances_to_map(balances: &Vec<(String, Coin)>) -> (r: Vec<(String, Coin)>)
    ensures
        unique_keys(r@),
        forall|k: Seq<char>| #[trigger] lookup(r@, k) == lookup_last(balances@, k),
        unique_keys(balances@) ==> r@ == balances@,
{
    let mut out: Vec<(String, Coin)> = Vec::new();
    let mut i: usize = 0;
    while i < balances.len()
        invariant
            i <= balances@.len(),
            unique_keys(out@),
            forall|k: Seq<char>| #[trigger] lookup(out@, k) == lookup_last(
                balances@.subrange(0, i as int),
                k,
            ),
            unique_keys(balances@) ==> out@ == balances@.subrange(0, i as int),
        decreases balances@.len() - i,
    {
        let ghost prev = out@;
        let key = balances[i].0.clone();
        let coin = Coin { denom: balances[i].1.denom.clone(), amount: balances[i].1.amount };
        proof {
            assert(coin == balances@[i as int].1);
        }
        upsert(&mut out, key, coin);
        proof {
            let pre = balances@.subrange(0, i as int);
            let cur = balances@.subrange(0, i + 1 as int);
            let kk = balances@[i as int].0@;
            assert(cur.drop_last() =~= pre);
            assert(cur.last() == balances@[i as int]);
            assert forall|k: Seq<char>| true implies #[trigger] lookup(out@, k) == lookup_last(
                cur,
                k,
            ) by {
                if k == kk {
                    assert(has_key(out@, k) && val_of(out@, k) == balances@[i as int].1);
                } else {
                    assert(has_key(out@, k) == has_key(prev, k));
                    if has_key(prev, k) {
                        assert(val_of(out@, k) == val_of(prev, k));
                    }
                    assert(lookup(prev, k) == lookup_last(pre, k));
                }
            }
            if unique_keys(balances@) {
                assert forall|j: int| 0 <= j < i implies prev[j].0@ != kk by {
                    assert(prev[j] == balances@[j]);
                }
                lemma_lookup_last_none(prev, kk);
                assert(lookup(prev, kk) == lookup_last(pre, kk));
                assert(!has_key(prev, kk));
                assert(out@ == prev.push((balances@[i as int].0, balances@[i as int].1)));
                assert(out@ =~= cur);
            }
        }
        i = i + 1;
    }
    proof {
        assert(balances@.subrange(0, balances@.len() as int) =~= balances@);
    }
    out
}

/// The sum of every amount in a holder-amount table.
pub open spec fn sum_amounts(s: Seq<(String, u128)>) -> int
    decreases s.len(),
{
    if s.len() == 0 {
        0
    } else {
        sum_amounts(s.drop_last()) + s.last().1
    }
}

/// The inner table the last matching seed entry carries, as a sequence;
/// empty when the seed never mentions the key.
pub open spec fn last_inner(input: Seq<(String, Vec<(String, u128)>)>, k: Seq<char>) -> Seq<
    (String, u128),
> {
    match lookup_last(input, k) {
        Option::Some(iv) => iv@,
        Option::None => Seq::empty(),
    }
}

/// A rebuilt token table holds exactly the contracts the seed names, each
/// carrying, holder by holder, the amounts of the seed's last entry for that
/// contract.
pub open spec fn token_tables_match(
    r: Seq<(String, Vec<(String, u128)>)>,
    input: Seq<(String, Vec<(String, u128)>)>,
) -> bool {
    &&& forall|k: Seq<char>| #[trigger] has_key(r, k) == (lookup_last(input, k) is Some)
    &&& forall|k: Seq<char>| has_key(r, k) ==> unique_keys((#[trigger] val_of(r, k))@)
    &&& forall|k: Seq<char>, k2: Seq<char>|
        has_key(r, k) ==> #[trigger] lookup(val_of(r, k)@, k2) == lookup_last(
            last_inner(input, k),
            k2,
        )
}

/// A token seed list with no duplicate contract and no duplicate holder.
pub open spec fn all_unique(input: Seq<(String, Vec<(String, u128)>)>) -> bool {
    unique_keys(input) && forall|j: int|
        0 <= j < input.len() ==> unique_keys((#[trigger] input[j].1)@)
}

/// Rebuild a token-balance table: each contract maps to its own rebuilt
/// holder-amount table, duplicate contracts in the seed taking
/// last-write-wins.
pub fn balances_to_map(balances: &Vec<(String, Vec<(String, u128)>)>) -> (r: Vec<
    (String, Vec<(String, u128)>),
>)
    ensures
        unique_keys(r@),
        token_tables_match(r@, balances@),
        all_unique(balances@) ==> r@.len() == balances@.len() && (forall|j: int|
            0 <= j < r@.len() ==> (#[trigger] r@[j]).0 == balances@[j].0 && r@[j].1@
                == balances@[j].1@),
{
    let mut out: Vec<(String, Vec<(String, u128)>)> = Vec::new();
    let mut i: usize = 0;
    while i < balances.len()
        invariant
            i <= balances@.len(),
            unique_keys(out@),
            token_tables_match(out@, balances@.subrange(0, i as int)),
            all_unique(balances@) ==> out@.len() == i && (forall|j: int|
                0 <= j < i ==> (#[trigger] out@[j]).0 == balances@[j].0 && out@[j].1@
                    == balances@[j].1@),
        decreases balances@.len() - i,
    {
        let ghost prev = out@;
        let key = balances[i].0.clone();
        let built = caps_to_map(&balances[i].1);
        let ghost builtv = built@;
        upsert(&mut out, key, built);
        proof {
            let pre = balances@.subrange(0, i as int);
            let cur = balances@.subrange(0, i + 1 as int);
            let kk = balances@[i as int].0@;
            assert(cur.drop_last() =~= pre);
            assert(cur.last() == balances@[i as int]);
            assert forall|k: Seq<char>| true implies #[trigger] has_key(out@, k) == (lookup_last(
                cur,
                k,
            ) is Some) by {
                if k != kk {
                    assert(has_key(out@, k) == has_key(prev, k));
                }
            }
            assert forall|k: Seq<char>| has_key(out@, k) implies unique_keys(
                (#[trigger] val_of(out@, k))@,
            ) by {
                if k != kk {
                    assert(has_key(out@, k) == has_key(prev, k));
                    assert(val_of(out@, k) == val_of(prev, k));
                } else {
                    assert(val_of(out@, k) == built);
                }
            }
            assert forall|k: Seq<char>, k2: Seq<char>| has_key(out@, k) implies #[trigger] lookup(
                val_of(out@, k)@,
                k2,
            ) == lookup_last(last_inner(cur, k), k2) by {
                if k == kk {
                    assert(val_of(out@, k) == built);
                    assert(last_inner(cur, k) == balances@[i as int].1@);
                    assert(lookup(builtv, k2) == lookup_last(balances@[i as int].1@, k2));
                } else {
                    assert(has_key(out@, k) == has_key(prev, k));
                    assert(val_of(out@, k) == val_of(prev, k));
                    assert(lookup(val_of(prev, k)@, k2) == lookup_last(last_inner(pre, k), k2));
                    assert(last_inner(cur, k) == last_inner(pre, k));
                }
            }
            if all_unique(balances@) {
                assert forall|j: int| 0 <= j < i implies prev[j].0@ != kk by {
                    assert(prev[j].0 == balances@[j].0);
                }
                lemma_idx_of_props(prev, kk);
                assert(!has_key(prev, kk));
                assert(out@ == prev.push((balances@[i as int].0, built)));
                assert(unique_keys(balances@[i as int].1@));
                assert(builtv == balances@[i as int].1@);
            }
        }
        i = i + 1;
    }
    proof {
        assert(balances@.subrange(0, balances@.len() as int) =~= balances@);
    }
    out
}

} // verus!
