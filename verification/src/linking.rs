//! Linking the records of the FRS tables into the household - benefit unit - person
//! hierarchy by their survey keys (`SERNUM`, `BENUNIT`).
use vstd::prelude::*;
use std::collections::HashMap;

verus! {

broadcast use vstd::std_specs::hash::group_hash_axioms;

/// The last index below `n` whose key is `k`, or -1.
pub open spec fn last_match(keys: Seq<i64>, k: i64, n: nat) -> int
    decreases n,
{
    if n == 0 || n > keys.len() {
        -1
    } else if keys[n - 1] == k {
        n - 1
    } else {
        last_match(keys, k, (n - 1) as nat)
    }
}

/// The last index below `n` whose pair key is `k`, or -1.
pub open spec fn last_pair_match(keys: Seq<(i64, i64)>, k: (i64, i64), n: nat) -> int
    decreases n,
{
    if n == 0 || n > keys.len() {
        -1
    } else if keys[n - 1] == k {
        n - 1
    } else {
        last_pair_match(keys, k, (n - 1) as nat)
    }
}

/// The household a serial number belongs to: the last household record with it
/// (later records replace earlier ones, as a map keyed by serial number does), or -1.
pub open spec fn household_of(hh: Seq<i64>, sernum: i64) -> int {
    last_match(hh, sernum, hh.len())
}

/// The benefit-unit records kept among the first `n`: those whose household exists,
/// in record order.
pub open spec fn kept_benunits(hh: Seq<i64>, bu: Seq<(i64, i64)>, n: nat) -> Seq<int>
    decreases n,
{
    if n == 0 || n > bu.len() {
        Seq::empty()
    } else {
        let prev = kept_benunits(hh, bu, (n - 1) as nat);
        if household_of(hh, bu[n - 1].0) >= 0 {
            prev.push(n - 1)
        } else {
            prev
        }
    }
}

/// The keys of the benefit units kept among the first `n`, in the order they are kept.
pub open spec fn kept_keys_upto(hh: Seq<i64>, bu: Seq<(i64, i64)>, n: nat) -> Seq<(i64, i64)> {
    let kept = kept_benunits(hh, bu, n);
    Seq::new(kept.len(), |q: int| bu[kept[q]])
}

/// The keys of the kept benefit units, in the order they are kept.
pub open spec fn kept_keys(hh: Seq<i64>, bu: Seq<(i64, i64)>) -> Seq<(i64, i64)> {
    kept_keys_upto(hh, bu, bu.len())
}

/// The kept benefit unit a key belongs to: the last one kept with it, or -1.
pub open spec fn benunit_of(hh: Seq<i64>, bu: Seq<(i64, i64)>, key: (i64, i64)) -> int {
    last_pair_match(kept_keys(hh, bu), key, kept_keys(hh, bu).len())
}

/// Whether a person record is kept: its household and its benefit unit both exist.
pub open spec fn person_kept(hh: Seq<i64>, bu: Seq<(i64, i64)>, key: (i64, i64)) -> bool {
    household_of(hh, key.0) >= 0 && benunit_of(hh, bu, key) >= 0
}

/// The person records kept among the first `n`, in record order.
pub open spec fn kept_persons(hh: Seq<i64>, bu: Seq<(i64, i64)>, pk: Seq<(i64, i64)>, n: nat) -> Seq<
    int,
>
    decreases n,
{
    if n == 0 || n > pk.len() {
        Seq::empty()
    } else {
        let prev = kept_persons(hh, bu, pk, (n - 1) as nat);
        if person_kept(hh, bu, pk[n - 1]) {
            prev.push(n - 1)
        } else {
            prev
        }
    }
}

/// The positions below `n` whose owner is `owner`, in increasing order.
pub open spec fn members(owners: Seq<usize>, owner: int, n: nat) -> Seq<usize>
    decreases n,
{
    if n == 0 || n > owners.len() {
        Seq::empty()
    } else {
        let prev = members(owners, owner, (n - 1) as nat);
        if owners[n - 1] == owner {
            prev.push((n - 1) as usize)
        } else {
            prev
        }
    }
}

/// How the FRS records fit together. Benefit units and persons are numbered in the
/// order they are kept.
pub struct RecordLinks {
    /// For each kept benefit unit, the index of its record.
    pub benunit_records: Vec<usize>,
    /// For each kept benefit unit, its household.
    pub benunit_households: Vec<usize>,
    /// For each kept person, the index of its record.
    pub person_records: Vec<usize>,
    /// For each kept person, its benefit unit.
    pub person_benunits: Vec<usize>,
    /// For each kept person, its household.
    pub person_households: Vec<usize>,
    /// For each household, its benefit units in order.
    pub household_benunits: Vec<Vec<usize>>,
    /// For each household, its persons in order.
    pub household_persons: Vec<Vec<usize>>,
    /// For each kept benefit unit, its persons in order.
    pub benunit_persons: Vec<Vec<usize>>,
}

/// The person links built from the first `p` person records.
pub open spec fn person_links_upto(
    hh: Seq<i64>,
    bu: Seq<(i64, i64)>,
    pk: Seq<(i64, i64)>,
    p: nat,
    records: Seq<usize>,
    bens: Seq<usize>,
    hhs: Seq<usize>,
) -> bool {
    let kp = kept_persons(hh, bu, pk, p);
    &&& records.len() == kp.len()
    &&& bens.len() == kp.len()
    &&& hhs.len() == kp.len()
    &&& forall|i: int|
        0 <= i < kp.len() ==> #[trigger] records[i] == kp[i] && bens[i] == benunit_of(hh, bu, pk[kp[i]])
            && hhs[i] == household_of(hh, pk[kp[i]].0)
}

/// What `link_records` gives for the household serial numbers `hh`, the benefit-unit
/// keys `bu` and the person keys `pk`.
pub open spec fn links_of(
    hh: Seq<i64>,
    bu: Seq<(i64, i64)>,
    pk: Seq<(i64, i64)>,
    r: RecordLinks,
) -> bool {
    let kb = kept_benunits(hh, bu, bu.len());
    let kp = kept_persons(hh, bu, pk, pk.len());
    &&& r.benunit_records@.len() == kb.len()
    &&& r.benunit_households@.len() == kb.len()
    &&& forall|q: int|
        0 <= q < kb.len() ==> r.benunit_records@[q] == kb[q] && r.benunit_households@[q]
            == household_of(hh, bu[kb[q]].0)
    &&& r.person_records@.len() == kp.len()
    &&& r.person_benunits@.len() == kp.len()
    &&& r.person_households@.len() == kp.len()
    &&& forall|i: int|
        0 <= i < kp.len() ==> r.person_records@[i] == kp[i] && r.person_benunits@[i] == benunit_of(
            hh,
            bu,
            pk[kp[i]],
        ) && r.person_households@[i] == household_of(hh, pk[kp[i]].0)
    &&& r.household_benunits@.len() == hh.len()
    &&& r.household_persons@.len() == hh.len()
    &&& r.benunit_persons@.len() == kb.len()
    &&& forall|h: int|
        0 <= h < hh.len() ==> r.household_benunits@[h]@ == members(
            r.benunit_households@,
            h,
            kb.len(),
        ) && r.household_persons@[h]@ == members(r.person_households@, h, kp.len())
    &&& forall|q: int|
        0 <= q < kb.len() ==> r.benunit_persons@[q]@ == members(r.person_benunits@, q, kp.len())
}

/// The single key under which a benefit-unit key pair is filed.
pub open spec fn pair_code(k: (i64, i64)) -> int {
    k.0 * 18446744073709551616 + (k.1 + 9223372036854775808)
}

/// Different key pairs are filed under different integers.
proof fn lemma_pair_code_injective(a: (i64, i64), b: (i64, i64))
    requires
        pair_code(a) == pair_code(b),
    ensures
        a == b,
{
    let m: int = 18446744073709551616;
    let ua: int = a.1 + 9223372036854775808;
    let ub: int = b.1 + 9223372036854775808;
    let sa: int = a.0 as int;
    let sb: int = b.0 as int;
    assert(0 <= ua < m && 0 <= ub < m);
    assert(sa == sb && ua == ub) by (nonlinear_arith)
        requires
            sa * m + ua == sb * m + ub,
            0 <= ua < m,
            0 <= ub < m,
            m == 18446744073709551616,
    ;
}

/// Files a benefit-unit key pair under one integer, so that a map keyed by integers
/// can look pairs up.
fn pair_key(k: (i64, i64)) -> (r: i128)
    ensures
        r == pair_code(k),
{
    assert(-9223372036854775808 * 18446744073709551616 <= k.0 * 18446744073709551616
        <= 9223372036854775807 * 18446744073709551616) by (nonlinear_arith)
        requires
            -9223372036854775808 <= k.0 <= 9223372036854775807,
    ;
    (k.0 as i128) * 18446744073709551616i128 + ((k.1 as i128) + 9223372036854775808i128)
}

proof fn lemma_last_match_bound(keys: Seq<i64>, k: i64, n: nat)
    ensures
        -1 <= last_match(keys, k, n) < n,
        last_match(keys, k, n) >= 0 ==> keys[last_match(keys, k, n)] == k,
    decreases n,
{
    if n > 0 && n <= keys.len() {
        lemma_last_match_bound(keys, k, (n - 1) as nat);
    }
}

proof fn lemma_last_pair_match_bound(keys: Seq<(i64, i64)>, k: (i64, i64), n: nat)
    ensures
        -1 <= last_pair_match(keys, k, n) < n,
        last_pair_match(keys, k, n) >= 0 ==> keys[last_pair_match(keys, k, n)] == k,
    decreases n,
{
    if n > 0 && n <= keys.len() {
        lemma_last_pair_match_bound(keys, k, (n - 1) as nat);
    }
}

proof fn lemma_kept_benunits(hh: Seq<i64>, bu: Seq<(i64, i64)>, n: nat)
    requires
        n <= bu.len(),
    ensures
        forall|q: int|
            0 <= q < kept_benunits(hh, bu, n).len() ==> 0 <= #[trigger] kept_benunits(hh, bu, n)[q]
                < n,
    decreases n,
{
    if n > 0 {
        lemma_kept_benunits(hh, bu, (n - 1) as nat);
        let prev = kept_benunits(hh, bu, (n - 1) as nat);
        assert forall|q: int| 0 <= q < kept_benunits(hh, bu, n).len() implies 0
            <= #[trigger] kept_benunits(hh, bu, n)[q] < n by {
            if q < prev.len() {
                assert(kept_benunits(hh, bu, n)[q] == prev[q]);
            }
        }
    }
}

proof fn lemma_members_push(owners: Seq<usize>, x: usize, owner: int, n: nat)
    requires
        n <= owners.len(),
    ensures
        members(owners.push(x), owner, n) == members(owners, owner, n),
    decreases n,
{
    if n > 0 {
        lemma_members_push(owners, x, owner, (n - 1) as nat);
    }
}

/// Appends `x` to the `h`-th list.
fn push_member(lists: &mut Vec<Vec<usize>>, h: usize, x: usize)
    requires
        h < old(lists)@.len(),
    ensures
        final(lists)@.len() == old(lists)@.len(),
        final(lists)@[h as int]@ == old(lists)@[h as int]@.push(x),
        forall|j: int| 0 <= j < old(lists)@.len() && j != h ==> final(lists)@[j] == old(lists)@[j],
{
    lists[h].push(x);
}

/// Links the FRS records: each benefit unit to the household with its serial number
/// (dropped if there is none), each person to the benefit unit with its serial number
/// and benefit-unit number (dropped if there is none), and each household and benefit
/// unit to its members in order. `person_keys` lists adults, then children.
pub fn link_records(
    household_sernums: &Vec<i64>,
    benunit_keys: &Vec<(i64, i64)>,
    person_keys: &Vec<(i64, i64)>,
) -> (r: RecordLinks)
    ensures
        links_of(household_sernums@, benunit_keys@, person_keys@, r),
{
    let ghost hh = household_sernums@;
    let ghost bu = benunit_keys@;
    let ghost pk = person_keys@;
    let mut hh_map: HashMap<i64, usize> = HashMap::new();
    let mut household_benunits: Vec<Vec<usize>> = Vec::new();
    let mut household_persons: Vec<Vec<usize>> = Vec::new();
    let mut i: usize = 0;
    while i < household_sernums.len()
        invariant
            hh == household_sernums@,
            i <= hh.len(),
            household_benunits@.len() == i,
            household_persons@.len() == i,
            forall|h: int| 0 <= h < i ==> (#[trigger] household_benunits@[h])@.len() == 0,
            forall|h: int| 0 <= h < i ==> (#[trigger] household_persons@[h])@.len() == 0,
            forall|k: i64|
                #![trigger hh_map@.contains_key(k)]
                hh_map@.contains_key(k) <==> last_match(hh, k, i as nat) >= 0,
            forall|k: i64|
                #![trigger hh_map@[k]]
                hh_map@.contains_key(k) ==> hh_map@[k] == last_match(hh, k, i as nat),
        decreases hh.len() - i,
    {
        hh_map.insert(household_sernums[i], i);
        household_benunits.push(Vec::new());
        household_persons.push(Vec::new());
        i = i + 1;
    }
    assert forall|h: int| 0 <= h < hh.len() implies (#[trigger] household_benunits@[h])@ == members(
        Seq::<usize>::empty(),
        h,
        0,
    ) by {
        assert(household_benunits@[h]@ =~= Seq::<usize>::empty());
    }
    assert forall|h: int| 0 <= h < hh.len() implies (#[trigger] household_persons@[h])@ == members(
        Seq::<usize>::empty(),
        h,
        0,
    ) by {
        assert(household_persons@[h]@ =~= Seq::<usize>::empty());
    }
    let mut bu_map: HashMap<i128, usize> = HashMap::new();
    let mut benunit_records: Vec<usize> = Vec::new();
    let mut benunit_households: Vec<usize> = Vec::new();
    let mut benunit_persons: Vec<Vec<usize>> = Vec::new();
    let mut j: usize = 0;
    proof {
        assert forall|h: int| 0 <= h < hh.len() implies (#[trigger] household_benunits@[h])@
            == members(benunit_households@, h, 0) by {
            assert(household_benunits@[h]@ =~= Seq::<usize>::empty());
        }
        assert forall|k: i64| #![trigger hh_map@.contains_key(k)] hh_map@.contains_key(k) implies hh_map@[k] == household_of(hh, k) by {}
    }
    while j < benunit_keys.len()
        invariant
            hh == household_sernums@,
            bu == benunit_keys@,
            j <= bu.len(),
            household_benunits@.len() == hh.len(),
            household_persons@.len() == hh.len(),
            forall|h: int| 0 <= h < hh.len() ==> (#[trigger] household_persons@[h])@.len() == 0,
            forall|k: i64|
                #![trigger hh_map@.contains_key(k)]
                hh_map@.contains_key(k) <==> household_of(hh, k) >= 0,
            forall|k: i64|
                #![trigger hh_map@[k]]
                hh_map@.contains_key(k) ==> hh_map@[k] == household_of(hh, k),
            benunit_records@.len() == kept_benunits(hh, bu, j as nat).len(),
            benunit_households@.len() == benunit_records@.len(),
            benunit_persons@.len() == benunit_records@.len(),
            forall|q: int|
                0 <= q < benunit_persons@.len() ==> (#[trigger] benunit_persons@[q])@.len() == 0,
            forall|q: int|
                0 <= q < benunit_records@.len() ==> #[trigger] benunit_records@[q] == kept_benunits(
                    hh,
                    bu,
                    j as nat,
                )[q] && benunit_households@[q] == household_of(
                    hh,
                    bu[kept_benunits(hh, bu, j as nat)[q]].0,
                ),
            forall|h: int|
                0 <= h < hh.len() ==> (#[trigger] household_benunits@[h])@ == members(
                    benunit_households@,
                    h,
                    benunit_households@.len() as nat,
                ),
            forall|k: (i64, i64)|
                #![trigger pair_code(k)]
                bu_map@.contains_key(pair_code(k) as i128) <==> last_pair_match(
                    kept_keys_upto(hh, bu, j as nat),
                    k,
                    benunit_records@.len() as nat,
                ) >= 0,
            forall|k: (i64, i64)|
                #![trigger pair_code(k)]
                bu_map@.contains_key(pair_code(k) as i128) ==> bu_map@[pair_code(k) as i128]
                    == last_pair_match(
                    kept_keys_upto(hh, bu, j as nat),
                    k,
                    benunit_records@.len() as nat,
                ),
        decreases bu.len() - j,
    {
        let key = benunit_keys[j];
        let ghost before = kept_keys_upto(hh, bu, j as nat);
        let ghost n0 = benunit_records@.len();
        proof {
            lemma_kept_benunits(hh, bu, j as nat);
        }
        match hh_map.get(&key.0) {
            Some(h) => {
                let hidx = *h;
                let q = benunit_records.len();
                let code = pair_key(key);
                proof {
                    lemma_last_match_bound(hh, key.0, hh.len());
                    let after = kept_keys_upto(hh, bu, (j + 1) as nat);
                    assert(after =~= before.push(key));
                    assert forall|k: (i64, i64)| k != key implies last_pair_match(after, k, (n0 + 1) as nat)
                        == last_pair_match(before, k, n0 as nat) by {
                        lemma_last_pair_match_push(before, key, k, n0 as nat);
                    }
                    assert forall|k: (i64, i64)| pair_code(k) == pair_code(key) implies k == key by {
                        lemma_pair_code_injective(k, key);
                    }
                    lemma_members_push_all(benunit_households@, hidx, n0 as nat, hh.len());
                }
                bu_map.insert(code, q);
                benunit_records.push(j);
                benunit_households.push(hidx);
                benunit_persons.push(Vec::new());
                push_member(&mut household_benunits, hidx, q);
                proof {
                    let after = kept_keys_upto(hh, bu, (j + 1) as nat);
                    assert forall|k: (i64, i64)| #![trigger pair_code(k)] bu_map@.contains_key(pair_code(k) as i128)
                        implies bu_map@[pair_code(k) as i128] == last_pair_match(after, k, benunit_records@.len() as nat) by {
                        if k == key {
                            assert(after[n0 as int] == key);
                        } else {
                            lemma_pair_code_injective_ne(k, key);
                        }
                    }
                    assert forall|k: (i64, i64)| #![trigger pair_code(k)] bu_map@.contains_key(pair_code(k) as i128)
                        <==> last_pair_match(after, k, benunit_records@.len() as nat) >= 0 by {
                        if k == key {
                            assert(after[n0 as int] == key);
                        } else {
                            lemma_pair_code_injective_ne(k, key);
                        }
                    }
                    assert forall|h: int| 0 <= h < hh.len() implies (#[trigger] household_benunits@[h])@
                        == members(benunit_households@, h, benunit_households@.len() as nat) by {}
                }
            },
            None => {
                proof {
                    assert(kept_keys_upto(hh, bu, (j + 1) as nat) =~= before);
                }
            },
        }
        j = j + 1;
    }
    let mut person_records: Vec<usize> = Vec::new();
    let mut person_benunits: Vec<usize> = Vec::new();
    let mut person_households: Vec<usize> = Vec::new();
    let mut p: usize = 0;
    proof {
        assert forall|h: int| 0 <= h < hh.len() implies (#[trigger] household_persons@[h])@
            == members(person_households@, h, 0) by {
            assert(household_persons@[h]@ =~= Seq::<usize>::empty());
        }
        assert forall|q: int| 0 <= q < benunit_persons@.len() implies (#[trigger] benunit_persons@[q])@
            == members(person_benunits@, q, 0) by {
            assert(benunit_persons@[q]@ =~= Seq::<usize>::empty());
        }
    }
    while p < person_keys.len()
        invariant
            hh == household_sernums@,
            bu == benunit_keys@,
            pk == person_keys@,
            p <= pk.len(),
            household_benunits@.len() == hh.len(),
            household_persons@.len() == hh.len(),
            forall|k: i64|
                #![trigger hh_map@.contains_key(k)]
                hh_map@.contains_key(k) <==> household_of(hh, k) >= 0,
            forall|k: i64|
                #![trigger hh_map@[k]]
                hh_map@.contains_key(k) ==> hh_map@[k] == household_of(hh, k),
            benunit_records@.len() == kept_benunits(hh, bu, bu.len()).len(),
            benunit_households@.len() == benunit_records@.len(),
            benunit_persons@.len() == benunit_records@.len(),
            forall|q: int|
                0 <= q < benunit_records@.len() ==> #[trigger] benunit_records@[q] == kept_benunits(
                    hh,
                    bu,
                    bu.len(),
                )[q] && benunit_households@[q] == household_of(
                    hh,
                    bu[kept_benunits(hh, bu, bu.len())[q]].0,
                ),
            forall|h: int|
                0 <= h < hh.len() ==> (#[trigger] household_benunits@[h])@ == members(
                    benunit_households@,
                    h,
                    benunit_households@.len() as nat,
                ),
            forall|k: (i64, i64)|
                #![trigger pair_code(k)]
                bu_map@.contains_key(pair_code(k) as i128) <==> benunit_of(hh, bu, k) >= 0,
            forall|k: (i64, i64)|
                #![trigger pair_code(k)]
                bu_map@.contains_key(pair_code(k) as i128) ==> bu_map@[pair_code(k) as i128]
                    == benunit_of(hh, bu, k),
            kept_keys(hh, bu).len() == benunit_records@.len(),
            person_links_upto(hh, bu, pk, p as nat, person_records@, person_benunits@, person_households@),
            forall|h: int|
                0 <= h < hh.len() ==> (#[trigger] household_persons@[h])@ == members(
                    person_households@,
                    h,
                    person_households@.len() as nat,
                ),
            forall|q: int|
                0 <= q < benunit_persons@.len() ==> (#[trigger] benunit_persons@[q])@ == members(
                    person_benunits@,
                    q,
                    person_benunits@.len() as nat,
                ),
        decreases pk.len() - p,
    {
        let key = person_keys[p];
        let ghost n0 = person_records@.len();
        match hh_map.get(&key.0) {
            Some(h) => {
                let hidx = *h;
                match bu_map.get(&pair_key(key)) {
                    Some(qq) => {
                        let q = *qq;
                        let slot = person_records.len();
                        proof {
                            lemma_last_match_bound(hh, key.0, hh.len());
                            lemma_last_pair_match_bound(kept_keys(hh, bu), key, kept_keys(hh, bu).len());
                            lemma_members_push_all(person_households@, hidx, n0 as nat, hh.len());
                            lemma_members_push_all(person_benunits@, q, n0 as nat, benunit_persons@.len());
                        }
                        proof {
                            assert(key == pk[p as int]);
                            assert(person_kept(hh, bu, key));
                            lemma_push_person_links(hh, bu, pk, p as nat, person_records@, person_benunits@, person_households@);
                        }
                        person_records.push(p);
                        person_benunits.push(q);
                        person_households.push(hidx);
                        push_member(&mut household_persons, hidx, slot);
                        push_member(&mut benunit_persons, q, slot);
                    },
                    None => {
                        proof {
                            assert(key == pk[p as int]);
                            assert(!person_kept(hh, bu, key));
                            lemma_same_person_links(hh, bu, pk, p as nat, person_records@, person_benunits@, person_households@);
                        }
                    },
                }
            },
            None => {
                proof {
                    assert(key == pk[p as int]);
                    assert(!person_kept(hh, bu, key));
                    lemma_same_person_links(hh, bu, pk, p as nat, person_records@, person_benunits@, person_households@);
                }
            },
        }
        p = p + 1;
    }
    proof {
        assert(pk.len() == person_keys@.len());
        assert(kept_persons(hh, bu, pk, pk.len()) == kept_persons(hh, bu, pk, p as nat));
    }
    RecordLinks {
        benunit_records,
        benunit_households,
        person_records,
        person_benunits,
        person_households,
        household_benunits,
        household_persons,
        benunit_persons,
    }
}

proof fn lemma_last_pair_match_push(s: Seq<(i64, i64)>, x: (i64, i64), k: (i64, i64), n: nat)
    requires
        n == s.len(),
        k != x,
    ensures
        last_pair_match(s.push(x), k, n + 1) == last_pair_match(s, k, n),
{
    lemma_last_pair_match_prefix(s, x, k, n);
}

proof fn lemma_last_pair_match_prefix(s: Seq<(i64, i64)>, x: (i64, i64), k: (i64, i64), n: nat)
    requires
        n <= s.len(),
    ensures
        last_pair_match(s.push(x), k, n) == last_pair_match(s, k, n),
    decreases n,
{
    if n > 0 {
        lemma_last_pair_match_prefix(s, x, k, (n - 1) as nat);
    }
}

proof fn lemma_pair_code_injective_ne(a: (i64, i64), b: (i64, i64))
    requires
        a != b,
    ensures
        pair_code(a) != pair_code(b),
{
    if pair_code(a) == pair_code(b) {
        lemma_pair_code_injective(a, b);
    }
}

proof fn lemma_members_push_all(owners: Seq<usize>, x: usize, n: nat, count: nat)
    requires
        n == owners.len(),
    ensures
        forall|h: int|
            0 <= h < count ==> #[trigger] members(owners.push(x), h, n + 1) == if x == h {
                members(owners, h, n).push(n as usize)
            } else {
                members(owners, h, n)
            },
{
    assert forall|h: int| 0 <= h < count implies #[trigger] members(owners.push(x), h, n + 1) == if x
        == h {
        members(owners, h, n).push(n as usize)
    } else {
        members(owners, h, n)
    } by {
        lemma_members_push(owners, x, h, n);
    }
}


proof fn lemma_same_person_links(
    hh: Seq<i64>,
    bu: Seq<(i64, i64)>,
    pk: Seq<(i64, i64)>,
    p: nat,
    records: Seq<usize>,
    bens: Seq<usize>,
    hhs: Seq<usize>,
)
    requires
        p < pk.len(),
        !person_kept(hh, bu, pk[p as int]),
        person_links_upto(hh, bu, pk, p, records, bens, hhs),
    ensures
        person_links_upto(hh, bu, pk, p + 1, records, bens, hhs),
{
    assert(kept_persons(hh, bu, pk, p + 1) == kept_persons(hh, bu, pk, p));
}

proof fn lemma_push_person_links(
    hh: Seq<i64>,
    bu: Seq<(i64, i64)>,
    pk: Seq<(i64, i64)>,
    p: nat,
    records: Seq<usize>,
    bens: Seq<usize>,
    hhs: Seq<usize>,
)
    requires
        p < pk.len(),
        p <= usize::MAX,
        person_kept(hh, bu, pk[p as int]),
        person_links_upto(hh, bu, pk, p, records, bens, hhs),
        0 <= benunit_of(hh, bu, pk[p as int]) <= usize::MAX,
        0 <= household_of(hh, pk[p as int].0) <= usize::MAX,
    ensures
        person_links_upto(
            hh,
            bu,
            pk,
            p + 1,
            records.push(p as usize),
            bens.push(benunit_of(hh, bu, pk[p as int]) as usize),
            hhs.push(household_of(hh, pk[p as int].0) as usize),
        ),
{
    let prev = kept_persons(hh, bu, pk, p);
    let cur = kept_persons(hh, bu, pk, p + 1);
    assert(cur == prev.push(p as int));
    let r2 = records.push(p as usize);
    let b2 = bens.push(benunit_of(hh, bu, pk[p as int]) as usize);
    let h2 = hhs.push(household_of(hh, pk[p as int].0) as usize);
    assert forall|i: int| 0 <= i < cur.len() implies #[trigger] r2[i] == cur[i] && b2[i] == benunit_of(
        hh,
        bu,
        pk[cur[i]],
    ) && h2[i] == household_of(hh, pk[cur[i]].0) by {
        if i < prev.len() {
            assert(cur[i] == prev[i]);
            assert(r2[i] == records[i]);
        }
    }
    assert(person_links_upto(hh, bu, pk, p + 1, r2, b2, h2));
}


proof fn lemma_kept_persons(hh: Seq<i64>, bu: Seq<(i64, i64)>, pk: Seq<(i64, i64)>, n: nat)
    requires
        n <= pk.len(),
    ensures
        forall|i: int|
            0 <= i < kept_persons(hh, bu, pk, n).len() ==> 0 <= #[trigger] kept_persons(hh, bu, pk, n)[i]
                < n && person_kept(hh, bu, pk[kept_persons(hh, bu, pk, n)[i]]),
    decreases n,
{
    if n > 0 {
        lemma_kept_persons(hh, bu, pk, (n - 1) as nat);
        let prev = kept_persons(hh, bu, pk, (n - 1) as nat);
        assert forall|i: int| 0 <= i < kept_persons(hh, bu, pk, n).len() implies 0
            <= #[trigger] kept_persons(hh, bu, pk, n)[i] < n && person_kept(
            hh,
            bu,
            pk[kept_persons(hh, bu, pk, n)[i]],
        ) by {
            if i < prev.len() {
                assert(kept_persons(hh, bu, pk, n)[i] == prev[i]);
            }
        }
    }
}

proof fn lemma_members(owners: Seq<usize>, owner: int, n: nat, x: int)
    requires
        n <= owners.len(),
        owners.len() <= usize::MAX,
    ensures
        members(owners, owner, n).contains(x as usize) <== 0 <= x < n && owners[x] == owner,
        forall|j: int|
            0 <= j < members(owners, owner, n).len() ==> (#[trigger] members(owners, owner, n)[j]) < n
                && owners[members(owners, owner, n)[j] as int] == owner,
    decreases n,
{
    if n > 0 {
        lemma_members(owners, owner, (n - 1) as nat, x);
        let prev = members(owners, owner, (n - 1) as nat);
        let cur = members(owners, owner, n);
        if 0 <= x < n && owners[x] == owner {
            if x == n - 1 {
                assert(cur[cur.len() - 1] == x as usize);
            } else {
                let j = choose|j: int| 0 <= j < prev.len() && prev[j] == x as usize;
                assert(cur[j] == prev[j]);
            }
        }
        assert forall|j: int| 0 <= j < cur.len() implies (#[trigger] cur[j]) < n && owners[cur[j] as int]
            == owner by {
            if j < prev.len() {
                assert(cur[j] == prev[j]);
                assert(prev[j] < n - 1 && owners[prev[j] as int] == owner);
            } else {
                assert(owners[n - 1] == owner);
                assert(cur[j] == (n - 1) as usize);
            }
        }
    }
}

/// The linked hierarchy is consistent: each kept person's household is the household of
/// its benefit unit, each kept person is listed among the members of its benefit unit
/// and of its household, and each kept benefit unit among those of its household.
pub proof fn lemma_links_consistent(
    hh: Seq<i64>,
    bu: Seq<(i64, i64)>,
    pk: Seq<(i64, i64)>,
    r: RecordLinks,
)
    requires
        links_of(hh, bu, pk, r),
    ensures
        forall|i: int|
            #![trigger r.person_benunits@[i]]
            0 <= i < r.person_records@.len() ==> r.person_benunits@[i] < r.benunit_households@.len(),
        forall|i: int|
            #![trigger r.person_households@[i]]
            0 <= i < r.person_records@.len() ==> r.benunit_households@[r.person_benunits@[i] as int]
                == r.person_households@[i] && r.person_households@[i] < hh.len(),
        forall|i: int|
            #![trigger r.person_households@[i]]
            0 <= i < r.person_records@.len() ==> r.household_persons@[r.person_households@[i] as int]@.contains(i as usize)
                && r.benunit_persons@[r.person_benunits@[i] as int]@.contains(i as usize),
        forall|q: int|
            #![trigger r.benunit_households@[q]]
            0 <= q < r.benunit_records@.len() ==> r.benunit_households@[q] < hh.len()
                && r.household_benunits@[r.benunit_households@[q] as int]@.contains(q as usize),
{
    let kb = kept_benunits(hh, bu, bu.len());
    let kp = kept_persons(hh, bu, pk, pk.len());
    let keys = kept_keys(hh, bu);
    lemma_kept_persons(hh, bu, pk, pk.len());
    lemma_kept_benunits(hh, bu, bu.len());
    assert(r.person_households@.len() == r.person_households.len());
    assert(r.person_benunits@.len() == r.person_benunits.len());
    assert(r.benunit_households@.len() == r.benunit_households.len());
    assert forall|i: int|
        #![trigger r.person_households@[i]]
        #![trigger r.person_benunits@[i]]
        0 <= i < r.person_records@.len() implies r.person_benunits@[i] < r.benunit_households@.len()
        && r.benunit_households@[r.person_benunits@[i] as int] == r.person_households@[i]
        && r.person_households@[i] < hh.len()
        && r.household_persons@[r.person_households@[i] as int]@.contains(i as usize)
        && r.benunit_persons@[r.person_benunits@[i] as int]@.contains(i as usize) by {
        let k = pk[kp[i]];
        assert(r.person_records@[i] == kp[i]);
        assert(r.person_benunits@[i] == benunit_of(hh, bu, k));
        assert(r.person_households@[i] == household_of(hh, k.0));
        assert(person_kept(hh, bu, k));
        lemma_last_match_bound(hh, k.0, hh.len());
        lemma_last_pair_match_bound(keys, k, keys.len());
        let q = benunit_of(hh, bu, k);
        assert(keys.len() == kb.len());
        assert(r.benunit_households@.len() == kb.len());
        assert(0 <= q < kb.len());
        assert(keys[q] == bu[kb[q]]);
        assert(r.benunit_records@[q] == kb[q]);
        assert(r.benunit_households@[q] == household_of(hh, bu[kb[q]].0));
        lemma_members(r.person_households@, r.person_households@[i] as int, kp.len(), i);
        lemma_members(r.person_benunits@, r.person_benunits@[i] as int, kp.len(), i);
    }
    assert forall|q: int|
        #![trigger r.benunit_households@[q]]
        0 <= q < r.benunit_records@.len() implies r.benunit_households@[q] < hh.len()
        && r.household_benunits@[r.benunit_households@[q] as int]@.contains(q as usize) by {
        assert(r.benunit_records@[q] == kb[q]);
        assert(r.benunit_households@[q] == household_of(hh, bu[kb[q]].0));
        lemma_kept_benunits_have_household(hh, bu, bu.len(), q);
        lemma_last_match_bound(hh, bu[kb[q]].0, hh.len());
        lemma_members(r.benunit_households@, r.benunit_households@[q] as int, kb.len(), q);
    }
}

proof fn lemma_kept_benunits_have_household(hh: Seq<i64>, bu: Seq<(i64, i64)>, n: nat, q: int)
    requires
        n <= bu.len(),
        0 <= q < kept_benunits(hh, bu, n).len(),
    ensures
        household_of(hh, bu[kept_benunits(hh, bu, n)[q]].0) >= 0,
    decreases n,
{
    let prev = kept_benunits(hh, bu, (n - 1) as nat);
    if q < prev.len() {
        lemma_kept_benunits_have_household(hh, bu, (n - 1) as nat, q);
        assert(kept_benunits(hh, bu, n)[q] == prev[q]);
    }
}

/// The number of members in the first `n` households of the given sizes.
pub open spec fn members_before(sizes: Seq<usize>, n: nat) -> nat
    decreases n,
{
    if n == 0 || n > sizes.len() {
        0
    } else {
        members_before(sizes, (n - 1) as nat) + sizes[n - 1] as nat
    }
}

proof fn lemma_members_before_monotone(sizes: Seq<usize>, m: nat, n: nat)
    requires
        m <= n <= sizes.len(),
    ensures
        members_before(sizes, m) <= members_before(sizes, n),
    decreases n,
{
    if m < n {
        lemma_members_before_monotone(sizes, m, (n - 1) as nat);
    }
}

/// The person numbers of households whose members are numbered consecutively, in
/// household order, as the survey loaders number them: household `h` gets the range
/// `start..end`, starting where household `h - 1` ends.
pub fn member_ranges(sizes: &Vec<usize>) -> (r: Vec<(usize, usize)>)
    requires
        members_before(sizes@, sizes@.len()) <= usize::MAX,
    ensures
        r@.len() == sizes@.len(),
        forall|h: int|
            0 <= h < sizes@.len() ==> #[trigger] r@[h].0 == members_before(sizes@, h as nat)
                && r@[h].1 == members_before(sizes@, (h + 1) as nat),
{
    let mut r: Vec<(usize, usize)> = Vec::new();
    let mut next: usize = 0;
    let mut h: usize = 0;
    while h < sizes.len()
        invariant
            h <= sizes@.len(),
            r@.len() == h,
            next == members_before(sizes@, h as nat),
            members_before(sizes@, sizes@.len()) <= usize::MAX,
            forall|g: int|
                0 <= g < h ==> #[trigger] r@[g].0 == members_before(sizes@, g as nat) && r@[g].1
                    == members_before(sizes@, (g + 1) as nat),
        decreases sizes@.len() - h,
    {
        proof {
            lemma_members_before_monotone(sizes@, (h + 1) as nat, sizes@.len());
        }
        let end: usize = next + sizes[h];
        let ghost before = r@;
        r.push((next, end));
        assert forall|g: int| 0 <= g < h + 1 implies #[trigger] r@[g].0 == members_before(
            sizes@,
            g as nat,
        ) && r@[g].1 == members_before(sizes@, (g + 1) as nat) by {
            if g < h {
                assert(r@[g] == before[g]);
            }
        }
        next = end;
        h = h + 1;
    }
    r
}

/// Consecutive numbering gives each household its own members: the ranges follow one
/// another from 0 to the total, each as long as its household, so every person number
/// below the total lies in exactly one household's range.
pub proof fn lemma_member_ranges_partition(sizes: Seq<usize>, h: nat, p: nat)
    requires
        h < sizes.len(),
    ensures
        members_before(sizes, (h + 1) as nat) == members_before(sizes, h) + sizes[h as int],
        members_before(sizes, h) <= p < members_before(sizes, (h + 1) as nat) ==> forall|g: nat|
            g < sizes.len() && g != h ==> !(#[trigger] members_before(sizes, g) <= p
                < members_before(sizes, g + 1)),
{
    assert forall|g: nat| g < sizes.len() && g != h && members_before(sizes, h) <= p
        < members_before(sizes, (h + 1) as nat) implies !(#[trigger] members_before(sizes, g) <= p
        < members_before(sizes, g + 1)) by {
        if g < h {
            lemma_members_before_monotone(sizes, g + 1, h);
        } else {
            lemma_members_before_monotone(sizes, h + 1, g);
        }
    }
}

} // verus!
