//! Reforms as parameter overlays: a YAML (or JSON) document that names only the
//! parameters it changes, deep-merged into the baseline parameter document.
use vstd::prelude::*;

verus! {

/// serde_yaml's document value, carried whole at the leaves of a document.
#[verifier::external_type_specification]
#[verifier::external_body]
pub struct ExYamlValue(serde_yaml::Value);

/// A YAML document as the merge sees it: a mapping from keys (their YAML text) to
/// documents, or any other value, carried whole.
pub enum YamlTree {
    Mapping(Seq<(Seq<char>, YamlTree)>),
    Leaf(serde_yaml::Value),
}

/// A YAML document held for merging: mapping entries in document order, each key as
/// its YAML text, or any other value.
pub enum YamlNode {
    Mapping(Vec<(String, YamlNode)>),
    Leaf(serde_yaml::Value),
}

impl YamlNode {
    /// The document a node holds.
    pub open spec fn tree(self) -> YamlTree
        decreases self, 0nat,
    {
        match self {
            YamlNode::Mapping(v) => YamlTree::Mapping(entries_tree(v@, v@.len())),
            YamlNode::Leaf(x) => YamlTree::Leaf(x),
        }
    }
}

/// The documents of the first `n` mapping entries.
pub open spec fn entries_tree(s: Seq<(String, YamlNode)>, n: nat) -> Seq<(Seq<char>, YamlTree)>
    decreases s, n,
{
    if n == 0 || n > s.len() {
        Seq::empty()
    } else {
        entries_tree(s, (n - 1) as nat).push((s[n - 1].0@, s[n - 1].1.tree()))
    }
}

/// The documents of the first `n` entries are the entries' keys and documents.
proof fn lemma_entries_tree(s: Seq<(String, YamlNode)>, n: nat)
    requires
        n <= s.len(),
    ensures
        entries_tree(s, n).len() == n,
        forall|i: int| 0 <= i < n ==> #[trigger] entries_tree(s, n)[i] == (s[i].0@, s[i].1.tree()),
    decreases n,
{
    if n > 0 {
        lemma_entries_tree(s, (n - 1) as nat);
    }
}

/// Whether two mapping keys, each held as its YAML text, are the same key to
/// serde_yaml: the values that `serde_yaml::from_str` reads from the two texts compare
/// equal (`serde_yaml::Value`'s `==`, under which, for instance, `0.0` and `-0.0` are
/// the same key, and so are two mappings with the same entries in another order).
pub uninterp spec fn same_yaml_key(a: Seq<char>, b: Seq<char>) -> bool;

/// Whether comparing keys is an equivalence relation (reflexive, symmetric and
/// transitive), as `serde_yaml::Value`'s `==` is. The merge laws that need it take it
/// as their premise.
#[verifier::opaque]
pub open spec fn keys_form_equivalence() -> bool {
    &&& forall|a: Seq<char>| #[trigger] same_yaml_key(a, a)
    &&& forall|a: Seq<char>, b: Seq<char>| #[trigger] same_yaml_key(a, b) ==> same_yaml_key(b, a)
    &&& forall|a: Seq<char>, b: Seq<char>, c: Seq<char>|
        #![trigger same_yaml_key(a, b), same_yaml_key(b, c)]
        same_yaml_key(a, b) && same_yaml_key(b, c) ==> same_yaml_key(a, c)
}

proof fn lemma_key_refl(a: Seq<char>)
    requires
        keys_form_equivalence(),
    ensures
        same_yaml_key(a, a),
{
    reveal(keys_form_equivalence);
}

proof fn lemma_key_sym(a: Seq<char>, b: Seq<char>)
    requires
        keys_form_equivalence(),
        same_yaml_key(a, b),
    ensures
        same_yaml_key(b, a),
{
    reveal(keys_form_equivalence);
}

proof fn lemma_key_trans(a: Seq<char>, b: Seq<char>, c: Seq<char>)
    requires
        keys_form_equivalence(),
        same_yaml_key(a, b),
        same_yaml_key(b, c),
    ensures
        same_yaml_key(a, c),
{
    reveal(keys_form_equivalence);
}

/// The position of the first entry whose key is the same key as `k`, or -1.
pub open spec fn key_index(e: Seq<(Seq<char>, YamlTree)>, k: Seq<char>) -> int
    decreases e.len(),
{
    if e.len() == 0 {
        -1
    } else if same_yaml_key(e[0].0, k) {
        0
    } else {
        let r = key_index(e.drop_first(), k);
        if r < 0 { -1 } else { r + 1 }
    }
}

/// Deep merge with the overlay winning: two mappings merge entry by entry (base
/// entries in base order, each keeping its key and merged with the overlay's entry of
/// the same key, then the overlay's entries with new keys in overlay order); otherwise
/// the overlay replaces the base. Keys are compared as serde_yaml compares values.
pub open spec fn merge_tree(base: YamlTree, overlay: YamlTree) -> YamlTree
    decreases overlay, 0nat,
{
    match overlay {
        YamlTree::Mapping(o) => match base {
            YamlTree::Mapping(b) => YamlTree::Mapping(
                merge_entries(b, o, b.len()) + new_entries(b, o, o.len()),
            ),
            _ => overlay,
        },
        _ => overlay,
    }
}

/// The first `n` base entries, each merged with the overlay entry of its key.
pub open spec fn merge_entries(
    b: Seq<(Seq<char>, YamlTree)>,
    o: Seq<(Seq<char>, YamlTree)>,
    n: nat,
) -> Seq<(Seq<char>, YamlTree)>
    decreases o, n,
{
    if n == 0 || n > b.len() {
        Seq::empty()
    } else {
        let prev = merge_entries(b, o, (n - 1) as nat);
        let e = b[n - 1];
        let i = key_index(o, e.0);
        if 0 <= i < o.len() {
            prev.push((e.0, merge_tree(e.1, o[i].1)))
        } else {
            prev.push(e)
        }
    }
}

/// The overlay entries among the first `n` whose keys the base does not have.
pub open spec fn new_entries(
    b: Seq<(Seq<char>, YamlTree)>,
    o: Seq<(Seq<char>, YamlTree)>,
    n: nat,
) -> Seq<(Seq<char>, YamlTree)>
    decreases n,
{
    if n == 0 || n > o.len() {
        Seq::empty()
    } else {
        let prev = new_entries(b, o, (n - 1) as nat);
        if key_index(b, o[n - 1].0) < 0 {
            prev.push(o[n - 1])
        } else {
            prev
        }
    }
}

/// `serde_yaml::Value::clone` (derived): the clone equals the value cloned.
pub assume_specification[ <serde_yaml::Value as Clone>::clone ](v: &serde_yaml::Value) -> (r: serde_yaml::Value)
    ensures
        r == *v,
;

proof fn lemma_entries_tree_push(s: Seq<(String, YamlNode)>, x: (String, YamlNode), n: nat)
    requires
        n <= s.len(),
    ensures
        entries_tree(s.push(x), n) == entries_tree(s, n),
    decreases n,
{
    if n > 0 {
        lemma_entries_tree_push(s, x, (n - 1) as nat);
        assert(s.push(x)[n - 1] == s[n - 1]);
    }
}

proof fn lemma_key_index_found(e: Seq<(Seq<char>, YamlTree)>, k: Seq<char>, i: int)
    requires
        0 <= i < e.len(),
        same_yaml_key(e[i].0, k),
        forall|j: int| 0 <= j < i ==> !same_yaml_key(e[j].0, k),
    ensures
        key_index(e, k) == i,
    decreases e.len(),
{
    if i > 0 {
        assert(!same_yaml_key(e[0].0, k));
        lemma_key_index_found(e.drop_first(), k, i - 1);
    }
}

proof fn lemma_key_index_absent(e: Seq<(Seq<char>, YamlTree)>, k: Seq<char>)
    requires
        forall|j: int| 0 <= j < e.len() ==> !same_yaml_key(e[j].0, k),
    ensures
        key_index(e, k) == -1,
    decreases e.len(),
{
    if e.len() > 0 {
        assert(!same_yaml_key(e[0].0, k));
        lemma_key_index_absent(e.drop_first(), k);
    }
}

/// The position of the first of the first `bound` entries whose key is `key`.
fn find_key(entries: &Vec<(String, YamlNode)>, bound: usize, key: &String) -> (r: Option<usize>)
    requires
        bound <= entries@.len(),
    ensures
        match r {
            Some(i) => i < bound && same_yaml_key(entries@[i as int].0@, key@) && forall|j: int|
                0 <= j < i ==> !same_yaml_key(entries@[j].0@, key@),
            None => forall|j: int| 0 <= j < bound ==> !same_yaml_key(entries@[j].0@, key@),
        },
{
    let mut i: usize = 0;
    while i < bound
        invariant
            i <= bound,
            bound <= entries@.len(),
            forall|j: int| 0 <= j < i ==> !same_yaml_key(entries@[j].0@, key@),
        decreases bound - i,
    {
        if keys_match(&entries[i].0, key) {
            return Some(i);
        }
        i = i + 1;
    }
    None
}

/// A deep copy of a document.
pub fn copy_node(n: &YamlNode) -> (r: YamlNode)
    ensures
        r.tree() == n.tree(),
    decreases n,
{
    match n {
        YamlNode::Leaf(x) => YamlNode::Leaf(x.clone()),
        YamlNode::Mapping(v) => {
            let mut out: Vec<(String, YamlNode)> = Vec::new();
            let mut i: usize = 0;
            proof {
                lemma_entries_tree(v@, v@.len());
            }
            while i < v.len()
                invariant
                    *n == YamlNode::Mapping(*v),
                    i <= v@.len(),
                    out@.len() == i,
                    entries_tree(out@, i as nat) == entries_tree(v@, i as nat),
                decreases v@.len() - i,
            {
                let k = v[i].0.clone();
                proof {
                    assert(decreases_to!(*n => n->Mapping_0));
                }
                let c = copy_node(&v[i].1);
                proof {
                    lemma_entries_tree_push(out@, (k, c), i as nat);
                }
                out.push((k, c));
                i = i + 1;
            }
            YamlNode::Mapping(out)
        },
    }
}

/// Deep-merges `overlay` into `base`, the overlay winning on conflict: mappings merge
/// key by key, anything else in the overlay replaces what the base has.
pub fn merge_yaml(base: YamlNode, overlay: &YamlNode) -> (r: YamlNode)
    ensures
        r.tree() == merge_tree(base.tree(), overlay.tree()),
    decreases overlay, 0nat,
{
    match overlay {
        YamlNode::Mapping(o) => match base {
            YamlNode::Mapping(b) => {
                proof {
                    assert(decreases_to!(*overlay => overlay->Mapping_0));
                    lemma_entries_tree(b@, b@.len());
                    lemma_entries_tree(o@, o@.len());
                }
                YamlNode::Mapping(merge_mappings(b, o))
            },
            YamlNode::Leaf(_) => copy_node(overlay),
        },
        YamlNode::Leaf(_) => copy_node(overlay),
    }
}

/// Merges the entries of two mappings: the base's entries in order, each merged with
/// the overlay's entry of the same key, then the overlay's entries with new keys.
fn merge_mappings(b: Vec<(String, YamlNode)>, o: &Vec<(String, YamlNode)>) -> (r: Vec<
    (String, YamlNode),
>)
    ensures
        entries_tree(r@, r@.len()) == merge_entries(
            entries_tree(b@, b@.len()),
            entries_tree(o@, o@.len()),
            b@.len(),
        ) + new_entries(entries_tree(b@, b@.len()), entries_tree(o@, o@.len()), o@.len()),
    decreases o, 1nat,
{
    let ghost b0 = b@;
    let ghost bt = entries_tree(b@, b@.len());
    let ghost ot = entries_tree(o@, o@.len());
    proof {
        lemma_entries_tree(b@, b@.len());
        lemma_entries_tree(o@, o@.len());
    }
    let base_len = b.len();
    let mut rest = b;
    let mut out: Vec<(String, YamlNode)> = Vec::new();
    let mut idx: usize = 0;
    while idx < base_len
        invariant
            base_len == b0.len(),
            idx <= base_len,
            rest@ == b0.subrange(idx as int, base_len as int),
            out@.len() == idx,
            forall|j: int| 0 <= j < idx ==> #[trigger] out@[j].0@ == b0[j].0@,
            bt == entries_tree(b0, b0.len()),
            ot == entries_tree(o@, o@.len()),
            bt.len() == b0.len(),
            ot.len() == o@.len(),
            forall|j: int| 0 <= j < b0.len() ==> #[trigger] bt[j] == (b0[j].0@, b0[j].1.tree()),
            forall|j: int| 0 <= j < o@.len() ==> #[trigger] ot[j] == (o@[j].0@, o@[j].1.tree()),
            entries_tree(out@, idx as nat) == merge_entries(bt, ot, idx as nat),
        decreases base_len - idx,
    {
        let (k, v) = rest.remove(0);
        assert(b0[idx as int] == (k, v));
        let found = find_key(o, o.len(), &k);
        let item = match found {
            Some(i) => {
                proof {
                    lemma_key_index_found(ot, k@, i as int);
                    assert(decreases_to!(o@ => o@[i as int]));
                }
                let m = merge_yaml(v, &o[i].1);
                (k, m)
            },
            None => {
                proof {
                    lemma_key_index_absent(ot, k@);
                }
                (k, v)
            },
        };
        proof {
            lemma_entries_tree_push(out@, item, idx as nat);
        }
        out.push(item);
        idx = idx + 1;
        assert(rest@ =~= b0.subrange(idx as int, base_len as int));
    }
    let mut j: usize = 0;
    while j < o.len()
        invariant
            base_len == b0.len(),
            j <= o@.len(),
            out@.len() >= base_len,
            forall|q: int| 0 <= q < base_len ==> #[trigger] out@[q].0@ == b0[q].0@,
            bt == entries_tree(b0, b0.len()),
            ot == entries_tree(o@, o@.len()),
            bt.len() == b0.len(),
            ot.len() == o@.len(),
            forall|q: int| 0 <= q < b0.len() ==> #[trigger] bt[q] == (b0[q].0@, b0[q].1.tree()),
            forall|q: int| 0 <= q < o@.len() ==> #[trigger] ot[q] == (o@[q].0@, o@[q].1.tree()),
            entries_tree(out@, out@.len()) == merge_entries(bt, ot, base_len as nat)
                + new_entries(bt, ot, j as nat),
        decreases o@.len() - j,
    {
        let in_base = find_key(&out, base_len, &o[j].0);
        match in_base {
            Some(q) => {
                proof {
                    assert forall|p: int| 0 <= p < q implies !same_yaml_key(bt[p].0, o@[j as int].0@) by {
                        assert(out@[p].0@ == b0[p].0@);
                    }
                    assert(out@[q as int].0@ == b0[q as int].0@);
                    lemma_key_index_found(bt, o@[j as int].0@, q as int);
                }
            },
            None => {
                proof {
                    assert forall|p: int| 0 <= p < bt.len() implies !same_yaml_key(bt[p].0, o@[j as int].0@) by {
                        assert(out@[p].0@ == b0[p].0@);
                    }
                    lemma_key_index_absent(bt, o@[j as int].0@);
                }
                let k = o[j].0.clone();
                let c = copy_node(&o[j].1);
                proof {
                    lemma_entries_tree_push(out@, (k, c), out@.len());
                }
                out.push((k, c));
            },
        }
        j = j + 1;
    }
    out
}


/// Whether no key occurs twice among the entries (keys compared as serde_yaml compares
/// values).
pub open spec fn distinct_keys(e: Seq<(Seq<char>, YamlTree)>) -> bool {
    forall|i: int, j: int| 0 <= i < j < e.len() ==> !same_yaml_key(e[i].0, e[j].0)
}

/// Whether no mapping in the document repeats a key (keys compared as serde_yaml
/// compares values), as in any document serde_yaml reads.
pub open spec fn well_formed(t: YamlTree) -> bool
    decreases t, 0nat,
{
    match t {
        YamlTree::Mapping(e) => distinct_keys(e) && entries_well_formed(e, e.len()),
        YamlTree::Leaf(_) => true,
    }
}

/// Whether the documents of the first `n` entries are well formed.
pub open spec fn entries_well_formed(e: Seq<(Seq<char>, YamlTree)>, n: nat) -> bool
    decreases e, n,
{
    if n == 0 || n > e.len() {
        true
    } else {
        entries_well_formed(e, (n - 1) as nat) && well_formed(e[n - 1].1)
    }
}

/// The value a mapping gives a key (its first entry with that key), if any.
pub open spec fn lookup(t: YamlTree, k: Seq<char>) -> Option<YamlTree> {
    match t {
        YamlTree::Mapping(e) => {
            let i = key_index(e, k);
            if 0 <= i < e.len() {
                Some(e[i].1)
            } else {
                None
            }
        },
        YamlTree::Leaf(_) => None,
    }
}

proof fn lemma_entries_well_formed(e: Seq<(Seq<char>, YamlTree)>, n: nat)
    requires
        n <= e.len(),
        entries_well_formed(e, n),
    ensures
        forall|i: int| 0 <= i < n ==> well_formed(#[trigger] e[i].1),
    decreases n,
{
    if n > 0 {
        lemma_entries_well_formed(e, (n - 1) as nat);
    }
}

proof fn lemma_key_index(e: Seq<(Seq<char>, YamlTree)>, k: Seq<char>)
    ensures
        -1 <= key_index(e, k) < e.len(),
        key_index(e, k) >= 0 ==> same_yaml_key(e[key_index(e, k)].0, k),
        key_index(e, k) >= 0 ==> forall|j: int|
            0 <= j < key_index(e, k) ==> !same_yaml_key(e[j].0, k),
        key_index(e, k) < 0 ==> forall|j: int| 0 <= j < e.len() ==> !same_yaml_key(e[j].0, k),
    decreases e.len(),
{
    if e.len() > 0 {
        lemma_key_index(e.drop_first(), k);
        if !same_yaml_key(e[0].0, k) {
            assert forall|j: int| 0 < j < e.len() implies e[j] == e.drop_first()[j - 1] by {}
        }
    }
}

proof fn lemma_merge_entries(b: Seq<(Seq<char>, YamlTree)>, o: Seq<(Seq<char>, YamlTree)>, n: nat)
    requires
        n <= b.len(),
    ensures
        merge_entries(b, o, n).len() == n,
        forall|i: int|
            0 <= i < n ==> (#[trigger] merge_entries(b, o, n)[i]).0 == b[i].0 && merge_entries(
                b,
                o,
                n,
            )[i].1 == (if 0 <= key_index(o, b[i].0) < o.len() {
                merge_tree(b[i].1, o[key_index(o, b[i].0)].1)
            } else {
                b[i].1
            }),
    decreases n,
{
    if n > 0 {
        lemma_merge_entries(b, o, (n - 1) as nat);
    }
}

proof fn lemma_merge_entries_keys(b: Seq<(Seq<char>, YamlTree)>, o: Seq<(Seq<char>, YamlTree)>, n: nat)
    requires
        n <= b.len(),
    ensures
        merge_entries(b, o, n).len() == n,
        forall|i: int| 0 <= i < n ==> (#[trigger] merge_entries(b, o, n)[i]).0 == b[i].0,
    decreases n,
{
    if n > 0 {
        lemma_merge_entries_keys(b, o, (n - 1) as nat);
    }
}

proof fn lemma_new_entries(b: Seq<(Seq<char>, YamlTree)>, o: Seq<(Seq<char>, YamlTree)>, n: nat)
    requires
        n <= o.len(),
    ensures
        forall|q: int|
            0 <= q < new_entries(b, o, n).len() ==> key_index(b, (#[trigger] new_entries(b, o, n)[q]).0)
                < 0 && exists|j: int| 0 <= j < n && new_entries(b, o, n)[q] == o[j],
        forall|j: int|
            0 <= j < n && key_index(b, (#[trigger] o[j]).0) < 0 ==> exists|q: int|
                0 <= q < new_entries(b, o, n).len() && new_entries(b, o, n)[q] == o[j],
    decreases n,
{
    if n > 0 {
        lemma_new_entries(b, o, (n - 1) as nat);
        let prev = new_entries(b, o, (n - 1) as nat);
        let cur = new_entries(b, o, n);
        assert forall|q: int| 0 <= q < cur.len() implies key_index(b, (#[trigger] cur[q]).0) < 0
            && exists|j: int| 0 <= j < n && cur[q] == o[j] by {
            if q < prev.len() {
                assert(cur[q] == prev[q]);
                let j = choose|j: int| 0 <= j < n - 1 && prev[q] == o[j];
                assert(0 <= j < n && cur[q] == o[j]);
            } else {
                assert(cur[q] == o[n - 1]);
            }
        }
        assert forall|j: int| 0 <= j < n && key_index(b, (#[trigger] o[j]).0) < 0 implies exists|q: int|
            0 <= q < cur.len() && cur[q] == o[j] by {
            if j < n - 1 {
                let q = choose|q: int| 0 <= q < prev.len() && prev[q] == o[j];
                assert(cur[q] == prev[q]);
            } else {
                assert(cur[prev.len() as int] == o[j]);
            }
        }
    }
}

proof fn lemma_new_entries_empty(x: Seq<(Seq<char>, YamlTree)>, o: Seq<(Seq<char>, YamlTree)>, n: nat)
    requires
        n <= o.len(),
        forall|j: int| 0 <= j < n ==> key_index(x, (#[trigger] o[j]).0) >= 0,
    ensures
        new_entries(x, o, n) == Seq::<(Seq<char>, YamlTree)>::empty(),
    decreases n,
{
    if n > 0 {
        lemma_new_entries_empty(x, o, (n - 1) as nat);
    }
}

/// Merging a mapping with itself gives the mapping back: an overlay that restates
/// every value of a well-formed document changes nothing.
pub proof fn lemma_merge_self(t: YamlTree)
    requires
        keys_form_equivalence(),
        well_formed(t),
    ensures
        merge_tree(t, t) == t,
    decreases t, 1nat,
{
    if let YamlTree::Mapping(e) = t {
        lemma_merge_self_entries(e, e.len());
        lemma_merge_entries(e, e, e.len());
        assert forall|j: int| 0 <= j < e.len() implies key_index(e, (#[trigger] e[j]).0) == j by {
            lemma_key_refl(e[j].0);
            lemma_key_index(e, e[j].0);
        }
        lemma_new_entries_empty(e, e, e.len());
        assert(merge_entries(e, e, e.len()) + new_entries(e, e, e.len()) =~= e);
    }
}

proof fn lemma_merge_self_entries(e: Seq<(Seq<char>, YamlTree)>, n: nat)
    requires
        keys_form_equivalence(),
        n <= e.len(),
        distinct_keys(e),
        entries_well_formed(e, e.len()),
    ensures
        forall|i: int| 0 <= i < n ==> merge_tree(e[i].1, e[i].1) == #[trigger] e[i].1,
    decreases e, n,
{
    if n > 0 {
        lemma_merge_self_entries(e, (n - 1) as nat);
        lemma_entries_well_formed(e, e.len());
        assert(decreases_to!(e => e[n - 1]));
        lemma_merge_self(e[n - 1].1);
    }
}


/// A key that the overlay does not mention keeps, after the merge, exactly the value
/// that the base document gives it (or stays absent if the base lacks it).
#[verifier::spinoff_prover]
pub proof fn lemma_merge_inherits(base: YamlTree, overlay: YamlTree, k: Seq<char>)
    requires
        keys_form_equivalence(),
        base is Mapping,
        overlay is Mapping,
        lookup(overlay, k) is None,
    ensures
        lookup(merge_tree(base, overlay), k) == lookup(base, k),
{
    let b = base->Mapping_0;
    let o = overlay->Mapping_0;
    let me = merge_entries(b, o, b.len());
    let ne = new_entries(b, o, o.len());
    let r = me + ne;
    lemma_key_index(o, k);
    lemma_key_index(b, k);
    lemma_merge_entries(b, o, b.len());
    lemma_new_entries(b, o, o.len());
    let p = key_index(b, k);
    if p >= 0 {
        assert forall|j: int| 0 <= j < p implies !same_yaml_key(r[j].0, k) by {
            assert(r[j] == me[j]);
        }
        assert(r[p] == me[p]);
        lemma_key_index_found(r, k, p);
        assert forall|q: int| 0 <= q < o.len() implies !same_yaml_key(o[q].0, b[p].0) by {
            if same_yaml_key(o[q].0, b[p].0) {
                lemma_key_trans(o[q].0, b[p].0, k);
            }
        }
        lemma_key_index_absent(o, b[p].0);
    } else {
        assert forall|j: int| 0 <= j < r.len() implies !same_yaml_key(r[j].0, k) by {
            if j < me.len() {
                assert(r[j] == me[j]);
            } else {
                assert(r[j] == ne[j - me.len()]);
                let q = j - me.len();
                let jj = choose|jj: int| 0 <= jj < o.len() && ne[q] == o[jj];
            }
        }
        lemma_key_index_absent(r, k);
    }
}

proof fn lemma_merge_overrides_in_base(b: Seq<(Seq<char>, YamlTree)>, o: Seq<(Seq<char>, YamlTree)>, k: Seq<char>)
    requires
        0 <= key_index(b, k) < b.len(),
    ensures
        key_index(merge_entries(b, o, b.len()) + new_entries(b, o, o.len()), k) == key_index(b, k),
        (merge_entries(b, o, b.len()) + new_entries(b, o, o.len()))[key_index(b, k)]
            == merge_entries(b, o, b.len())[key_index(b, k)],
{
    let me = merge_entries(b, o, b.len());
    let ne = new_entries(b, o, o.len());
    let r = me + ne;
    lemma_key_index(b, k);
    lemma_merge_entries(b, o, b.len());
    let p = key_index(b, k);
    assert forall|j: int| 0 <= j < p implies !same_yaml_key(r[j].0, k) by {
        assert(r[j] == me[j]);
    }
    assert(r[p] == me[p]);
    lemma_key_index_found(r, k, p);
}

#[verifier::spinoff_prover]
proof fn lemma_merge_overrides_new(b: Seq<(Seq<char>, YamlTree)>, o: Seq<(Seq<char>, YamlTree)>, k: Seq<char>)
    requires
        keys_form_equivalence(),
        key_index(b, k) < 0,
        0 <= key_index(o, k) < o.len(),
        distinct_keys(o),
    ensures
        ({
            let r = merge_entries(b, o, b.len()) + new_entries(b, o, o.len());
            0 <= key_index(r, k) < r.len() && r[key_index(r, k)] == o[key_index(o, k)]
        }),
{
    let me = merge_entries(b, o, b.len());
    let ne = new_entries(b, o, o.len());
    let r = me + ne;
    lemma_key_index(o, k);
    lemma_key_index(b, k);
    lemma_merge_entries_keys(b, o, b.len());
    lemma_new_entries(b, o, o.len());
    let jo = key_index(o, k);
    assert forall|p: int| 0 <= p < b.len() implies !same_yaml_key(b[p].0, o[jo].0) by {
        if same_yaml_key(b[p].0, o[jo].0) {
            lemma_key_trans(b[p].0, o[jo].0, k);
        }
    }
    lemma_key_index_absent(b, o[jo].0);
    let q = choose|q: int| 0 <= q < ne.len() && ne[q] == o[jo];
    assert(r[me.len() + q] == o[jo]);
    lemma_key_index(r, k);
    let ki = key_index(r, k);
    if ki < 0 {
        assert(!same_yaml_key(r[me.len() + q].0, k));
        assert(false);
    }
    if ki < me.len() {
        assert(r[ki] == me[ki]);
        assert(same_yaml_key(b[ki].0, k));
        assert(false);
    }
    let qq = ki - me.len();
    assert(r[ki] == ne[qq]);
    let jj = choose|jj: int| 0 <= jj < o.len() && ne[qq] == o[jj];
    assert(same_yaml_key(o[jj].0, k));
    if jj < jo {
        assert(!same_yaml_key(o[jj].0, k));
    } else if jj > jo {
        lemma_key_sym(o[jj].0, k);
        lemma_key_trans(o[jo].0, k, o[jj].0);
        assert(!same_yaml_key(o[jo].0, o[jj].0));
    }
}

/// A key that the overlay sets takes the overlay's value, merged recursively into the
/// base's value where the base has one.
pub proof fn lemma_merge_overrides(base: YamlTree, overlay: YamlTree, k: Seq<char>)
    requires
        keys_form_equivalence(),
        base is Mapping,
        overlay is Mapping,
        distinct_keys(overlay->Mapping_0),
        lookup(overlay, k) is Some,
    ensures
        lookup(merge_tree(base, overlay), k) == Some(
            match lookup(base, k) {
                Some(v) => merge_tree(v, lookup(overlay, k)->0),
                None => lookup(overlay, k)->0,
            },
        ),
{
    let b = base->Mapping_0;
    let o = overlay->Mapping_0;
    lemma_key_index(o, k);
    lemma_key_index(b, k);
    if 0 <= key_index(b, k) {
        let p = key_index(b, k);
        let jo = key_index(o, k);
        lemma_merge_overrides_in_base(b, o, k);
        lemma_merge_entries(b, o, b.len());
        lemma_key_sym(b[p].0, k);
        lemma_key_trans(o[jo].0, k, b[p].0);
        assert forall|q: int| 0 <= q < jo implies !same_yaml_key(o[q].0, b[p].0) by {
            if same_yaml_key(o[q].0, b[p].0) {
                lemma_key_trans(o[q].0, b[p].0, k);
            }
        }
        lemma_key_index_found(o, b[p].0, jo);
    } else {
        lemma_merge_overrides_new(b, o, k);
    }
}

/// An overlay mapping with no entries leaves a base mapping unchanged.
pub proof fn lemma_merge_empty_overlay(base: YamlTree)
    requires
        base is Mapping,
    ensures
        merge_tree(base, YamlTree::Mapping(Seq::empty())) == base,
{
    let b = base->Mapping_0;
    let o = Seq::<(Seq<char>, YamlTree)>::empty();
    lemma_merge_entries(b, o, b.len());
    assert forall|i: int| 0 <= i < b.len() implies key_index(o, b[i].0) == -1 by {}
    assert(merge_entries(b, o, b.len()) + new_entries(b, o, o.len()) =~= b);
}

/// An overlay that is not a mapping, or that lands on a base value that is not a
/// mapping, replaces the base value outright.
pub proof fn lemma_merge_replaces(base: YamlTree, overlay: YamlTree)
    requires
        !(base is Mapping) || !(overlay is Mapping),
    ensures
        merge_tree(base, overlay) == overlay,
{
}

/// Every key of the overlay is a key of the merged mapping.
proof fn lemma_merged_has_overlay_keys(b: Seq<(Seq<char>, YamlTree)>, o: Seq<(Seq<char>, YamlTree)>)
    requires
        keys_form_equivalence(),
    ensures
        forall|j: int|
            0 <= j < o.len() ==> key_index(
                merge_entries(b, o, b.len()) + new_entries(b, o, o.len()),
                (#[trigger] o[j]).0,
            ) >= 0,
{
    let me = merge_entries(b, o, b.len());
    let ne = new_entries(b, o, o.len());
    let r = me + ne;
    lemma_merge_entries_keys(b, o, b.len());
    lemma_new_entries(b, o, o.len());
    assert forall|j: int| 0 <= j < o.len() implies key_index(r, (#[trigger] o[j]).0) >= 0 by {
        lemma_key_index(b, o[j].0);
        lemma_key_index(r, o[j].0);
        let p = key_index(b, o[j].0);
        if p >= 0 {
            assert(r[p] == me[p]);
        } else {
            let q = choose|q: int| 0 <= q < ne.len() && ne[q] == o[j];
            assert(r[me.len() + q] == o[j]);
            lemma_key_refl(o[j].0);
        }
    }
}

/// Applying the same well-formed overlay twice gives the same document as applying
/// it once.
#[verifier::spinoff_prover]
pub proof fn lemma_merge_idempotent(base: YamlTree, overlay: YamlTree)
    requires
        keys_form_equivalence(),
        well_formed(overlay),
    ensures
        merge_tree(merge_tree(base, overlay), overlay) == merge_tree(base, overlay),
    decreases overlay, 1nat,
{
    match (base, overlay) {
        (YamlTree::Mapping(b), YamlTree::Mapping(o)) => {
            let me = merge_entries(b, o, b.len());
            let ne = new_entries(b, o, o.len());
            let r = me + ne;
            lemma_merge_entries(b, o, b.len());
            lemma_new_entries(b, o, o.len());
            lemma_merge_entries(r, o, r.len());
            lemma_entries_well_formed(o, o.len());
            assert forall|i: int| 0 <= i < r.len() implies #[trigger] merge_entries(r, o, r.len())[i]
                == r[i] by {
                lemma_key_index(o, r[i].0);
                let ki = key_index(o, r[i].0);
                if i < me.len() {
                    assert(r[i] == me[i]);
                    lemma_key_index(o, b[i].0);
                    if 0 <= ki < o.len() {
                        assert(decreases_to!(o => o[ki]));
                        lemma_merge_idempotent(b[i].1, o[ki].1);
                    }
                } else {
                    let q = i - me.len();
                    assert(r[i] == ne[q]);
                    let jj = choose|jj: int| 0 <= jj < o.len() && ne[q] == o[jj];
                    lemma_key_refl(o[jj].0);
                    lemma_key_index_found(o, o[jj].0, jj);
                    lemma_merge_self(o[jj].1);
                }
            }
            assert(merge_entries(r, o, r.len()) =~= r);
            lemma_merged_has_overlay_keys(b, o);
            lemma_new_entries_empty(r, o, o.len());
            assert(merge_entries(r, o, r.len()) + new_entries(r, o, o.len()) =~= r);
        },
        _ => {
            lemma_merge_self(overlay);
        },
    }
}


proof fn lemma_entries_well_formed_from(e: Seq<(Seq<char>, YamlTree)>, n: nat)
    requires
        n <= e.len(),
        forall|i: int| 0 <= i < n ==> well_formed(#[trigger] e[i].1),
    ensures
        entries_well_formed(e, n),
    decreases n,
{
    if n > 0 {
        lemma_entries_well_formed_from(e, (n - 1) as nat);
    }
}

proof fn lemma_new_entries_distinct(b: Seq<(Seq<char>, YamlTree)>, o: Seq<(Seq<char>, YamlTree)>, n: nat)
    requires
        n <= o.len(),
        distinct_keys(o),
    ensures
        distinct_keys(new_entries(b, o, n)),
    decreases n,
{
    if n > 0 {
        lemma_new_entries_distinct(b, o, (n - 1) as nat);
        lemma_new_entries(b, o, (n - 1) as nat);
        let prev = new_entries(b, o, (n - 1) as nat);
        let cur = new_entries(b, o, n);
        if key_index(b, o[n - 1].0) < 0 {
            assert forall|i: int, j: int| 0 <= i < j < cur.len() implies !same_yaml_key(cur[i].0, cur[j].0) by {
                if j < prev.len() {
                    assert(cur[i] == prev[i] && cur[j] == prev[j]);
                } else {
                    assert(cur[i] == prev[i]);
                    let jj = choose|jj: int| 0 <= jj < n - 1 && prev[i] == o[jj];
                    assert(!same_yaml_key(o[jj].0, o[n - 1].0));
                }
            }
        }
    }
}

/// Merging keeps documents well formed: if neither the base nor the overlay repeats a
/// key in any mapping, neither does the merged document.
#[verifier::spinoff_prover]
pub proof fn lemma_merge_well_formed(base: YamlTree, overlay: YamlTree)
    requires
        well_formed(base),
        well_formed(overlay),
    ensures
        well_formed(merge_tree(base, overlay)),
    decreases overlay, 1nat,
{
    match (base, overlay) {
        (YamlTree::Mapping(b), YamlTree::Mapping(o)) => {
            let me = merge_entries(b, o, b.len());
            let ne = new_entries(b, o, o.len());
            let r = me + ne;
            lemma_merge_entries(b, o, b.len());
            lemma_new_entries(b, o, o.len());
            lemma_new_entries_distinct(b, o, o.len());
            lemma_entries_well_formed(b, b.len());
            lemma_entries_well_formed(o, o.len());
            assert forall|i: int, j: int| 0 <= i < j < r.len() implies !same_yaml_key(r[i].0, r[j].0) by {
                if j < me.len() {
                    assert(r[i] == me[i] && r[j] == me[j]);
                } else if i >= me.len() {
                    assert(r[i] == ne[i - me.len()] && r[j] == ne[j - me.len()]);
                } else {
                    assert(r[i] == me[i] && r[j] == ne[j - me.len()]);
                    lemma_key_index(b, ne[j - me.len()].0);
                }
            }
            assert forall|i: int| 0 <= i < r.len() implies well_formed(#[trigger] r[i].1) by {
                if i < me.len() {
                    assert(r[i] == me[i]);
                    lemma_key_index(o, b[i].0);
                    let ki = key_index(o, b[i].0);
                    if 0 <= ki < o.len() {
                        assert(decreases_to!(o => o[ki]));
                        lemma_merge_well_formed(b[i].1, o[ki].1);
                    }
                } else {
                    let q = i - me.len();
                    assert(r[i] == ne[q]);
                    let jj = choose|jj: int| 0 <= jj < o.len() && ne[q] == o[jj];
                }
            }
            lemma_entries_well_formed_from(r, r.len());
        },
        _ => {},
    }
}

/// serde_yaml's error type.
#[verifier::external_type_specification]
#[verifier::external_body]
pub struct ExYamlError(serde_yaml::Error);

/// serde_json's document value.
#[verifier::external_type_specification]
#[verifier::external_body]
pub struct ExJsonValue(serde_json::Value);

/// serde_json's error type.
#[verifier::external_type_specification]
#[verifier::external_body]
pub struct ExJsonError(serde_json::Error);

/// The document that `serde_yaml::from_str` reads from a text, with each mapping key
/// written back as its YAML text; `None` where serde_yaml rejects the text.
pub uninterp spec fn yaml_document(text: Seq<char>) -> Option<YamlTree>;

/// The text that `serde_yaml::to_string` writes for a document, each key read back
/// from its YAML text; `None` where serde_yaml fails.
pub uninterp spec fn yaml_text(doc: YamlTree) -> Option<Seq<char>>;

/// The value that `serde_json::from_str` reads from a text; `None` where it rejects it.
pub uninterp spec fn json_document(text: Seq<char>) -> Option<serde_json::Value>;

/// The YAML text that `serde_yaml::to_string` writes for a JSON value; `None` where it fails.
pub uninterp spec fn json_value_as_yaml(v: serde_json::Value) -> Option<Seq<char>>;

/// Reads a YAML document with `serde_yaml::from_str::<serde_yaml::Value>`.
/// Claimed: an `Ok` holds the tree that `yaml_document` names for the text, and an
/// error comes exactly when that name is `None`. What the tree is for a given text is
/// serde_yaml's YAML grammar and is not stated here.
#[verifier::external_body]
fn read_yaml(text: &str) -> (r: Result<YamlNode, serde_yaml::Error>)
    ensures
        match r {
            Ok(n) => yaml_document(text@) == Some(n.tree()),
            Err(_) => yaml_document(text@) is None,
        },
{
    serde_yaml::from_str::<serde_yaml::Value>(text).and_then(node_from_value)
}

/// Converts a `serde_yaml::Value` into the library's tree: mapping keys become their
/// YAML text (`serde_yaml::to_string`), everything else is carried as it is.
#[verifier::external_body]
fn node_from_value(v: serde_yaml::Value) -> Result<YamlNode, serde_yaml::Error> {
    match v {
        serde_yaml::Value::Mapping(m) => m.into_iter().map(
            |(k, x)| Ok((serde_yaml::to_string(&k)?, node_from_value(x)?)),
        ).collect::<Result<Vec<_>, serde_yaml::Error>>().map(YamlNode::Mapping),
        other => Ok(YamlNode::Leaf(other)),
    }
}

/// Converts the library's tree back into a `serde_yaml::Value`, reading each key
/// back with `serde_yaml::from_str`.
#[verifier::external_body]
fn value_from_node(n: &YamlNode) -> Result<serde_yaml::Value, serde_yaml::Error> {
    match n {
        YamlNode::Leaf(v) => Ok(v.clone()),
        YamlNode::Mapping(es) => es.iter().map(
            |(k, x)| Ok((serde_yaml::from_str::<serde_yaml::Value>(k)?, value_from_node(x)?)),
        ).collect::<Result<serde_yaml::Mapping, serde_yaml::Error>>().map(serde_yaml::Value::Mapping),
    }
}

/// Writes a document with `serde_yaml::to_string`. Claimed: an `Ok` holds the text
/// that `yaml_text` names for the document, and an error comes exactly when that
/// name is `None`.
#[verifier::external_body]
fn write_yaml(n: &YamlNode) -> (r: Result<String, serde_yaml::Error>)
    ensures
        match r {
            Ok(s) => yaml_text(n.tree()) == Some(s@),
            Err(_) => yaml_text(n.tree()) is None,
        },
{
    value_from_node(n).and_then(|v| serde_yaml::to_string(&v))
}

/// Reads a JSON value with `serde_json::from_str::<serde_json::Value>`. Claimed: an
/// `Ok` holds the value that `json_document` names, an error exactly when it is `None`.
#[verifier::external_body]
fn read_json(text: &str) -> (r: Result<serde_json::Value, serde_json::Error>)
    ensures
        match r {
            Ok(v) => json_document(text@) == Some(v),
            Err(_) => json_document(text@) is None,
        },
{
    serde_json::from_str::<serde_json::Value>(text)
}

/// Writes a JSON value as YAML with `serde_yaml::to_string`. Claimed: an `Ok` holds
/// the text that `json_value_as_yaml` names, an error exactly when it is `None`.
#[verifier::external_body]
fn json_to_yaml(v: &serde_json::Value) -> (r: Result<String, serde_yaml::Error>)
    ensures
        match r {
            Ok(s) => json_value_as_yaml(*v) == Some(s@),
            Err(_) => json_value_as_yaml(*v) is None,
        },
{
    serde_yaml::to_string(v)
}

/// Compares two mapping keys held as YAML text: each is read with
/// `serde_yaml::from_str::<serde_yaml::Value>` and the values are compared with
/// `serde_yaml::Value`'s `==`. Claimed: the result is `same_yaml_key` of the texts.
#[verifier::external_body]
fn keys_match(a: &String, b: &String) -> (r: bool)
    ensures
        r == same_yaml_key(a@, b@),
{
    serde_yaml::from_str::<serde_yaml::Value>(a).ok() == serde_yaml::from_str::<serde_yaml::Value>(b).ok()
}

/// The message of a serde_yaml error (its `Display` text); nothing is claimed of it.
#[verifier::external_body]
fn yaml_error_message(e: &serde_yaml::Error) -> String {
    e.to_string()
}

/// The message of a serde_json error (its `Display` text); nothing is claimed of it.
#[verifier::external_body]
fn json_error_message(e: &serde_json::Error) -> String {
    e.to_string()
}

/// Why an overlay could not be applied; each variant carries the parser's message.
pub enum OverlayError {
    /// The base parameters are not a YAML document serde_yaml accepts.
    InvalidBase(String),
    /// The overlay is not a YAML document serde_yaml accepts.
    InvalidOverlay(String),
    /// The overlay is not a JSON document serde_json accepts.
    InvalidJson(String),
    /// serde_yaml could not write a document.
    Unwritable(String),
}

/// The text that overlaying `overlay` onto `base` gives: both read as YAML, merged by
/// [`merge_tree`], written back as YAML.
pub open spec fn overlaid_text(base: Seq<char>, overlay: Seq<char>) -> Option<Seq<char>> {
    match (yaml_document(base), yaml_document(overlay)) {
        (Some(b), Some(o)) => yaml_text(merge_tree(b, o)),
        _ => None,
    }
}

/// Deep-merges the YAML `overlay` into the YAML `base` and writes the result: keys the
/// overlay sets win, everything else keeps the base's value.
pub fn overlay_yaml_text(base: &str, overlay: &str) -> (r: Result<String, OverlayError>)
    ensures
        r is Ok <==> overlaid_text(base@, overlay@) is Some,
        r matches Ok(s) ==> overlaid_text(base@, overlay@) == Some(s@),
        r matches Err(OverlayError::InvalidBase(_)) <==> yaml_document(base@) is None,
        r matches Err(OverlayError::InvalidOverlay(_)) <==> yaml_document(base@) is Some
            && yaml_document(overlay@) is None,
        r matches Err(OverlayError::Unwritable(_)) <==> yaml_document(base@) is Some
            && yaml_document(overlay@) is Some && overlaid_text(base@, overlay@) is None,
        !(r matches Err(OverlayError::InvalidJson(_))),
{
    let b = match read_yaml(base) {
        Ok(b) => b,
        Err(e) => return Err(OverlayError::InvalidBase(yaml_error_message(&e))),
    };
    let o = match read_yaml(overlay) {
        Ok(o) => o,
        Err(e) => return Err(OverlayError::InvalidOverlay(yaml_error_message(&e))),
    };
    let merged = merge_yaml(b, &o);
    match write_yaml(&merged) {
        Ok(s) => Ok(s),
        Err(e) => Err(OverlayError::Unwritable(yaml_error_message(&e))),
    }
}

/// The YAML text that a JSON overlay stands for, if serde_json reads it and serde_yaml
/// writes it.
pub open spec fn json_overlay_as_yaml(overlay: Seq<char>) -> Option<Seq<char>> {
    match json_document(overlay) {
        Some(v) => json_value_as_yaml(v),
        None => None,
    }
}

/// The text that overlaying the JSON `overlay` onto the YAML `base` gives: the JSON
/// written as YAML, then overlaid as [`overlaid_text`] says.
pub open spec fn json_overlaid_text(base: Seq<char>, overlay: Seq<char>) -> Option<Seq<char>> {
    match json_overlay_as_yaml(overlay) {
        Some(y) => overlaid_text(base, y),
        None => None,
    }
}

/// Reads `overlay` as JSON, writes it as YAML, and overlays that onto the YAML `base`
/// as [`overlay_yaml_text`] does.
pub fn overlay_json_text(base: &str, overlay: &str) -> (r: Result<String, OverlayError>)
    ensures
        r is Ok <==> json_overlaid_text(base@, overlay@) is Some,
        r matches Ok(s) ==> json_overlaid_text(base@, overlay@) == Some(s@),
        r matches Err(OverlayError::InvalidJson(_)) <==> json_document(overlay@) is None,
        json_document(overlay@) is Some && json_overlay_as_yaml(overlay@) is None ==> r matches Err(
            OverlayError::Unwritable(_),
        ),
        json_overlay_as_yaml(overlay@) matches Some(y) ==> {
            &&& (r matches Err(OverlayError::InvalidBase(_))) <==> yaml_document(base@) is None
            &&& (r matches Err(OverlayError::InvalidOverlay(_))) <==> (yaml_document(base@) is Some
                && yaml_document(y) is None)
            &&& (r matches Err(OverlayError::Unwritable(_))) <==> (yaml_document(base@) is Some
                && yaml_document(y) is Some && overlaid_text(base@, y) is None)
        },
{
    let v = match read_json(overlay) {
        Ok(v) => v,
        Err(e) => return Err(OverlayError::InvalidJson(json_error_message(&e))),
    };
    let y = match json_to_yaml(&v) {
        Ok(y) => y,
        Err(e) => return Err(OverlayError::Unwritable(yaml_error_message(&e))),
    };
    overlay_yaml_text(base, y.as_str())
}

} // verus!
