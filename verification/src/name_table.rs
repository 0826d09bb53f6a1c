//! Tables keyed by creep name, kept as lists of entries with unique names.
use vstd::prelude::*;

verus! {

/// The entry index of a name.
pub open spec fn name_index<V>(v: Seq<(String, V)>, name: Seq<char>) -> int {
    choose|i: int| 0 <= i < v.len() && v[i].0@ == name
}

pub open spec fn name_table<V>(v: Seq<(String, V)>) -> Map<Seq<char>, V> {
    Map::new(
        |name: Seq<char>| exists|i: int| 0 <= i < v.len() && v[i].0@ == name,
        |name: Seq<char>| v[name_index(v, name)].1,
    )
}

pub open spec fn names_unique<V>(v: Seq<(String, V)>) -> bool {
    forall|i: int, j: int| 0 <= i < v.len() && 0 <= j < v.len() && i != j ==> v[i].0@ != v[j].0@
}

pub proof fn lemma_name_lookup<V>(v: Seq<(String, V)>, i: int)
    requires
        names_unique(v),
        0 <= i < v.len(),
    ensures
        name_table(v).dom().contains(v[i].0@),
        name_table(v)[v[i].0@] == v[i].1,
{
    assert(name_table(v).dom().contains(v[i].0@));
    let k = name_index(v, v[i].0@);
    assert(0 <= k < v.len() && v[k].0@ == v[i].0@);
}

pub fn find_name<V>(v: &Vec<(String, V)>, name: &String) -> (r: Option<usize>)
    ensures
        match r {
            Some(i) => i < v@.len() && v@[i as int].0@ == name@,
            None => forall|i: int| 0 <= i < v@.len() ==> v@[i].0@ != name@,
        },
{
    let mut i: usize = 0;
    while i < v.len()
        invariant
            i <= v@.len(),
            forall|j: int| 0 <= j < i ==> v@[j].0@ != name@,
        decreases v@.len() - i,
    {
        if v[i].0 == *name {
            return Some(i);
        }
        i = i + 1;
    }
    None
}

/// Sets the value of a name, replacing any it had.
pub fn insert_name<V>(v: &mut Vec<(String, V)>, name: String, value: V)
    requires
        names_unique(old(v)@),
    ensures
        names_unique(final(v)@),
        name_table(final(v)@) == name_table(old(v)@).insert(name@, value),
{
    let ghost nm = name@;
    match find_name(v, &name) {
        Some(i) => {
            v.set(i, (name, value));
            proof {
                let o = old(v)@;
                let n = v@;
                assert forall|k: Seq<char>| #[trigger] name_table(n).dom().contains(k) == name_table(o).insert(nm, value).dom().contains(k) by {
                    if name_table(o).dom().contains(k) {
                        let j = choose|j: int| 0 <= j < o.len() && o[j].0@ == k;
                        assert(n[j].0@ == k);
                    }
                    if name_table(n).dom().contains(k) {
                        let j = choose|j: int| 0 <= j < n.len() && n[j].0@ == k;
                        assert(o[j].0@ == k);
                    }
                }
                assert forall|k: Seq<char>| #[trigger] name_table(n).dom().contains(k) implies name_table(n)[k] == name_table(o).insert(nm, value)[k] by {
                    let j = choose|j: int| 0 <= j < n.len() && n[j].0@ == k;
                    lemma_name_lookup(n, j);
                    if k != nm {
                        lemma_name_lookup(o, j);
                    }
                }
                assert(name_table(n) =~= name_table(o).insert(nm, value));
            }
        },
        None => {
            v.push((name, value));
            proof {
                let o = old(v)@;
                let n = v@;
                assert forall|k: Seq<char>| #[trigger] name_table(n).dom().contains(k) == name_table(o).insert(nm, value).dom().contains(k) by {
                    if name_table(o).dom().contains(k) {
                        let j = choose|j: int| 0 <= j < o.len() && o[j].0@ == k;
                        assert(n[j].0@ == k);
                    }
                    if k == nm {
                        assert(n[o.len() as int].0@ == k);
                    }
                    if name_table(n).dom().contains(k) {
                        let j = choose|j: int| 0 <= j < n.len() && n[j].0@ == k;
                        if j < o.len() {
                            assert(o[j].0@ == k);
                        }
                    }
                }
                assert forall|k: Seq<char>| #[trigger] name_table(n).dom().contains(k) implies name_table(n)[k] == name_table(o).insert(nm, value)[k] by {
                    let j = choose|j: int| 0 <= j < n.len() && n[j].0@ == k;
                    lemma_name_lookup(n, j);
                    if k != nm {
                        lemma_name_lookup(o, j);
                    }
                }
                assert(name_table(n) =~= name_table(o).insert(nm, value));
            }
        },
    }
}

/// Drops the value of a name, if it has one.
pub fn remove_name<V>(v: &mut Vec<(String, V)>, name: &String)
    requires
        names_unique(old(v)@),
    ensures
        names_unique(final(v)@),
        name_table(final(v)@) == name_table(old(v)@).remove(name@),
{
    let ghost nm = name@;
    match find_name(v, name) {
        Some(i) => {
            let _ = v.remove(i);
            proof {
                let o = old(v)@;
                let n = v@;
                assert(n == o.remove(i as int));
                assert forall|k: Seq<char>| #[trigger] name_table(n).dom().contains(k) == name_table(o).remove(nm).dom().contains(k) by {
                    if name_table(o).dom().contains(k) && k != nm {
                        let j = choose|j: int| 0 <= j < o.len() && o[j].0@ == k;
                        if j < i {
                            assert(n[j].0@ == k);
                        } else {
                            assert(j != i);
                            assert(n[j - 1].0@ == k);
                        }
                    }
                    if name_table(n).dom().contains(k) {
                        let j = choose|j: int| 0 <= j < n.len() && n[j].0@ == k;
                        if j < i {
                            assert(o[j].0@ == k);
                        } else {
                            assert(o[j + 1].0@ == k);
                        }
                    }
                }
                assert forall|k: Seq<char>| #[trigger] name_table(n).dom().contains(k) implies name_table(n)[k] == name_table(o).remove(nm)[k] by {
                    let j = choose|j: int| 0 <= j < n.len() && n[j].0@ == k;
                    lemma_name_lookup(n, j);
                    if j < i {
                        lemma_name_lookup(o, j);
                    } else {
                        lemma_name_lookup(o, j + 1);
                    }
                }
                assert(name_table(n) =~= name_table(o).remove(nm));
            }
        },
        None => {
            proof {
                let o = v@;
                assert(!name_table(o).dom().contains(nm));
                assert(name_table(o) =~= name_table(o).remove(nm));
            }
        },
    }
}

} // verus!
