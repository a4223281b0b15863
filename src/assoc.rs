use vstd::prelude::*;

verus! {

/// No two entries of `s` share a name.
pub open spec fn distinct_names<V>(s: Seq<(Seq<char>, V)>) -> bool {
    forall|i: int, j: int|
        0 <= i < j < s.len() ==> (#[trigger] s[i]).0 != (#[trigger] s[j]).0
}

/// Some entry of `s` is named `name`.
pub open spec fn has_name<V>(s: Seq<(Seq<char>, V)>, name: Seq<char>) -> bool {
    exists|i: int| 0 <= i < s.len() && (#[trigger] s[i]).0 == name
}

/// The position of an entry of `s` named `name`, where there is one.
pub open spec fn index_of<V>(s: Seq<(Seq<char>, V)>, name: Seq<char>) -> int {
    choose|i: int| 0 <= i < s.len() && (#[trigger] s[i]).0 == name
}

/// The value stored under `name` among the entries `s`, if any.
pub open spec fn lookup<V>(s: Seq<(Seq<char>, V)>, name: Seq<char>) -> Option<V> {
    if has_name(s, name) {
        Some(s[index_of(s, name)].1)
    } else {
        None
    }
}

/// The entries `s` with `value` stored under `name`: the entry of that name is
/// replaced in place, or a new one is added at the end.
pub open spec fn with_entry<V>(s: Seq<(Seq<char>, V)>, name: Seq<char>, value: V) -> Seq<(Seq<char>, V)> {
    if has_name(s, name) {
        s.update(index_of(s, name), (name, value))
    } else {
        s.push((name, value))
    }
}

/// The entries `s` without the entry named `name`, others kept in order.
pub open spec fn without_entry<V>(s: Seq<(Seq<char>, V)>, name: Seq<char>) -> Seq<(Seq<char>, V)> {
    if has_name(s, name) {
        s.remove(index_of(s, name))
    } else {
        s
    }
}

/// Among entries with distinct names, the entry at `i` is what its name looks up.
pub proof fn lemma_lookup_at<V>(s: Seq<(Seq<char>, V)>, i: int)
    requires
        distinct_names(s),
        0 <= i < s.len(),
    ensures
        index_of(s, s[i].0) == i,
        lookup(s, s[i].0) == Some(s[i].1),
{
    assert(0 <= i < s.len() && s[i].0 == s[i].0);
    let j = index_of(s, s[i].0);
    if j != i {
        if i < j {
            assert(s[i].0 != s[j].0);
        } else {
            assert(s[j].0 != s[i].0);
        }
    }
}

/// Storing a value under a name: that name then looks up the value, every other
/// name looks up what it did before, and names stay distinct.
pub proof fn lemma_with_entry<V>(s: Seq<(Seq<char>, V)>, name: Seq<char>, value: V)
    requires
        distinct_names(s),
    ensures
        distinct_names(with_entry(s, name, value)),
        lookup(with_entry(s, name, value), name) == Some(value),
        forall|k: Seq<char>|
            k != name ==> #[trigger] lookup(with_entry(s, name, value), k) == lookup(s, k),
{
    let t = with_entry(s, name, value);
    let pos = if has_name(s, name) { index_of(s, name) } else { s.len() as int };
    assert forall|a: int, b: int| 0 <= a < b < t.len() implies (#[trigger] t[a]).0 != (
    #[trigger] t[b]).0 by {
        if a != pos && b != pos {
            assert(s[a].0 != s[b].0);
        } else if a == pos {
            if has_name(s, name) {
                assert(s[a].0 != s[b].0);
            } else {
                assert(s[a].0 != name);
            }
        } else {
            if has_name(s, name) {
                assert(s[a].0 != s[b].0);
            } else {
                assert(s[a].0 != name);
            }
        }
    }
    lemma_lookup_at(t, pos);
    assert forall|k: Seq<char>| k != name implies #[trigger] lookup(t, k) == lookup(s, k) by {
        if has_name(t, k) {
            let j = index_of(t, k);
            lemma_lookup_at(t, j);
            lemma_lookup_at(s, j);
        } else {
            assert forall|j: int| 0 <= j < s.len() implies (#[trigger] s[j]).0 != k by {
                assert(t[j].0 != k);
            }
        }
    }
}

/// Removing a name: it then looks up nothing, every other name looks up what it
/// did before, and names stay distinct.
pub proof fn lemma_without_entry<V>(s: Seq<(Seq<char>, V)>, name: Seq<char>)
    requires
        distinct_names(s),
    ensures
        distinct_names(without_entry(s, name)),
        lookup(without_entry(s, name), name) is None,
        forall|k: Seq<char>|
            k != name ==> #[trigger] lookup(without_entry(s, name), k) == lookup(s, k),
{
    let t = without_entry(s, name);
    if has_name(s, name) {
        let p = index_of(s, name);
        assert forall|j: int| 0 <= j < t.len() implies #[trigger] t[j] == if j < p {
            s[j]
        } else {
            s[j + 1]
        } by {}
        assert forall|a: int, b: int| 0 <= a < b < t.len() implies (#[trigger] t[a]).0 != (
        #[trigger] t[b]).0 by {
            let sa = if a < p { a } else { a + 1 };
            let sb = if b < p { b } else { b + 1 };
            assert(s[sa].0 != s[sb].0);
        }
        assert forall|j: int| 0 <= j < t.len() implies (#[trigger] t[j]).0 != name by {
            let sj = if j < p { j } else { j + 1 };
            if sj < p {
                assert(s[sj].0 != s[p].0);
            } else {
                assert(s[p].0 != s[sj].0);
            }
        }
        assert forall|k: Seq<char>| k != name implies #[trigger] lookup(t, k) == lookup(s, k) by {
            if has_name(t, k) {
                let j = index_of(t, k);
                lemma_lookup_at(t, j);
                let sj = if j < p { j } else { j + 1 };
                lemma_lookup_at(s, sj);
            } else if has_name(s, k) {
                let j = index_of(s, k);
                let tj = if j < p { j } else { j - 1 };
                assert(t[tj].0 == k);
            }
        }
    }
}

} // verus!
