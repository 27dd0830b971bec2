use vstd::prelude::*;

verus! {

// The liveness tracker: a pure diff over identifier sets. The monitor
// keeps the set of channel identifiers believed live; each successful
// poll yields a new snapshot, and the transitions are exactly the two
// set differences computed here.

/// The set an identifier list stands for.
pub open spec fn id_set(v: Seq<Seq<char>>) -> Set<Seq<char>> {
    v.to_set()
}

/// Whether `s` occurs in `v`.
pub fn contains_id(v: &Vec<String>, s: &String) -> (r: bool)
    ensures
        r == id_set(v.deep_view()).contains(s@),
{
    let mut k: usize = 0;
    while k < v.len()
        invariant
            k <= v.len(),
            forall|j: int| 0 <= j < k ==> v.deep_view()[j] != s@,
        decreases v.len() - k,
    {
        if v[k] == *s {
            proof {
                assert(v.deep_view()[k as int] == s@);
                assert(v.deep_view().contains(s@));
            }
            return true;
        }
        k += 1;
    }
    proof {
        assert(!v.deep_view().contains(s@));
    }
    false
}

/// The transitions one snapshot causes, and the state that replaces the
/// old one.
pub struct LiveDiff {
    pub newly_live: Vec<String>,
    pub newly_offline: Vec<String>,
    pub next: Vec<String>,
}

/// Computes the liveness transitions from the previous identifier set
/// to a fresh snapshot: `newly_live` holds exactly the identifiers of
/// `new` absent from `prev`, `newly_offline` exactly those of `prev`
/// absent from `new`, each exactly once; `next` is the snapshot itself.
/// A snapshot equal to the previous state yields no transitions.
pub fn diff(prev: &Vec<String>, new: &Vec<String>) -> (d: LiveDiff)
    ensures
        id_set(d.newly_live.deep_view()) == id_set(new.deep_view()).difference(
            id_set(prev.deep_view()),
        ),
        id_set(d.newly_offline.deep_view()) == id_set(prev.deep_view()).difference(
            id_set(new.deep_view()),
        ),
        d.newly_live.deep_view().no_duplicates(),
        d.newly_offline.deep_view().no_duplicates(),
        d.next@ == new@,
        id_set(prev.deep_view()) == id_set(new.deep_view()) ==> d.newly_live@.len() == 0,
        id_set(prev.deep_view()) == id_set(new.deep_view()) ==> d.newly_offline@.len() == 0,
{
    let newly_live = minus(new, prev);
    let newly_offline = minus(prev, new);
    let mut next: Vec<String> = Vec::new();
    let mut k: usize = 0;
    while k < new.len()
        invariant
            k <= new.len(),
            next@ == new@.take(k as int),
        decreases new.len() - k,
    {
        next.push(new[k].clone());
        proof {
            assert(new@.take(k as int).push(new@[k as int]) =~= new@.take(k as int + 1));
        }
        k += 1;
    }
    proof {
        assert(new@.take(new@.len() as int) =~= new@);
        if id_set(prev.deep_view()) == id_set(new.deep_view()) {
            lemma_equal_sets_empty_difference(
                id_set(prev.deep_view()),
                id_set(new.deep_view()),
            );
            lemma_no_ids_when_set_empty(newly_live.deep_view());
            lemma_no_ids_when_set_empty(newly_offline.deep_view());
            assert(newly_live@.len() == newly_live.deep_view().len());
            assert(newly_offline@.len() == newly_offline.deep_view().len());
        }
    }
    LiveDiff { newly_live, newly_offline, next }
}

/// The identifiers of `from` that are not in `except`, each once.
fn minus(from: &Vec<String>, except: &Vec<String>) -> (out: Vec<String>)
    ensures
        id_set(out.deep_view()) == id_set(from.deep_view()).difference(id_set(except.deep_view())),
        out.deep_view().no_duplicates(),
{
    let mut out: Vec<String> = Vec::new();
    let mut k: usize = 0;
    proof {
        assert(id_set(out.deep_view()) =~= id_set(from.deep_view().take(0)).difference(
            id_set(except.deep_view()),
        ));
    }
    while k < from.len()
        invariant
            k <= from.len(),
            id_set(out.deep_view()) == id_set(from.deep_view().take(k as int)).difference(
                id_set(except.deep_view()),
            ),
            out.deep_view().no_duplicates(),
        decreases from.len() - k,
    {
        let ghost out0 = out.deep_view();
        let id = &from[k];
        let picked = !contains_id(except, id) && !contains_id(&out, id);
        if picked {
            out.push(id.clone());
        }
        proof {
            assert(from.deep_view()[k as int] == from@[k as int]@);
            lemma_take_one_more_set(from.deep_view(), k as int);
            if picked {
                assert(out.deep_view() =~= out0.push(from@[k as int]@));
                lemma_push_set(out0, from@[k as int]@);
                assert(out.deep_view().no_duplicates()) by {
                    assert(forall|j: int|
                        0 <= j < out0.len() ==> out0[j] == out.deep_view()[j]);
                    assert(!out0.contains(from@[k as int]@));
                }
                assert(id_set(out.deep_view()) =~= id_set(from.deep_view().take(
                    k as int + 1,
                )).difference(id_set(except.deep_view())));
            } else {
                assert(out.deep_view() =~= out0);
                assert(id_set(out.deep_view()) =~= id_set(from.deep_view().take(
                    k as int + 1,
                )).difference(id_set(except.deep_view())));
            }
        }
        k += 1;
    }
    proof {
        assert(from.deep_view().take(from@.len() as int) =~= from.deep_view());
    }
    out
}

/// Appending one identifier adds exactly it to the set.
pub proof fn lemma_push_set(s: Seq<Seq<char>>, x: Seq<char>)
    ensures
        id_set(s.push(x)) == id_set(s).insert(x),
{
    assert forall|y: Seq<char>| id_set(s.push(x)).contains(y) implies id_set(s).insert(
        x,
    ).contains(y) by {
        let j = choose|j: int| 0 <= j < s.push(x).len() && (#[trigger] s.push(x)[j]) == y;
        if j < s.len() {
            assert(s[j] == y);
            assert(s.contains(y));
        }
    }
    assert forall|y: Seq<char>| id_set(s).insert(x).contains(y) implies id_set(
        s.push(x),
    ).contains(y) by {
        if id_set(s).contains(y) {
            let j = choose|j: int| 0 <= j < s.len() && (#[trigger] s[j]) == y;
            assert(s.push(x)[j] == y);
            assert(s.push(x).contains(y));
        } else {
            assert(s.push(x)[s.len() as int] == y);
            assert(s.push(x).contains(y));
        }
    }
    assert(id_set(s.push(x)) =~= id_set(s).insert(x));
}

proof fn lemma_take_one_more_set(s: Seq<Seq<char>>, k: int)
    requires
        0 <= k < s.len(),
    ensures
        id_set(s.take(k + 1)) == id_set(s.take(k)).insert(s[k]),
{
    assert forall|x: Seq<char>| id_set(s.take(k + 1)).contains(x) implies id_set(
        s.take(k),
    ).insert(s[k]).contains(x) by {
        let j = choose|j: int| 0 <= j < s.take(k + 1).len() && (#[trigger] s.take(k + 1)[j]) == x;
        if j < k {
            assert(s.take(k)[j] == x);
            assert(s.take(k).contains(x));
        }
    }
    assert forall|x: Seq<char>| id_set(s.take(k)).insert(s[k]).contains(x) implies id_set(
        s.take(k + 1),
    ).contains(x) by {
        if id_set(s.take(k)).contains(x) {
            let j = choose|j: int| 0 <= j < s.take(k).len() && (#[trigger] s.take(k)[j]) == x;
            assert(s.take(k + 1)[j] == x);
            assert(s.take(k + 1).contains(x));
        } else {
            assert(s.take(k + 1)[k] == x);
            assert(s.take(k + 1).contains(x));
        }
    }
    assert(id_set(s.take(k + 1)) =~= id_set(s.take(k)).insert(s[k]));
}

/// The differences of equal sets are empty: a snapshot that matches the
/// current state causes no transitions in either direction.
pub proof fn lemma_equal_sets_empty_difference(p: Set<Seq<char>>, n: Set<Seq<char>>)
    requires
        p == n,
    ensures
        n.difference(p) == Set::<Seq<char>>::empty(),
        p.difference(n) == Set::<Seq<char>>::empty(),
{
    assert(n.difference(p) =~= Set::<Seq<char>>::empty());
    assert(p.difference(n) =~= Set::<Seq<char>>::empty());
}

/// A list whose identifier set is empty is itself empty.
pub proof fn lemma_no_ids_when_set_empty(v: Seq<Seq<char>>)
    requires
        id_set(v) == Set::<Seq<char>>::empty(),
    ensures
        v.len() == 0,
{
    if v.len() > 0 {
        assert(v.contains(v[0]));
        assert(id_set(v).contains(v[0]));
    }
}

} // verus!
