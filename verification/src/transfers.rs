//! The record of uploads and downloads, one entry per path.
use vstd::prelude::*;
use crate::paths::{PathKey, same_path};
use crate::types::{Transfer, TransferState};

verus! {

/// Every key of `s` occurs once.
pub open spec fn distinct_keys<K, V>(s: Seq<(K, V)>) -> bool {
    forall|i: int, j: int| 0 <= i < s.len() && 0 <= j < s.len() && i != j ==> s[i].0 != s[j].0
}

/// The value stored under `k` in `s`, looking from the front.
pub open spec fn lookup<K, V>(s: Seq<(K, V)>, k: K) -> Option<V>
    decreases s.len(),
{
    if s.len() == 0 {
        None
    } else if s[0].0 == k {
        Some(s[0].1)
    } else {
        lookup(s.skip(1), k)
    }
}

/// `s` with the entry under `k` replaced by `(k, v)` in place, or `(k, v)`
/// appended where `k` has no entry.
pub open spec fn upsert<K, V>(s: Seq<(K, V)>, k: K, v: V) -> Seq<(K, V)>
    decreases s.len(),
{
    if s.len() == 0 {
        seq![(k, v)]
    } else if s[0].0 == k {
        seq![(k, v)] + s.skip(1)
    } else {
        seq![s[0]] + upsert(s.skip(1), k, v)
    }
}

/// The completed transfers among the entries of `s`, in entry order.
pub open spec fn completed_of<K>(s: Seq<(K, Transfer)>) -> Seq<Transfer> {
    s.map_values(|e: (K, Transfer)| e.1).filter(|t: Transfer| t.state == TransferState::Completed)
}

/// Updating the entry at an index where `k` is found is the same as `upsert`.
proof fn lemma_upsert_at<K, V>(s: Seq<(K, V)>, k: K, v: V, j: int)
    requires
        distinct_keys(s),
        0 <= j < s.len(),
        s[j].0 == k,
    ensures
        upsert(s, k, v) == s.update(j, (k, v)),
    decreases s.len(),
{
    if j == 0 {
        assert(upsert(s, k, v) =~= s.update(j, (k, v)));
    } else {
        assert(s[0].0 != k);
        lemma_upsert_at(s.skip(1), k, v, j - 1);
        assert(upsert(s, k, v) =~= s.update(j, (k, v)));
    }
}

/// Where `k` has no entry, `upsert` appends.
proof fn lemma_upsert_absent<K, V>(s: Seq<(K, V)>, k: K, v: V)
    requires
        forall|i: int| 0 <= i < s.len() ==> s[i].0 != k,
    ensures
        upsert(s, k, v) == s.push((k, v)),
    decreases s.len(),
{
    if s.len() == 0 {
        assert(upsert(s, k, v) =~= s.push((k, v)));
    } else {
        assert(s[0].0 != k);
        lemma_upsert_absent(s.skip(1), k, v);
        assert(upsert(s, k, v) =~= s.push((k, v)));
    }
}

/// The keys of `upsert(s, k, v)` are those of `s` and `k`, each once.
pub proof fn lemma_upsert_distinct<K, V>(s: Seq<(K, V)>, k: K, v: V)
    requires
        distinct_keys(s),
    ensures
        distinct_keys(upsert(s, k, v)),
        forall|i: int| 0 <= i < upsert(s, k, v).len() ==> (upsert(s, k, v)[i].0 == k || exists|j: int| 0 <= j < s.len() && s[j].0 == #[trigger] upsert(s, k, v)[i].0),
    decreases s.len(),
{
    if s.len() > 0 {
        let t = s.skip(1);
        assert(distinct_keys(t));
        if s[0].0 != k {
            lemma_upsert_distinct(t, k, v);
            let u = upsert(s, k, v);
            let ut = upsert(t, k, v);
            assert(u == seq![s[0]] + ut);
            assert forall|i: int| 0 <= i < u.len() implies (u[i].0 == k || exists|j: int| 0 <= j < s.len() && s[j].0 == #[trigger] u[i].0) by {
                if i == 0 {
                    assert(s[0].0 == u[0].0);
                } else {
                    assert(u[i] == ut[i - 1]);
                    if ut[i - 1].0 != k {
                        let j = choose|j: int| 0 <= j < t.len() && t[j].0 == ut[i - 1].0;
                        assert(s[j + 1].0 == u[i].0);
                    }
                }
            }
            assert forall|a: int, b: int| 0 <= a < u.len() && 0 <= b < u.len() && a != b implies u[a].0 != u[b].0 by {
                if a == 0 && b > 0 {
                    assert(u[b] == ut[b - 1]);
                    if ut[b - 1].0 != k {
                        let j = choose|j: int| 0 <= j < t.len() && t[j].0 == ut[b - 1].0;
                        assert(s[j + 1].0 == ut[b - 1].0);
                    }
                } else if b == 0 && a > 0 {
                    assert(u[a] == ut[a - 1]);
                    if ut[a - 1].0 != k {
                        let j = choose|j: int| 0 <= j < t.len() && t[j].0 == ut[a - 1].0;
                        assert(s[j + 1].0 == ut[a - 1].0);
                    }
                } else if a > 0 && b > 0 {
                    assert(u[a] == ut[a - 1]);
                    assert(u[b] == ut[b - 1]);
                }
            }
        } else {
            let u = upsert(s, k, v);
            assert(u == seq![(k, v)] + t);
            assert forall|i: int| 0 <= i < u.len() implies (u[i].0 == k || exists|j: int| 0 <= j < s.len() && s[j].0 == #[trigger] u[i].0) by {
                if i > 0 {
                    assert(s[i].0 == u[i].0);
                }
            }
            assert forall|a: int, b: int| 0 <= a < u.len() && 0 <= b < u.len() && a != b implies u[a].0 != u[b].0 by {
                if a > 0 && b > 0 {
                    assert(u[a] == s[a]);
                    assert(u[b] == s[b]);
                } else if a == 0 {
                    assert(u[b] == s[b]);
                } else {
                    assert(u[a] == s[a]);
                }
            }
        }
    }
}

/// Looking up the entry at index `i` of a sequence with distinct keys finds it.
proof fn lemma_lookup_found<K, V>(s: Seq<(K, V)>, i: int)
    requires
        distinct_keys(s),
        0 <= i < s.len(),
    ensures
        lookup(s, s[i].0) == Some(s[i].1),
    decreases s.len(),
{
    if i > 0 {
        assert(s[0].0 != s[i].0);
        assert(distinct_keys(s.skip(1)));
        lemma_lookup_found(s.skip(1), i - 1);
    }
}

/// A successful lookup comes from an entry.
proof fn lemma_lookup_some<K, V>(s: Seq<(K, V)>, k: K)
    requires
        lookup(s, k) is Some,
    ensures
        exists|i: int| 0 <= i < s.len() && s[i].0 == k && Some(s[i].1) == lookup(s, k),
    decreases s.len(),
{
    if s[0].0 != k {
        lemma_lookup_some(s.skip(1), k);
        let i = choose|i: int| 0 <= i < s.skip(1).len() && s.skip(1)[i].0 == k && Some(s.skip(1)[i].1) == lookup(s.skip(1), k);
        assert(s[i + 1] == s.skip(1)[i]);
    } else {
        assert(s[0].0 == k);
    }
}

/// What a filter keeps was in the sequence and satisfies the predicate.
proof fn lemma_filter_kept<A>(s: Seq<A>, pred: spec_fn(A) -> bool, x: A)
    requires
        s.filter(pred).contains(x),
    ensures
        s.contains(x),
        pred(x),
    decreases s.len(),
{
    reveal_with_fuel(Seq::<_>::filter, 1);
    if s.len() > 0 {
        let sub = s.drop_last().filter(pred);
        if sub.contains(x) {
            lemma_filter_kept(s.drop_last(), pred, x);
            let j = choose|j: int| 0 <= j < s.drop_last().len() && s.drop_last()[j] == x;
            assert(s[j] == x);
        } else {
            assert(pred(s.last()));
            assert(x == s.last());
            assert(s[s.len() - 1] == x);
        }
    }
}

/// Recording a transfer under a path: that path then holds exactly that
/// transfer, and every other path holds what it held before.
pub proof fn law_record_replaces<K, V>(s: Seq<(K, V)>, k: K, v: V, other: K)
    ensures
        lookup(upsert(s, k, v), k) == Some(v),
        other != k ==> lookup(upsert(s, k, v), other) == lookup(s, other),
    decreases s.len(),
{
    let u = upsert(s, k, v);
    if s.len() == 0 {
        assert(u.skip(1) =~= Seq::<(K, V)>::empty());
        assert(lookup(u.skip(1), other) is None);
        assert(lookup(s, other) is None);
    } else {
        if s[0].0 == k {
            assert(u.skip(1) =~= s.skip(1));
            if other != k {
                assert(lookup(u, other) == lookup(u.skip(1), other));
                assert(lookup(s, other) == lookup(s.skip(1), other));
            }
        } else {
            law_record_replaces(s.skip(1), k, v, other);
            assert(u.skip(1) =~= upsert(s.skip(1), k, v));
        }
    }
}

/// The completed transfers listed are exactly the recorded transfers that
/// are completed: a transfer is listed when, and only when, some path holds it
/// and its state is `Completed`.
pub proof fn law_completed_listing(s: Seq<(Seq<Seq<char>>, Transfer)>, t: Transfer)
    requires
        distinct_keys(s),
    ensures
        completed_of(s).contains(t) <==> (t.state == TransferState::Completed && exists|k: Seq<Seq<char>>| lookup(s, k) == Some(t)),
{
    let vals = s.map_values(|e: (Seq<Seq<char>>, Transfer)| e.1);
    let pred = |x: Transfer| x.state == TransferState::Completed;
    if completed_of(s).contains(t) {
        lemma_filter_kept(vals, pred, t);
        let i = choose|i: int| 0 <= i < vals.len() && vals[i] == t;
        lemma_lookup_found(s, i);
        assert(lookup(s, s[i].0) == Some(t));
    }
    if t.state == TransferState::Completed && exists|k: Seq<Seq<char>>| lookup(s, k) == Some(t) {
        let k = choose|k: Seq<Seq<char>>| lookup(s, k) == Some(t);
        lemma_lookup_some(s, k);
        let i = choose|i: int| 0 <= i < s.len() && s[i].0 == k && Some(s[i].1) == lookup(s, k);
        assert(vals[i] == t);
        vals.lemma_filter_contains(pred, i);
        assert(vals.filter(pred).contains(vals[i]));
    }
}

/// A record of transfers: at most one transfer per path, later records of a
/// path replacing earlier ones.
pub struct TransferRegistry {
    entries: Vec<(PathKey, Transfer)>,
}

impl TransferRegistry {
    /// The entries, each path by its components, in the order their paths
    /// were first recorded.
    pub closed spec fn entries(&self) -> Seq<(Seq<Seq<char>>, Transfer)> {
        self.entries@.map_values(|e: (PathKey, Transfer)| (e.0@, e.1))
    }

    #[verifier::type_invariant]
    closed spec fn wf(&self) -> bool {
        distinct_keys(self.entries())
    }

    /// An empty record.
    pub fn new() -> (res: TransferRegistry)
        ensures
            res.entries() == Seq::<(Seq<Seq<char>>, Transfer)>::empty(),
            distinct_keys(res.entries()),
    {
        let res = TransferRegistry { entries: Vec::new() };
        assert(res.entries() =~= Seq::<(Seq<Seq<char>>, Transfer)>::empty());
        res
    }

    /// Records `transfer` under `path`, replacing what was recorded there.
    pub fn insert(&mut self, path: PathKey, transfer: Transfer)
        ensures
            final(self).entries() == upsert(old(self).entries(), path@, transfer),
            distinct_keys(final(self).entries()),
    {
        proof {
            use_type_invariant(&*self);
        }
        let mut entries: Vec<(PathKey, Transfer)> = Vec::new();
        std::mem::swap(&mut entries, &mut self.entries);
        let ghost old_view = entries@.map_values(|e: (PathKey, Transfer)| (e.0@, e.1));
        let n: usize = entries.len();
        let mut i: usize = 0;
        let mut found = false;
        while i < n
            invariant_except_break
                n == entries@.len(),
                i <= n,
                forall|j: int| 0 <= j < i ==> old_view[j].0 != path@,
                !found,
            invariant
                old_view == entries@.map_values(|e: (PathKey, Transfer)| (e.0@, e.1)),
                n == entries@.len(),
            ensures
                found ==> i < n && old_view[i as int].0 == path@,
                !found ==> forall|j: int| 0 <= j < n ==> old_view[j].0 != path@,
            decreases n - i,
        {
            if same_path(&entries[i].0, &path) {
                found = true;
                break;
            }
            i = i + 1;
        }
        proof {
            assert(distinct_keys(old_view));
        }
        if found {
            proof {
                lemma_upsert_at(old_view, path@, transfer, i as int);
            }
            entries.set(i, (path, transfer));
        } else {
            proof {
                lemma_upsert_absent(old_view, path@, transfer);
            }
            entries.push((path, transfer));
        }
        let ghost new_view = entries@.map_values(|e: (PathKey, Transfer)| (e.0@, e.1));
        proof {
            assert(new_view =~= upsert(old_view, path@, transfer));
            lemma_upsert_distinct(old_view, path@, transfer);
        }
        self.entries = entries;
    }

    /// The completed transfers, in the order of their entries.
    pub fn get_completed_transfers(&self) -> (res: Vec<Transfer>)
        ensures
            res@ == completed_of(self.entries()),
            distinct_keys(self.entries()),
    {
        proof {
            use_type_invariant(self);
        }
        let ghost all = self.entries().map_values(|e: (Seq<Seq<char>>, Transfer)| e.1);
        let ghost pred = |t: Transfer| t.state == TransferState::Completed;
        let mut res: Vec<Transfer> = Vec::new();
        let n: usize = self.entries.len();
        let mut i: usize = 0;
        assert(all.take(0) =~= Seq::<Transfer>::empty());
        while i < n
            invariant
                n == self.entries@.len(),
                all == self.entries().map_values(|e: (Seq<Seq<char>>, Transfer)| e.1),
                pred == (|t: Transfer| t.state == TransferState::Completed),
                i <= n,
                res@ == all.take(i as int).filter(pred),
            decreases n - i,
        {
            proof {
                reveal_with_fuel(Seq::<_>::filter, 1);
                assert(all.take(i + 1).drop_last() =~= all.take(i as int));
                assert(all[i as int] == self.entries@[i as int].1);
            }
            if self.entries[i].1.state == TransferState::Completed {
                res.push(self.entries[i].1.clone());
            }
            i = i + 1;
        }
        assert(all.take(n as int) =~= all);
        assert(completed_of(self.entries()) == all.filter(pred));
        res
    }
}

} // verus!
