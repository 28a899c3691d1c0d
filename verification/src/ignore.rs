//! Paths whose file-system events the client does not react to, because the
//! client itself is writing them.
use vstd::prelude::*;
use crate::paths::{PathKey, same_path};

verus! {

/// A set of paths.
pub struct IgnoreList {
    paths: Vec<PathKey>,
}

impl View for IgnoreList {
    type V = Set<Seq<Seq<char>>>;

    closed spec fn view(&self) -> Set<Seq<Seq<char>>> {
        Set::new(|p: Seq<Seq<char>>| exists|i: int| 0 <= i < self.paths@.len() && #[trigger] self.paths@[i]@ == p)
    }
}

impl IgnoreList {
    /// An empty set.
    pub fn new() -> (res: IgnoreList)
        ensures
            res@ == Set::<Seq<Seq<char>>>::empty(),
    {
        let res = IgnoreList { paths: Vec::new() };
        assert(res@ =~= Set::<Seq<Seq<char>>>::empty());
        res
    }

    /// Whether `path` is in the set.
    pub fn contains(&self, path: &PathKey) -> (res: bool)
        ensures
            res == self@.contains(path@),
    {
        let n: usize = self.paths.len();
        let mut i: usize = 0;
        while i < n
            invariant
                n == self.paths@.len(),
                i <= n,
                forall|j: int| 0 <= j < i ==> self.paths@[j]@ != path@,
            decreases n - i,
        {
            if same_path(&self.paths[i], path) {
                assert(self.paths@[i as int]@ == path@);
                return true;
            }
            i = i + 1;
        }
        false
    }

    /// Adds `path` to the set.
    pub fn insert(&mut self, path: PathKey)
        ensures
            final(self)@ == old(self)@.insert(path@),
    {
        if !self.contains(&path) {
            let ghost before = self.paths@;
            self.paths.push(path);
            proof {
                let n: int = before.len() as int;
                assert forall|p: Seq<Seq<char>>| #[trigger] self@.contains(p) == old(self)@.insert(path@).contains(p) by {
                    if self@.contains(p) {
                        let i = choose|i: int| 0 <= i < self.paths@.len() && self.paths@[i]@ == p;
                        if i < n {
                            assert(before[i]@ == p);
                        }
                    }
                    if old(self)@.contains(p) {
                        let i = choose|i: int| 0 <= i < before.len() && before[i]@ == p;
                        assert(self.paths@[i]@ == p);
                    }
                    if p == path@ {
                        assert(self.paths@[n]@ == p);
                    }
                }
                assert(self@ =~= old(self)@.insert(path@));
            }
        } else {
            assert(old(self)@.insert(path@) =~= old(self)@);
        }
    }

    /// Removes `path` from the set.
    pub fn remove(&mut self, path: &PathKey)
        ensures
            final(self)@ == old(self)@.remove(path@),
    {
        let mut kept: Vec<PathKey> = Vec::new();
        let n: usize = self.paths.len();
        let mut i: usize = 0;
        while i < n
            invariant
                n == self.paths@.len(),
                i <= n,
                forall|j: int| 0 <= j < kept@.len() ==> #[trigger] kept@[j]@ != path@,
                forall|j: int| #![trigger kept@[j]] 0 <= j < kept@.len() ==> exists|k: int| 0 <= k < i && #[trigger] self.paths@[k]@ == kept@[j]@,
                forall|k: int| 0 <= k < i && #[trigger] self.paths@[k]@ != path@ ==> exists|j: int| 0 <= j < kept@.len() && kept@[j]@ == self.paths@[k]@,
            decreases n - i,
        {
            if !same_path(&self.paths[i], path) {
                let ghost before = kept@;
                kept.push(self.paths[i].duplicate());
                proof {
                    assert(kept@[before.len() as int]@ == self.paths@[i as int]@);
                    assert forall|j: int| #![trigger kept@[j]] 0 <= j < kept@.len() implies exists|k: int| 0 <= k < i + 1 && #[trigger] self.paths@[k]@ == kept@[j]@ by {
                        if j < before.len() {
                            assert(kept@[j] == before[j]);
                            let k = choose|k: int| 0 <= k < i && #[trigger] self.paths@[k]@ == before[j]@;
                            assert(self.paths@[k]@ == kept@[j]@);
                        } else {
                            assert(self.paths@[i as int]@ == kept@[j]@);
                        }
                    }
                    assert forall|k: int| 0 <= k < i + 1 && #[trigger] self.paths@[k]@ != path@ implies exists|j: int| 0 <= j < kept@.len() && kept@[j]@ == self.paths@[k]@ by {
                        if k < i {
                            let j = choose|j: int| 0 <= j < before.len() && before[j]@ == self.paths@[k]@;
                            assert(kept@[j] == before[j]);
                        } else {
                            assert(kept@[before.len() as int]@ == self.paths@[k]@);
                        }
                    }
                }
            }
            i = i + 1;
        }
        let ghost old_paths = self.paths@;
        self.paths = kept;
        proof {
            assert forall|p: Seq<Seq<char>>| #[trigger] self@.contains(p) == old(self)@.remove(path@).contains(p) by {
                if self@.contains(p) {
                    let j = choose|j: int| 0 <= j < self.paths@.len() && self.paths@[j]@ == p;
                    let k = choose|k: int| 0 <= k < n && #[trigger] old_paths[k]@ == self.paths@[j]@;
                    assert(old_paths[k]@ == p);
                }
                if old(self)@.remove(path@).contains(p) {
                    let k = choose|k: int| 0 <= k < old_paths.len() && old_paths[k]@ == p;
                    assert(old_paths[k]@ != path@);
                    let j = choose|j: int| 0 <= j < self.paths@.len() && self.paths@[j]@ == old_paths[k]@;
                    assert(self.paths@[j]@ == p);
                }
            }
            assert(self@ =~= old(self)@.remove(path@));
        }
    }

    /// Whether any of `paths` is in the set.
    pub fn contains_any(&self, paths: &Vec<PathKey>) -> (res: bool)
        ensures
            res == exists|i: int| 0 <= i < paths@.len() && self@.contains(#[trigger] paths@[i]@),
    {
        let n: usize = paths.len();
        let mut i: usize = 0;
        while i < n
            invariant
                n == paths@.len(),
                i <= n,
                forall|j: int| 0 <= j < i ==> !self@.contains(#[trigger] paths@[j]@),
            decreases n - i,
        {
            if self.contains(&paths[i]) {
                return true;
            }
            i = i + 1;
        }
        false
    }
}

} // verus!
