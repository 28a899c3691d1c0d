//! Paths as the client compares them: by their components.
use vstd::prelude::*;

verus! {

/// A file-system path, held as its components in order. Two paths are the
/// same path exactly when their component sequences are equal.
pub struct PathKey {
    pub components: Vec<String>,
}

impl View for PathKey {
    type V = Seq<Seq<char>>;

    open spec fn view(&self) -> Seq<Seq<char>> {
        self.components@.map_values(|c: String| c@)
    }
}

impl PathKey {
    /// A copy of the path with the same components.
    pub fn duplicate(&self) -> (res: PathKey)
        ensures
            res@ == self@,
    {
        let mut components: Vec<String> = Vec::new();
        let n: usize = self.components.len();
        let mut i: usize = 0;
        while i < n
            invariant
                n == self.components@.len(),
                i <= n,
                components@.len() == i,
                forall|j: int| 0 <= j < i ==> components@[j]@ == self.components@[j]@,
            decreases n - i,
        {
            components.push(self.components[i].clone());
            i = i + 1;
        }
        let res = PathKey { components };
        assert(res@ =~= self@);
        res
    }
}

/// Whether `a` and `b` name the same path.
pub fn same_path(a: &PathKey, b: &PathKey) -> (res: bool)
    ensures
        res == (a@ == b@),
{
    let n: usize = a.components.len();
    if n != b.components.len() {
        assert(a@.len() != b@.len());
        return false;
    }
    let mut i: usize = 0;
    while i < n
        invariant
            n == a.components@.len(),
            n == b.components@.len(),
            i <= n,
            forall|j: int| 0 <= j < i ==> a@[j] == b@[j],
        decreases n - i,
    {
        if a.components[i] != b.components[i] {
            assert(a@[i as int] != b@[i as int]);
            return false;
        }
        i = i + 1;
    }
    assert(a@ =~= b@);
    true
}

} // verus!
