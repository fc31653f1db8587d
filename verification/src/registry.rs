//! The set of temporary files that are currently on their way to a final name.
//!
//! A path is registered before its file is first written and stays registered
//! until the file has been renamed; whatever is still registered when a batch
//! ends, or is cancelled, is handed out for deletion. The registry admits
//! temporary paths only, so nothing that it hands out names a finished download.

use crate::naming::{has_temp_suffix, is_final_path, is_temp_path, lemma_temp_path_is_not_final};
use crate::text::views;
use vstd::prelude::*;

verus! {

/// The temporary files in progress, each path at most once.
pub struct TempFileRegistry {
    paths: Vec<String>,
}

impl View for TempFileRegistry {
    type V = Set<Seq<char>>;

    closed spec fn view(&self) -> Set<Seq<char>> {
        views(self.paths@).to_set()
    }
}

impl TempFileRegistry {
    /// No path is held twice, and every path is a temporary one.
    pub closed spec fn wf(&self) -> bool {
        &&& views(self.paths@).no_duplicates()
        &&& forall|i: int| 0 <= i < self.paths@.len() ==> is_temp_path(#[trigger] self.paths@[i]@)
    }

    /// A registry that holds nothing.
    pub fn new() -> (registry: TempFileRegistry)
        ensures
            registry.wf(),
            registry@ == Set::<Seq<char>>::empty(),
    {
        let registry = TempFileRegistry { paths: Vec::new() };
        assert(views(registry.paths@) =~= Seq::empty());
        assert(registry@ =~= Set::empty());
        registry
    }

    /// How many paths are registered.
    pub fn len(&self) -> (n: usize)
        requires
            self.wf(),
        ensures
            n == self@.len(),
            self@.finite(),
    {
        proof {
            views(self.paths@).unique_seq_to_set();
        }
        self.paths.len()
    }

    /// Whether nothing is registered.
    pub fn is_empty(&self) -> (yes: bool)
        requires
            self.wf(),
        ensures
            yes == (self@ == Set::<Seq<char>>::empty()),
    {
        proof {
            views(self.paths@).unique_seq_to_set();
            if self.paths@.len() == 0 {
                assert(self@ =~= Set::empty());
            } else {
                assert(views(self.paths@)[0] == self.paths@[0]@);
                assert(self@.contains(self.paths@[0]@));
            }
        }
        self.paths.len() == 0
    }

    /// Where `path` stands in the list, if it is registered.
    fn position(&self, path: &str) -> (at: Option<usize>)
        ensures
            match at {
                Some(i) => i < self.paths@.len() && self.paths@[i as int]@ == path@,
                None => !self@.contains(path@),
            },
    {
        let wanted = path.to_owned();
        let mut i: usize = 0;
        while i < self.paths.len()
            invariant
                i <= self.paths@.len(),
                wanted@ == path@,
                forall|j: int| 0 <= j < i ==> self.paths@[j]@ != path@,
            decreases self.paths@.len() - i,
        {
            if self.paths[i] == wanted {
                return Some(i);
            }
            i = i + 1;
        }
        proof {
            if self@.contains(path@) {
                let j = choose|j: int| 0 <= j < views(self.paths@).len() && views(self.paths@)[j] == path@;
                assert(self.paths@[j]@ == path@);
            }
        }
        None
    }

    /// Whether `path` is registered.
    pub fn contains(&self, path: &str) -> (yes: bool)
        ensures
            yes == self@.contains(path@),
    {
        match self.position(path) {
            Some(i) => {
                proof {
                    assert(views(self.paths@)[i as int] == path@);
                }
                true
            },
            None => false,
        }
    }

    /// Registers `path`, to be called before its file is created. A path that does
    /// not carry the temporary suffix is refused and the registry is left as it was;
    /// registering a path twice holds it once.
    pub fn register(&mut self, path: &str) -> (accepted: bool)
        requires
            old(self).wf(),
        ensures
            final(self).wf(),
            accepted == is_temp_path(path@),
            accepted ==> final(self)@ == old(self)@.insert(path@),
            !accepted ==> final(self)@ == old(self)@,
    {
        if !has_temp_suffix(path) {
            return false;
        }
        match self.position(path) {
            Some(i) => {
                proof {
                    assert(views(self.paths@)[i as int] == path@);
                    assert(self@.insert(path@) =~= self@);
                }
            },
            None => {
                let ghost before = self.paths@;
                self.paths.push(path.to_owned());
                proof {
                    let after = self.paths@;
                    assert(views(after) =~= views(before).push(path@));
                    assert(!views(before).contains(path@));
                    assert forall|i: int, j: int|
                        0 <= i < views(after).len() && 0 <= j < views(after).len() && i != j implies views(
                        after,
                    )[i] != views(after)[j] by {
                        if i < before.len() && j < before.len() {
                            assert(views(before)[i] != views(before)[j]);
                        } else if i < before.len() {
                            assert(views(before).contains(views(before)[i]));
                        } else {
                            assert(views(before).contains(views(before)[j]));
                        }
                    }
                    assert(views(after).to_set() =~= views(before).to_set().insert(path@)) by {
                        assert forall|p: Seq<char>|
                            views(after).to_set().contains(p) <==> views(before).to_set().insert(
                                path@,
                            ).contains(p) by {
                            if views(after).contains(p) {
                                let k = choose|k: int| 0 <= k < views(after).len() && views(after)[k] == p;
                                if k < before.len() {
                                    assert(views(before)[k] == p);
                                }
                            }
                            if views(before).contains(p) {
                                let k = choose|k: int| 0 <= k < views(before).len() && views(before)[k] == p;
                                assert(views(after)[k] == p);
                            }
                            if p == path@ {
                                assert(views(after)[before.len() as int] == p);
                            }
                        }
                    }
                }
            },
        }
        true
    }

    /// Takes `path` out, to be called once its file carries its final name.
    /// Says whether it was registered.
    pub fn unregister(&mut self, path: &str) -> (was_registered: bool)
        requires
            old(self).wf(),
        ensures
            final(self).wf(),
            was_registered == old(self)@.contains(path@),
            final(self)@ == old(self)@.remove(path@),
    {
        match self.position(path) {
            Some(i) => {
                let ghost before = self.paths@;
                self.paths.remove(i);
                proof {
                    let after = self.paths@;
                    let at = i as int;
                    assert(views(before)[at] == path@);
                    assert(views(after) =~= views(before).remove(at));
                    assert forall|a: int, b: int|
                        0 <= a < views(after).len() && 0 <= b < views(after).len() && a != b implies views(
                        after,
                    )[a] != views(after)[b] by {
                        let a0 = if a < at { a } else { a + 1 };
                        let b0 = if b < at { b } else { b + 1 };
                        assert(views(after)[a] == views(before)[a0]);
                        assert(views(after)[b] == views(before)[b0]);
                    }
                    assert forall|k: int| 0 <= k < after.len() implies is_temp_path(#[trigger] after[k]@) by {
                        let k0 = if k < at { k } else { k + 1 };
                        assert(after[k] == before[k0]);
                    }
                    assert(views(after).to_set() =~= views(before).to_set().remove(path@)) by {
                        assert forall|p: Seq<char>|
                            views(after).to_set().contains(p) <==> views(before).to_set().remove(
                                path@,
                            ).contains(p) by {
                            if views(after).contains(p) {
                                let k = choose|k: int| 0 <= k < views(after).len() && views(after)[k] == p;
                                let k0 = if k < at { k } else { k + 1 };
                                assert(views(before)[k0] == p);
                                assert(views(before)[k0] != views(before)[at]);
                            }
                            if views(before).contains(p) && p != path@ {
                                let k = choose|k: int| 0 <= k < views(before).len() && views(before)[k] == p;
                                let k1 = if k < at { k } else { k - 1 };
                                assert(views(after)[k1] == p);
                            }
                        }
                    }
                }
                true
            },
            None => {
                proof {
                    assert(self@.remove(path@) =~= self@);
                }
                false
            },
        }
    }

    /// Empties the registry and hands out what it held, for deletion: each
    /// registered path once, no other path, and none that names a finished download.
    pub fn drain(&mut self) -> (paths: Vec<String>)
        requires
            old(self).wf(),
        ensures
            final(self).wf(),
            final(self)@ == Set::<Seq<char>>::empty(),
            views(paths@).no_duplicates(),
            views(paths@).to_set() == old(self)@,
            paths@.len() == old(self)@.len(),
            forall|i: int|
                0 <= i < paths@.len() ==> is_temp_path(#[trigger] paths@[i]@) && !is_final_path(
                    paths@[i]@,
                ),
    {
        let mut paths: Vec<String> = Vec::new();
        core::mem::swap(&mut self.paths, &mut paths);
        proof {
            assert(views(self.paths@) =~= Seq::empty());
            assert(self@ =~= Set::empty());
            views(paths@).unique_seq_to_set();
            assert forall|i: int| 0 <= i < paths@.len() implies is_temp_path(#[trigger] paths@[i]@)
                && !is_final_path(paths@[i]@) by {
                lemma_temp_path_is_not_final(paths@[i]@);
            }
        }
        paths
    }
}

/// Whatever a well-formed registry holds is a temporary path and no final one.
pub proof fn lemma_registry_holds_temp_paths_only(registry: TempFileRegistry, path: Seq<char>)
    requires
        registry.wf(),
        registry@.contains(path),
    ensures
        is_temp_path(path),
        !is_final_path(path),
{
    let i = choose|i: int| 0 <= i < views(registry.paths@).len() && views(registry.paths@)[i] == path;
    assert(registry.paths@[i]@ == path);
    lemma_temp_path_is_not_final(path);
}

} // verus!
