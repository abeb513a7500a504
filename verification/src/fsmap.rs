//! In-memory model of a file tree: a finite map from path to byte content.
//! The stores and the atomic overwrite logic are verified against this model;
//! the surrounding program mirrors it onto the real filesystem.
use vstd::prelude::*;

verus! {

use crate::text::{copy_bytes, str_eq};

pub struct FileEntry {
    pub path: String,
    pub content: Vec<u8>,
}

/// A finite path-to-content map, held as an association list with pairwise
/// distinct paths. Its view is the corresponding mathematical map.
pub struct FileMap {
    entries: Vec<FileEntry>,
}

pub open spec fn paths_distinct(s: Seq<FileEntry>) -> bool {
    forall|i: int, j: int| 0 <= i < j < s.len() ==> s[i].path@ != s[j].path@
}

pub closed spec fn map_of(s: Seq<FileEntry>) -> Map<Seq<char>, Seq<u8>>
    decreases s.len(),
{
    if s.len() == 0 {
        Map::empty()
    } else {
        map_of(s.drop_last()).insert(s.last().path@, s.last().content@)
    }
}

proof fn lemma_map_of_domain(s: Seq<FileEntry>)
    ensures
        forall|k: Seq<char>|
            map_of(s).contains_key(k) <==> exists|i: int| 0 <= i < s.len() && s[i].path@ == k,
    decreases s.len(),
{
    if s.len() == 0 {
    } else {
        lemma_map_of_domain(s.drop_last());
        assert forall|k: Seq<char>| map_of(s).contains_key(k) implies exists|i: int|
            0 <= i < s.len() && s[i].path@ == k by {
            if k == s.last().path@ {
                assert(s[s.len() - 1].path@ == k);
            } else {
                assert(map_of(s.drop_last()).contains_key(k));
                assert(exists|i: int| 0 <= i < s.drop_last().len() && s.drop_last()[i].path@ == k);
                let i = choose|i: int| 0 <= i < s.drop_last().len() && s.drop_last()[i].path@ == k;
                assert(s.drop_last()[i].path@ == k);
                assert(s.drop_last()[i] == s[i]);
                assert(s[i].path@ == k);
            }
        }
        assert forall|k: Seq<char>|
            (exists|i: int| 0 <= i < s.len() && s[i].path@ == k) implies map_of(s).contains_key(
            k,
        ) by {
            let i = choose|i: int| 0 <= i < s.len() && s[i].path@ == k;
            if i < s.len() - 1 {
                assert(s.drop_last()[i].path@ == k);
                assert(exists|j: int|
                    0 <= j < s.drop_last().len() && s.drop_last()[j].path@ == k);
                assert(map_of(s.drop_last()).contains_key(k));
            } else {
                assert(k == s.last().path@);
            }
        }
    }
}

proof fn lemma_map_of_index(s: Seq<FileEntry>, i: int)
    requires
        paths_distinct(s),
        0 <= i < s.len(),
    ensures
        map_of(s).contains_key(s[i].path@),
        map_of(s)[s[i].path@] == s[i].content@,
    decreases s.len(),
{
    if i == s.len() - 1 {
    } else {
        assert(paths_distinct(s.drop_last()));
        assert(s.drop_last()[i] == s[i]);
        lemma_map_of_index(s.drop_last(), i);
        assert(s[i].path@ != s.last().path@);
    }
}

/// After swap-removing index `i` from a sequence with distinct paths, the
/// paths are still distinct, and the map loses exactly the removed key.
proof fn lemma_swap_remove(before: Seq<FileEntry>, after: Seq<FileEntry>, i: int)
    requires
        paths_distinct(before),
        0 <= i < before.len(),
        after =~= before.update(i, before.last()).drop_last(),
    ensures
        paths_distinct(after),
        map_of(after) =~= map_of(before).remove(before[i].path@),
{
    let k = before[i].path@;
    assert forall|p: int, q: int| 0 <= p < q < after.len() implies after[p].path@
        != after[q].path@ by {
        assert(after[p] == if p == i {
            before.last()
        } else {
            before[p]
        });
        assert(after[q] == if q == i {
            before.last()
        } else {
            before[q]
        });
    }
    lemma_map_of_domain(before);
    lemma_map_of_domain(after);
    assert forall|key: Seq<char>| map_of(after).contains_key(key) implies map_of(before).remove(
        k,
    ).contains_key(key) && map_of(after)[key] == map_of(before).remove(k)[key] by {
        let j = choose|j: int| 0 <= j < after.len() && after[j].path@ == key;
        let jb: int = if j == i {
            before.len() - 1
        } else {
            j
        };
        assert(before[jb].path@ == key && before[jb].content@ == after[j].content@);
        assert(key != k);
        lemma_map_of_index(before, jb);
        lemma_map_of_index(after, j);
    }
    assert forall|key: Seq<char>| map_of(before).remove(k).contains_key(key) implies map_of(
        after,
    ).contains_key(key) by {
        let j = choose|j: int| 0 <= j < before.len() && before[j].path@ == key;
        assert(j != i);
        if j == before.len() - 1 {
            assert(after[i].path@ == key);
        } else {
            assert(after[j].path@ == key);
        }
    }
}

impl View for FileMap {
    type V = Map<Seq<char>, Seq<u8>>;

    closed spec fn view(&self) -> Map<Seq<char>, Seq<u8>> {
        map_of(self.entries@)
    }
}

impl FileMap {
    pub closed spec fn wf(self) -> bool {
        paths_distinct(self.entries@)
    }

    pub fn new() -> (r: FileMap)
        ensures
            r.wf(),
            r@ == Map::<Seq<char>, Seq<u8>>::empty(),
    {
        FileMap { entries: Vec::new() }
    }

    fn find(&self, path: &str) -> (r: Option<usize>)
        requires
            self.wf(),
        ensures
            match r {
                Some(i) => i < self.entries@.len() && self.entries@[i as int].path@ == path@
                    && self@.contains_key(path@) && self@[path@] == self.entries@[
                    i as int
                ].content@,
                None => !self@.contains_key(path@),
            },
    {
        let n = self.entries.len();
        for i in 0..n
            invariant
                self.wf(),
                n == self.entries@.len(),
                forall|j: int| 0 <= j < i ==> self.entries@[j].path@ != path@,
        {
            if str_eq(self.entries[i].path.as_str(), path) {
                proof {
                    lemma_map_of_index(self.entries@, i as int);
                }
                return Some(i);
            }
        }
        proof {
            lemma_map_of_domain(self.entries@);
        }
        None
    }

    pub fn contains(&self, path: &str) -> (r: bool)
        requires
            self.wf(),
        ensures
            r == self@.contains_key(path@),
    {
        self.find(path).is_some()
    }

    /// The content stored under `path`, copied out, if any.
    pub fn get(&self, path: &str) -> (r: Option<Vec<u8>>)
        requires
            self.wf(),
        ensures
            match r {
                Some(v) => self@.contains_key(path@) && v@ == self@[path@],
                None => !self@.contains_key(path@),
            },
    {
        match self.find(path) {
            Some(i) => Some(copy_bytes(self.entries[i].content.as_slice())),
            None => None,
        }
    }

    /// Creates or overwrites the file at `path`.
    pub fn upsert(&mut self, path: String, content: Vec<u8>)
        requires
            old(self).wf(),
        ensures
            final(self).wf(),
            final(self)@ == old(self)@.insert(path@, content@),
    {
        let ghost pathv = path@;
        let ghost contentv = content@;
        let found = self.find(path.as_str());
        match found {
            Some(i) => {
                let ghost before = self.entries@;
                let _ = self.entries.swap_remove(i);
                proof {
                    lemma_swap_remove(before, self.entries@, i as int);
                }
                let ghost mid = self.entries@;
                self.entries.push(FileEntry { path, content });
                proof {
                    assert(self.entries@.drop_last() =~= mid);
                    assert(map_of(self.entries@) == map_of(mid).insert(pathv, contentv));
                    assert(self@ =~= old(self)@.insert(pathv, contentv));
                    lemma_map_of_domain(mid);
                    assert forall|p: int, q: int|
                        0 <= p < q < self.entries@.len() implies self.entries@[p].path@
                        != self.entries@[q].path@ by {
                        if q == self.entries@.len() - 1 {
                            assert(!map_of(mid).contains_key(pathv));
                            assert(mid[p].path@ != pathv);
                        }
                    }
                }
            },
            None => {
                let ghost mid = self.entries@;
                self.entries.push(FileEntry { path, content });
                proof {
                    assert(self.entries@.drop_last() =~= mid);
                    assert(map_of(self.entries@) == map_of(mid).insert(pathv, contentv));
                    lemma_map_of_domain(mid);
                    assert forall|p: int, q: int|
                        0 <= p < q < self.entries@.len() implies self.entries@[p].path@
                        != self.entries@[q].path@ by {
                        if q == self.entries@.len() - 1 {
                            assert(mid[p].path@ != pathv);
                        }
                    }
                }
            },
        }
    }

    /// Deletes the file at `path`, if present.
    pub fn remove(&mut self, path: &str)
        requires
            old(self).wf(),
        ensures
            final(self).wf(),
            final(self)@ == old(self)@.remove(path@),
    {
        let found = self.find(path);
        match found {
            Some(i) => {
                let ghost before = self.entries@;
                let _ = self.entries.swap_remove(i);
                proof {
                    lemma_swap_remove(before, self.entries@, i as int);
                    assert(self@ =~= old(self)@.remove(path@));
                }
            },
            None => {
                proof {
                    assert(self@ =~= old(self)@.remove(path@));
                }
            },
        }
    }
}

/// Upserting and then reading back under the same identifier yields the
/// value just stored: a store's set is an upsert for every id and value.
pub proof fn lemma_upsert_get(m: Map<Seq<char>, Seq<u8>>, id: Seq<char>, v: Seq<u8>)
    ensures
        m.insert(id, v).contains_key(id),
        m.insert(id, v)[id] == v,
{
}

} // verus!
