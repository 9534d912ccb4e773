//! An explicit file store: the filesystem as the persistence layer sees it.
//!
//! [`Disk`] holds whole files, each a path string with its byte content, and
//! views them as a `Map<Seq<char>, Seq<u8>>`.  Every operation replaces a
//! whole file at once, which is exactly the granularity the persistence
//! protocol relies on.  The fault switches make an operation fail
//! deterministically, so the failure branches of the protocol are reachable
//! in contracts and in tests; a binary maps each operation to the
//! corresponding filesystem call.

use vstd::prelude::*;

verus! {

/// The content a contents map holds at `p`, if any.
pub open spec fn file_at(c: Map<Seq<char>, Seq<u8>>, p: Seq<char>) -> Option<Seq<u8>> {
    if c.contains_key(p) {
        Some(c[p])
    } else {
        None
    }
}

/// One stored file: a path and its content.
struct StoredFile {
    path: String,
    data: Vec<u8>,
}

/// The map described by a sequence of stored files, later entries winning.
spec fn files_map(s: Seq<StoredFile>) -> Map<Seq<char>, Seq<u8>>
    decreases s.len(),
{
    if s.len() == 0 {
        Map::empty()
    } else {
        files_map(s.drop_last()).insert(s.last().path@, s.last().data@)
    }
}

/// No path occurs twice in the sequence.
spec fn unique_paths(s: Seq<StoredFile>) -> bool {
    forall|i: int, j: int|
        0 <= i < s.len() && 0 <= j < s.len() && i != j ==> (#[trigger] s[i]).path@ != (
        #[trigger] s[j]).path@
}

/// A key is in `files_map(s)` exactly when some entry carries it, and with
/// unique paths each entry's data is the value stored under its path.
proof fn lemma_files_map_props(s: Seq<StoredFile>)
    ensures
        forall|p: Seq<char>|
            files_map(s).contains_key(p) <==> (exists|i: int|
                0 <= i < s.len() && (#[trigger] s[i]).path@ == p),
        unique_paths(s) ==> forall|i: int|
            0 <= i < s.len() ==> files_map(s).contains_key((#[trigger] s[i]).path@)
                && files_map(s)[s[i].path@] == s[i].data@,
    decreases s.len(),
{
    if s.len() > 0 {
        let t = s.drop_last();
        lemma_files_map_props(t);
        assert(files_map(s) == files_map(t).insert(s.last().path@, s.last().data@));
        assert forall|p: Seq<char>| files_map(s).contains_key(p) implies (exists|i: int|
            0 <= i < s.len() && (#[trigger] s[i]).path@ == p) by {
            if p == s.last().path@ {
                assert(s[s.len() - 1].path@ == p);
            } else {
                assert(files_map(t).contains_key(p));
                let i = choose|i: int| 0 <= i < t.len() && (#[trigger] t[i]).path@ == p;
                assert(t[i] == s[i]);
                assert(s[i].path@ == p);
            }
        }
        assert forall|p: Seq<char>| (exists|i: int|
            0 <= i < s.len() && (#[trigger] s[i]).path@ == p) implies files_map(s).contains_key(
            p,
        ) by {
            let i = choose|i: int| 0 <= i < s.len() && (#[trigger] s[i]).path@ == p;
            if i < s.len() - 1 {
                assert(t[i].path@ == p);
            }
        }
        if unique_paths(s) {
            assert(unique_paths(t)) by {
                assert forall|i: int, j: int|
                    0 <= i < t.len() && 0 <= j < t.len() && i != j implies (#[trigger] t[i]).path@
                    != (#[trigger] t[j]).path@ by {
                    assert(s[i].path@ != s[j].path@);
                }
            }
            assert forall|i: int| 0 <= i < s.len() implies files_map(s).contains_key(
                (#[trigger] s[i]).path@,
            ) && files_map(s)[s[i].path@] == s[i].data@ by {
                if i < s.len() - 1 {
                    assert(s[i].path@ != s.last().path@);
                    assert(t[i].path@ == s[i].path@ && t[i].data@ == s[i].data@);
                }
            }
        }
    }
}

/// Removing one entry removes exactly its path from the map, when paths are
/// unique.
proof fn lemma_files_map_remove(s: Seq<StoredFile>, i: int)
    requires
        unique_paths(s),
        0 <= i < s.len(),
    ensures
        unique_paths(s.remove(i)),
        files_map(s.remove(i)) == files_map(s).remove(s[i].path@),
    decreases s.len(),
{
    let r = s.remove(i);
    assert forall|a: int, b: int| 0 <= a < r.len() && 0 <= b < r.len() && a != b implies (
    #[trigger] r[a]).path@ != (#[trigger] r[b]).path@ by {
        let a2: int = if a < i { a } else { a + 1 };
        let b2: int = if b < i { b } else { b + 1 };
        assert(r[a] == s[a2] && r[b] == s[b2]);
        assert(s[a2].path@ != s[b2].path@);
    }
    let t = s.drop_last();
    assert(unique_paths(t)) by {
        assert forall|a: int, b: int|
            0 <= a < t.len() && 0 <= b < t.len() && a != b implies (#[trigger] t[a]).path@ != (
            #[trigger] t[b]).path@ by {
            assert(s[a].path@ != s[b].path@);
        }
    }
    if i == s.len() - 1 {
        assert(r =~= t);
        lemma_files_map_props(t);
        assert(!files_map(t).contains_key(s[i].path@)) by {
            if exists|j: int| 0 <= j < t.len() && (#[trigger] t[j]).path@ == s[i].path@ {
                let j = choose|j: int| 0 <= j < t.len() && (#[trigger] t[j]).path@ == s[i].path@;
                assert(s[j].path@ == s[i].path@ && j != i);
            }
        }
        assert(files_map(s).remove(s[i].path@) =~= files_map(t));
    } else {
        lemma_files_map_remove(t, i);
        assert(r.drop_last() =~= t.remove(i));
        assert(r.last() == s.last());
        assert(files_map(r) == files_map(t.remove(i)).insert(s.last().path@, s.last().data@));
        assert(s[i].path@ != s.last().path@);
        assert(files_map(t).remove(s[i].path@).insert(s.last().path@, s.last().data@)
            =~= files_map(t).insert(s.last().path@, s.last().data@).remove(s[i].path@));
    }
}

/// Copies a byte vector.
fn clone_bytes(v: &Vec<u8>) -> (r: Vec<u8>)
    ensures
        r@ == v@,
{
    let mut r: Vec<u8> = Vec::new();
    let mut i: usize = 0;
    while i < v.len()
        invariant
            i <= v@.len(),
            r@ == v@.subrange(0, i as int),
        decreases v@.len() - i,
    {
        r.push(v[i]);
        proof {
            assert(r@ =~= v@.subrange(0, i + 1 as int));
        }
        i += 1;
    }
    proof {
        assert(r@ =~= v@);
    }
    r
}

/// A whole-file store with deterministic fault injection.
pub struct Disk {
    files: Vec<StoredFile>,
    /// When set, writing a file fails, as on a full or read-only volume.
    pub fail_writes: bool,
    /// When set, renaming a file fails.
    pub fail_renames: bool,
    /// When set, copying a file fails.
    pub fail_copies: bool,
}

impl Disk {
    /// The stored files, as a map from path to content.
    pub closed spec fn contents(self) -> Map<Seq<char>, Seq<u8>> {
        files_map(self.files@)
    }

    /// Well-formed: no path is stored twice.
    pub closed spec fn wf(self) -> bool {
        unique_paths(self.files@)
    }

    /// The fault switches, bundled for contracts that leave them unchanged.
    pub open spec fn faults(self) -> (bool, bool, bool) {
        (self.writes_failing(), self.renames_failing(), self.copies_failing())
    }

    /// Whether writes are failing.
    pub closed spec fn writes_failing(self) -> bool {
        self.fail_writes
    }

    /// Whether renames are failing.
    pub closed spec fn renames_failing(self) -> bool {
        self.fail_renames
    }

    /// Whether copies are failing.
    pub closed spec fn copies_failing(self) -> bool {
        self.fail_copies
    }

    /// An empty store with no faults armed.
    pub fn new() -> (d: Disk)
        ensures
            d.wf(),
            d.contents() == Map::<Seq<char>, Seq<u8>>::empty(),
            d.faults() == (false, false, false),
    {
        let d = Disk { files: Vec::new(), fail_writes: false, fail_renames: false, fail_copies: false };
        proof {
            assert(d.contents() =~= Map::<Seq<char>, Seq<u8>>::empty());
        }
        d
    }

    /// The index of the entry holding `path`, if one does.
    fn find_index(&self, path: &String) -> (r: Option<usize>)
        requires
            self.wf(),
        ensures
            match r {
                Some(i) => i < self.files@.len() && self.files@[i as int].path@ == path@
                    && self.contents().contains_key(path@) && self.contents()[path@]
                    == self.files@[i as int].data@,
                None => !self.contents().contains_key(path@),
            },
    {
        let n = self.files.len();
        let mut k: usize = 0;
        while k < n
            invariant
                n == self.files@.len(),
                k <= n,
                self.wf(),
                forall|j: int| 0 <= j < k ==> (#[trigger] self.files@[j]).path@ != path@,
            decreases n - k,
        {
            if self.files[k].path == *path {
                proof {
                    lemma_files_map_props(self.files@);
                }
                return Some(k);
            }
            k += 1;
        }
        proof {
            lemma_files_map_props(self.files@);
        }
        None
    }

    /// Whether a file is stored at `path`.
    pub fn exists_file(&self, path: &String) -> (r: bool)
        requires
            self.wf(),
        ensures
            r == self.contents().contains_key(path@),
    {
        self.find_index(path).is_some()
    }

    /// The content stored at `path`, if any.
    pub fn read_file(&self, path: &String) -> (r: Option<Vec<u8>>)
        requires
            self.wf(),
        ensures
            match r {
                Some(d) => self.contents().contains_key(path@) && d@ == self.contents()[path@],
                None => !self.contents().contains_key(path@),
            },
    {
        match self.find_index(path) {
            Some(i) => Some(clone_bytes(&self.files[i].data)),
            None => None,
        }
    }

    /// Deletes the file at `path`; deleting an absent file is not a fault.
    pub fn remove_file(&mut self, path: &String) -> (existed: bool)
        requires
            old(self).wf(),
        ensures
            final(self).wf(),
            final(self).faults() == old(self).faults(),
            existed == old(self).contents().contains_key(path@),
            final(self).contents() == old(self).contents().remove(path@),
    {
        match self.find_index(path) {
            Some(i) => {
                proof {
                    lemma_files_map_remove(self.files@, i as int);
                }
                self.files.remove(i);
                true
            },
            None => {
                proof {
                    assert(self.contents().remove(path@) =~= self.contents());
                }
                false
            },
        }
    }

    /// Stores `data` at `path`, regardless of the fault switches.
    fn put_entry(&mut self, path: &String, data: Vec<u8>)
        requires
            old(self).wf(),
        ensures
            final(self).wf(),
            final(self).faults() == old(self).faults(),
            final(self).contents() == old(self).contents().insert(path@, data@),
    {
        let ghost c0 = self.contents();
        self.remove_file(path);
        proof {
            lemma_files_map_props(self.files@);
        }
        let ghost s1 = self.files@;
        self.files.push(StoredFile { path: path.clone(), data });
        proof {
            let s2 = self.files@;
            assert(s2.drop_last() =~= s1);
            assert(files_map(s2) == files_map(s1).insert(path@, data@));
            assert forall|a: int, b: int|
                0 <= a < s2.len() && 0 <= b < s2.len() && a != b implies (#[trigger] s2[a]).path@
                != (#[trigger] s2[b]).path@ by {
                if a < s2.len() - 1 && b < s2.len() - 1 {
                    assert(s1[a].path@ != s1[b].path@);
                } else {
                    let k: int = if a < s2.len() - 1 { a } else { b };
                    assert(s1[k].path@ != path@);
                }
            }
            assert(self.contents() =~= c0.insert(path@, data@));
        }
    }

    /// Writes the whole file at `path`.  Fails, leaving the store unchanged,
    /// when writes are failing.
    pub fn write_file(&mut self, path: &String, data: &Vec<u8>) -> (ok: bool)
        requires
            old(self).wf(),
        ensures
            final(self).wf(),
            final(self).faults() == old(self).faults(),
            ok == !old(self).writes_failing(),
            ok ==> final(self).contents() == old(self).contents().insert(path@, data@),
            !ok ==> *final(self) == *old(self),
    {
        if self.fail_writes {
            return false;
        }
        self.put_entry(path, clone_bytes(data));
        true
    }

    /// Copies the file at `from` over the one at `to`.  Fails, leaving the
    /// store unchanged, when `from` is absent or copies are failing.
    pub fn copy_file(&mut self, from: &String, to: &String) -> (ok: bool)
        requires
            old(self).wf(),
        ensures
            final(self).wf(),
            final(self).faults() == old(self).faults(),
            ok == (!old(self).copies_failing() && old(self).contents().contains_key(from@)),
            ok ==> final(self).contents() == old(self).contents().insert(
                to@,
                old(self).contents()[from@],
            ),
            !ok ==> *final(self) == *old(self),
    {
        if self.fail_copies {
            return false;
        }
        match self.read_file(from) {
            Some(d) => {
                self.put_entry(to, d);
                true
            },
            None => false,
        }
    }

    /// Moves the file at `from` onto `to` in one step.  Fails, leaving the
    /// store unchanged, when `from` is absent or renames are failing.
    pub fn rename_file(&mut self, from: &String, to: &String) -> (ok: bool)
        requires
            old(self).wf(),
        ensures
            final(self).wf(),
            final(self).faults() == old(self).faults(),
            ok == (!old(self).renames_failing() && old(self).contents().contains_key(from@)),
            ok ==> final(self).contents() == old(self).contents().remove(from@).insert(
                to@,
                old(self).contents()[from@],
            ),
            !ok ==> *final(self) == *old(self),
    {
        if self.fail_renames {
            return false;
        }
        match self.find_index(from) {
            Some(i) => {
                proof {
                    lemma_files_map_remove(self.files@, i as int);
                }
                let entry = self.files.remove(i);
                self.put_entry(to, entry.data);
                true
            },
            None => false,
        }
    }
}

} // verus!
