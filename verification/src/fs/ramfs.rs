//! `RamFS`: a memory-backed file system, one entry per path.
use vstd::prelude::*;
use vstd::string::StringExecFns;
use crate::fs::FileSystem;
use crate::safe_alloc::str_eq;

verus! {

/// The paths of `s` are pairwise distinct.
pub open spec fn distinct_paths(s: Seq<(String, Vec<u8>)>) -> bool {
    forall|i: int, j: int| 0 <= i < j < s.len() ==> (#[trigger] s[i]).0@ != (#[trigger] s[j]).0@
}

/// The files of a list of entries: each path mapped to its contents.
pub open spec fn entries_map(s: Seq<(String, Vec<u8>)>) -> Map<Seq<char>, Seq<u8>>
    decreases s.len(),
{
    if s.len() == 0 {
        Map::empty()
    } else {
        entries_map(s.drop_last()).insert(s.last().0@, s.last().1@)
    }
}

/// A path of the entries is a file, with that entry's contents.
proof fn lemma_entry_in_map(s: Seq<(String, Vec<u8>)>, i: int)
    requires
        distinct_paths(s),
        0 <= i < s.len(),
    ensures
        entries_map(s).contains_key(s[i].0@),
        entries_map(s)[s[i].0@] == s[i].1@,
    decreases s.len(),
{
    if i < s.len() - 1 {
        let t = s.drop_last();
        assert(t[i] == s[i]);
        assert(distinct_paths(t)) by {
            assert forall|a: int, b: int| 0 <= a < b < t.len() implies (#[trigger] t[a]).0@
                != (#[trigger] t[b]).0@ by {
                assert(t[a] == s[a] && t[b] == s[b]);
            }
        }
        lemma_entry_in_map(t, i);
        assert(s[i].0@ != s[s.len() - 1].0@);
    }
}

/// A path that no entry has is no file.
proof fn lemma_absent_from_map(s: Seq<(String, Vec<u8>)>, k: Seq<char>)
    requires
        forall|i: int| 0 <= i < s.len() ==> (#[trigger] s[i]).0@ != k,
    ensures
        !entries_map(s).contains_key(k),
    decreases s.len(),
{
    if s.len() > 0 {
        let t = s.drop_last();
        assert forall|i: int| 0 <= i < t.len() implies (#[trigger] t[i]).0@ != k by {
            assert(t[i] == s[i]);
        }
        lemma_absent_from_map(t, k);
        assert(s[s.len() - 1].0@ != k);
    }
}

/// Replacing the contents of an entry updates that one file.
proof fn lemma_update_map(s: Seq<(String, Vec<u8>)>, i: int, e: (String, Vec<u8>))
    requires
        distinct_paths(s),
        0 <= i < s.len(),
        e.0@ == s[i].0@,
    ensures
        entries_map(s.update(i, e)) == entries_map(s).insert(e.0@, e.1@),
    decreases s.len(),
{
    let u = s.update(i, e);
    if i == s.len() - 1 {
        assert(u.drop_last() =~= s.drop_last());
        assert(entries_map(u) =~= entries_map(s).insert(e.0@, e.1@));
    } else {
        let t = s.drop_last();
        assert(distinct_paths(t)) by {
            assert forall|a: int, b: int| 0 <= a < b < t.len() implies (#[trigger] t[a]).0@
                != (#[trigger] t[b]).0@ by {
                assert(t[a] == s[a] && t[b] == s[b]);
            }
        }
        assert(t[i] == s[i]);
        lemma_update_map(t, i, e);
        assert(u.drop_last() =~= t.update(i, e));
        assert(u.last() == s.last());
        assert(s[i].0@ != s[s.len() - 1].0@);
        assert(entries_map(u) =~= entries_map(s).insert(e.0@, e.1@));
    }
}

/// A memory-backed file system.
pub struct RamFS {
    files: Vec<(String, Vec<u8>)>,
}

impl RamFS {
    /// No two entries share a path.
    #[verifier::type_invariant]
    closed spec fn paths_distinct(self) -> bool {
        distinct_paths(self.files@)
    }

    /// The files held: each path mapped to its contents.
    pub closed spec fn files(self) -> Map<Seq<char>, Seq<u8>> {
        entries_map(self.files@)
    }

    /// An empty file system.
    pub fn new() -> (fs: Self)
        ensures
            fs.files() == Map::<Seq<char>, Seq<u8>>::empty(),
    {
        RamFS { files: Vec::new() }
    }

    /// The position of the entry for `path`, if there is one.
    fn position(&self, path: &str) -> (r: Option<usize>)
        ensures
            r matches Some(i) ==> i < self.files@.len() && self.files@[i as int].0@ == path@,
            r is None ==> forall|i: int| 0 <= i < self.files@.len() ==> (#[trigger] self.files@[i]).0@
                != path@,
    {
        let mut i: usize = 0;
        while i < self.files.len()
            invariant
                i <= self.files@.len(),
                forall|k: int| 0 <= k < i ==> (#[trigger] self.files@[k]).0@ != path@,
            decreases self.files@.len() - i,
        {
            if str_eq(self.files[i].0.as_str(), path) {
                return Some(i);
            }
            i += 1;
        }
        None
    }
}

impl Default for RamFS {
    fn default() -> (fs: Self)
        ensures
            fs.files() == Map::<Seq<char>, Seq<u8>>::empty(),
    {
        Self::new()
    }
}

fn copy_vec(src: &Vec<u8>) -> (v: Vec<u8>)
    ensures
        v@ == src@,
{
    let mut v: Vec<u8> = Vec::with_capacity(src.len());
    let mut i: usize = 0;
    while i < src.len()
        invariant
            i <= src@.len(),
            v@ == src@.subrange(0, i as int),
        decreases src@.len() - i,
    {
        v.push(src[i]);
        i += 1;
    }
    assert(v@ =~= src@);
    v
}

impl FileSystem for RamFS {
    /// The contents of the file at `path`, or `None` when there is none.
    fn read(&self, path: &str) -> (r: Option<Vec<u8>>)
        ensures
            self.files().contains_key(path@) ==> (r matches Some(d) && d@ == self.files()[path@]),
            !self.files().contains_key(path@) ==> r is None,
    {
        proof {
            use_type_invariant(self);
        }
        match self.position(path) {
            Some(i) => {
                proof {
                    lemma_entry_in_map(self.files@, i as int);
                }
                Some(copy_vec(&self.files[i].1))
            },
            None => {
                proof {
                    lemma_absent_from_map(self.files@, path@);
                }
                None
            },
        }
    }

    /// Stores `data` as the file at `path`, replacing what was there; always succeeds.
    fn write(&mut self, path: &str, data: Vec<u8>) -> (ok: bool)
        ensures
            ok,
            final(self).files() == old(self).files().insert(path@, data@),
    {
        proof {
            use_type_invariant(&*self);
        }
        let pos = self.position(path);
        let mut files: Vec<(String, Vec<u8>)> = Vec::new();
        std::mem::swap(&mut files, &mut self.files);
        let entry = (String::from_str(path), data);
        match pos {
            Some(i) => {
                proof {
                    lemma_update_map(files@, i as int, entry);
                }
                files.set(i, entry);
                assert(distinct_paths(files@)) by {
                    assert forall|a: int, b: int| 0 <= a < b < files@.len() implies (
                    #[trigger] files@[a]).0@ != (#[trigger] files@[b]).0@ by {
                        assert(old(self).files@[a].0@ == files@[a].0@);
                        assert(old(self).files@[b].0@ == files@[b].0@);
                    }
                }
            },
            None => {
                let ghost before = files@;
                files.push(entry);
                assert(files@.drop_last() =~= before);
                assert(distinct_paths(files@)) by {
                    assert forall|a: int, b: int| 0 <= a < b < files@.len() implies (
                    #[trigger] files@[a]).0@ != (#[trigger] files@[b]).0@ by {
                        if b < before.len() {
                            assert(files@[a] == before[a] && files@[b] == before[b]);
                        } else {
                            assert(files@[a] == before[a]);
                        }
                    }
                }
            },
        }
        self.files = files;
        true
    }
}

/// A read gives back what the last write to the same path stored: in the
/// state that `write(path, data)` leaves, `read(path)` finds `data`.
pub proof fn lemma_read_after_write(before: RamFS, after: RamFS, path: Seq<char>, data: Seq<u8>)
    requires
        after.files() == before.files().insert(path, data),
    ensures
        after.files().contains_key(path),
        after.files()[path] == data,
{
}

/// A write leaves every other path as it was: present or absent, with the
/// same contents.
pub proof fn lemma_write_keeps_other_paths(
    before: RamFS,
    after: RamFS,
    path: Seq<char>,
    data: Seq<u8>,
    other: Seq<char>,
)
    requires
        after.files() == before.files().insert(path, data),
        other != path,
    ensures
        after.files().contains_key(other) == before.files().contains_key(other),
        before.files().contains_key(other) ==> after.files()[other] == before.files()[other],
{
}

} // verus!
