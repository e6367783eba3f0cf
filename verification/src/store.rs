//! The document store: one canonical document plus a directory of
//! timestamp-named snapshots. `MemStore` is the verified in-memory store
//! the protocol and the tests run against; its `StoreView` is the
//! mathematical model every contract speaks of. The running server backs
//! the same protocol with the filesystem instead.

use vstd::prelude::*;

verus! {

/// Mathematical image of the store: the document bytes (or nothing, when
/// the document path is unreadable), whether the backup directory exists,
/// and the snapshots by name. A name written twice maps to the later
/// content: the later write wins.
pub struct StoreView {
    pub document: Option<Seq<u8>>,
    pub dir_exists: bool,
    pub snapshots: Map<Seq<char>, Seq<u8>>,
}

/// In-memory document store. Snapshots are kept in write order; the view
/// collapses them to a map in which the later write of a name wins.
pub struct MemStore {
    pub document: Option<Vec<u8>>,
    pub dir_exists: bool,
    pub snapshots: Vec<(String, Vec<u8>)>,
}

/// The snapshot map of a write-ordered snapshot log: later entries win.
pub open spec fn snaps_map(s: Seq<(String, Vec<u8>)>) -> Map<Seq<char>, Seq<u8>>
    decreases s.len(),
{
    if s.len() == 0 {
        Map::empty()
    } else {
        snaps_map(s.drop_last()).insert(s.last().0@, s.last().1@)
    }
}

/// Image of an optionally-present document.
pub open spec fn doc_view(d: Option<Vec<u8>>) -> Option<Seq<u8>> {
    match d {
        Some(b) => Some(b@),
        None => None,
    }
}

impl View for MemStore {
    type V = StoreView;

    open spec fn view(&self) -> StoreView {
        StoreView {
            document: doc_view(self.document),
            dir_exists: self.dir_exists,
            snapshots: snaps_map(self.snapshots@),
        }
    }
}

/// The error description the store reports when a path is absent.
pub open spec fn missing_file_msg() -> Seq<char> {
    "no such file or directory"@
}

/// What `read` returns, as a function of the store.
pub open spec fn read_spec(s: StoreView) -> Result<Seq<u8>, Seq<char>> {
    match s.document {
        Some(d) => Ok(d),
        None => Err(missing_file_msg()),
    }
}

/// The store after a successful snapshot write: one more snapshot, the
/// document untouched.
pub open spec fn write_snapshot_ok(s: StoreView, name: Seq<char>, content: Seq<u8>) -> StoreView {
    StoreView { snapshots: s.snapshots.insert(name, content), ..s }
}

/// The store after a successful promotion: the named snapshot's content
/// copied over the document, the snapshots untouched.
pub open spec fn promote_ok(s: StoreView, name: Seq<char>) -> StoreView {
    StoreView { document: Some(s.snapshots[name]), ..s }
}

proof fn lemma_snaps_map_push(s: Seq<(String, Vec<u8>)>, e: (String, Vec<u8>))
    ensures
        snaps_map(s.push(e)) == snaps_map(s).insert(e.0@, e.1@),
{
    let t = s.push(e);
    assert(t.drop_last() =~= s);
    assert(t.last() == e);
}

proof fn lemma_snaps_map_found(s: Seq<(String, Vec<u8>)>, i: int, k: Seq<char>)
    requires
        0 <= i < s.len(),
        s[i].0@ == k,
        forall|j: int| i < j < s.len() ==> s[j].0@ != k,
    ensures
        snaps_map(s).contains_key(k),
        snaps_map(s)[k] == s[i].1@,
    decreases s.len(),
{
    if i == s.len() - 1 {
        assert(s.last() == s[i]);
    } else {
        let t = s.drop_last();
        assert(forall|j: int| i < j < t.len() ==> t[j].0@ != k);
        lemma_snaps_map_found(t, i, k);
        assert(s.last().0@ != k);
    }
}

proof fn lemma_snaps_map_absent(s: Seq<(String, Vec<u8>)>, k: Seq<char>)
    requires
        forall|j: int| 0 <= j < s.len() ==> s[j].0@ != k,
    ensures
        !snaps_map(s).contains_key(k),
    decreases s.len(),
{
    if s.len() > 0 {
        lemma_snaps_map_absent(s.drop_last(), k);
    }
}

fn clone_bytes(b: &Vec<u8>) -> (r: Vec<u8>)
    ensures
        r@ == b@,
{
    let r = b.clone();
    proof {
        assert(forall|i: int| 0 <= i < b@.len() ==> r@[i] == b@[i]);
        assert(r@ =~= b@);
    }
    r
}

impl MemStore {
    /// A fresh store with no snapshots yet.
    pub fn new(document: Option<Vec<u8>>, dir_exists: bool) -> (s: MemStore)
        ensures
            s@ == (StoreView {
                document: doc_view(document),
                dir_exists: dir_exists,
                snapshots: Map::<Seq<char>, Seq<u8>>::empty(),
            }),
    {
        MemStore { document, dir_exists, snapshots: Vec::new() }
    }

    /// Reads the full current document, or reports why it cannot.
    pub fn read(&self) -> (r: Result<Vec<u8>, String>)
        ensures
            crate::http::read_view(r) == read_spec(self@),
    {
        match &self.document {
            Some(d) => Ok(clone_bytes(d)),
            None => Err(String::from_str("no such file or directory")),
        }
    }

    /// Creates the snapshot `name` with the given content. Fails, leaving
    /// the store untouched, exactly when the backup directory is gone.
    pub fn write_snapshot(&mut self, name: &str, content: Vec<u8>) -> (r: Result<(), String>)
        ensures
            old(self)@.dir_exists ==> r is Ok && final(self)@ == write_snapshot_ok(
                old(self)@,
                name@,
                content@,
            ),
            !old(self)@.dir_exists ==> (r matches Err(e) && e@ == missing_file_msg())
                && final(self)@ == old(self)@,
    {
        if self.dir_exists {
            let ghost before = self.snapshots@;
            let entry = (name.to_owned(), content);
            proof {
                lemma_snaps_map_push(before, entry);
            }
            self.snapshots.push(entry);
            Ok(())
        } else {
            Err(String::from_str("no such file or directory"))
        }
    }

    /// The position of the latest snapshot written under `name`, if any.
    fn find_last(&self, name: &str) -> (r: Option<usize>)
        ensures
            r matches Some(i) ==> i < self.snapshots@.len()
                && self@.snapshots.contains_key(name@)
                && self@.snapshots[name@] == self.snapshots@[i as int].1@,
            r is None ==> !self@.snapshots.contains_key(name@),
    {
        let n = self.snapshots.len();
        let mut i = n;
        while i > 0
            invariant
                i <= n,
                n == self.snapshots.len(),
                forall|j: int| i <= j < n ==> self.snapshots@[j].0@ != name@,
            decreases i,
        {
            i = i - 1;
            let hit = str_eq(self.snapshots[i].0.as_str(), name);
            if hit {
                proof {
                    lemma_snaps_map_found(self.snapshots@, i as int, name@);
                }
                return Some(i);
            }
        }
        proof {
            lemma_snaps_map_absent(self.snapshots@, name@);
        }
        None
    }

    /// Copies the named snapshot's content over the document. Fails,
    /// leaving the store untouched, exactly when no such snapshot exists.
    pub fn promote(&mut self, name: &str) -> (r: Result<(), String>)
        ensures
            old(self)@.snapshots.contains_key(name@) ==> r is Ok && final(self)@ == promote_ok(
                old(self)@,
                name@,
            ),
            !old(self)@.snapshots.contains_key(name@) ==> (r matches Err(e) && e@
                == missing_file_msg()) && final(self)@ == old(self)@,
    {
        match self.find_last(name) {
            Some(i) => {
                let content = clone_bytes(&self.snapshots[i].1);
                self.document = Some(content);
                Ok(())
            },
            None => Err(String::from_str("no such file or directory")),
        }
    }
}

/// String equality on the character sequences.
fn str_eq(a: &str, b: &str) -> (r: bool)
    ensures
        r == (a@ == b@),
{
    a.to_owned().eq(&b.to_owned())
}

} // verus!
