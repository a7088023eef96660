//! Filesystem watchers: the events they report and the watchers themselves,
//! which in this build accept every registration and never report anything.
use vstd::prelude::*;
use crate::text::str_eq;

verus! {

/// Whether a watch covers a directory's subdirectories.
#[derive(Clone, Copy)]
pub enum RecursiveMode {
    Recursive,
    NonRecursive,
}

/// Which paths a watch reports.
#[derive(Clone)]
pub struct WatchFilter;

impl WatchFilter {
    pub fn accept_all() -> (f: Self) {
        WatchFilter
    }

    pub fn with_filter<F>(filter: F) -> (f: Self) {
        WatchFilter
    }
}

/// The paths that changed in a batch of filesystem events.
#[derive(Clone, Debug)]
pub struct BulkFilesystemWatcherEvent {
    pub added: Vec<String>,
    pub modified: Vec<String>,
    pub deleted: Vec<String>,
    pub moved: Vec<(String, String)>,
}

impl BulkFilesystemWatcherEvent {
    /// No path occurs twice in a list, and no path is moved twice: each list
    /// stands for a set of paths, and the moves for a map from old path to new.
    pub open spec fn well_formed(self) -> bool {
        &&& path_views(self.added@).no_duplicates()
        &&& path_views(self.modified@).no_duplicates()
        &&& path_views(self.deleted@).no_duplicates()
        &&& forall|i: int, j: int| 0 <= i < self.moved@.len() && 0 <= j < self.moved@.len() && i != j
            ==> #[trigger] self.moved@[i].0@ != #[trigger] self.moved@[j].0@
    }
}

impl Default for BulkFilesystemWatcherEvent {
    /// A batch with no changes.
    fn default() -> (e: Self)
        ensures
            e.added@.len() == 0,
            e.modified@.len() == 0,
            e.deleted@.len() == 0,
            e.moved@.len() == 0,
            e.well_formed(),
    {
        let e = BulkFilesystemWatcherEvent { added: Vec::new(), modified: Vec::new(), deleted: Vec::new(), moved: Vec::new() };
        proof {
            assert(path_views(e.added@) =~= Seq::<Seq<char>>::empty());
            assert(path_views(e.modified@) =~= Seq::<Seq<char>>::empty());
            assert(path_views(e.deleted@) =~= Seq::<Seq<char>>::empty());
        }
        e
    }
}

/// The paths of a list, as text.
pub open spec fn path_views(v: Seq<String>) -> Seq<Seq<char>> {
    v.map_values(|p: String| p@)
}

/// The elements of two sequences one after the other are those of either.
pub proof fn lemma_concat_to_set<A>(a: Seq<A>, b: Seq<A>)
    ensures
        (a + b).to_set() == a.to_set() + b.to_set(),
{
    broadcast use vstd::seq_lib::group_seq_properties;
    assert forall|x: A| (a + b).to_set().contains(x) == (a.to_set() + b.to_set()).contains(x) by {
        if (a + b).contains(x) {
            let i = choose|i: int| 0 <= i < (a + b).len() && (a + b)[i] == x;
            if i < a.len() {
                assert(a[i] == x);
            } else {
                assert(b[i - a.len()] == x);
            }
        }
        if a.contains(x) {
            let i = choose|i: int| 0 <= i < a.len() && a[i] == x;
            assert((a + b)[i] == x);
        }
        if b.contains(x) {
            let i = choose|i: int| 0 <= i < b.len() && b[i] == x;
            assert((a + b)[a.len() + i] == x);
        }
    }
    assert((a + b).to_set() =~= a.to_set() + b.to_set());
}

impl BulkFilesystemWatcherEvent {
    /// The added paths, then the modified ones.
    pub fn added_or_updated_iter(&self) -> (v: Vec<String>)
        ensures
            path_views(v@) == path_views(self.added@) + path_views(self.modified@),
    {
        let mut v: Vec<String> = Vec::new();
        let mut i: usize = 0;
        while i < self.added.len()
            invariant
                i <= self.added@.len(),
                path_views(v@) == path_views(self.added@.subrange(0, i as int)),
            decreases self.added@.len() - i,
        {
            let ghost before = v@;
            let c = self.added[i].clone();
            v.push(c);
            proof {
                assert(v@ == before.push(c));
                assert(path_views(v@) =~= path_views(before).push(c@));
                assert(path_views(self.added@.subrange(0, i + 1)) =~= path_views(self.added@.subrange(0, i as int)).push(self.added@[i as int]@));
            }
            i = i + 1;
        }
        let mut j: usize = 0;
        proof {
            assert(self.added@.subrange(0, self.added@.len() as int) =~= self.added@);
        }
        while j < self.modified.len()
            invariant
                j <= self.modified@.len(),
                path_views(v@) == path_views(self.added@) + path_views(self.modified@.subrange(0, j as int)),
            decreases self.modified@.len() - j,
        {
            let ghost before = v@;
            let c = self.modified[j].clone();
            v.push(c);
            proof {
                assert(v@ == before.push(c));
                assert(path_views(v@) =~= path_views(before).push(c@));
                assert(path_views(self.modified@.subrange(0, j + 1)) =~= path_views(self.modified@.subrange(0, j as int)).push(self.modified@[j as int]@));
                assert(path_views(v@) =~= path_views(self.added@) + path_views(self.modified@.subrange(0, j + 1)));
            }
            j = j + 1;
        }
        proof {
            assert(self.modified@.subrange(0, self.modified@.len() as int) =~= self.modified@);
        }
        v
    }

    /// The paths added or modified, each once.
    pub fn added_or_updated_set(&self) -> (v: Vec<String>)
        ensures
            path_views(v@).to_set() == path_views(self.added@).to_set() + path_views(self.modified@).to_set(),
            path_views(v@).no_duplicates(),
    {
        let all = self.added_or_updated_iter();
        let ghost src = path_views(all@);
        let mut out: Vec<String> = Vec::new();
        let mut i: usize = 0;
        while i < all.len()
            invariant
                i <= all@.len(),
                src == path_views(all@),
                path_views(out@).no_duplicates(),
                path_views(out@).to_set() == src.subrange(0, i as int).to_set(),
            decreases all@.len() - i,
        {
            let mut seen = false;
            let mut k: usize = 0;
            while k < out.len()
                invariant
                    k <= out@.len(),
                    i < all@.len(),
                    seen == exists|m: int| 0 <= m < k && #[trigger] out@[m]@ == all@[i as int]@,
                decreases out@.len() - k,
            {
                if str_eq(out[k].as_str(), all[i].as_str()) {
                    seen = true;
                }
                k = k + 1;
            }
            let ghost before = path_views(out@);
            proof {
                assert(src.subrange(0, i + 1) =~= src.subrange(0, i as int).push(src[i as int]));
                src.subrange(0, i as int).lemma_push_to_set_commute(src[i as int]);
                assert(src[i as int] == all@[i as int]@);
            }
            if !seen {
                let ghost outb = out@;
                let c = all[i].clone();
                out.push(c);
                proof {
                    assert(out@ == outb.push(c));
                    assert(path_views(out@) =~= before.push(src[i as int]));
                    before.lemma_push_to_set_commute(src[i as int]);
                    assert forall|m: int| 0 <= m < before.len() implies before[m] != src[i as int] by {
                        assert(before[m] == out@[m]@);
                    }
                    assert(path_views(out@).no_duplicates()) by {
                        assert forall|a: int, b: int| 0 <= a < path_views(out@).len() && 0 <= b < path_views(out@).len() && a != b
                            implies path_views(out@)[a] != path_views(out@)[b] by {
                            if a < before.len() && b < before.len() {
                            } else if a == before.len() {
                                assert(path_views(out@)[b] == before[b]);
                            } else {
                                assert(path_views(out@)[a] == before[a]);
                            }
                        }
                    }
                }
            } else {
                proof {
                    let m = choose|m: int| 0 <= m < out@.len() && #[trigger] out@[m]@ == all@[i as int]@;
                    assert(before[m] == src[i as int]);
                    assert(before.to_set().contains(src[i as int]));
                    assert(before.to_set().insert(src[i as int]) =~= before.to_set());
                }
            }
            i = i + 1;
        }
        proof {
            assert(src.subrange(0, src.len() as int) =~= src);
            lemma_concat_to_set(path_views(self.added@), path_views(self.modified@));
        }
        out
    }
}

/// Watches paths for changes, in batches; this build watches nothing.
pub struct BulkFilesystemWatcher;

impl BulkFilesystemWatcher {
    pub fn new(debounce_millis: u64) -> (w: Self) {
        BulkFilesystemWatcher
    }

    pub fn new_for_test() -> (w: Self) {
        BulkFilesystemWatcher
    }

    /// Stops watching a path; always succeeds.
    pub fn unregister_path(&mut self, path: &str) -> (r: Result<(), String>)
        ensures
            r is Ok,
    {
        Ok(())
    }

    /// Starts watching a path; always succeeds.
    pub fn register_path(&mut self, path: &str, watch_filter: WatchFilter, recursive_mode: RecursiveMode) -> (r: Result<(), String>)
        ensures
            r is Ok,
    {
        Ok(())
    }
}

/// What the home directory watcher reports.
pub enum HomeDirectoryWatcherEvent {
    HomeFilesChanged(BulkFilesystemWatcherEvent),
}

/// Watches the home directory; this build watches nothing.
pub struct HomeDirectoryWatcher;

impl HomeDirectoryWatcher {
    pub fn new(home_dir: String) -> (w: Self) {
        HomeDirectoryWatcher
    }

    pub fn new_for_test() -> (w: Self) {
        HomeDirectoryWatcher
    }
}

} // verus!
