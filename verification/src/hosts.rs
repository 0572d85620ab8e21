//! Host configurations, kept per file until the file changes on disk.
use crate::keys::host_path;
use crate::paths::{same_components, split_components};
use vstd::prelude::*;

verus! {

/// A point in calendar time, as the file system stamps it.
#[derive(Debug, Clone, Copy, PartialEq, Eq, Structural)]
pub struct FileTime {
    /// Seconds since 1970, negative before.
    pub secs: i64,
    pub nanos: u32,
}

/// By what a changed file is told from the one that was read.
#[derive(Debug, Clone, Copy, PartialEq, Eq, Structural)]
pub struct Stamp {
    /// When it was last written, where the file system tells.
    pub modified: Option<FileTime>,
    pub len: u64,
}

/// One host file that was read.
struct HostEntry<C> {
    /// The components of its path.
    path: Vec<Vec<u8>>,
    stamp: Stamp,
    config: C,
}

impl<C> HostEntry<C> {
    spec fn key(&self) -> Seq<Seq<u8>> {
        crate::paths::byte_views(self.path@)
    }
}

/// The host files that were read, each with its configuration.
pub struct HostCache<C> {
    entries: Vec<HostEntry<C>>,
}

/// How a host configuration is to be had.
#[derive(Debug, Clone, Copy, PartialEq, Eq, Structural)]
pub enum HostConfigStep {
    /// There is no such file: the configuration is empty.
    Empty,
    /// The file is as it was when it was read: take what is kept.
    Cached,
    /// Parse the file and store what it holds.
    Parse,
}

/// The components of the path to the host file of a node.
pub open spec fn host_key(confbase: Seq<u8>, name: Seq<u8>) -> Seq<Seq<u8>> {
    crate::paths::components(crate::keys::host_file(confbase, name))
}

fn host_components(confbase: &[u8], name: &[u8]) -> (r: Vec<Vec<u8>>)
    ensures
        crate::paths::byte_views(r@) == host_key(confbase@, name@),
{
    split_components(host_path(confbase, name).as_slice())
}

/// How a host configuration is to be had from what is kept, given the stamp
/// that its file has now.
pub open spec fn served<C>(
    kept: Map<Seq<Seq<u8>>, (Stamp, C)>,
    path: Seq<Seq<u8>>,
    stamp: Option<Stamp>,
) -> HostConfigStep {
    match stamp {
        None => HostConfigStep::Empty,
        Some(now) => if kept.dom().contains(path) && kept[path].0 == now {
            HostConfigStep::Cached
        } else {
            HostConfigStep::Parse
        },
    }
}

/// The configuration that is kept for a path.
pub open spec fn kept_config<C>(
    kept: Map<Seq<Seq<u8>>, (Stamp, C)>,
    path: Seq<Seq<u8>>,
) -> Option<C> {
    if kept.dom().contains(path) {
        Some(kept[path].1)
    } else {
        None
    }
}

/// What is kept once a host file was asked for: a file that is gone is
/// forgotten.
pub open spec fn kept_after_read<C>(
    kept: Map<Seq<Seq<u8>>, (Stamp, C)>,
    path: Seq<Seq<u8>>,
    stamp: Option<Stamp>,
) -> Map<Seq<Seq<u8>>, (Stamp, C)> {
    if stamp is None {
        kept.remove(path)
    } else {
        kept
    }
}

/// What is kept once a host file was parsed: one that could not be counts as
/// empty.
pub open spec fn kept_after_store<C>(
    kept: Map<Seq<Seq<u8>>, (Stamp, C)>,
    path: Seq<Seq<u8>>,
    stamp: Stamp,
    parsed: Option<C>,
    empty: C,
) -> Map<Seq<Seq<u8>>, (Stamp, C)> {
    kept.insert(
        path,
        (
            stamp,
            match parsed {
                Some(config) => config,
                None => empty,
            },
        ),
    )
}

impl<C> View for HostCache<C> {
    type V = Map<Seq<Seq<u8>>, (Stamp, C)>;

    /// What is kept, by the components of the path: two spellings of one
    /// path name the same file.
    closed spec fn view(&self) -> Map<Seq<Seq<u8>>, (Stamp, C)> {
        Map::new(
            |path: Seq<Seq<u8>>| self.holds(path),
            |path: Seq<Seq<u8>>|
                {
                    let i = self.index_of(path);
                    (self.entries@[i].stamp, self.entries@[i].config)
                },
        )
    }
}

impl<C> HostCache<C> {
    spec fn holds_at(&self, path: Seq<Seq<u8>>, i: int) -> bool {
        0 <= i < self.entries@.len() && self.entries@[i].key() == path
    }

    spec fn holds(&self, path: Seq<Seq<u8>>) -> bool {
        exists|i: int| self.holds_at(path, i)
    }

    spec fn index_of(&self, path: Seq<Seq<u8>>) -> int {
        choose|i: int| self.holds_at(path, i)
    }

    /// No path is kept twice.
    pub closed spec fn wf(&self) -> bool {
        forall|i: int, j: int|
            0 <= i < j < self.entries@.len() ==> self.entries@[i].key() != self.entries@[j].key()
    }

    /// The entry at `i` is what is kept for its path.
    proof fn lemma_entry(&self, path: Seq<Seq<u8>>, i: int)
        requires
            self.wf(),
            self.holds_at(path, i),
        ensures
            self@.dom().contains(path),
            self@[path] == (self.entries@[i].stamp, self.entries@[i].config),
    {
        let j = self.index_of(path);
        assert(self.holds_at(path, j));
        assert(i == j);
    }

    /// An empty cache.
    pub fn new() -> (r: HostCache<C>)
        ensures
            r.wf(),
            r@ == Map::<Seq<Seq<u8>>, (Stamp, C)>::empty(),
    {
        let r: HostCache<C> = HostCache { entries: Vec::new() };
        assert(r@ =~= Map::<Seq<Seq<u8>>, (Stamp, C)>::empty());
        r
    }

    fn position(&self, path: &Vec<Vec<u8>>) -> (r: Option<usize>)
        ensures
            r is Some ==> self.holds_at(
                crate::paths::byte_views(path@),
                r->Some_0 as int,
            ),
            r is None ==> !self.holds(crate::paths::byte_views(path@)),
    {
        let mut i: usize = 0;
        while i < self.entries.len()
            invariant
                i <= self.entries@.len(),
                forall|j: int|
                    0 <= j < i ==> self.entries@[j].key() != crate::paths::byte_views(path@),
            decreases self.entries@.len() - i,
        {
            if same_components(&self.entries[i].path, path) {
                return Some(i);
            }
            i = i + 1;
        }
        None
    }

    /// Forgets the entry at `i`.
    fn forget(&mut self, i: usize)
        requires
            old(self).wf(),
            i < old(self).entries@.len(),
        ensures
            final(self).wf(),
            final(self)@ == old(self)@.remove(old(self).entries@[i as int].key()),
            !final(self).holds(old(self).entries@[i as int].key()),
    {
        let ghost before = *self;
        let ghost gone = self.entries@[i as int].key();
        self.entries.remove(i);
        proof {
            let after = *self;
            assert forall|j: int| 0 <= j < after.entries@.len() implies after.entries@[j]
                == before.entries@[if j < i { j } else { j + 1 }] by {}
            assert forall|path: Seq<Seq<u8>>| #[trigger]
                after@.dom().contains(path) == before@.remove(gone).dom().contains(path) by {
                if after.holds(path) {
                    let j = after.index_of(path);
                    assert(after.holds_at(path, j));
                    assert(before.holds_at(path, if j < i { j } else { j + 1 }));
                }
                if before.holds(path) && path != gone {
                    let k = before.index_of(path);
                    assert(before.holds_at(path, k));
                    assert(after.holds_at(path, if k < i { k } else { k - 1 }));
                }
            }
            assert forall|path: Seq<Seq<u8>>| #[trigger] after@.dom().contains(path) implies after@[path]
                == before@.remove(gone)[path] by {
                let j = after.index_of(path);
                assert(after.holds_at(path, j));
                after.lemma_entry(path, j);
                before.lemma_entry(path, if j < i { j } else { j + 1 });
            }
            assert(after@ =~= before@.remove(gone));
            assert(!after@.dom().contains(gone));
        }
    }

    /// How the configuration of the node `name` is to be had, given the
    /// stamp of its host file if there is one. A file that is gone is
    /// forgotten.
    pub fn read_host_config(&mut self, confbase: &[u8], name: &[u8], stamp: Option<Stamp>) -> (r:
        HostConfigStep)
        requires
            old(self).wf(),
        ensures
            final(self).wf(),
            ({
                let path = host_key(confbase@, name@);
                &&& r == served(old(self)@, path, stamp)
                &&& final(self)@ == kept_after_read(old(self)@, path, stamp)
            }),
    {
        let path: Vec<Vec<u8>> = host_components(confbase, name);
        let ghost key = crate::paths::byte_views(path@);
        let found: Option<usize> = self.position(&path);
        proof {
            if found is Some {
                self.lemma_entry(key, found->Some_0 as int);
            }
        }
        match stamp {
            None => {
                match found {
                    Some(i) => self.forget(i),
                    None => {
                        assert(self@.remove(key) =~= self@);
                    },
                }
                HostConfigStep::Empty
            },
            Some(now) => match found {
                Some(i) => if self.entries[i].stamp == now {
                    HostConfigStep::Cached
                } else {
                    HostConfigStep::Parse
                },
                None => HostConfigStep::Parse,
            },
        }
    }

    /// What is kept for the node `name`.
    pub fn cached(&self, confbase: &[u8], name: &[u8]) -> (r: Option<&C>)
        requires
            self.wf(),
        ensures
            match r {
                Some(config) => kept_config(self@, host_key(confbase@, name@)) == Some(*config),
                None => kept_config(self@, host_key(confbase@, name@)) is None,
            },
    {
        let path: Vec<Vec<u8>> = host_components(confbase, name);
        let ghost key = crate::paths::byte_views(path@);
        match self.position(&path) {
            Some(i) => {
                proof {
                    self.lemma_entry(key, i as int);
                }
                Some(&self.entries[i].config)
            },
            None => None,
        }
    }

    /// Keeps what the host file of `name` held when it had that stamp. A file
    /// that could not be parsed counts as empty.
    pub fn store(
        &mut self,
        confbase: &[u8],
        name: &[u8],
        stamp: Stamp,
        parsed: Option<C>,
        empty: C,
    )
        requires
            old(self).wf(),
        ensures
            final(self).wf(),
            final(self)@ == kept_after_store(
                old(self)@,
                host_key(confbase@, name@),
                stamp,
                parsed,
                empty,
            ),
    {
        let path: Vec<Vec<u8>> = host_components(confbase, name);
        let ghost key = crate::paths::byte_views(path@);
        let config: C = match parsed {
            Some(config) => config,
            None => empty,
        };
        let ghost start = *self;
        match self.position(&path) {
            Some(i) => self.forget(i),
            None => {
                assert(self@.remove(key) =~= self@);
            },
        }
        let ghost before = *self;
        let ghost at = key;
        let ghost value = (stamp, config);
        self.entries.push(HostEntry { path, stamp, config });
        proof {
            let after = *self;
            let last = before.entries@.len() as int;
            assert forall|j: int| 0 <= j < last implies after.entries@[j]
                == before.entries@[j] by {}
            assert forall|i: int, j: int| 0 <= i < j < after.entries@.len() implies
                after.entries@[i].key() != after.entries@[j].key() by {
                if j == last {
                    if before.entries@[i].key() == at {
                        assert(before.holds_at(at, i));
                    }
                }
            }
            assert(after.holds_at(at, last));
            assert forall|path: Seq<Seq<u8>>| #[trigger]
                after@.dom().contains(path) == before@.insert(at, value).dom().contains(path) by {
                if after.holds(path) {
                    let j = after.index_of(path);
                    assert(after.holds_at(path, j));
                    if j < last {
                        assert(before.holds_at(path, j));
                    }
                }
                if before.holds(path) {
                    let k = before.index_of(path);
                    assert(before.holds_at(path, k));
                    assert(after.holds_at(path, k));
                }
            }
            assert forall|path: Seq<Seq<u8>>| #[trigger] after@.dom().contains(path) implies after@[path]
                == before@.insert(at, value)[path] by {
                let j = after.index_of(path);
                assert(after.holds_at(path, j));
                after.lemma_entry(path, j);
                if j < last {
                    before.lemma_entry(path, j);
                }
            }
            assert(after@ =~= before@.insert(at, value));
            assert(before@.insert(at, value) =~= start@.insert(at, value));
        }
    }
}

/// What was stored for a host file is served as long as the file keeps its
/// stamp. A changed file is parsed again, and one that is gone is empty, now
/// and when it comes back.
pub proof fn law_cache_follows_the_file<C>(
    kept: Map<Seq<Seq<u8>>, (Stamp, C)>,
    path: Seq<Seq<u8>>,
    stamp: Stamp,
    config: C,
    later: Stamp,
)
    ensures
        served(kept.insert(path, (stamp, config)), path, Some(later)) == (if later == stamp {
            HostConfigStep::Cached
        } else {
            HostConfigStep::Parse
        }),
        kept.insert(path, (stamp, config))[path].1 == config,
        served(kept, path, None) == HostConfigStep::Empty,
        served(kept.remove(path), path, Some(later)) == HostConfigStep::Parse,
{
}

/// Host files of two nodes are two files, so what happens to one leaves the
/// other as it was. Names that are absolute paths are left out, and names
/// that spell the same path, such as `a` and `./a`.
pub proof fn law_hosts_are_kept_apart<C>(
    kept: Map<Seq<Seq<u8>>, (Stamp, C)>,
    confbase: Seq<u8>,
    name: Seq<u8>,
    other: Seq<u8>,
    stamp: Stamp,
    config: C,
    seen: Option<Stamp>,
)
    requires
        crate::paths::names(name) != crate::paths::names(other),
        name.len() == 0 || name[0] != crate::paths::SLASH,
        other.len() == 0 || other[0] != crate::paths::SLASH,
    ensures
        host_key(confbase, name) != host_key(confbase, other),
        served(
            kept.insert(host_key(confbase, name), (stamp, config)),
            host_key(confbase, other),
            seen,
        ) == served(kept, host_key(confbase, other), seen),
        served(kept.remove(host_key(confbase, name)), host_key(confbase, other), seen) == served(
            kept,
            host_key(confbase, other),
            seen,
        ),
{
    let hosts = crate::keys::text_bytes("hosts");
    reveal_strlit("hosts");
    vstd::utf8::is_ascii_chars_encode_utf8("hosts"@);
    assert(hosts.len() == 5);
    let dir = crate::paths::joined(confbase, hosts);
    crate::paths::lemma_components_of_joined(dir, name);
    crate::paths::lemma_components_of_joined(dir, other);
    let front = crate::paths::components(dir);
    let a = host_key(confbase, name);
    let b = host_key(confbase, other);
    assert(a.skip(front.len() as int) == crate::paths::names(name));
    assert(b.skip(front.len() as int) == crate::paths::names(other));
}

} // verus!
