//! The clients of the anonymity network that a process shares.
//!
//! A client is costly to start: it has to learn the state of the network
//! before it can carry a stream. So there is at most one for each place
//! where a client keeps its data, started by the first who asks and shared
//! by all who ask later. The registry here decides who starts a client, who
//! waits and who may go ahead; it holds no client itself.

use vstd::prelude::*;

verus! {

/// What a client is told apart by: the place where it keeps its data, or
/// none where it chooses the place itself.
pub type DataPath = Option<Seq<char>>;

/// How far the client of one data path is.
#[derive(Debug, Clone, Copy, PartialEq, Eq, Structural, Hash)]
pub enum Slot {
    /// Someone is starting the client.
    Bootstrapping,
    /// The client runs.
    Ready,
}

/// What someone who asks for a client is to do.
#[derive(Debug, Clone, Copy, PartialEq, Eq, Structural, Hash)]
pub enum Claim {
    /// Start the client, then report how that went.
    Bootstrap,
    /// Wait for the one who is starting the client, then ask again.
    Wait,
    /// Use the client that runs.
    Use,
}

/// The data path as a mathematical value.
pub open spec fn path_view(path: Option<String>) -> DataPath {
    match path {
        Some(p) => Some(p@),
        None => None,
    }
}

/// What someone who asks for the client of `path` is told.
pub open spec fn spec_claim(clients: Map<DataPath, Slot>, path: DataPath) -> Claim {
    if !clients.contains_key(path) {
        Claim::Bootstrap
    } else if clients[path] is Bootstrapping {
        Claim::Wait
    } else {
        Claim::Use
    }
}

/// The registry after someone asked for the client of `path`: where there
/// was none, one is now being started.
pub open spec fn spec_after_request(clients: Map<DataPath, Slot>, path: DataPath) -> Map<
    DataPath,
    Slot,
> {
    if clients.contains_key(path) {
        clients
    } else {
        clients.insert(path, Slot::Bootstrapping)
    }
}

/// The registry after the start of the client of `path` ended: well, and
/// the client runs; or badly, and there is no client, so that the next who
/// asks starts one. A report about a client that was not being started
/// changes nothing.
pub open spec fn spec_after_bootstrap(
    clients: Map<DataPath, Slot>,
    path: DataPath,
    ok: bool,
) -> Map<DataPath, Slot> {
    if clients.contains_key(path) && clients[path] is Bootstrapping {
        if ok {
            clients.insert(path, Slot::Ready)
        } else {
            clients.remove(path)
        }
    } else {
        clients
    }
}

#[derive(Debug)]
struct Entry {
    path: Option<String>,
    slot: Slot,
}

/// The registry of the clients of a process.
#[derive(Debug)]
pub struct ClientRegistry {
    entries: Vec<Entry>,
}

fn same_path(a: &Option<String>, b: &Option<String>) -> (same: bool)
    ensures
        same == (path_view(*a) == path_view(*b)),
{
    match (a, b) {
        (None, None) => true,
        (Some(x), Some(y)) => *x == *y,
        _ => false,
    }
}

fn copy_of(path: &Option<String>) -> (copy: Option<String>)
    ensures
        path_view(copy) == path_view(*path),
{
    match path {
        Some(p) => Some(p.clone()),
        None => None,
    }
}

proof fn lemma_one_entry(registry: ClientRegistry, i: int, j: int, path: DataPath)
    requires
        registry.wf(),
        registry.holds(i, path),
        registry.holds(j, path),
    ensures
        i == j,
{
    if i < j {
        assert(registry.key_at(i) != registry.key_at(j));
    } else if j < i {
        assert(registry.key_at(j) != registry.key_at(i));
    }
}

impl ClientRegistry {
    spec fn key_at(self, i: int) -> DataPath {
        path_view(self.entries[i].path)
    }

    spec fn holds(self, i: int, path: DataPath) -> bool {
        0 <= i < self.entries.len() && self.key_at(i) == path
    }

    /// Whether the registry is in order: no data path has two entries.
    /// Every registry that this module hands out is.
    pub closed spec fn wf(self) -> bool {
        forall|i: int, j: int|
            0 <= i < j < self.entries.len() ==> #[trigger] self.key_at(i) != #[trigger] self.key_at(
                j,
            )
    }

    /// The clients that are being started or run, by data path.
    pub closed spec fn view(&self) -> Map<DataPath, Slot> {
        Map::new(
            |path: DataPath| exists|i: int| self.holds(i, path),
            |path: DataPath| self.entries[choose|i: int| self.holds(i, path)].slot,
        )
    }

    /// A registry without clients.
    pub fn new() -> (registry: ClientRegistry)
        ensures
            registry.wf(),
            registry@ == Map::<DataPath, Slot>::empty(),
    {
        let registry = ClientRegistry { entries: Vec::new() };
        assert(registry@ =~= Map::<DataPath, Slot>::empty());
        registry
    }

    fn find(&self, path: &Option<String>) -> (found: Option<usize>)
        ensures
            match found {
                Some(i) => self.holds(i as int, path_view(*path)),
                None => forall|i: int| !self.holds(i, path_view(*path)),
            },
    {
        let mut i: usize = 0;
        while i < self.entries.len()
            invariant
                i <= self.entries.len(),
                forall|k: int| 0 <= k < i ==> !self.holds(k, path_view(*path)),
            decreases self.entries.len() - i,
        {
            if same_path(&self.entries[i].path, path) {
                return Some(i);
            }
            i += 1;
        }
        None
    }

    /// What the registry holds for `path`.
    pub fn slot(&self, path: &Option<String>) -> (slot: Option<Slot>)
        requires
            self.wf(),
        ensures
            match slot {
                Some(s) => self@.contains_key(path_view(*path)) && self@[path_view(*path)] == s,
                None => !self@.contains_key(path_view(*path)),
            },
    {
        match self.find(path) {
            Some(i) => Some(self.entries[i].slot),
            None => None,
        }
    }

    /// Someone asks for the client of `path` and is told what to do. The
    /// first to ask is told to start the client; whoever asks while it is
    /// being started is told to wait.
    pub fn request(&mut self, path: &Option<String>) -> (claim: Claim)
        requires
            old(self).wf(),
        ensures
            final(self).wf(),
            claim == spec_claim(old(self)@, path_view(*path)),
            final(self)@ == spec_after_request(old(self)@, path_view(*path)),
    {
        let ghost key = path_view(*path);
        match self.find(path) {
            Some(i) => {
                match self.entries[i].slot {
                    Slot::Bootstrapping => Claim::Wait,
                    Slot::Ready => Claim::Use,
                }
            },
            None => {
                let ghost before = *self;
                let entry = Entry { path: copy_of(path), slot: Slot::Bootstrapping };
                self.entries.push(entry);
                proof {
                    let n = before.entries.len() as int;
                    assert(self.holds(n, key));
                    assert forall|i: int| 0 <= i < n implies self.key_at(i) == before.key_at(
                        i,
                    ) && self.key_at(i) != key by {
                        assert(!before.holds(i, key));
                    }
                    assert(self.wf()) by {
                        assert forall|i: int, j: int| 0 <= i < j < self.entries.len() implies
                            #[trigger] self.key_at(i) != #[trigger] self.key_at(j) by {
                            if j < n {
                                assert(before.key_at(i) != before.key_at(j));
                            }
                        }
                    }
                    assert forall|p: DataPath| p != key implies (before@.contains_key(p)
                        <==> self@.contains_key(p)) by {
                        if before@.contains_key(p) {
                            let i = choose|i: int| before.holds(i, p);
                            assert(self.holds(i, p));
                        }
                        if self@.contains_key(p) {
                            let i = choose|i: int| self.holds(i, p);
                            assert(before.holds(i, p));
                        }
                    }
                    assert forall|p: DataPath| p != key && before@.contains_key(p) implies self@[p]
                        == before@[p] by {
                        let i = choose|i: int| before.holds(i, p);
                        let j = choose|j: int| self.holds(j, p);
                        assert(self.holds(i, p));
                        lemma_one_entry(*self, i, j, p);
                    }
                    assert(self@[key] == Slot::Bootstrapping) by {
                        let j = choose|j: int| self.holds(j, key);
                        lemma_one_entry(*self, j, n, key);
                    }
                    assert(self@ =~= before@.insert(key, Slot::Bootstrapping));
                }
                Claim::Bootstrap
            },
        }
    }

    /// The one who was told to start the client of `path` reports how that
    /// went. After a failure the registry forgets the client, so that the
    /// next who asks is told to start it.
    pub fn finished(&mut self, path: &Option<String>, ok: bool)
        requires
            old(self).wf(),
        ensures
            final(self).wf(),
            final(self)@ == spec_after_bootstrap(old(self)@, path_view(*path), ok),
    {
        let ghost key = path_view(*path);
        let ghost before = *self;
        match self.find(path) {
            Some(i) => {
                proof {
                    let j = choose|j: int| before.holds(j, key);
                    lemma_one_entry(before, i as int, j, key);
                }
                match self.entries[i].slot {
                    Slot::Bootstrapping => {
                        if ok {
                            let entry = Entry { path: copy_of(path), slot: Slot::Ready };
                            self.entries.set(i, entry);
                            proof {
                                assert forall|k: int| 0 <= k < self.entries.len() implies self.key_at(
                                    k,
                                ) == before.key_at(k) by {}
                                assert(self.wf()) by {
                                    assert forall|a: int, b: int|
                                        0 <= a < b < self.entries.len() implies #[trigger] self.key_at(
                                        a,
                                    ) != #[trigger] self.key_at(b) by {
                                        assert(before.key_at(a) != before.key_at(b));
                                    }
                                }
                                assert forall|p: DataPath| before@.contains_key(p)
                                    <==> self@.contains_key(p) by {
                                    if before@.contains_key(p) {
                                        let a = choose|a: int| before.holds(a, p);
                                        assert(self.holds(a, p));
                                    }
                                    if self@.contains_key(p) {
                                        let a = choose|a: int| self.holds(a, p);
                                        assert(before.holds(a, p));
                                    }
                                }
                                assert forall|p: DataPath| self@.contains_key(p) implies self@[p]
                                    == before@.insert(key, Slot::Ready)[p] by {
                                    let a = choose|a: int| self.holds(a, p);
                                    if p == key {
                                        lemma_one_entry(*self, a, i as int, key);
                                    } else {
                                        let b = choose|b: int| before.holds(b, p);
                                        assert(before.holds(a, p));
                                        lemma_one_entry(before, a, b, p);
                                    }
                                }
                                assert(before@.contains_key(key));
                                assert(self@.dom() =~= before@.insert(key, Slot::Ready).dom());
                                assert(self@ =~= before@.insert(key, Slot::Ready));
                            }
                        } else {
                            self.entries.remove(i);
                            proof {
                                assert forall|k: int| 0 <= k < self.entries.len() implies self.key_at(
                                    k,
                                ) == before.key_at(if k < i { k } else { k + 1 }) by {}
                                assert(self.wf()) by {
                                    assert forall|a: int, b: int|
                                        0 <= a < b < self.entries.len() implies #[trigger] self.key_at(
                                        a,
                                    ) != #[trigger] self.key_at(b) by {
                                        let a0 = if a < i { a } else { a + 1 };
                                        let b0 = if b < i { b } else { b + 1 };
                                        assert(before.key_at(a0) != before.key_at(b0));
                                    }
                                }
                                assert forall|p: DataPath| self@.contains_key(p) <==> (p != key
                                    && before@.contains_key(p)) by {
                                    if self@.contains_key(p) {
                                        let a = choose|a: int| self.holds(a, p);
                                        let a0 = if a < i { a } else { a + 1 };
                                        assert(before.holds(a0, p));
                                        if p == key {
                                            lemma_one_entry(before, a0, i as int, key);
                                        }
                                    }
                                    if p != key && before@.contains_key(p) {
                                        let b = choose|b: int| before.holds(b, p);
                                        let b1 = if b < i { b } else { b - 1 };
                                        assert(self.holds(b1, p));
                                    }
                                }
                                assert forall|p: DataPath| self@.contains_key(p) implies self@[p]
                                    == before@[p] by {
                                    let a = choose|a: int| self.holds(a, p);
                                    let a0 = if a < i { a } else { a + 1 };
                                    let b = choose|b: int| before.holds(b, p);
                                    assert(before.holds(a0, p));
                                    lemma_one_entry(before, a0, b, p);
                                }
                                assert(self@.dom() =~= before@.remove(key).dom());
                                assert(self@ =~= before@.remove(key));
                            }
                        }
                    },
                    Slot::Ready => {},
                }
            },
            None => {
                assert(!before@.contains_key(key));
            },
        }
    }
}

/// How many of `requests`, asked in turn, were told to start the client of
/// `path`.
pub open spec fn spec_bootstraps(
    clients: Map<DataPath, Slot>,
    requests: Seq<DataPath>,
    path: DataPath,
) -> nat
    decreases requests.len(),
{
    if requests.len() == 0 {
        0
    } else {
        let first: nat = if requests[0] == path && spec_claim(clients, path) is Bootstrap {
            1
        } else {
            0
        };
        first + spec_bootstraps(
            spec_after_request(clients, requests[0]),
            requests.drop_first(),
            path,
        )
    }
}

/// However many ask for clients before any start has ended, and in
/// whatever order, the client of one data path is started at most once: not
/// at all where it was there before, and exactly once where it was not and
/// someone asked for it.
pub proof fn lemma_one_bootstrap(
    clients: Map<DataPath, Slot>,
    requests: Seq<DataPath>,
    path: DataPath,
)
    ensures
        spec_bootstraps(clients, requests, path) <= 1,
        clients.contains_key(path) ==> spec_bootstraps(clients, requests, path) == 0,
        !clients.contains_key(path) && requests.contains(path) ==> spec_bootstraps(
            clients,
            requests,
            path,
        ) == 1,
        !requests.contains(path) ==> spec_bootstraps(clients, requests, path) == 0,
    decreases requests.len(),
{
    if requests.len() > 0 {
        let rest = requests.drop_first();
        lemma_one_bootstrap(spec_after_request(clients, requests[0]), rest, path);
        if requests[0] != path && requests.contains(path) {
            let i = choose|i: int| 0 <= i < requests.len() && requests[i] == path;
            assert(rest[i - 1] == path);
        }
        if !requests.contains(path) {
            assert(requests[0] != path);
            assert forall|i: int| 0 <= i < rest.len() implies rest[i] != path by {
                assert(rest[i] == requests[i + 1]);
            }
        }
    }
}

/// Two who ask for the same client one after the other, before its start
/// has ended: the second is never told to start it. Where there was no
/// client, the first is told to start it and the second to wait.
pub proof fn lemma_second_request_waits(clients: Map<DataPath, Slot>, path: DataPath)
    ensures
        !(spec_claim(spec_after_request(clients, path), path) is Bootstrap),
        !clients.contains_key(path) ==> spec_claim(clients, path) is Bootstrap && spec_claim(
            spec_after_request(clients, path),
            path,
        ) is Wait,
{
}

/// Asking for one client leaves every other as it is.
pub proof fn lemma_request_leaves_others(
    clients: Map<DataPath, Slot>,
    path: DataPath,
    other: DataPath,
)
    requires
        other != path,
    ensures
        spec_claim(spec_after_request(clients, path), other) == spec_claim(clients, other),
{
}

/// A start that failed is forgotten: the next who asks is told to start the
/// client. One that went well is shared: the next who asks is told to use
/// the client.
pub proof fn lemma_after_bootstrap(clients: Map<DataPath, Slot>, path: DataPath, ok: bool)
    requires
        spec_claim(clients, path) is Wait,
    ensures
        spec_claim(spec_after_bootstrap(clients, path, ok), path) == if ok {
            Claim::Use
        } else {
            Claim::Bootstrap
        },
{
}

} // verus!
