//! The server registry: the process-wide table mapping each port to the
//! one listener running on it.
//!
//! The table is the single choke point for listener lifecycle: `start`
//! and `stop` are the only operations that mutate it, and an entry's
//! existence *is* the definition of "a server runs on this port". Its
//! view is the map from port to listener handle; the one-listener-per-port
//! invariant is structural — the backing list never holds two entries for
//! one port, and every registered handle is serving its own port.
//!
//! The host program wraps one registry in an exclusive lock, holds the
//! lock only around these in-memory updates, and performs binds, route
//! reads and request serving outside it.

use vstd::prelude::*;
use crate::listener::{ListenerState, MockServer};
use crate::models::{Collection, MockServerError, ServerStatus};
use crate::numerals::dec_rep;

verus! {

/// One row of the table: a port and the listener that owns it.
struct RegistryEntry {
    port: u16,
    handle: MockServer,
}

/// No two rows claim the same port.
spec fn unique_ports(s: Seq<RegistryEntry>) -> bool {
    forall|i: int, j: int| 0 <= i < j < s.len() ==> s[i].port != s[j].port
}

/// The map a row list denotes: later rows would win, but under
/// `unique_ports` each port has at most one row.
spec fn map_of(s: Seq<RegistryEntry>) -> Map<u16, MockServer>
    decreases s.len(),
{
    if s.len() == 0 {
        Map::empty()
    } else {
        map_of(s.drop_last()).insert(s.last().port, s.last().handle)
    }
}

/// A port is in the denoted map exactly when some row claims it.
proof fn lemma_map_of_domain(s: Seq<RegistryEntry>, p: u16)
    ensures
        map_of(s).contains_key(p) <==> exists|i: int| 0 <= i < s.len() && s[i].port == p,
    decreases s.len(),
{
    if s.len() > 0 {
        lemma_map_of_domain(s.drop_last(), p);
        if s.last().port == p {
            assert(s[s.len() - 1].port == p);
        } else if map_of(s).contains_key(p) {
            let i = choose|i: int| 0 <= i < s.drop_last().len() && s.drop_last()[i].port == p;
            assert(s[i].port == p);
        } else {
            assert forall|i: int| 0 <= i < s.len() implies s[i].port != p by {
                if i < s.len() - 1 {
                    assert(s.drop_last()[i].port == s[i].port);
                }
            }
        }
    }
}

/// Under `unique_ports`, the row claiming a port gives the map's value
/// there.
proof fn lemma_map_of_index(s: Seq<RegistryEntry>, i: int)
    requires
        unique_ports(s),
        0 <= i < s.len(),
    ensures
        map_of(s).contains_key(s[i].port),
        map_of(s)[s[i].port] == s[i].handle,
    decreases s.len(),
{
    lemma_map_of_domain(s, s[i].port);
    if i < s.len() - 1 {
        assert(unique_ports(s.drop_last()));
        assert(s.drop_last()[i] == s[i]);
        lemma_map_of_index(s.drop_last(), i);
        assert(s.last().port != s[i].port);
    }
}

/// Removing the row that claims a port removes exactly that port from
/// the denoted map.
proof fn lemma_map_of_remove(s: Seq<RegistryEntry>, i: int)
    requires
        unique_ports(s),
        0 <= i < s.len(),
    ensures
        map_of(s.remove(i)) == map_of(s).remove(s[i].port),
    decreases s.len(),
{
    let p = s[i].port;
    if i == s.len() - 1 {
        assert(s.remove(i) =~= s.drop_last());
        lemma_map_of_domain(s.drop_last(), p);
        assert forall|k: int| 0 <= k < s.drop_last().len() implies s.drop_last()[k].port != p by {
            assert(s.drop_last()[k] == s[k]);
        }
        assert(!map_of(s.drop_last()).contains_key(p));
        assert(map_of(s.drop_last()) =~= map_of(s.drop_last()).insert(p, s[i].handle).remove(p));
    } else {
        let t = s.remove(i);
        assert(t.drop_last() =~= s.drop_last().remove(i));
        assert(unique_ports(s.drop_last()));
        lemma_map_of_remove(s.drop_last(), i);
        assert(s.drop_last()[i] == s[i]);
        assert(t.last() == s.last());
        assert(s.last().port != p);
        assert(map_of(s.drop_last()).remove(p).insert(s.last().port, s.last().handle) =~= map_of(
            s.drop_last(),
        ).insert(s.last().port, s.last().handle).remove(p));
    }
}

/// The process-wide table of running listeners, one per port.
pub struct ServerRegistry {
    entries: Vec<RegistryEntry>,
}

impl View for ServerRegistry {
    type V = Map<u16, MockServer>;

    closed spec fn view(&self) -> Map<u16, MockServer> {
        map_of(self.entries@)
    }
}

impl ServerRegistry {
    /// The registry's invariant: one row per port, and every registered
    /// handle serves exactly the port of its row.
    pub closed spec fn wf(self) -> bool {
        &&& unique_ports(self.entries@)
        &&& forall|i: int|
            0 <= i < self.entries@.len() ==> (#[trigger] self.entries@[i]).handle.port
                == self.entries@[i].port && self.entries@[i].handle.state == ListenerState::Serving
    }

    /// Every listener the table knows is serving its own port.
    pub proof fn lemma_registered_handles_serve(self, port: u16)
        requires
            self.wf(),
            self@.contains_key(port),
        ensures
            self@[port].port == port,
            self@[port].state == ListenerState::Serving,
    {
        lemma_map_of_domain(self.entries@, port);
        let i = choose|i: int| 0 <= i < self.entries@.len() && self.entries@[i].port == port;
        lemma_map_of_index(self.entries@, i);
    }

    /// An empty table: no port has a running listener.
    pub fn new() -> (r: Self)
        ensures
            r.wf(),
            r@ == Map::<u16, MockServer>::empty(),
    {
        Self { entries: Vec::new() }
    }

    /// Scans for the row claiming a port.
    fn index_of(&self, port: u16) -> (r: Option<usize>)
        ensures
            match r {
                Some(i) => i < self.entries@.len() && self.entries@[i as int].port == port,
                None => forall|i: int| 0 <= i < self.entries@.len() ==> self.entries@[i].port != port,
            },
            (r is Some) == self@.contains_key(port),
    {
        proof {
            lemma_map_of_domain(self.entries@, port);
        }
        let n = self.entries.len();
        let mut i: usize = 0;
        while i < n
            invariant
                0 <= i <= n,
                n == self.entries@.len(),
                forall|j: int| 0 <= j < i ==> self.entries@[j].port != port,
            decreases n - i,
        {
            if self.entries[i].port == port {
                proof {
                    assert(exists|j: int|
                        0 <= j < self.entries@.len() && self.entries@[j].port == port) by {
                        assert(self.entries@[i as int].port == port);
                    }
                    lemma_map_of_domain(self.entries@, port);
                    assert(self@.contains_key(port));
                }
                return Some(i);
            }
            i += 1;
        }
        None
    }

    /// Pure membership check: whether a listener runs on the port. No
    /// side effect; a point-in-time snapshot under the caller's lock.
    pub fn status_of(&self, port: u16) -> (r: bool)
        ensures
            r == self@.contains_key(port),
    {
        self.index_of(port).is_some()
    }

    /// Starts a listener on a port, given the host's bind outcome for it.
    ///
    /// Fails with `AlreadyRunning` when the table already has an entry
    /// for the port, and with `BindError` when the port was free but the
    /// bind failed; in both cases the table — the pre-existing listener
    /// included — is untouched. Otherwise a freshly created listener,
    /// serving the given collection and carrying nothing from any earlier
    /// run, is recorded under the port.
    pub fn start(&mut self, collection_id: &str, port: u16, bind_ok: bool) -> (r: Result<
        (),
        MockServerError,
    >)
        requires
            old(self).wf(),
        ensures
            final(self).wf(),
            match r {
                Ok(()) => {
                    &&& !old(self)@.contains_key(port)
                    &&& bind_ok
                    &&& final(self)@ == old(self)@.insert(port, final(self)@[port])
                    &&& final(self)@[port].port == port
                    &&& final(self)@[port].collection_id@ == collection_id@
                    &&& final(self)@[port].state == ListenerState::Serving
                },
                Err(MockServerError::AlreadyRunning { port: p }) => {
                    &&& p == port
                    &&& old(self)@.contains_key(port)
                    &&& final(self)@ == old(self)@
                },
                Err(MockServerError::BindError { port: p }) => {
                    &&& p == port
                    &&& !old(self)@.contains_key(port)
                    &&& !bind_ok
                    &&& final(self)@ == old(self)@
                },
                Err(_) => false,
            },
    {
        if self.status_of(port) {
            return Err(MockServerError::AlreadyRunning { port });
        }
        let mut server = MockServer::new(port, collection_id.to_owned());
        match server.start(bind_ok) {
            Err(e) => Err(e),
            Ok(()) => {
                let ghost pre = self.entries@;
                self.entries.push(RegistryEntry { port, handle: server });
                proof {
                    lemma_map_of_domain(pre, port);
                    assert(self.entries@.drop_last() =~= pre);
                    assert forall|i: int, j: int|
                        0 <= i < j < self.entries@.len() implies self.entries@[i].port
                        != self.entries@[j].port by {
                        if j < self.entries@.len() - 1 {
                            assert(pre[i].port != pre[j].port);
                        } else {
                            assert(pre[i].port != port);
                        }
                    }
                    lemma_map_of_index(self.entries@, self.entries@.len() - 1);
                }
                Ok(())
            },
        }
    }

    /// Stops the listener on a port: removes its entry and fires its
    /// cancellation signal, handing the shutting-down handle back so the
    /// host can let it drain. Fails with `NotRunning`, with no side
    /// effect on the table, when no entry exists for the port.
    pub fn stop(&mut self, port: u16) -> (r: Result<MockServer, MockServerError>)
        requires
            old(self).wf(),
        ensures
            final(self).wf(),
            match r {
                Ok(h) => {
                    &&& old(self)@.contains_key(port)
                    &&& final(self)@ == old(self)@.remove(port)
                    &&& h.port == old(self)@[port].port
                    &&& h.collection_id == old(self)@[port].collection_id
                    &&& h.state == ListenerState::ShuttingDown
                },
                Err(MockServerError::NotRunning { port: p }) => {
                    &&& p == port
                    &&& !old(self)@.contains_key(port)
                    &&& final(self)@ == old(self)@
                },
                Err(_) => false,
            },
    {
        match self.index_of(port) {
            None => Err(MockServerError::NotRunning { port }),
            Some(i) => {
                proof {
                    lemma_map_of_index(self.entries@, i as int);
                    lemma_map_of_remove(self.entries@, i as int);
                }
                let ghost pre = self.entries@;
                let entry = self.entries.remove(i);
                proof {
                    assert(self.entries@ =~= pre.remove(i as int));
                    assert forall|a: int, b: int|
                        0 <= a < b < self.entries@.len() implies self.entries@[a].port
                        != self.entries@[b].port by {
                        let a0 = if a < i { a } else { a + 1 };
                        let b0 = if b < i { b } else { b + 1 };
                        assert(pre[a0].port != pre[b0].port);
                    }
                }
                let mut handle = entry.handle;
                handle.stop();
                Ok(handle)
            },
        }
    }

    /// Stops the listener on a port, §6-style: like `stop`, but the
    /// shutting-down handle is dropped rather than handed back.
    pub fn stop_server(&mut self, port: u16) -> (r: Result<(), MockServerError>)
        requires
            old(self).wf(),
        ensures
            final(self).wf(),
            match r {
                Ok(()) => old(self)@.contains_key(port) && final(self)@ == old(self)@.remove(port),
                Err(MockServerError::NotRunning { port: p }) => {
                    &&& p == port
                    &&& !old(self)@.contains_key(port)
                    &&& final(self)@ == old(self)@
                },
                Err(_) => false,
            },
    {
        match self.stop(port) {
            Ok(_) => Ok(()),
            Err(e) => Err(e),
        }
    }

    /// Removes and signals the listener on a port if one runs, and
    /// reports whether one did; a port with no listener is left alone.
    /// This is what deleting a collection does to the registry.
    pub fn stop_if_running(&mut self, port: u16) -> (r: bool)
        requires
            old(self).wf(),
        ensures
            final(self).wf(),
            r == old(self)@.contains_key(port),
            final(self)@ == old(self)@.remove(port),
            !r ==> final(self)@ == old(self)@,
    {
        match self.stop(port) {
            Ok(_) => true,
            Err(_) => {
                proof {
                    assert(old(self)@.remove(port) =~= old(self)@);
                }
                false
            },
        }
    }

    /// Starts a listener for a collection, given the store's answer to
    /// the collection lookup and the host's bind outcome, and reports the
    /// §6 status row for it: `CollectionNotFound` when the store knows no
    /// such collection, otherwise exactly `start`'s behaviour on the
    /// collection's port, with a successful start described by a status
    /// whose base URL is `http://localhost:<port>`.
    pub fn start_server(
        &mut self,
        collection_id: &str,
        collection: Option<&Collection>,
        bind_ok: bool,
    ) -> (r: Result<ServerStatus, MockServerError>)
        requires
            old(self).wf(),
        ensures
            final(self).wf(),
            match collection {
                None => final(self)@ == old(self)@ && match r {
                    Err(MockServerError::CollectionNotFound { collection_id: cid }) => cid@
                        == collection_id@,
                    _ => false,
                },
                Some(c) => match r {
                    Ok(st) => {
                        &&& !old(self)@.contains_key(c.port)
                        &&& bind_ok
                        &&& final(self)@ == old(self)@.insert(c.port, final(self)@[c.port])
                        &&& final(self)@[c.port].port == c.port
                        &&& final(self)@[c.port].collection_id@ == c.id@
                        &&& final(self)@[c.port].state == ListenerState::Serving
                        &&& st.port == c.port
                        &&& st.collection_id == c.id
                        &&& st.collection_name == c.name
                        &&& st.is_running
                        &&& st.base_url@ == base_url_spec(c.port)
                    },
                    Err(MockServerError::AlreadyRunning { port: p }) => {
                        &&& p == c.port
                        &&& old(self)@.contains_key(c.port)
                        &&& final(self)@ == old(self)@
                    },
                    Err(MockServerError::BindError { port: p }) => {
                        &&& p == c.port
                        &&& !old(self)@.contains_key(c.port)
                        &&& !bind_ok
                        &&& final(self)@ == old(self)@
                    },
                    Err(_) => false,
                },
            },
    {
        match collection {
            None => Err(
                MockServerError::CollectionNotFound { collection_id: collection_id.to_owned() },
            ),
            Some(c) => match self.start(c.id.as_str(), c.port, bind_ok) {
                Err(e) => Err(e),
                Ok(()) => Ok(
                    ServerStatus {
                        port: c.port,
                        collection_id: c.id.clone(),
                        collection_name: c.name.clone(),
                        is_running: true,
                        base_url: base_url_of(c.port),
                    },
                ),
            },
        }
    }

    /// The snapshot join of the known collections against the table's
    /// current membership: one status row per collection, in order, each
    /// reporting whether a listener currently runs on that collection's
    /// port.
    pub fn get_running_servers(&self, collections: &Vec<Collection>) -> (r: Vec<ServerStatus>)
        ensures
            r@.len() == collections@.len(),
            forall|i: int|
                0 <= i < r@.len() ==> {
                    let c = collections@[i];
                    let st = #[trigger] r@[i];
                    &&& st.port == c.port
                    &&& st.collection_id == c.id
                    &&& st.collection_name == c.name
                    &&& st.is_running == self@.contains_key(c.port)
                    &&& st.base_url@ == base_url_spec(c.port)
                },
    {
        let n = collections.len();
        let mut r: Vec<ServerStatus> = Vec::new();
        let mut i: usize = 0;
        while i < n
            invariant
                0 <= i <= n,
                n == collections@.len(),
                r@.len() == i,
                forall|k: int|
                    0 <= k < i ==> {
                        let c = collections@[k];
                        let st = #[trigger] r@[k];
                        &&& st.port == c.port
                        &&& st.collection_id == c.id
                        &&& st.collection_name == c.name
                        &&& st.is_running == self@.contains_key(c.port)
                        &&& st.base_url@ == base_url_spec(c.port)
                    },
            decreases n - i,
        {
            let c = &collections[i];
            let is_running = self.status_of(c.port);
            r.push(
                ServerStatus {
                    port: c.port,
                    collection_id: c.id.clone(),
                    collection_name: c.name.clone(),
                    is_running,
                    base_url: base_url_of(c.port),
                },
            );
            i += 1;
        }
        r
    }
}

/// The base URL reported for a port: `http://localhost:<port>`.
pub open spec fn base_url_spec(port: u16) -> Seq<char> {
    "http://localhost:"@ + dec_rep(port as int)
}

/// Renders the base URL reported for a port.
fn base_url_of(port: u16) -> (s: String)
    ensures
        s@ == base_url_spec(port),
{
    let mut s = String::from_str("http://localhost:");
    let digits = crate::numerals::usize_to_string(port as usize);
    s.append(digits.as_str());
    s
}

/// Stopping a port leaves it with no entry, so — by `start`'s contract —
/// an immediate restart on the same port with a successful bind returns
/// `Ok` and installs a freshly created listener: its port, collection and
/// `Serving` state are pinned by that contract, and nothing of the
/// stopped listener's state survives in the table.
pub proof fn lemma_stop_frees_port(table: Map<u16, MockServer>, port: u16)
    ensures
        !table.remove(port).contains_key(port),
{
}

/// Listeners on distinct ports are independent: stopping one port — by
/// `stop`'s contract the table becomes its old value with that port
/// removed — neither removes nor alters the entry of any other port,
/// whose listener keeps serving untouched.
pub proof fn lemma_stop_leaves_other_ports(
    table: Map<u16, MockServer>,
    stopped: u16,
    other: u16,
)
    requires
        stopped != other,
    ensures
        table.remove(stopped).contains_key(other) == table.contains_key(other),
        table.contains_key(other) ==> table.remove(stopped)[other] == table[other],
{
}

} // verus!
