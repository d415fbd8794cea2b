//! The DNS resolver V-Node: answers hostname queries from a cache with
//! expiry, and looks names up where the cache has no live answer. The
//! network lookup is simulated: only "example.com" resolves.
use vstd::prelude::*;
use crate::ipc::dns_ipc::{DnsResponse, DnsResponseView};
use crate::ipc::socket_ipc::{SocketFd, SocketRequest, SocketResponse};
use crate::ipc::vnode::VNodeChannel;
use crate::text::owned;

verus! {

/// How long a looked-up answer stays in the cache, in milliseconds.
pub const CACHE_TTL_MS: u64 = 60_000;

/// Milliseconds per kernel tick.
pub const MS_PER_TICK: u64 = 10;

/// The time in milliseconds at a tick count of the kernel's clock.
pub fn ticks_to_ms(ticks: u64) -> (ms: u64)
    requires
        ticks * MS_PER_TICK <= u64::MAX,
    ensures
        ms == ticks * MS_PER_TICK,
{
    ticks * MS_PER_TICK
}

/// A cached answer.
#[derive(Debug, Clone, Copy)]
pub struct DnsCacheEntry {
    pub ip_address: [u8; 4],
    pub expires_at_ms: u64,
}

/// The answer cache: at most one entry per hostname.
pub struct DnsCache {
    entries: Vec<(String, DnsCacheEntry)>,
}

/// The cache as a map from hostname to entry.
pub open spec fn entries_map(entries: Seq<(String, DnsCacheEntry)>) -> Map<Seq<char>, DnsCacheEntry>
    decreases entries.len(),
{
    if entries.len() == 0 {
        Map::empty()
    } else {
        entries_map(entries.drop_last()).insert(entries.last().0@, entries.last().1)
    }
}

/// No hostname occurs twice.
pub open spec fn unique_names(entries: Seq<(String, DnsCacheEntry)>) -> bool {
    forall|i: int, j: int| 0 <= i < j < entries.len() ==> entries[i].0@ != entries[j].0@
}

proof fn lemma_entries_map_contains(entries: Seq<(String, DnsCacheEntry)>, name: Seq<char>)
    requires
        unique_names(entries),
    ensures
        entries_map(entries).contains_key(name) <==> exists|i: int| 0 <= i < entries.len() && entries[i].0@ == name,
        forall|i: int| 0 <= i < entries.len() && entries[i].0@ == name ==> entries_map(entries)[name] == entries[i].1,
    decreases entries.len(),
{
    if entries.len() > 0 {
        let init = entries.drop_last();
        assert(unique_names(init));
        lemma_entries_map_contains(init, name);
        if entries.last().0@ != name {
            assert forall|i: int| 0 <= i < init.len() && init[i].0@ == name implies entries[i].0@ == name by {}
            if exists|i: int| 0 <= i < entries.len() && entries[i].0@ == name {
                let i = choose|i: int| 0 <= i < entries.len() && entries[i].0@ == name;
                assert(i < init.len());
                assert(init[i].0@ == name);
            }
        } else {
            assert(entries[entries.len() - 1].0@ == name);
        }
    }
}

proof fn lemma_entries_map_update(entries: Seq<(String, DnsCacheEntry)>, k: int, e: (String, DnsCacheEntry))
    requires
        unique_names(entries),
        0 <= k < entries.len(),
        e.0@ == entries[k].0@,
    ensures
        unique_names(entries.update(k, e)),
        entries_map(entries.update(k, e)) == entries_map(entries).insert(e.0@, e.1),
{
    let u = entries.update(k, e);
    assert(unique_names(u));
    assert forall|name: Seq<char>| #[trigger] entries_map(u).contains_key(name) <==> entries_map(entries).insert(e.0@, e.1).contains_key(name) by {
        lemma_entries_map_contains(u, name);
        lemma_entries_map_contains(entries, name);
        if exists|i: int| 0 <= i < entries.len() && entries[i].0@ == name {
            let i = choose|i: int| 0 <= i < entries.len() && entries[i].0@ == name;
            assert(u[i].0@ == name);
        }
        if exists|i: int| 0 <= i < u.len() && u[i].0@ == name {
            let i = choose|i: int| 0 <= i < u.len() && u[i].0@ == name;
            assert(entries[i].0@ == name);
        }
    }
    assert forall|name: Seq<char>| #[trigger] entries_map(u).contains_key(name) implies entries_map(u)[name] == entries_map(entries).insert(e.0@, e.1)[name] by {
        lemma_entries_map_contains(u, name);
        lemma_entries_map_contains(entries, name);
        let i = choose|i: int| 0 <= i < u.len() && u[i].0@ == name;
        if i != k {
            assert(entries[i].0@ == name);
        }
    }
    assert(entries_map(u) =~= entries_map(entries).insert(e.0@, e.1));
}

proof fn lemma_entries_map_push(entries: Seq<(String, DnsCacheEntry)>, e: (String, DnsCacheEntry))
    requires
        unique_names(entries),
        !entries_map(entries).contains_key(e.0@),
    ensures
        unique_names(entries.push(e)),
        entries_map(entries.push(e)) == entries_map(entries).insert(e.0@, e.1),
{
    lemma_entries_map_contains(entries, e.0@);
    assert(entries.push(e).drop_last() =~= entries);
    assert forall|i: int, j: int| 0 <= i < j < entries.push(e).len() implies entries.push(e)[i].0@ != entries.push(e)[j].0@ by {
        if j == entries.len() {
            assert(entries[i].0@ != e.0@);
        }
    }
}

proof fn lemma_entries_map_remove(entries: Seq<(String, DnsCacheEntry)>, k: int)
    requires
        unique_names(entries),
        0 <= k < entries.len(),
    ensures
        unique_names(entries.remove(k)),
        entries_map(entries.remove(k)) == entries_map(entries).remove(entries[k].0@),
{
    let r = entries.remove(k);
    let gone = entries[k].0@;
    assert forall|i: int, j: int| 0 <= i < j < r.len() implies r[i].0@ != r[j].0@ by {
        let ii = if i < k { i } else { i + 1 };
        let jj = if j < k { j } else { j + 1 };
        assert(r[i] == entries[ii]);
        assert(r[j] == entries[jj]);
    }
    assert forall|name: Seq<char>| #[trigger] entries_map(r).contains_key(name) <==> entries_map(entries).remove(gone).contains_key(name) by {
        lemma_entries_map_contains(r, name);
        lemma_entries_map_contains(entries, name);
        if exists|i: int| 0 <= i < r.len() && r[i].0@ == name {
            let i = choose|i: int| 0 <= i < r.len() && r[i].0@ == name;
            let ii = if i < k { i } else { i + 1 };
            assert(entries[ii].0@ == name);
            assert(ii != k);
        }
        if name != gone && exists|i: int| 0 <= i < entries.len() && entries[i].0@ == name {
            let i = choose|i: int| 0 <= i < entries.len() && entries[i].0@ == name;
            assert(i != k);
            let ri = if i < k { i } else { i - 1 };
            assert(r[ri].0@ == name);
        }
    }
    assert forall|name: Seq<char>| #[trigger] entries_map(r).contains_key(name) implies entries_map(r)[name] == entries_map(entries)[name] by {
        lemma_entries_map_contains(r, name);
        lemma_entries_map_contains(entries, name);
        let i = choose|i: int| 0 <= i < r.len() && r[i].0@ == name;
        let ii = if i < k { i } else { i + 1 };
        assert(entries[ii].0@ == name);
    }
    assert(entries_map(r) =~= entries_map(entries).remove(gone));
}

impl View for DnsCache {
    type V = Map<Seq<char>, DnsCacheEntry>;

    closed spec fn view(&self) -> Map<Seq<char>, DnsCacheEntry> {
        entries_map(self.entries@)
    }
}

impl DnsCache {
    /// No hostname occurs twice.
    pub closed spec fn wf(&self) -> bool {
        unique_names(self.entries@)
    }

    /// An empty cache.
    pub fn new() -> (c: Self)
        ensures
            c.wf(),
            c@ == Map::<Seq<char>, DnsCacheEntry>::empty(),
    {
        DnsCache { entries: Vec::new() }
    }

    /// The position of `name` in the entry list.
    fn find(&self, name: &String) -> (r: Option<usize>)
        requires
            self.wf(),
        ensures
            match r {
                Some(i) => i < self.entries@.len() && self.entries@[i as int].0@ == name@,
                None => !self@.contains_key(name@),
            },
    {
        let mut i: usize = 0;
        while i < self.entries.len()
            invariant
                i <= self.entries@.len(),
                forall|j: int| 0 <= j < i ==> self.entries@[j].0@ != name@,
            decreases self.entries@.len() - i,
        {
            if self.entries[i].0 == *name {
                return Some(i);
            }
            i = i + 1;
        }
        proof {
            lemma_entries_map_contains(self.entries@, name@);
        }
        None
    }

    /// The entry for `name`, if there is one.
    pub fn get(&self, name: &String) -> (r: Option<DnsCacheEntry>)
        requires
            self.wf(),
        ensures
            match r {
                Some(e) => self@.contains_key(name@) && self@[name@] == e,
                None => !self@.contains_key(name@),
            },
    {
        match self.find(name) {
            Some(i) => {
                proof {
                    lemma_entries_map_contains(self.entries@, name@);
                }
                Some(self.entries[i].1)
            },
            None => None,
        }
    }

    /// Stores `entry` for `name`, replacing any earlier entry.
    pub fn insert(&mut self, name: String, entry: DnsCacheEntry)
        requires
            old(self).wf(),
        ensures
            final(self).wf(),
            final(self)@ == old(self)@.insert(name@, entry),
    {
        match self.find(&name) {
            Some(i) => {
                proof {
                    lemma_entries_map_update(self.entries@, i as int, (name, entry));
                }
                self.entries.set(i, (name, entry));
            },
            None => {
                proof {
                    lemma_entries_map_push(self.entries@, (name, entry));
                }
                self.entries.push((name, entry));
            },
        }
    }

    /// Drops the entry for `name`, if there is one.
    pub fn remove(&mut self, name: &String)
        requires
            old(self).wf(),
        ensures
            final(self).wf(),
            final(self)@ == old(self)@.remove(name@),
    {
        match self.find(name) {
            Some(i) => {
                proof {
                    lemma_entries_map_remove(self.entries@, i as int);
                }
                let _ = self.entries.remove(i);
            },
            None => {
                assert(self@ =~= old(self)@.remove(name@));
            },
        }
    }
}

/// The hostname that the simulated lookup resolves.
pub open spec fn known_host() -> Seq<char> {
    "example.com"@
}

/// The address that the simulated lookup gives for the known host.
pub open spec fn known_ip() -> [u8; 4] {
    [192u8, 0u8, 2u8, 1u8]
}

/// The cache after a network lookup of `hostname` at time `now`: an answer
/// is cached for `CACHE_TTL_MS`.
pub open spec fn cache_after_lookup(cache: Map<Seq<char>, DnsCacheEntry>, hostname: Seq<char>, now: u64) -> Map<Seq<char>, DnsCacheEntry> {
    if hostname == known_host() {
        cache.insert(hostname, DnsCacheEntry { ip_address: known_ip(), expires_at_ms: (now + CACHE_TTL_MS) as u64 })
    } else {
        cache
    }
}

/// The answer of a network lookup of `hostname`.
pub open spec fn lookup_reply(hostname: Seq<char>) -> DnsResponseView {
    if hostname == known_host() {
        DnsResponseView::ResolvedHostname { hostname, ip_address: known_ip() }
    } else {
        DnsResponseView::NotFound { query: hostname }
    }
}

/// Whether the cache holds a live answer for `hostname` at time `now`.
pub open spec fn cache_hit(cache: Map<Seq<char>, DnsCacheEntry>, hostname: Seq<char>, now: u64) -> bool {
    cache.contains_key(hostname) && now < cache[hostname].expires_at_ms
}

/// The cache after a query for `hostname` at time `now`: unchanged on a live
/// hit; otherwise any expired entry goes and a lookup follows.
pub open spec fn cache_after_query(cache: Map<Seq<char>, DnsCacheEntry>, hostname: Seq<char>, now: u64) -> Map<Seq<char>, DnsCacheEntry> {
    if cache_hit(cache, hostname, now) {
        cache
    } else {
        cache_after_lookup(cache.remove(hostname), hostname, now)
    }
}

/// The answer to a query for `hostname` at time `now`.
pub open spec fn query_reply(cache: Map<Seq<char>, DnsCacheEntry>, hostname: Seq<char>, now: u64) -> DnsResponseView {
    if cache_hit(cache, hostname, now) {
        DnsResponseView::ResolvedHostname { hostname, ip_address: cache[hostname].ip_address }
    } else {
        lookup_reply(hostname)
    }
}

/// A query can be answered without overflow: a lookup that caches an answer
/// needs its expiry time to fit in `u64`.
pub open spec fn query_accepts(cache: Map<Seq<char>, DnsCacheEntry>, hostname: Seq<char>, now: u64) -> bool {
    !cache_hit(cache, hostname, now) && hostname == known_host() ==> now + CACHE_TTL_MS <= u64::MAX
}

/// Law: a cached answer is served until it expires. After a query at `now`
/// that resolves `hostname`, the cache holds that address with an expiry
/// later than `now`, and every query before that expiry gets the same
/// address from the cache, changing nothing.
pub proof fn law_cached_answer_is_served_until_expiry(
    cache: Map<Seq<char>, DnsCacheEntry>,
    hostname: Seq<char>,
    now: u64,
    later: u64,
)
    requires
        query_accepts(cache, hostname, now),
        query_reply(cache, hostname, now) is ResolvedHostname,
    ensures
        ({
            let c1 = cache_after_query(cache, hostname, now);
            let ip = query_reply(cache, hostname, now)->ResolvedHostname_ip_address;
            &&& c1.contains_key(hostname)
            &&& c1[hostname].ip_address == ip
            &&& now < c1[hostname].expires_at_ms
            &&& later < c1[hostname].expires_at_ms ==> {
                &&& query_reply(c1, hostname, later) == DnsResponseView::ResolvedHostname { hostname, ip_address: ip }
                &&& cache_after_query(c1, hostname, later) == c1
            }
        }),
{
}

/// Law: a lookup caches an answer for exactly `CACHE_TTL_MS` from the query.
pub proof fn law_lookup_caches_for_ttl(cache: Map<Seq<char>, DnsCacheEntry>, now: u64)
    requires
        !cache_hit(cache, known_host(), now),
        now + CACHE_TTL_MS <= u64::MAX,
    ensures
        cache_after_query(cache, known_host(), now)[known_host()] == (DnsCacheEntry {
            ip_address: known_ip(),
            expires_at_ms: (now + CACHE_TTL_MS) as u64,
        }),
        query_reply(cache, known_host(), now) == (DnsResponseView::ResolvedHostname {
            hostname: known_host(),
            ip_address: known_ip(),
        }),
{
}

/// Law: an expired entry is dropped and the name is looked up afresh; a name
/// that the lookup cannot resolve then leaves no entry behind.
pub proof fn law_expired_entry_is_dropped(cache: Map<Seq<char>, DnsCacheEntry>, hostname: Seq<char>, now: u64)
    requires
        cache.contains_key(hostname),
        cache[hostname].expires_at_ms <= now,
        hostname != known_host(),
    ensures
        !cache_after_query(cache, hostname, now).contains_key(hostname),
        query_reply(cache, hostname, now) == (DnsResponseView::NotFound { query: hostname }),
{
}

/// Law: what a query answers. A live cached entry answers its own address,
/// for that name. Otherwise the name is looked up: "example.com" resolves to
/// 192.0.2.1 and is cached until `now` + 60000 ms; any other name is answered
/// `NotFound` for that name and leaves no entry. A query never touches the
/// entries of other names.
pub proof fn law_query_answers(cache: Map<Seq<char>, DnsCacheEntry>, hostname: Seq<char>, now: u64, other: Seq<char>)
    requires
        query_accepts(cache, hostname, now),
    ensures
        cache.contains_key(hostname) && now < cache[hostname].expires_at_ms ==> {
            &&& query_reply(cache, hostname, now) == (DnsResponseView::ResolvedHostname {
                hostname,
                ip_address: cache[hostname].ip_address,
            })
            &&& cache_after_query(cache, hostname, now) == cache
        },
        !(cache.contains_key(hostname) && now < cache[hostname].expires_at_ms) && hostname == "example.com"@ ==> {
            &&& query_reply(cache, hostname, now) == (DnsResponseView::ResolvedHostname {
                hostname,
                ip_address: [192u8, 0u8, 2u8, 1u8],
            })
            &&& cache_after_query(cache, hostname, now)[hostname] == (DnsCacheEntry {
                ip_address: [192u8, 0u8, 2u8, 1u8],
                expires_at_ms: (now + 60000) as u64,
            })
        },
        !(cache.contains_key(hostname) && now < cache[hostname].expires_at_ms) && hostname != "example.com"@ ==> {
            &&& query_reply(cache, hostname, now) == (DnsResponseView::NotFound { query: hostname })
            &&& !cache_after_query(cache, hostname, now).contains_key(hostname)
        },
        other != hostname ==> cache_after_query(cache, hostname, now).contains_key(other) == cache.contains_key(other),
        other != hostname && cache.contains_key(other) ==> cache_after_query(cache, hostname, now)[other] == cache[other],
{
}

/// The DNS resolver service.
pub struct DnsResolver {
    /// Queries from client V-Nodes arrive here.
    pub client_chan: VNodeChannel,
    /// Channel to the socket API.
    pub socket_chan: VNodeChannel,
    /// Channel to the file system backend.
    pub aetherfs_chan: VNodeChannel,
    /// Answers of earlier lookups.
    pub dns_cache: DnsCache,
    /// The upstream DNS servers.
    pub dns_servers: Vec<[u8; 4]>,
    /// The UDP socket for upstream queries.
    pub dns_socket_fd: SocketFd,
}

impl DnsResolver {
    /// The request that opens the resolver's UDP socket: an IPv4 (domain 2)
    /// datagram (type 2) socket with the default protocol.
    pub fn socket_request() -> (r: SocketRequest)
        ensures
            r == (SocketRequest::Socket { domain: 2, ty: 2, protocol: 0 }),
    {
        SocketRequest::Socket { domain: 2, ty: 2, protocol: 0 }
    }

    /// A resolver that takes queries on `client_chan_id`, reaches the socket
    /// API on `socket_chan_id` and the file system on `aetherfs_chan_id`,
    /// given the socket API's answer to `socket_request`. It uses 8.8.8.8
    /// upstream and starts with an empty cache.
    ///
    /// Without a socket the resolver cannot run: the answer must be
    /// `Success` with the socket's descriptor, else the result is `None`.
    pub fn new(
        client_chan_id: u32,
        socket_chan_id: u32,
        aetherfs_chan_id: u32,
        socket_reply: Result<SocketResponse, ()>,
    ) -> (r: Option<Self>)
        ensures
            match socket_reply {
                Ok(SocketResponse::Success(fd)) => r is Some && {
                    let d = r.unwrap();
                    &&& d.client_chan.channel() == client_chan_id
                    &&& d.socket_chan.channel() == socket_chan_id
                    &&& d.aetherfs_chan.channel() == aetherfs_chan_id
                    &&& d.client_chan.wf() && d.socket_chan.wf() && d.aetherfs_chan.wf()
                    &&& d.dns_cache.wf()
                    &&& d.dns_cache@ == Map::<Seq<char>, DnsCacheEntry>::empty()
                    &&& d.dns_servers@ == seq![[8u8, 8u8, 8u8, 8u8]]
                    &&& d.dns_socket_fd == fd as SocketFd
                },
                _ => r is None,
            },
    {
        let fd = match socket_reply {
            Ok(SocketResponse::Success(fd)) => fd as SocketFd,
            _ => {
                return None;
            },
        };
        let mut dns_servers: Vec<[u8; 4]> = Vec::new();
        dns_servers.push([8u8, 8u8, 8u8, 8u8]);
        Some(DnsResolver {
            client_chan: VNodeChannel::new(client_chan_id),
            socket_chan: VNodeChannel::new(socket_chan_id),
            aetherfs_chan: VNodeChannel::new(aetherfs_chan_id),
            dns_cache: DnsCache::new(),
            dns_servers,
            dns_socket_fd: fd,
        })
    }

    /// Looks `hostname` up on the network at time `current_time_ms`, and
    /// caches an answer, as `cache_after_lookup` and `lookup_reply` say.
    pub fn perform_network_lookup(&mut self, hostname: &String, current_time_ms: u64) -> (r: DnsResponse)
        requires
            old(self).dns_cache.wf(),
            hostname@ == known_host() ==> current_time_ms + CACHE_TTL_MS <= u64::MAX,
        ensures
            final(self).dns_cache.wf(),
            final(self).dns_cache@ == cache_after_lookup(old(self).dns_cache@, hostname@, current_time_ms),
            r@ == lookup_reply(hostname@),
            final(self).client_chan == old(self).client_chan,
            final(self).socket_chan == old(self).socket_chan,
            final(self).aetherfs_chan == old(self).aetherfs_chan,
            final(self).dns_servers == old(self).dns_servers,
            final(self).dns_socket_fd == old(self).dns_socket_fd,
    {
        let known = owned("example.com");
        if *hostname == known {
            let ip_addr: [u8; 4] = [192u8, 0u8, 2u8, 1u8];
            let expires_at_ms = current_time_ms + CACHE_TTL_MS;
            self.dns_cache.insert(hostname.clone(), DnsCacheEntry { ip_address: ip_addr, expires_at_ms });
            DnsResponse::ResolvedHostname { hostname: hostname.clone(), ip_address: ip_addr }
        } else {
            DnsResponse::NotFound { query: hostname.clone() }
        }
    }

    /// Whether a query for `hostname` at `current_time_ms` can be answered
    /// (see `query_accepts`).
    pub fn accepts_query(&self, hostname: &String, current_time_ms: u64) -> (r: bool)
        requires
            self.dns_cache.wf(),
        ensures
            r == query_accepts(self.dns_cache@, hostname@, current_time_ms),
    {
        let hit = match self.dns_cache.get(hostname) {
            Some(entry) => current_time_ms < entry.expires_at_ms,
            None => false,
        };
        hit || *hostname != owned("example.com") || current_time_ms <= u64::MAX - CACHE_TTL_MS
    }

    /// Answers a query for `hostname` at time `current_time_ms`: from the
    /// cache where it holds a live answer, else by a network lookup after
    /// dropping any expired entry, as `query_reply` and `cache_after_query` say.
    pub fn handle_query(&mut self, hostname: String, current_time_ms: u64) -> (r: DnsResponse)
        requires
            old(self).dns_cache.wf(),
            query_accepts(old(self).dns_cache@, hostname@, current_time_ms),
        ensures
            final(self).dns_cache.wf(),
            final(self).dns_cache@ == cache_after_query(old(self).dns_cache@, hostname@, current_time_ms),
            r@ == query_reply(old(self).dns_cache@, hostname@, current_time_ms),
            final(self).client_chan == old(self).client_chan,
            final(self).socket_chan == old(self).socket_chan,
            final(self).aetherfs_chan == old(self).aetherfs_chan,
            final(self).dns_servers == old(self).dns_servers,
            final(self).dns_socket_fd == old(self).dns_socket_fd,
    {
        match self.dns_cache.get(&hostname) {
            Some(entry) => {
                if current_time_ms < entry.expires_at_ms {
                    DnsResponse::ResolvedHostname { hostname, ip_address: entry.ip_address }
                } else {
                    self.dns_cache.remove(&hostname);
                    self.perform_network_lookup(&hostname, current_time_ms)
                }
            },
            None => {
                assert(old(self).dns_cache@.remove(hostname@) =~= old(self).dns_cache@);
                self.perform_network_lookup(&hostname, current_time_ms)
            },
        }
    }
}

} // verus!
