//! A per-client sliding-window rate limiter: a request is admitted only if
//! fewer than the burst size were admitted for the same client in the
//! trailing second. Stale clients are swept out once a minute. The caller
//! supplies the clock reading, in milliseconds.

use vstd::prelude::*;

verus! {

/// The request history of one client.
#[derive(Debug)]
pub struct ClientHistory {
    /// Client identity (an IP address, as a 128-bit value)
    pub ip: u128,
    /// Admission timestamps within the trailing window, milliseconds
    pub times: Vec<u64>,
    /// The last time this client was seen
    pub last_request: u64,
}

/// The mathematical shape of one client's history.
pub struct ClientModel {
    pub ip: u128,
    pub times: Seq<u64>,
    pub last_request: u64,
}

impl View for ClientHistory {
    type V = ClientModel;

    open spec fn view(&self) -> ClientModel {
        ClientModel { ip: self.ip, times: self.times@, last_request: self.last_request }
    }
}

impl Clone for ClientHistory {
    fn clone(&self) -> (res: Self)
        ensures
            res@ == self@,
    {
        let times = self.times.clone();
        proof {
            assert(times@ =~= self.times@);
        }
        ClientHistory { ip: self.ip, times, last_request: self.last_request }
    }
}

/// Sliding-window rate limiter state.
#[derive(Debug)]
pub struct RateLimiter {
    /// Requests per second allowed per client
    pub per_second: u64,
    /// Burst size for short spikes
    pub burst_size: u32,
    /// Per-client request histories
    pub clients: Vec<ClientHistory>,
    /// The last sweep time, milliseconds
    pub last_cleanup: u64,
}

/// The mathematical shape of the limiter.
pub struct LimiterModel {
    pub per_second: u64,
    pub burst_size: u32,
    pub clients: Seq<ClientModel>,
    pub last_cleanup: u64,
}

impl View for RateLimiter {
    type V = LimiterModel;

    open spec fn view(&self) -> LimiterModel {
        LimiterModel {
            per_second: self.per_second,
            burst_size: self.burst_size,
            clients: self.clients@.map_values(|c: ClientHistory| c@),
            last_cleanup: self.last_cleanup,
        }
    }
}

/// The views of a client list, in order.
pub open spec fn clients_view(s: Seq<ClientHistory>) -> Seq<ClientModel> {
    s.map_values(|c: ClientHistory| c@)
}

/// A client survives a sweep while less than a minute has passed since it
/// was last seen.
pub open spec fn spec_client_fresh(c: ClientModel, now: u64) -> bool {
    (now as int) < (c.last_request as int) + 60000
}

/// The client list after a sweep: stale clients removed, order kept.
pub open spec fn spec_sweep(s: Seq<ClientModel>, now: u64) -> Seq<ClientModel>
    decreases s.len(),
{
    if s.len() == 0 {
        Seq::empty()
    } else {
        let prior = spec_sweep(s.drop_last(), now);
        if spec_client_fresh(s.last(), now) {
            prior.push(s.last())
        } else {
            prior
        }
    }
}

/// The timestamps still inside the trailing one-second window.
pub open spec fn spec_pruned(times: Seq<u64>, now: u64) -> Seq<u64>
    decreases times.len(),
{
    if times.len() == 0 {
        Seq::empty()
    } else {
        let prior = spec_pruned(times.drop_last(), now);
        if (times.last() as int) > (now as int) - 1000 {
            prior.push(times.last())
        } else {
            prior
        }
    }
}

/// The stored history of a client, empty when the client is unknown.
pub open spec fn spec_times_of(s: Seq<ClientModel>, ip: u128) -> Seq<u64>
    decreases s.len(),
{
    if s.len() == 0 {
        Seq::empty()
    } else if s[0].ip == ip {
        s[0].times
    } else {
        spec_times_of(s.skip(1), ip)
    }
}

/// The stored last-seen time of a client, or the given default when the
/// client is unknown.
pub open spec fn spec_last_of(s: Seq<ClientModel>, ip: u128, default: u64) -> u64
    decreases s.len(),
{
    if s.len() == 0 {
        default
    } else if s[0].ip == ip {
        s[0].last_request
    } else {
        spec_last_of(s.skip(1), ip, default)
    }
}

/// The client list with one client's record replaced in place, or appended
/// when the client is unknown.
pub open spec fn spec_update_client(
    s: Seq<ClientModel>,
    ip: u128,
    times: Seq<u64>,
    last_request: u64,
) -> Seq<ClientModel>
    decreases s.len(),
{
    if s.len() == 0 {
        seq![ClientModel { ip, times, last_request }]
    } else if s[0].ip == ip {
        seq![ClientModel { ip, times, last_request }] + s.skip(1)
    } else {
        seq![s[0]] + spec_update_client(s.skip(1), ip, times, last_request)
    }
}

/// One admission decision: sweep if a minute has passed, prune the client's
/// window, admit if fewer than the burst size remain, and record the
/// admission. Gives the decision and the next state.
pub open spec fn spec_check(m: LimiterModel, ip: u128, now: u64) -> (bool, LimiterModel) {
    let clients = if (now as int) > (m.last_cleanup as int) + 60000 {
        spec_sweep(m.clients, now)
    } else {
        m.clients
    };
    let last_cleanup = if (now as int) > (m.last_cleanup as int) + 60000 {
        now
    } else {
        m.last_cleanup
    };
    let kept = spec_pruned(spec_times_of(clients, ip), now);
    let allowed = kept.len() < m.burst_size;
    let new_times = if allowed {
        kept.push(now)
    } else {
        kept
    };
    let new_last = if allowed {
        now
    } else {
        spec_last_of(clients, ip, now)
    };
    (
        allowed,
        LimiterModel {
            per_second: m.per_second,
            burst_size: m.burst_size,
            clients: spec_update_client(clients, ip, new_times, new_last),
            last_cleanup,
        },
    )
}

/// Removes stale clients, keeping order.
fn sweep_clients(clients: &mut Vec<ClientHistory>, now: u64)
    ensures
        clients_view(final(clients)@) == spec_sweep(clients_view(old(clients)@), now),
{
    let mut kept: Vec<ClientHistory> = Vec::new();
    let mut i: usize = 0;
    while i < clients.len()
        invariant
            i <= clients@.len(),
            clients_view(kept@) == spec_sweep(clients_view(clients@).take(i as int), now),
        decreases clients@.len() - i,
    {
        proof {
            assert(clients_view(clients@).take(i + 1).drop_last() =~= clients_view(
                clients@,
            ).take(i as int));
            assert(clients_view(clients@).take(i + 1).last() == clients_view(clients@)[i as int]);
        }
        if (now as u128) < (clients[i].last_request as u128) + 60000 {
            let ghost prior = clients_view(kept@);
            kept.push(clients[i].clone());
            proof {
                assert(clients_view(kept@) =~= prior.push(clients_view(clients@)[i as int]));
            }
        }
        i = i + 1;
    }
    proof {
        assert(clients_view(clients@).take(clients@.len() as int) =~= clients_view(clients@));
    }
    *clients = kept;
}

/// Keeps only the timestamps inside the trailing one-second window.
fn prune_times(times: &mut Vec<u64>, now: u64)
    ensures
        final(times)@ == spec_pruned(old(times)@, now),
{
    let mut kept: Vec<u64> = Vec::new();
    let mut i: usize = 0;
    while i < times.len()
        invariant
            i <= times@.len(),
            kept@ == spec_pruned(times@.take(i as int), now),
        decreases times@.len() - i,
    {
        proof {
            assert(times@.take(i + 1).drop_last() =~= times@.take(i as int));
            assert(times@.take(i + 1).last() == times@[i as int]);
        }
        let t = times[i];
        if (t as u128) + 1000 > now as u128 {
            kept.push(t);
        }
        i = i + 1;
    }
    proof {
        assert(times@.take(times@.len() as int) =~= times@);
    }
    *times = kept;
}

/// Finds the first record of a client.
fn find_client(clients: &Vec<ClientHistory>, ip: u128) -> (r: Option<usize>)
    ensures
        match r {
            Some(idx) => idx < clients@.len() && clients@[idx as int].ip == ip && (forall|j: int|
                0 <= j < idx ==> clients@[j].ip != ip),
            None => forall|j: int| 0 <= j < clients@.len() ==> clients@[j].ip != ip,
        },
{
    let mut i: usize = 0;
    while i < clients.len()
        invariant
            i <= clients@.len(),
            forall|j: int| 0 <= j < i ==> clients@[j].ip != ip,
        decreases clients@.len() - i,
    {
        if clients[i].ip == ip {
            return Some(i);
        }
        i = i + 1;
    }
    None
}

/// In a list whose first records differ from the client, the client's
/// stored history is decided at its first record, or by its absence.
proof fn lemma_client_lookup(s: Seq<ClientModel>, ip: u128, idx: int, default: u64)
    requires
        0 <= idx <= s.len(),
        forall|j: int| 0 <= j < idx ==> s[j].ip != ip,
        idx < s.len() ==> s[idx].ip == ip,
    ensures
        idx < s.len() ==> spec_times_of(s, ip) == s[idx].times && spec_last_of(s, ip, default)
            == s[idx].last_request,
        idx == s.len() ==> spec_times_of(s, ip) == Seq::<u64>::empty() && spec_last_of(
            s,
            ip,
            default,
        ) == default,
    decreases s.len(),
{
    if s.len() == 0 {
    } else if s[0].ip == ip {
    } else {
        lemma_client_lookup(s.skip(1), ip, idx - 1, default);
    }
}

/// Replacing a client's record rewrites exactly its first record, or appends
/// one at the end.
proof fn lemma_client_update(
    s: Seq<ClientModel>,
    ip: u128,
    idx: int,
    times: Seq<u64>,
    last_request: u64,
)
    requires
        0 <= idx <= s.len(),
        forall|j: int| 0 <= j < idx ==> s[j].ip != ip,
        idx < s.len() ==> s[idx].ip == ip,
    ensures
        idx < s.len() ==> spec_update_client(s, ip, times, last_request) == s.update(
            idx,
            (ClientModel { ip, times, last_request }),
        ),
        idx == s.len() ==> spec_update_client(s, ip, times, last_request) == s.push(
            (ClientModel { ip, times, last_request }),
        ),
    decreases s.len(),
{
    if s.len() == 0 {
        assert(spec_update_client(s, ip, times, last_request) =~= s.push(
            (ClientModel { ip, times, last_request }),
        ));
    } else if s[0].ip == ip {
        assert(spec_update_client(s, ip, times, last_request) =~= s.update(
            0,
            (ClientModel { ip, times, last_request }),
        ));
    } else {
        lemma_client_update(s.skip(1), ip, idx - 1, times, last_request);
        if idx < s.len() {
            assert(spec_update_client(s, ip, times, last_request) =~= s.update(
                idx,
                (ClientModel { ip, times, last_request }),
            ));
        } else {
            assert(spec_update_client(s, ip, times, last_request) =~= s.push(
                (ClientModel { ip, times, last_request }),
            ));
        }
    }
}

impl RateLimiter {
    /// Create a new rate limiter with no history.
    pub fn new(per_second: u64, burst_size: u32) -> (r: Self)
        ensures
            r@.per_second == per_second,
            r@.burst_size == burst_size,
            r@.clients == Seq::<ClientModel>::empty(),
            r@.last_cleanup == 0,
    {
        let r = Self { per_second, burst_size, clients: Vec::new(), last_cleanup: 0 };
        proof {
            assert(r@.clients =~= Seq::<ClientModel>::empty());
        }
        r
    }

    /// Decides one request from a client at the given clock reading.
    pub fn check_rate_limit(&mut self, ip: u128, now_ms: u64) -> (allowed: bool)
        ensures
            allowed == spec_check(old(self)@, ip, now_ms).0,
            final(self)@ == spec_check(old(self)@, ip, now_ms).1,
    {
        if (now_ms as u128) > (self.last_cleanup as u128) + 60000 {
            sweep_clients(&mut self.clients, now_ms);
            self.last_cleanup = now_ms;
        }
        let ghost cleaned = self@.clients;
        match find_client(&self.clients, ip) {
            Some(idx) => {
                proof {
                    lemma_client_lookup(cleaned, ip, idx as int, now_ms);
                }
                let mut c = self.clients.remove(idx);
                prune_times(&mut c.times, now_ms);
                let allowed = c.times.len() < self.burst_size as usize;
                if allowed {
                    c.times.push(now_ms);
                    c.last_request = now_ms;
                }
                proof {
                    lemma_client_update(cleaned, ip, idx as int, c@.times, c@.last_request);
                }
                self.clients.insert(idx, c);
                proof {
                    assert(self@.clients =~= cleaned.update(idx as int, c@));
                }
                allowed
            },
            None => {
                proof {
                    lemma_client_lookup(cleaned, ip, cleaned.len() as int, now_ms);
                }
                let mut c = ClientHistory { ip, times: Vec::new(), last_request: now_ms };
                let allowed = c.times.len() < self.burst_size as usize;
                if allowed {
                    c.times.push(now_ms);
                }
                proof {
                    assert(spec_pruned(Seq::<u64>::empty(), now_ms) =~= Seq::<u64>::empty());
                    lemma_client_update(cleaned, ip, cleaned.len() as int, c@.times, c@.last_request);
                }
                self.clients.push(c);
                proof {
                    assert(self@.clients =~= cleaned.push(c@));
                }
                allowed
            },
        }
    }
}

} // verus!
