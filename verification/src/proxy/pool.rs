//! A pool of connections that several requests can share.

use std::collections::VecDeque;

use vstd::pervasive::cloned;
use vstd::prelude::*;

use crate::assoc::AssocMap;
use crate::proxy::error::Error;
pub use crate::proxy::key::{Key, KeyView};

verus! {

/// How long a connection may be idle before it is dropped, in nanoseconds.
pub const POOL_TIMEOUT: u128 = 5_000_000_000;

/// How many requests one connection serves at a time.
pub const POOL_REQUESTS_PER_CONN: u64 = 5;

/// A connection in the pool. Instants are nanoseconds since a fixed origin.
pub struct Pooled<C> {
    pub id: u64,
    pub value: C,
    pub active: u64,
    pub idle_at: Option<u128>,
}

/// The right to use a pooled connection for one request.
pub struct Lease<C> {
    pub id: u64,
    pub value: C,
}

/// How a request for a connection was answered.
pub enum Checkout<C> {
    /// There is a connection to use.
    Ready(Lease<C>),
    /// A connection being established will be handed over.
    Waiting,
    /// The caller should establish a connection.
    Connect,
}

/// A connection that was added to the pool, and who got a share in it.
pub struct Added<C, W> {
    pub lease: Lease<C>,
    pub served: Vec<(W, Lease<C>)>,
}

/// What to do next to get a stream for a request.
pub enum ConnectStep<C> {
    /// Send the request on this connection.
    Send(Lease<C>),
    /// Wait for a connection to be handed over.
    Wait,
    /// Establish a connection.
    Dial,
}

/// A stream on a pooled connection; it takes up one of the connection's requests.
pub struct Stream<S> {
    pub stream: S,
    pub key: Key,
    pub id: u64,
}

impl<S> Stream<S> {
    /// The stream on the connection that `lease` gives the use of.
    pub fn new<C>(stream: S, key: Key, lease: &Lease<C>) -> (r: Stream<S>)
        ensures
            r.stream == stream,
            r.key == key,
            r.id == lease.id,
    {
        Stream { stream, key, id: lease.id }
    }

    /// The stream itself, to read and write.
    pub fn as_mut(&mut self) -> (r: &mut S)
        ensures
            *r == old(self).stream,
            *final(self) == (Stream { stream: *final(r), ..*old(self) }),
    {
        &mut self.stream
    }
}

/// Whether a response opens the stream: only status 200 does.
pub fn check_status(code: u16) -> (r: Result<(), Error>)
    ensures
        r == if code == 200 {
            Ok::<(), Error>(())
        } else {
            Err(Error::HttpStatus(code))
        },
{
    if code != 200 {
        return Err(Error::HttpStatus(code));
    }
    Ok(())
}

impl<C> Pooled<C> {
    /// Whether one more request fits on the connection.
    pub open spec fn usable(self) -> bool {
        self.active < POOL_REQUESTS_PER_CONN
    }

    /// Whether the connection has been idle for too long at `now`.
    pub open spec fn idle(self, now: u128) -> bool {
        match self.idle_at {
            Some(at) => now > at && now - at > POOL_TIMEOUT,
            None => false,
        }
    }

    /// The connection with `active` requests on it.
    pub open spec fn with_active(self, active: u64) -> Pooled<C> {
        Pooled { active, ..self }
    }

    /// Whether one more request fits on the connection.
    pub fn is_usable(&self) -> (r: bool)
        ensures
            r == self.usable(),
    {
        self.active < POOL_REQUESTS_PER_CONN
    }

    /// Whether the connection has been idle for too long at `now`.
    pub fn is_idle(&self, now: u128) -> (r: bool)
        requires
            self.idle_at is Some ==> self.active == 0,
        ensures
            r == self.idle(now),
    {
        match self.idle_at {
            Some(at) => now.saturating_sub(at) > POOL_TIMEOUT,
            None => false,
        }
    }
}

/// What a [`Pool`] holds.
#[verifier::ext_equal]
pub struct PoolView<C, W> {
    pub connecting: Map<KeyView, u64>,
    pub pooled: Map<KeyView, Seq<Pooled<C>>>,
    pub waiters: Map<KeyView, Seq<W>>,
    pub next_id: u64,
}

/// The connections that are not idle at `now`.
pub open spec fn live<C>(conns: Seq<Pooled<C>>, now: u128) -> Seq<Pooled<C>> {
    conns.filter(|c: Pooled<C>| !c.idle(now))
}

/// Whether the connection at `i` is the first that one more request fits on.
pub open spec fn first_usable<C>(conns: Seq<Pooled<C>>, i: int) -> bool {
    &&& 0 <= i < conns.len()
    &&& conns[i].usable()
    &&& forall|j: int| 0 <= j < i ==> !(#[trigger] conns[j]).usable()
}

/// Whether no connection takes one more request.
pub open spec fn none_usable<C>(conns: Seq<Pooled<C>>) -> bool {
    forall|j: int| 0 <= j < conns.len() ==> !(#[trigger] conns[j]).usable()
}

impl<C: Clone, W> PoolView<C, W> {
    /// The connections for `k`, oldest first.
    pub open spec fn conns(self, k: KeyView) -> Seq<Pooled<C>> {
        if self.pooled.contains_key(k) {
            self.pooled[k]
        } else {
            Seq::empty()
        }
    }

    /// Who waits for a connection for `k`, first come first.
    pub open spec fn waiting(self, k: KeyView) -> Seq<W> {
        if self.waiters.contains_key(k) {
            self.waiters[k]
        } else {
            Seq::empty()
        }
    }

    /// How many connections are being established for `k`.
    pub open spec fn connecting_count(self, k: KeyView) -> u64 {
        if self.connecting.contains_key(k) {
            self.connecting[k]
        } else {
            0
        }
    }

    /// Every connection carries at most as many requests as it may and is known by its own
    /// number; none is marked idle.
    pub open spec fn wf(self) -> bool {
        &&& forall|k: KeyView, i: int|
            self.pooled.contains_key(k) && 0 <= i < self.pooled[k].len() ==> {
                let c = #[trigger] self.pooled[k][i];
                c.active <= POOL_REQUESTS_PER_CONN && c.idle_at is None && c.id < self.next_id
            }
        &&& forall|k: KeyView, i: int, j: int|
            self.pooled.contains_key(k) && 0 <= i < j < self.pooled[k].len() ==> (
            #[trigger] self.pooled[k][i]).id != (#[trigger] self.pooled[k][j]).id
    }

    /// The pool with `conns` as the connections for `k`.
    pub open spec fn with_conns(self, k: KeyView, conns: Seq<Pooled<C>>) -> PoolView<C, W> {
        PoolView {
            pooled: if conns.len() == 0 {
                self.pooled.remove(k)
            } else {
                self.pooled.insert(k, conns)
            },
            ..self
        }
    }

    /// The pool with `waiting` as those who wait for `k`.
    pub open spec fn with_waiting(self, k: KeyView, waiting: Seq<W>) -> PoolView<C, W> {
        PoolView {
            waiters: if waiting.len() == 0 {
                self.waiters.remove(k)
            } else {
                self.waiters.insert(k, waiting)
            },
            ..self
        }
    }

    /// The pool with `n` connections being established for `k`.
    pub open spec fn with_connecting(self, k: KeyView, n: u64) -> PoolView<C, W> {
        PoolView { connecting: self.connecting.insert(k, n), ..self }
    }

    /// Whether the connections being established for `k` fit one more request.
    pub open spec fn can_wait(self, k: KeyView) -> bool {
        self.waiting(k).len() < self.connecting_count(k) * POOL_REQUESTS_PER_CONN
    }

    /// Whether a request for `k` at `now` is answered with `res` and leaves the pool as
    /// `post`: idle connections go; the first usable connection is shared; failing that,
    /// `waiter` queues up where the connections being established can fit it.
    pub open spec fn checks_out(
        self,
        k: KeyView,
        waiter: W,
        now: u128,
        res: Checkout<C>,
        post: PoolView<C, W>,
    ) -> bool {
        let conns = live(self.conns(k), now);
        match res {
            Checkout::Ready(lease) => exists|i: int| #[trigger]
                first_usable(conns, i) && lease.id == conns[i].id && cloned(
                    conns[i].value,
                    lease.value,
                ) && post == self.with_conns(
                    k,
                    conns.update(i, conns[i].with_active((conns[i].active + 1) as u64)),
                ),
            Checkout::Waiting => {
                &&& none_usable(conns)
                &&& self.can_wait(k)
                &&& post == self.with_conns(k, conns).with_waiting(
                    k,
                    self.waiting(k).push(waiter),
                )
            },
            Checkout::Connect => {
                &&& none_usable(conns)
                &&& !self.can_wait(k)
                &&& post == self.with_conns(k, conns)
            },
        }
    }

    /// How many of those who wait for `k` a new connection takes on besides its opener.
    pub open spec fn takes_on(self, k: KeyView) -> nat {
        if self.waiting(k).len() < POOL_REQUESTS_PER_CONN - 1 {
            self.waiting(k).len()
        } else {
            (POOL_REQUESTS_PER_CONN - 1) as nat
        }
    }

    /// Whether adding a connection `value` for `k` gives `added` and leaves the pool as
    /// `post`: those who waited longest get a share, in order, as many as fit beside the
    /// opener; the others keep waiting.
    pub open spec fn adds(
        self,
        k: KeyView,
        value: C,
        added: Added<C, W>,
        post: PoolView<C, W>,
    ) -> bool {
        let n = self.takes_on(k);
        let id = self.next_id;
        &&& added.lease.id == id
        &&& added.lease.value == value
        &&& added.served@.len() == n
        &&& forall|i: int| 0 <= i < n ==> {
            let s = #[trigger] added.served@[i];
            s.0 == self.waiting(k)[i] && s.1.id == id && cloned(value, s.1.value)
        }
        &&& exists|c: Pooled<C>| #[trigger]
            cloned(value, c.value) && c.id == id && c.active == n + 1 && c.idle_at is None && post
                == (PoolView { next_id: (id + 1) as u64, ..self }).with_connecting(
                k,
                (self.connecting_count(k) - 1) as u64,
            ).with_waiting(k, self.waiting(k).skip(n as int)).with_conns(
                k,
                self.conns(k).push(c),
            )
    }

    /// The pool after an attempt to establish a connection for `k` failed: the attempt is no
    /// longer marked. Those who wait keep waiting for another connection.
    pub open spec fn after_failure(self, k: KeyView) -> PoolView<C, W> {
        self.with_connecting(k, (self.connecting_count(k) - 1) as u64)
    }

    /// Whether the connection `id` for `k`, where it is in the pool, carries a request.
    pub open spec fn carries(self, k: KeyView, id: u64) -> bool {
        forall|i: int|
            0 <= i < self.conns(k).len() && (#[trigger] self.conns(k)[i]).id == id ==> self.conns(
                k,
            )[i].active > 0
    }

    /// Whether giving a request back on the connection `id` for `k` leaves the pool as
    /// `post`.
    pub open spec fn releases(self, k: KeyView, id: u64, post: PoolView<C, W>) -> bool {
        let conns = self.conns(k);
        ||| exists|i: int| 0 <= i < conns.len() && (#[trigger] conns[i]).id == id && post
            == self.with_conns(k, conns.update(i, conns[i].with_active((conns[i].active - 1) as u64)))
        ||| (forall|i: int| 0 <= i < conns.len() ==> (#[trigger] conns[i]).id != id) && post == self
    }
}

/// Connections by key, with those being established and those who wait for one.
pub struct Pool<C, W> {
    connecting: AssocMap<Key, u64>,
    pooled: AssocMap<Key, Vec<Pooled<C>>>,
    waiters: AssocMap<Key, VecDeque<W>>,
    next_id: u64,
}

impl<C, W> View for Pool<C, W> {
    type V = PoolView<C, W>;

    closed spec fn view(&self) -> PoolView<C, W> {
        PoolView {
            connecting: self.connecting@,
            pooled: self.pooled@.map_values(|v: Vec<Pooled<C>>| v@),
            waiters: self.waiters@.map_values(|v: VecDeque<W>| v@),
            next_id: self.next_id,
        }
    }
}

/// The connections of `conns` that are not idle at `now`, in order.
fn drop_idle<C>(conns: Vec<Pooled<C>>, now: u128) -> (r: Vec<Pooled<C>>)
    requires
        forall|i: int|
            0 <= i < conns@.len() && (#[trigger] conns@[i]).idle_at is Some ==> conns@[i].active
                == 0,
    ensures
        r@ == live(conns@, now),
{
    let ghost all = conns@;
    let ghost keep = |c: Pooled<C>| !c.idle(now);
    let mut rest = conns;
    let mut kept: Vec<Pooled<C>> = Vec::new();
    assert(all.take(0).filter(keep) =~= Seq::empty()) by {
        reveal(Seq::filter);
    }
    let ghost mut done: int = 0;
    while rest.len() > 0
        invariant
            0 <= done <= all.len(),
            rest@ == all.skip(done),
            keep == (|c: Pooled<C>| !c.idle(now)),
            kept@ == all.take(done).filter(keep),
            forall|i: int|
                0 <= i < all.len() && (#[trigger] all[i]).idle_at is Some ==> all[i].active == 0,
        decreases rest@.len(),
    {
        let c = rest.remove(0);
        assert(c == all[done]);
        proof {
            assert(all.take(done + 1).drop_last() =~= all.take(done));
            assert(all.take(done + 1).last() == c);
            reveal(Seq::filter);
        }
        if !c.is_idle(now) {
            kept.push(c);
        }
        proof {
            done = done + 1;
            assert(rest@ =~= all.skip(done));
        }
    }
    assert(all.take(done) =~= all);
    kept
}

/// How many requests `n` connections serve at a time.
fn room_for(n: u64) -> (r: u128)
    ensures
        r == n * POOL_REQUESTS_PER_CONN,
{
    assert(n * POOL_REQUESTS_PER_CONN == n * 5);
    n as u128 * (POOL_REQUESTS_PER_CONN as u128)
}

/// Where the first connection is that takes one more request.
fn find_usable<C>(conns: &Vec<Pooled<C>>) -> (r: Option<usize>)
    ensures
        match r {
            Some(i) => first_usable(conns@, i as int),
            None => none_usable(conns@),
        },
{
    let mut i: usize = 0;
    while i < conns.len()
        invariant
            i <= conns@.len(),
            forall|j: int| 0 <= j < i ==> !(#[trigger] conns@[j]).usable(),
        decreases conns@.len() - i,
    {
        if conns[i].is_usable() {
            return Some(i);
        }
        i += 1;
    }
    None
}

/// Where no connection is marked idle, none is dropped.
pub proof fn lemma_live_keeps_all<C>(conns: Seq<Pooled<C>>, now: u128)
    requires
        forall|i: int| 0 <= i < conns.len() ==> (#[trigger] conns[i]).idle_at is None,
    ensures
        live(conns, now) == conns,
    decreases conns.len(),
{
    reveal(Seq::filter);
    if conns.len() > 0 {
        lemma_live_keeps_all(conns.drop_last(), now);
        assert(conns =~= conns.drop_last().push(conns.last()));
    }
}

impl<C: Clone, W> Pool<C, W> {
    /// The pool's tables are in order and every connection in it is.
    pub closed spec fn wf(self) -> bool {
        &&& self.connecting.wf()
        &&& self.pooled.wf()
        &&& self.waiters.wf()
        &&& self@.wf()
    }

    /// What is well-formed holds connections that are in order.
    pub proof fn wf_view(self)
        requires
            self.wf(),
        ensures
            self@.wf(),
    {
    }

    /// An empty pool.
    pub fn new() -> (p: Pool<C, W>)
        ensures
            p.wf(),
            p@ == (PoolView::<C, W> {
                connecting: Map::empty(),
                pooled: Map::empty(),
                waiters: Map::empty(),
                next_id: 0,
            }),
    {
        let p = Pool {
            connecting: AssocMap::new(),
            pooled: AssocMap::new(),
            waiters: AssocMap::new(),
            next_id: 0,
        };
        assert(p@.pooled =~= Map::<KeyView, Seq<Pooled<C>>>::empty());
        assert(p@.waiters =~= Map::<KeyView, Seq<W>>::empty());
        p
    }

    /// Asks for a connection for `key` at `now`. If a pooled one takes one more request, it
    /// is shared; if the connections being established for the key can fit the request,
    /// `waiter` queues up for one; otherwise the caller should establish one.
    pub fn checkout(&mut self, key: &Key, waiter: W, now: u128) -> (res: Checkout<C>)
        requires
            old(self).wf(),
        ensures
            final(self).wf(),
            old(self)@.checks_out(key@, waiter, now, res, final(self)@),
            ({
                let queued: nat = if old(self)@.waiters.contains_key(key@) {
                    old(self)@.waiters[key@].len()
                } else {
                    0
                };
                let establishing: nat = if old(self)@.connecting.contains_key(key@) {
                    old(self)@.connecting[key@] as nat
                } else {
                    0
                };
                let with_room = exists|i: int|
                    old(self)@.pooled.contains_key(key@) && 0 <= i < old(self)@.pooled[key@].len()
                        && (#[trigger] old(self)@.pooled[key@][i]).active < 5;
                &&& res is Ready <==> with_room
                &&& res is Waiting <==> !with_room && queued < 5 * establishing
                &&& res is Connect <==> !with_room && queued >= 5 * establishing
            }),
    {
        let ghost pre = self@;
        let ghost conns = live(pre.conns(key@), now);
        proof {
            lemma_live_keeps_all(pre.conns(key@), now);
        }
        match self.pooled.remove(key) {
            Some(all) => {
                assert(all@ == pre.conns(key@));
                let mut live_conns = drop_idle(all, now);
                match find_usable(&live_conns) {
                    Some(i) => {
                        let lease = Lease {
                            id: live_conns[i].id,
                            value: live_conns[i].value.clone(),
                        };
                        live_conns[i].active = live_conns[i].active + 1;
                        assert(live_conns@ =~= conns.update(
                            i as int,
                            conns[i as int].with_active((conns[i as int].active + 1) as u64),
                        ));
                        self.pooled.insert(key.clone(), live_conns);
                        assert(first_usable(conns, i as int));
                        assert(self@ =~= pre.with_conns(key@, live_conns@));
                        assert(pre.pooled[key@][i as int].active < 5);
                        return Checkout::Ready(lease);
                    },
                    None => {
                        if live_conns.len() > 0 {
                            self.pooled.insert(key.clone(), live_conns);
                        }
                    },
                }
            },
            None => {},
        }
        assert(self@ =~= pre.with_conns(key@, conns));
        assert forall|i: int|
            pre.pooled.contains_key(key@) && 0 <= i < pre.pooled[key@].len() implies (
        #[trigger] pre.pooled[key@][i]).active >= 5 by {
            assert(!conns[i].usable());
        }
        let num_connecting: u64 = match self.connecting.get(key) {
            Some(n) => *n,
            None => 0,
        };
        let num_waiting: u64 = match self.waiters.get(key) {
            Some(q) => q.len() as u64,
            None => 0,
        };
        assert(num_waiting == pre.waiting(key@).len());
        assert(num_connecting == pre.connecting_count(key@));
        let room = room_for(num_connecting);
        if (num_waiting as u128) < room {
            let mut queue = match self.waiters.remove(key) {
                Some(q) => q,
                None => VecDeque::new(),
            };
            queue.push_back(waiter);
            assert(queue@ =~= pre.waiting(key@).push(waiter));
            self.waiters.insert(key.clone(), queue);
            assert(self@ =~= pre.with_conns(key@, conns).with_waiting(
                key@,
                pre.waiting(key@).push(waiter),
            ));
            Checkout::Waiting
        } else {
            Checkout::Connect
        }
    }

    /// Marks `key` as having one more connection being established.
    pub fn connecting(&mut self, key: &Key)
        requires
            old(self).wf(),
            old(self)@.connecting_count(key@) < u64::MAX,
        ensures
            final(self).wf(),
            final(self)@ == old(self)@.with_connecting(
                key@,
                (old(self)@.connecting_count(key@) + 1) as u64,
            ),
    {
        let n: u64 = match self.connecting.get(key) {
            Some(n) => *n,
            None => 0,
        };
        self.connecting.insert(key.clone(), n + 1);
    }

    /// How many connections are being established for `key`.
    pub fn num_connecting(&self, key: &Key) -> (n: u64)
        requires
            self.wf(),
        ensures
            n == self@.connecting_count(key@),
    {
        match self.connecting.get(key) {
            Some(n) => *n,
            None => 0,
        }
    }

    /// Adds a connection that was being established for `key`. Its opener gets the first
    /// share, and those who waited longest get the others.
    pub fn add_to_pool(&mut self, key: &Key, value: C) -> (added: Added<C, W>)
        requires
            old(self).wf(),
            old(self)@.connecting_count(key@) > 0,
            old(self)@.next_id < u64::MAX,
        ensures
            final(self).wf(),
            old(self)@.adds(key@, value, added, final(self)@),
    {
        let ghost pre = self@;
        let id = self.next_id;
        let n = self.num_connecting(key);
        self.connecting.insert(key.clone(), n - 1);
        self.next_id = id + 1;
        let mut entry = Pooled { id, value: value.clone(), active: 1, idle_at: None };
        let mut served: Vec<(W, Lease<C>)> = Vec::new();
        let ghost waiting = pre.waiting(key@);
        let mut queue = match self.waiters.remove(key) {
            Some(q) => q,
            None => VecDeque::new(),
        };
        assert(queue@ =~= waiting.skip(0));
        while queue.len() > 0 && entry.is_usable()
            invariant
                1 <= entry.active <= POOL_REQUESTS_PER_CONN,
                entry.active - 1 <= waiting.len(),
                queue@ == waiting.skip(entry.active - 1),
                entry.id == id,
                entry.idle_at is None,
                cloned(value, entry.value),
                served@.len() == entry.active - 1,
                forall|i: int|
                    0 <= i < served@.len() ==> {
                        let s = #[trigger] served@[i];
                        s.0 == waiting[i] && s.1.id == id && cloned(value, s.1.value)
                    },
            decreases queue@.len(),
        {
            match queue.pop_front() {
                Some(waiter) => {
                    served.push((waiter, Lease { id, value: value.clone() }));
                    entry.active = entry.active + 1;
                    assert(queue@ =~= waiting.skip(entry.active - 1));
                },
                None => {},
            }
        }
        if queue.len() > 0 {
            self.waiters.insert(key.clone(), queue);
        }
        let mut conns = match self.pooled.remove(key) {
            Some(c) => c,
            None => Vec::new(),
        };
        assert(conns@ == pre.conns(key@));
        let ghost entry_view = entry;
        conns.push(entry);
        self.pooled.insert(key.clone(), conns);
        proof {
            let t = pre.takes_on(key@);
            assert(entry_view.active == t + 1);
            assert(cloned(value, entry_view.value));
            assert(self@ =~= (PoolView { next_id: (id + 1) as u64, ..pre }).with_connecting(
                key@,
                (pre.connecting_count(key@) - 1) as u64,
            ).with_waiting(key@, waiting.skip(t as int)).with_conns(
                key@,
                pre.conns(key@).push(entry_view),
            ));
        }
        Added { lease: Lease { id, value }, served }
    }

    /// Gives one request back on the connection `id` for `key`. A connection that is no
    /// longer in the pool needs no account.
    pub fn release(&mut self, key: &Key, id: u64)
        requires
            old(self).wf(),
            old(self)@.carries(key@, id),
        ensures
            final(self).wf(),
            old(self)@.releases(key@, id, final(self)@),
    {
        let ghost pre = self@;
        let mut conns = match self.pooled.remove(key) {
            Some(c) => c,
            None => {
                assert(self@ =~= pre);
                return;
            },
        };
        let ghost all = conns@;
        assert(all == pre.conns(key@));
        let mut i: usize = 0;
        while i < conns.len() && conns[i].id != id
            invariant
                i <= conns@.len(),
                conns@ == all,
                forall|j: int| 0 <= j < i ==> (#[trigger] all[j]).id != id,
            decreases conns@.len() - i,
        {
            i += 1;
        }
        if i < conns.len() {
            assert(all[i as int].id == id);
            assert(pre.conns(key@)[i as int].active > 0);
            conns[i].active = conns[i].active - 1;
            let ghost after = all.update(
                i as int,
                all[i as int].with_active((all[i as int].active - 1) as u64),
            );
            assert(conns@ =~= after);
            self.pooled.insert(key.clone(), conns);
            assert(self@ =~= pre.with_conns(key@, after));
        } else {
            self.pooled.insert(key.clone(), conns);
            assert(self@ =~= pre);
        }
    }

    /// Starts to get a stream for `key`: with a pooled connection if there is one, else by
    /// waiting for one that is being established, else by establishing one.
    pub fn connect(&mut self, key: &Key, waiter: W, now: u128) -> (step: ConnectStep<C>)
        requires
            old(self).wf(),
            old(self)@.connecting_count(key@) < u64::MAX,
        ensures
            final(self).wf(),
            match step {
                ConnectStep::Send(lease) => old(self)@.checks_out(
                    key@,
                    waiter,
                    now,
                    Checkout::Ready(lease),
                    final(self)@,
                ),
                ConnectStep::Wait => old(self)@.checks_out(
                    key@,
                    waiter,
                    now,
                    Checkout::Waiting,
                    final(self)@,
                ),
                ConnectStep::Dial => exists|mid: PoolView<C, W>| #[trigger]
                    old(self)@.checks_out(key@, waiter, now, Checkout::Connect, mid) && final(self)@
                        == mid.with_connecting(key@, (mid.connecting_count(key@) + 1) as u64),
            },
            ({
                let queued: nat = if old(self)@.waiters.contains_key(key@) {
                    old(self)@.waiters[key@].len()
                } else {
                    0
                };
                let establishing: nat = if old(self)@.connecting.contains_key(key@) {
                    old(self)@.connecting[key@] as nat
                } else {
                    0
                };
                let with_room = exists|i: int|
                    old(self)@.pooled.contains_key(key@) && 0 <= i < old(self)@.pooled[key@].len()
                        && (#[trigger] old(self)@.pooled[key@][i]).active < 5;
                &&& step is Send <==> with_room
                &&& step is Wait <==> !with_room && queued < 5 * establishing
                &&& step is Dial <==> !with_room && queued >= 5 * establishing
            }),
    {
        match self.checkout(key, waiter, now) {
            Checkout::Ready(lease) => ConnectStep::Send(lease),
            Checkout::Waiting => ConnectStep::Wait,
            Checkout::Connect => {
                self.connecting(key);
                ConnectStep::Dial
            },
        }
    }

    /// Goes on after a wait: with the connection that was handed over, or, where none came,
    /// by establishing one.
    pub fn resume(&mut self, key: &Key, handed: Option<Lease<C>>) -> (step: ConnectStep<C>)
        requires
            old(self).wf(),
            old(self)@.connecting_count(key@) < u64::MAX,
        ensures
            final(self).wf(),
            match handed {
                Some(lease) => step == ConnectStep::Send(lease) && final(self)@ == old(self)@,
                None => step == ConnectStep::<C>::Dial && final(self)@
                    == old(self)@.with_connecting(
                    key@,
                    (old(self)@.connecting_count(key@) + 1) as u64,
                ),
            },
    {
        match handed {
            Some(lease) => ConnectStep::Send(lease),
            None => {
                self.connecting(key);
                ConnectStep::Dial
            },
        }
    }

    /// Goes on after an attempt to establish a connection: a new connection joins the pool. A
    /// failure is handed on, and the attempt is no longer marked.
    pub fn dialed<E>(&mut self, key: &Key, outcome: Result<C, E>) -> (r: Result<Added<C, W>, E>)
        requires
            old(self).wf(),
            old(self)@.connecting_count(key@) > 0,
            outcome is Ok ==> old(self)@.next_id < u64::MAX,
        ensures
            final(self).wf(),
            match outcome {
                Ok(value) => r is Ok && old(self)@.adds(key@, value, r->Ok_0, final(self)@),
                Err(e) => r == Err::<Added<C, W>, E>(e) && final(self)@
                    == old(self)@.after_failure(key@),
            },
    {
        match outcome {
            Ok(value) => Ok(self.add_to_pool(key, value)),
            Err(e) => {
                let n = self.num_connecting(key);
                self.connecting.insert(key.clone(), n - 1);
                Err(e)
            },
        }
    }

    /// Whether the connection `id` for `key`, where it is in the pool, carries a request.
    pub fn can_release(&self, key: &Key, id: u64) -> (r: bool)
        requires
            self.wf(),
        ensures
            r == self@.carries(key@, id),
    {
        match self.pooled.get(key) {
            Some(conns) => {
                assert(conns@ == self@.conns(key@));
                let mut i: usize = 0;
                while i < conns.len()
                    invariant
                        i <= conns@.len(),
                        conns@ == self@.conns(key@),
                        forall|j: int|
                            0 <= j < i && (#[trigger] conns@[j]).id == id ==> conns@[j].active > 0,
                    decreases conns@.len() - i,
                {
                    if conns[i].id == id && conns[i].active == 0 {
                        assert(self@.conns(key@)[i as int].id == id);
                        return false;
                    }
                    i += 1;
                }
                true
            },
            None => true,
        }
    }

    /// Whether one more connection can be numbered.
    pub fn can_add(&self) -> (r: bool)
        ensures
            r == (self@.next_id < u64::MAX),
    {
        self.next_id < u64::MAX
    }
}

} // verus!
