//! What holds of the pool across its operations.

use vstd::multiset::Multiset;
use vstd::pervasive::cloned;
use vstd::prelude::*;

use crate::proxy::key::KeyView;
use crate::proxy::pool::{
    first_usable, lemma_live_keeps_all, live, none_usable, Added, Checkout, Lease, Pool, PoolView,
    Pooled, POOL_REQUESTS_PER_CONN,
};

verus! {

/// No connection ever carries more requests than it may.
pub proof fn never_oversubscribed<C: Clone, W>(pool: Pool<C, W>, k: KeyView, i: int)
    requires
        pool.wf(),
        0 <= i < pool@.conns(k).len(),
    ensures
        pool@.conns(k)[i].active <= POOL_REQUESTS_PER_CONN,
{
    pool.wf_view();
    assert(pool@.pooled[k][i].active <= POOL_REQUESTS_PER_CONN);
}

/// Where no connection is marked idle, a checkout drops none.
pub proof fn checkout_drops_nothing<C: Clone, W>(pre: PoolView<C, W>, k: KeyView, now: u128)
    requires
        pre.wf(),
    ensures
        live(pre.conns(k), now) == pre.conns(k),
{
    assert forall|i: int| 0 <= i < pre.conns(k).len() implies (
    #[trigger] pre.conns(k)[i]).idle_at is None by {
        assert(pre.pooled[k][i].idle_at is None);
    }
    lemma_live_keeps_all(pre.conns(k), now);
}

/// A request gets a pooled connection exactly when one takes one more request, and never
/// waits or dials in that case.
pub proof fn ready_iff_usable<C: Clone, W>(
    pre: PoolView<C, W>,
    k: KeyView,
    waiter: W,
    now: u128,
    res: Checkout<C>,
    post: PoolView<C, W>,
)
    requires
        pre.wf(),
        pre.checks_out(k, waiter, now, res, post),
    ensures
        res is Ready <==> exists|i: int| 0 <= i < pre.conns(k).len() && (#[trigger] pre.conns(
            k,
        )[i]).usable(),
{
    checkout_drops_nothing(pre, k, now);
    if res is Ready {
        let i = choose|i: int| #[trigger] first_usable(pre.conns(k), i) && res->Ready_0.id
            == pre.conns(k)[i].id;
        assert(pre.conns(k)[i].usable());
    }
}

/// Giving a request back undoes the checkout that took it.
pub proof fn release_undoes_checkout<C: Clone, W>(
    pre: PoolView<C, W>,
    k: KeyView,
    waiter: W,
    now: u128,
    res: Checkout<C>,
    mid: PoolView<C, W>,
    post: PoolView<C, W>,
)
    requires
        pre.wf(),
        pre.checks_out(k, waiter, now, res, mid),
        res is Ready,
        mid.releases(k, res->Ready_0.id, post),
    ensures
        post == pre,
{
    checkout_drops_nothing(pre, k, now);
    let conns = pre.conns(k);
    let lease = res->Ready_0;
    let i = choose|i: int| #[trigger]
        first_usable(conns, i) && lease.id == conns[i].id && cloned(conns[i].value, lease.value)
            && mid == pre.with_conns(
            k,
            conns.update(i, conns[i].with_active((conns[i].active + 1) as u64)),
        );
    let taken = conns.update(i, conns[i].with_active((conns[i].active + 1) as u64));
    assert(mid.conns(k) == taken);
    assert(taken[i].id == lease.id);
    let j = choose|j: int|
        0 <= j < taken.len() && (#[trigger] taken[j]).id == lease.id && post == mid.with_conns(
            k,
            taken.update(j, taken[j].with_active((taken[j].active - 1) as u64)),
        );
    assert(pre.pooled[k] == conns);
    assert(conns[i].id == pre.pooled[k][i].id);
    if j != i {
        assert(pre.pooled[k][j].id == taken[j].id);
        if i < j {
            assert(pre.pooled[k][i].id != pre.pooled[k][j].id);
        } else {
            assert(pre.pooled[k][j].id != pre.pooled[k][i].id);
        }
    }
    assert(taken.update(i, taken[i].with_active((taken[i].active - 1) as u64)) =~= conns);
    assert(post.pooled =~= pre.pooled);
}

/// A connection that was just added and is not taken up by those who waited serves the next
/// request for its key: the request does not have to wait or dial.
pub proof fn added_connection_is_shared<C: Clone, W>(
    pre: PoolView<C, W>,
    k: KeyView,
    value: C,
    added: Added<C, W>,
    mid: PoolView<C, W>,
    waiter: W,
    now: u128,
    res: Checkout<C>,
    post: PoolView<C, W>,
)
    requires
        pre.wf(),
        mid.wf(),
        pre.adds(k, value, added, mid),
        pre.waiting(k).len() < POOL_REQUESTS_PER_CONN - 1,
        mid.checks_out(k, waiter, now, res, post),
    ensures
        res is Ready,
        none_usable(pre.conns(k)) ==> res->Ready_0.id == added.lease.id,
{
    checkout_drops_nothing(mid, k, now);
    let n = pre.takes_on(k);
    let c = choose|c: Pooled<C>| #[trigger]
        cloned(value, c.value) && c.id == pre.next_id && c.active == n + 1 && c.idle_at is None
            && mid == (PoolView { next_id: (pre.next_id + 1) as u64, ..pre }).with_connecting(
            k,
            (pre.connecting_count(k) - 1) as u64,
        ).with_waiting(k, pre.waiting(k).skip(n as int)).with_conns(k, pre.conns(k).push(c));
    let last = pre.conns(k).len() as int;
    assert(mid.conns(k) == pre.conns(k).push(c));
    assert(mid.conns(k)[last] == c);
    assert(c.usable());
    ready_iff_usable(mid, k, waiter, now, res, post);
    if none_usable(pre.conns(k)) {
        let conns = mid.conns(k);
        let i = choose|i: int| #[trigger] first_usable(conns, i) && res->Ready_0.id == conns[i].id;
        assert(i == last) by {
            if i < last {
                assert(pre.conns(k)[i] == conns[i]);
            }
        }
    }
}

/// Those who get a share and those who keep waiting are together those who waited, in the
/// order in which they came.
pub proof fn waiters_are_served_in_order<C: Clone, W>(
    pre: PoolView<C, W>,
    k: KeyView,
    value: C,
    added: Added<C, W>,
    post: PoolView<C, W>,
)
    requires
        pre.adds(k, value, added, post),
    ensures
        added.served@.map_values(|s: (W, Lease<C>)| s.0) + post.waiting(k)
            == pre.waiting(k),
{
    let n = pre.takes_on(k);
    let first = added.served@.map_values(|s: (W, Lease<C>)| s.0);
    assert(post.waiting(k) =~= pre.waiting(k).skip(n as int));
    assert(first =~= pre.waiting(k).take(n as int));
    assert(first + post.waiting(k) =~= pre.waiting(k));
}

/// A request that queues up fits the connections being established, counted in full.
pub proof fn waiters_fit_what_is_established<C: Clone, W>(
    pre: PoolView<C, W>,
    k: KeyView,
    waiter: W,
    now: u128,
    post: PoolView<C, W>,
)
    requires
        pre.checks_out(k, waiter, now, Checkout::Waiting, post),
    ensures
        post.waiting(k) == pre.waiting(k).push(waiter),
        post.waiting(k).len() <= post.connecting_count(k) * POOL_REQUESTS_PER_CONN,
{
}

/// Establishing a connection and adding it leaves as many being established as before.
pub proof fn adding_settles_connecting<C: Clone, W>(
    pre: PoolView<C, W>,
    k: KeyView,
    value: C,
    added: Added<C, W>,
    post: PoolView<C, W>,
)
    requires
        pre.connecting_count(k) < u64::MAX,
        pre.with_connecting(k, (pre.connecting_count(k) + 1) as u64).adds(k, value, added, post),
    ensures
        post.connecting_count(k) == pre.connecting_count(k),
{
}

/// What happens for one key changes nothing for another.
pub proof fn keys_are_independent<C: Clone, W>(
    pre: PoolView<C, W>,
    k: KeyView,
    other: KeyView,
    post: PoolView<C, W>,
)
    requires
        k != other,
        ({
            ||| exists|w: W, now: u128, res: Checkout<C>| pre.checks_out(k, w, now, res, post)
            ||| exists|value: C, added: Added<C, W>| pre.adds(k, value, added, post)
            ||| exists|id: u64| pre.releases(k, id, post)
            ||| post == pre.after_failure(k)
            ||| exists|n: u64| post == pre.with_connecting(k, n)
        }),
    ensures
        post.conns(other) == pre.conns(other),
        post.waiting(other) == pre.waiting(other),
        post.connecting_count(other) == pre.connecting_count(other),
{
}

/// How many requests connections carry together.
pub open spec fn in_use<C>(conns: Seq<Pooled<C>>) -> nat
    decreases conns.len(),
{
    if conns.len() == 0 {
        0
    } else {
        in_use(conns.drop_last()) + conns.last().active as nat
    }
}

/// What changes for one connection changes for all of them together.
proof fn lemma_in_use_update<C>(conns: Seq<Pooled<C>>, i: int, c: Pooled<C>)
    requires
        0 <= i < conns.len(),
    ensures
        in_use(conns.update(i, c)) == in_use(conns) - conns[i].active + c.active,
    decreases conns.len(),
{
    let next = conns.update(i, c);
    if i < conns.len() - 1 {
        lemma_in_use_update(conns.drop_last(), i, c);
        assert(next.drop_last() =~= conns.drop_last().update(i, c));
    } else {
        assert(next.drop_last() =~= conns.drop_last());
    }
}

/// A checkout takes up exactly one request where it gives a connection, and none otherwise.
pub proof fn checkouts_are_accounted_for<C: Clone, W>(
    pre: PoolView<C, W>,
    k: KeyView,
    waiter: W,
    now: u128,
    res: Checkout<C>,
    post: PoolView<C, W>,
)
    requires
        pre.wf(),
        pre.checks_out(k, waiter, now, res, post),
    ensures
        in_use(post.conns(k)) == in_use(pre.conns(k)) + if res is Ready {
            1int
        } else {
            0
        },
{
    checkout_drops_nothing(pre, k, now);
    let conns = pre.conns(k);
    if res is Ready {
        let lease = res->Ready_0;
        let i = choose|i: int| #[trigger]
            first_usable(conns, i) && lease.id == conns[i].id && cloned(
                conns[i].value,
                lease.value,
            ) && post == pre.with_conns(
                k,
                conns.update(i, conns[i].with_active((conns[i].active + 1) as u64)),
            );
        lemma_in_use_update(conns, i, conns[i].with_active((conns[i].active + 1) as u64));
    } else {
        assert(post.conns(k) =~= conns);
    }
}

/// A new connection takes up one request for its opener and one for each who got a share.
pub proof fn additions_are_accounted_for<C: Clone, W>(
    pre: PoolView<C, W>,
    k: KeyView,
    value: C,
    added: Added<C, W>,
    post: PoolView<C, W>,
)
    requires
        pre.adds(k, value, added, post),
    ensures
        in_use(post.conns(k)) == in_use(pre.conns(k)) + 1 + added.served@.len(),
{
    let n = pre.takes_on(k);
    let c = choose|c: Pooled<C>| #[trigger]
        cloned(value, c.value) && c.id == pre.next_id && c.active == n + 1 && c.idle_at is None
            && post == (PoolView { next_id: (pre.next_id + 1) as u64, ..pre }).with_connecting(
            k,
            (pre.connecting_count(k) - 1) as u64,
        ).with_waiting(k, pre.waiting(k).skip(n as int)).with_conns(k, pre.conns(k).push(c));
    assert(post.conns(k) == pre.conns(k).push(c));
    assert(post.conns(k).drop_last() =~= pre.conns(k));
}

/// Giving a request back on a connection that is in the pool frees exactly one.
pub proof fn releases_are_accounted_for<C: Clone, W>(
    pre: PoolView<C, W>,
    k: KeyView,
    id: u64,
    post: PoolView<C, W>,
)
    requires
        pre.releases(k, id, post),
        exists|i: int| 0 <= i < pre.conns(k).len() && (#[trigger] pre.conns(k)[i]).id == id,
        forall|i: int|
            0 <= i < pre.conns(k).len() && (#[trigger] pre.conns(k)[i]).id == id ==> pre.conns(
                k,
            )[i].active > 0,
    ensures
        in_use(post.conns(k)) == in_use(pre.conns(k)) - 1,
{
    let conns = pre.conns(k);
    let i = choose|i: int|
        0 <= i < conns.len() && (#[trigger] conns[i]).id == id && post == pre.with_conns(
            k,
            conns.update(i, conns[i].with_active((conns[i].active - 1) as u64)),
        );
    lemma_in_use_update(conns, i, conns[i].with_active((conns[i].active - 1) as u64));
}

/// An attempt to establish a connection that fails leaves no trace: as many connections are
/// being established for the key as before it was made, and the connections in the pool and
/// those who wait are the same.
pub proof fn failed_dial_leaves_no_mark<C: Clone, W>(
    pre: PoolView<C, W>,
    k: KeyView,
    waiter: W,
    now: u128,
    mid: PoolView<C, W>,
)
    requires
        pre.wf(),
        pre.connecting_count(k) < u64::MAX,
        pre.checks_out(k, waiter, now, Checkout::Connect, mid),
    ensures
        ({
            let dialing = mid.with_connecting(k, (mid.connecting_count(k) + 1) as u64);
            let post = dialing.after_failure(k);
            &&& post.connecting_count(k) == pre.connecting_count(k)
            &&& post.conns(k) == pre.conns(k)
            &&& post.waiting(k) == pre.waiting(k)
            &&& post.next_id == pre.next_id
        }),
{
    checkout_drops_nothing(pre, k, now);
}

/// A pool and the shares in its connections that are in use: a share is known by the key and
/// the number of its connection.
pub struct PoolUse<C, W> {
    pub pool: PoolView<C, W>,
    pub shares: Multiset<(KeyView, u64)>,
}

/// As many shares of the connection `id` for `k` as `n`.
pub open spec fn shares_of(k: KeyView, id: u64, n: nat) -> Multiset<(KeyView, u64)> {
    Multiset::from_map(map![(k, id) => n])
}

proof fn lemma_shares_of(k: KeyView, id: u64, n: nat)
    ensures
        forall|s: (KeyView, u64)| #[trigger]
            shares_of(k, id, n).count(s) == if s == (k, id) {
                n
            } else {
                0
            },
{
    broadcast use vstd::multiset::group_multiset_axioms;

    let m = map![(k, id) => n];
    assert forall|s: (KeyView, u64)| #[trigger] shares_of(k, id, n).count(s) == if s == (k, id) {
        n
    } else {
        0
    } by {
        assert(m.dom().finite());
        if s == (k, id) {
            assert(m.dom().contains(s));
        } else {
            assert(!m.dom().contains(s));
        }
    }
}

impl<C: Clone, W> PoolUse<C, W> {
    /// A checkout for `k`: where it gives a connection, one more share is in use.
    pub open spec fn checks_out(self, k: KeyView, post: PoolUse<C, W>) -> bool {
        exists|waiter: W, now: u128, res: Checkout<C>| #[trigger]
            self.pool.checks_out(k, waiter, now, res, post.pool) && post.shares == match res {
                Checkout::Ready(lease) => self.shares.add(shares_of(k, lease.id, 1)),
                _ => self.shares,
            }
    }

    /// A connection begins to be established for `k`.
    pub open spec fn connects(self, k: KeyView, post: PoolUse<C, W>) -> bool {
        &&& self.pool.connecting_count(k) < u64::MAX
        &&& post.pool == self.pool.with_connecting(
            k,
            (self.pool.connecting_count(k) + 1) as u64,
        )
        &&& post.shares == self.shares
    }

    /// A connection for `k` is added: the opener and each who got a share use it.
    pub open spec fn adds(self, k: KeyView, post: PoolUse<C, W>) -> bool {
        &&& self.pool.next_id < u64::MAX
        &&& exists|value: C, added: Added<C, W>| #[trigger]
            self.pool.adds(k, value, added, post.pool) && post.shares == self.shares.add(
                shares_of(k, added.lease.id, 1 + added.served@.len()),
            )
    }

    /// An attempt to establish a connection for `k` fails.
    pub open spec fn fails(self, k: KeyView, post: PoolUse<C, W>) -> bool {
        &&& post.pool == self.pool.after_failure(k)
        &&& post.shares == self.shares
    }

    /// A share in a connection for `k` is given back by one who has it.
    pub open spec fn releases(self, k: KeyView, post: PoolUse<C, W>) -> bool {
        exists|id: u64| #[trigger]
            self.pool.releases(k, id, post.pool) && self.shares.count((k, id)) > 0 && post.shares
                == self.shares.sub(shares_of(k, id, 1))
    }

    /// Whether any one of these happens.
    pub open spec fn steps_to(self, post: PoolUse<C, W>) -> bool {
        exists|k: KeyView| #[trigger]
            self.checks_out(k, post) || self.connects(k, post) || self.adds(k, post) || self.fails(
                k,
                post,
            ) || self.releases(k, post)
    }

    /// Every connection carries exactly the requests of those who have a share in it, never
    /// more than it may.
    pub open spec fn accounted_for(self) -> bool {
        &&& self.pool.wf()
        &&& forall|k: KeyView, i: int|
            self.pool.pooled.contains_key(k) && 0 <= i < self.pool.pooled[k].len() ==> (
            #[trigger] self.pool.pooled[k][i]).active == self.shares.count(
                (k, self.pool.pooled[k][i].id),
            )
        &&& forall|k: KeyView, id: u64| #[trigger]
            self.shares.count((k, id)) > 0 ==> id < self.pool.next_id
    }

    /// A pool that was just made.
    pub open spec fn is_new(self) -> bool {
        &&& self.pool.connecting.dom() == Set::<KeyView>::empty()
        &&& self.pool.pooled.dom() == Set::<KeyView>::empty()
        &&& self.pool.waiters.dom() == Set::<KeyView>::empty()
        &&& self.shares == Multiset::<(KeyView, u64)>::empty()
    }
}

proof fn lemma_checkout_accounted<C: Clone, W>(pre: PoolUse<C, W>, k: KeyView, post: PoolUse<C, W>)
    requires
        pre.accounted_for(),
        pre.checks_out(k, post),
    ensures
        post.accounted_for(),
{
    broadcast use vstd::multiset::group_multiset_axioms;

    let (waiter, now, res) = choose|waiter: W, now: u128, res: Checkout<C>| #[trigger]
        pre.pool.checks_out(k, waiter, now, res, post.pool) && post.shares == match res {
            Checkout::Ready(lease) => pre.shares.add(shares_of(k, lease.id, 1)),
            _ => pre.shares,
        };
    checkout_drops_nothing(pre.pool, k, now);
    let conns = pre.pool.conns(k);
    match res {
        Checkout::Ready(lease) => {
            lemma_shares_of(k, lease.id, 1);
            let i = choose|i: int| #[trigger]
                first_usable(conns, i) && lease.id == conns[i].id && cloned(
                    conns[i].value,
                    lease.value,
                ) && post.pool == pre.pool.with_conns(
                    k,
                    conns.update(i, conns[i].with_active((conns[i].active + 1) as u64)),
                );
            assert(pre.pool.pooled[k] == conns);
            assert(conns[i] == pre.pool.pooled[k][i]);
            let after = conns.update(i, conns[i].with_active((conns[i].active + 1) as u64));
            assert(post.pool.pooled == pre.pool.pooled.insert(k, after));
            assert forall|k2: KeyView, j: int|
                post.pool.pooled.contains_key(k2) && 0 <= j < post.pool.pooled[k2].len() implies {
                let c = #[trigger] post.pool.pooled[k2][j];
                let o = pre.pool.pooled[k2][j];
                c.id == o.id && c.idle_at == o.idle_at && c.active == o.active + if k2 == k && j
                    == i {
                    1int
                } else {
                    0
                }
            } by {}
            assert forall|k2: KeyView, j: int|
                post.pool.pooled.contains_key(k2) && 0 <= j < post.pool.pooled[k2].len() implies (
            #[trigger] post.pool.pooled[k2][j]).active == post.shares.count(
                (k2, post.pool.pooled[k2][j].id),
            ) by {
                let o = pre.pool.pooled[k2][j];
                if k2 == k && j != i {
                    if i < j {
                        assert(pre.pool.pooled[k][i].id != pre.pool.pooled[k][j].id);
                    } else {
                        assert(pre.pool.pooled[k][j].id != pre.pool.pooled[k][i].id);
                    }
                }
            }
            assert forall|k2: KeyView, id: u64| #[trigger]
                post.shares.count((k2, id)) > 0 implies id < post.pool.next_id by {
                assert(pre.shares.count((k2, id)) > 0 || (k2, id) == (k, lease.id));
            }
            assert(post.pool.wf()) by {
                assert forall|k2: KeyView, a: int, b: int|
                    post.pool.pooled.contains_key(k2) && 0 <= a < b
                        < post.pool.pooled[k2].len() implies (#[trigger] post.pool.pooled[k2][a]).id
                    != (#[trigger] post.pool.pooled[k2][b]).id by {
                    assert(pre.pool.pooled[k2][a].id != pre.pool.pooled[k2][b].id);
                }
            }
        },
        _ => {
            assert(post.pool.pooled =~= pre.pool.with_conns(k, conns).pooled);
            assert forall|k2: KeyView, j: int|
                post.pool.pooled.contains_key(k2) && 0 <= j < post.pool.pooled[k2].len() implies (
            #[trigger] post.pool.pooled[k2][j]) == pre.pool.pooled[k2][j]
                && pre.pool.pooled.contains_key(k2) by {}
        },
    }
}

proof fn lemma_add_accounted<C: Clone, W>(pre: PoolUse<C, W>, k: KeyView, post: PoolUse<C, W>)
    requires
        pre.accounted_for(),
        pre.adds(k, post),
    ensures
        post.accounted_for(),
{
    broadcast use vstd::multiset::group_multiset_axioms;

    let (value, added) = choose|value: C, added: Added<C, W>| #[trigger]
        pre.pool.adds(k, value, added, post.pool) && post.shares == pre.shares.add(
            shares_of(k, added.lease.id, 1 + added.served@.len()),
        );
    let n = pre.pool.takes_on(k);
    let id = pre.pool.next_id;
    lemma_shares_of(k, id, 1 + added.served@.len());
    let c = choose|c: Pooled<C>| #[trigger]
        cloned(value, c.value) && c.id == id && c.active == n + 1 && c.idle_at is None && post.pool
            == (PoolView { next_id: (id + 1) as u64, ..pre.pool }).with_connecting(
            k,
            (pre.pool.connecting_count(k) - 1) as u64,
        ).with_waiting(k, pre.pool.waiting(k).skip(n as int)).with_conns(
            k,
            pre.pool.conns(k).push(c),
        );
    assert(post.pool.pooled == pre.pool.pooled.insert(k, pre.pool.conns(k).push(c)));
    assert(pre.shares.count((k, id)) == 0);
    let last = pre.pool.conns(k).len() as int;
    assert forall|k2: KeyView, j: int|
        post.pool.pooled.contains_key(k2) && 0 <= j < post.pool.pooled[k2].len() && !(k2 == k && j
            == last) implies (#[trigger] post.pool.pooled[k2][j]) == pre.pool.pooled[k2][j]
        && pre.pool.pooled.contains_key(k2) && j < pre.pool.pooled[k2].len() by {}
    assert forall|k2: KeyView, j: int|
        post.pool.pooled.contains_key(k2) && 0 <= j < post.pool.pooled[k2].len() implies (
    #[trigger] post.pool.pooled[k2][j]).active == post.shares.count(
        (k2, post.pool.pooled[k2][j].id),
    ) by {
        if k2 == k && j == last {
            assert(post.pool.pooled[k2][j] == c);
        } else {
            assert(pre.pool.pooled[k2][j].id < id);
        }
    }
    assert forall|k2: KeyView, i2: u64| #[trigger] post.shares.count((k2, i2)) > 0 implies i2
        < post.pool.next_id by {
        assert(pre.shares.count((k2, i2)) > 0 || (k2, i2) == (k, id));
    }
    assert(post.pool.wf()) by {
        assert forall|k2: KeyView, a: int, b: int|
            post.pool.pooled.contains_key(k2) && 0 <= a < b < post.pool.pooled[k2].len() implies (
        #[trigger] post.pool.pooled[k2][a]).id != (#[trigger] post.pool.pooled[k2][b]).id by {
            assert(pre.pool.pooled[k2][a].id < id);
            if !(k2 == k && b == last) {
                assert(pre.pool.pooled[k2][a].id != pre.pool.pooled[k2][b].id);
            }
        }
        assert forall|k2: KeyView, j: int|
            post.pool.pooled.contains_key(k2) && 0 <= j < post.pool.pooled[k2].len() implies {
            let d = #[trigger] post.pool.pooled[k2][j];
            d.active <= POOL_REQUESTS_PER_CONN && d.idle_at is None && d.id < post.pool.next_id
        } by {
            if k2 == k && j == last {
                assert(post.pool.pooled[k2][j] == c);
            } else {
                assert(pre.pool.pooled[k2][j].id < id);
            }
        }
    }
}

proof fn lemma_release_accounted<C: Clone, W>(pre: PoolUse<C, W>, k: KeyView, post: PoolUse<C, W>)
    requires
        pre.accounted_for(),
        pre.releases(k, post),
    ensures
        post.accounted_for(),
{
    broadcast use vstd::multiset::group_multiset_axioms;

    let id = choose|id: u64| #[trigger]
        pre.pool.releases(k, id, post.pool) && pre.shares.count((k, id)) > 0 && post.shares
            == pre.shares.sub(shares_of(k, id, 1));
    lemma_shares_of(k, id, 1);
    assert(shares_of(k, id, 1).subset_of(pre.shares));
    let conns = pre.pool.conns(k);
    if exists|i: int| 0 <= i < conns.len() && (#[trigger] conns[i]).id == id && post.pool
        == pre.pool.with_conns(
        k,
        conns.update(i, conns[i].with_active((conns[i].active - 1) as u64)),
    ) {
        let i = choose|i: int|
            0 <= i < conns.len() && (#[trigger] conns[i]).id == id && post.pool
                == pre.pool.with_conns(
                k,
                conns.update(i, conns[i].with_active((conns[i].active - 1) as u64)),
            );
        assert(pre.pool.pooled[k] == conns);
        assert(conns[i] == pre.pool.pooled[k][i]);
        let after = conns.update(i, conns[i].with_active((conns[i].active - 1) as u64));
        assert(post.pool.pooled == pre.pool.pooled.insert(k, after));
        assert forall|k2: KeyView, j: int|
            post.pool.pooled.contains_key(k2) && 0 <= j < post.pool.pooled[k2].len() implies {
            let c = #[trigger] post.pool.pooled[k2][j];
            let o = pre.pool.pooled[k2][j];
            c.id == o.id && c.idle_at == o.idle_at && c.active == o.active - if k2 == k && j == i {
                1int
            } else {
                0
            }
        } by {}
        assert forall|k2: KeyView, j: int|
            post.pool.pooled.contains_key(k2) && 0 <= j < post.pool.pooled[k2].len() implies (
        #[trigger] post.pool.pooled[k2][j]).active == post.shares.count(
            (k2, post.pool.pooled[k2][j].id),
        ) by {
            let o = pre.pool.pooled[k2][j];
            if k2 == k && j != i {
                if i < j {
                    assert(pre.pool.pooled[k][i].id != pre.pool.pooled[k][j].id);
                } else {
                    assert(pre.pool.pooled[k][j].id != pre.pool.pooled[k][i].id);
                }
            }
        }
        assert(post.pool.wf()) by {
            assert forall|k2: KeyView, a: int, b: int|
                post.pool.pooled.contains_key(k2) && 0 <= a < b
                    < post.pool.pooled[k2].len() implies (#[trigger] post.pool.pooled[k2][a]).id != (
            #[trigger] post.pool.pooled[k2][b]).id by {
                assert(pre.pool.pooled[k2][a].id != pre.pool.pooled[k2][b].id);
            }
        }
    } else {
        assert(post.pool == pre.pool);
        assert forall|k2: KeyView, j: int|
            post.pool.pooled.contains_key(k2) && 0 <= j < post.pool.pooled[k2].len() implies (
        #[trigger] post.pool.pooled[k2][j]).active == post.shares.count(
            (k2, post.pool.pooled[k2][j].id),
        ) by {
            if k2 == k {
                assert(conns[j].id != id);
            }
        }
    }
    assert forall|k2: KeyView, i2: u64| #[trigger] post.shares.count((k2, i2)) > 0 implies i2
        < post.pool.next_id by {
        assert(pre.shares.count((k2, i2)) > 0);
    }
}

/// Whatever is done with a pool that was just made, at every moment each connection carries
/// exactly as many requests as there are shares of it in use, and never more than it may.
/// Whoever has a share can give it back.
pub proof fn every_pool_is_accounted_for<C: Clone, W>(run: Seq<PoolUse<C, W>>, j: int)
    requires
        0 <= j < run.len(),
        run[0].is_new(),
        forall|n: int| 0 <= n < run.len() - 1 ==> (#[trigger] run[n]).steps_to(run[n + 1]),
    ensures
        run[j].accounted_for(),
        forall|k: KeyView, i: int|
            0 <= i < run[j].pool.conns(k).len() ==> (#[trigger] run[j].pool.conns(k)[i]).active
                <= POOL_REQUESTS_PER_CONN,
        forall|k: KeyView, id: u64| #[trigger]
            run[j].shares.count((k, id)) > 0 ==> run[j].pool.carries(k, id),
    decreases j,
{
    broadcast use vstd::multiset::group_multiset_axioms;

    let now = run[j];
    if j == 0 {
        assert(forall|k: KeyView| !now.pool.pooled.dom().contains(k));
    } else {
        every_pool_is_accounted_for(run, j - 1);
        let pre = run[j - 1];
        assert(pre.steps_to(now));
        let k = choose|k: KeyView| #[trigger]
            pre.checks_out(k, now) || pre.connects(k, now) || pre.adds(k, now) || pre.fails(k, now)
                || pre.releases(k, now);
        if pre.checks_out(k, now) {
            lemma_checkout_accounted(pre, k, now);
        } else if pre.adds(k, now) {
            lemma_add_accounted(pre, k, now);
        } else if pre.releases(k, now) {
            lemma_release_accounted(pre, k, now);
        } else {
            assert(now.pool.pooled == pre.pool.pooled && now.pool.next_id == pre.pool.next_id);
            assert(now.pool.wf());
        }
    }
    assert forall|k: KeyView, i: int| 0 <= i < now.pool.conns(k).len() implies (
    #[trigger] now.pool.conns(k)[i]).active <= POOL_REQUESTS_PER_CONN by {
        assert(now.pool.pooled[k][i].active <= POOL_REQUESTS_PER_CONN);
    }
    assert forall|k: KeyView, id: u64| #[trigger]
        now.shares.count((k, id)) > 0 implies now.pool.carries(k, id) by {
        assert forall|i: int|
            0 <= i < now.pool.conns(k).len() && (#[trigger] now.pool.conns(k)[i]).id
                == id implies now.pool.conns(k)[i].active > 0 by {
            assert(now.pool.pooled[k][i].active == now.shares.count((k, id)));
        }
    }
}

/// A checkout that gives a connection leaves it with at least one request and no more than it
/// may carry.
pub proof fn given_connections_have_room<C: Clone, W>(
    pre: PoolView<C, W>,
    k: KeyView,
    waiter: W,
    now: u128,
    lease: Lease<C>,
    post: PoolView<C, W>,
)
    requires
        pre.wf(),
        pre.checks_out(k, waiter, now, Checkout::Ready(lease), post),
    ensures
        exists|i: int|
            0 <= i < post.conns(k).len() && (#[trigger] post.conns(k)[i]).id == lease.id && 1
                <= post.conns(k)[i].active <= POOL_REQUESTS_PER_CONN,
{
    checkout_drops_nothing(pre, k, now);
    let conns = pre.conns(k);
    let i = choose|i: int| #[trigger]
        first_usable(conns, i) && lease.id == conns[i].id && cloned(conns[i].value, lease.value)
            && post == pre.with_conns(
            k,
            conns.update(i, conns[i].with_active((conns[i].active + 1) as u64)),
        );
    assert(post.conns(k)[i].id == lease.id);
}

} // verus!
