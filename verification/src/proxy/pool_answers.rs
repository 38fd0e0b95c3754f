//! What the pool answers and how it changes, told by what it holds.

use vstd::pervasive::cloned;
use vstd::prelude::*;

use crate::proxy::key::KeyView;
use crate::proxy::pool::{
    first_usable, live, none_usable, Added, Checkout, PoolView, Pooled,
};
use crate::proxy::pool_laws::checkout_drops_nothing;

verus! {

/// What is known for a key is what the tables hold under it, and nothing where they hold
/// nothing.
pub proof fn tables_are_read_by_key<C: Clone, W>(p: PoolView<C, W>, k: KeyView)
    ensures
        p.pooled.contains_key(k) ==> p.conns(k) == p.pooled[k],
        !p.pooled.contains_key(k) ==> p.conns(k).len() == 0,
        p.waiters.contains_key(k) ==> p.waiting(k) == p.waiters[k],
        !p.waiters.contains_key(k) ==> p.waiting(k).len() == 0,
        p.connecting.contains_key(k) ==> p.connecting_count(k) == p.connecting[k],
        !p.connecting.contains_key(k) ==> p.connecting_count(k) == 0,
{
}

/// A pool is in order exactly when no connection carries more than five requests, none is
/// marked idle, and each has a number of its own that was given out before.
pub proof fn what_order_means<C: Clone, W>(p: PoolView<C, W>)
    ensures
        p.wf() <==> {
            &&& forall|k: KeyView, i: int|
                p.pooled.contains_key(k) && 0 <= i < p.pooled[k].len() ==> (
                #[trigger] p.pooled[k][i]).active <= 5
            &&& forall|k: KeyView, i: int|
                p.pooled.contains_key(k) && 0 <= i < p.pooled[k].len() ==> (
                #[trigger] p.pooled[k][i]).idle_at is None
            &&& forall|k: KeyView, i: int|
                p.pooled.contains_key(k) && 0 <= i < p.pooled[k].len() ==> (
                #[trigger] p.pooled[k][i]).id < p.next_id
            &&& forall|k: KeyView, i: int, j: int|
                p.pooled.contains_key(k) && 0 <= i < j < p.pooled[k].len() ==> (
                #[trigger] p.pooled[k][i]).id != (#[trigger] p.pooled[k][j]).id
        },
{
}

/// A connection takes up to five requests, and is idle once it has been without a request
/// for more than five seconds.
pub proof fn when_connections_serve<C>(c: Pooled<C>, now: u128, n: u64)
    ensures
        c.usable() <==> c.active < 5,
        c.idle(now) <==> c.idle_at is Some && now - c.idle_at->0 > 5_000_000_000,
        c.with_active(n).active == n,
        c.with_active(n).id == c.id,
        c.with_active(n).value == c.value,
        c.with_active(n).idle_at == c.idle_at,
{
}

/// Dropping idle connections keeps exactly those that are not idle.
pub proof fn idle_connections_go<C>(conns: Seq<Pooled<C>>, now: u128, c: Pooled<C>)
    ensures
        live(conns, now).len() <= conns.len(),
        live(conns, now).contains(c) <==> conns.contains(c) && !(c.idle_at is Some && now
            - c.idle_at->0 > 5_000_000_000),
{
    let keep = |c: Pooled<C>| !c.idle(now);
    let kept = conns.filter(keep);
    conns.lemma_filter_len(keep);
    if kept.contains(c) {
        conns.lemma_filter_contains_rev(keep, c);
        conns.lemma_filter_pred(keep, kept.index_of(c));
    }
    if conns.contains(c) && keep(c) {
        conns.lemma_filter_contains(keep, conns.index_of(c));
    }
}

/// How a request is answered: with a pooled connection exactly when one for the key carries
/// fewer than five requests; else, whatever full connections are pooled, by queueing up
/// exactly when fewer requests are queued for the key than five for each connection being
/// established for it; else by asking the caller to establish one.
pub proof fn how_requests_are_answered<C: Clone, W>(
    pre: PoolView<C, W>,
    k: KeyView,
    waiter: W,
    now: u128,
    res: Checkout<C>,
    post: PoolView<C, W>,
)
    requires
        pre.wf(),
        pre.checks_out(k, waiter, now, res, post),
    ensures
        ({
            let queued: nat = if pre.waiters.contains_key(k) {
                pre.waiters[k].len()
            } else {
                0
            };
            let establishing: nat = if pre.connecting.contains_key(k) {
                pre.connecting[k] as nat
            } else {
                0
            };
            let with_room = exists|i: int|
                pre.pooled.contains_key(k) && 0 <= i < pre.pooled[k].len() && (
                #[trigger] pre.pooled[k][i]).active < 5;
            &&& res is Ready <==> with_room
            &&& res is Waiting <==> !with_room && queued < 5 * establishing
            &&& res is Connect <==> !with_room && queued >= 5 * establishing
        }),
{
    checkout_drops_nothing(pre, k, now);
    let conns = pre.conns(k);
    if res is Ready {
        let i = choose|i: int| #[trigger] first_usable(conns, i) && res->Ready_0.id == conns[i].id;
        assert(pre.pooled[k][i].active < 5);
    } else {
        assert(none_usable(conns));
        assert forall|i: int|
            pre.pooled.contains_key(k) && 0 <= i < pre.pooled[k].len() implies (
        #[trigger] pre.pooled[k][i]).active >= 5 by {
            assert(!conns[i].usable());
        }
    }
}

/// A request that is given a connection gets the oldest one that carries fewer than five
/// requests: that one carries one more, and nothing else changes.
pub proof fn given_connections_carry_one_more<C: Clone, W>(
    pre: PoolView<C, W>,
    k: KeyView,
    waiter: W,
    now: u128,
    res: Checkout<C>,
    post: PoolView<C, W>,
) -> (i: int)
    requires
        pre.wf(),
        pre.checks_out(k, waiter, now, res, post),
        res is Ready,
    ensures
        pre.pooled.contains_key(k),
        0 <= i < pre.pooled[k].len(),
        pre.pooled[k][i].active < 5,
        forall|j: int| 0 <= j < i ==> (#[trigger] pre.pooled[k][j]).active >= 5,
        res->Ready_0.id == pre.pooled[k][i].id,
        cloned(pre.pooled[k][i].value, res->Ready_0.value),
        post.pooled.contains_key(k),
        post.pooled[k].len() == pre.pooled[k].len(),
        post.pooled[k][i].active == pre.pooled[k][i].active + 1,
        post.pooled[k][i].id == pre.pooled[k][i].id,
        post.pooled[k][i].value == pre.pooled[k][i].value,
        post.pooled[k][i].idle_at is None,
        forall|j: int|
            0 <= j < pre.pooled[k].len() && j != i ==> (#[trigger] post.pooled[k][j])
                == pre.pooled[k][j],
        post.pooled.remove(k) == pre.pooled.remove(k),
        post.waiters == pre.waiters,
        post.connecting == pre.connecting,
        post.next_id == pre.next_id,
{
    checkout_drops_nothing(pre, k, now);
    let conns = pre.conns(k);
    let lease = res->Ready_0;
    let i = choose|i: int| #[trigger]
        first_usable(conns, i) && lease.id == conns[i].id && cloned(conns[i].value, lease.value)
            && post == pre.with_conns(
            k,
            conns.update(i, conns[i].with_active((conns[i].active + 1) as u64)),
        );
    assert forall|j: int| 0 <= j < i implies (#[trigger] pre.pooled[k][j]).active >= 5 by {
        assert(!conns[j].usable());
    }
    assert(post.pooled.remove(k) =~= pre.pooled.remove(k));
    assert(pre.pooled[k][i].idle_at is None);
    i
}

/// A request that is given no connection changes no connection: where it waits it comes last
/// in the queue of its key, and where it does not, nothing changes at all.
pub proof fn others_are_left_alone<C: Clone, W>(
    pre: PoolView<C, W>,
    k: KeyView,
    waiter: W,
    now: u128,
    res: Checkout<C>,
    post: PoolView<C, W>,
)
    requires
        pre.wf(),
        pre.checks_out(k, waiter, now, res, post),
        !(res is Ready),
    ensures
        pre.pooled.contains_key(k) && pre.pooled[k].len() > 0 ==> post.pooled.contains_key(k)
            && post.pooled[k] == pre.pooled[k],
        post.pooled.contains_key(k) ==> pre.pooled.contains_key(k) && post.pooled[k]
            == pre.pooled[k],
        post.pooled.remove(k) == pre.pooled.remove(k),
        post.connecting == pre.connecting,
        post.next_id == pre.next_id,
        res is Connect ==> post.waiters == pre.waiters,
        res is Waiting ==> {
            &&& post.waiters.contains_key(k)
            &&& pre.waiters.contains_key(k) ==> post.waiters[k] == pre.waiters[k].push(waiter)
            &&& !pre.waiters.contains_key(k) ==> post.waiters[k] == seq![waiter]
            &&& post.waiters.remove(k) == pre.waiters.remove(k)
        },
{
    checkout_drops_nothing(pre, k, now);
    assert(post.pooled.remove(k) =~= pre.pooled.remove(k));
    if res is Waiting {
        assert(post.waiters.remove(k) =~= pre.waiters.remove(k));
        assert(post.waiters[k] =~= pre.waiting(k).push(waiter));
    }
}

/// Adding a connection: it comes last among those of its key, under the next number, and
/// carries the request of its opener and those of the first who waited, four at most. One
/// connection less is being established; the others keep waiting, in order; and nothing
/// changes for other keys.
pub proof fn what_adding_does<C: Clone, W>(
    pre: PoolView<C, W>,
    k: KeyView,
    value: C,
    added: Added<C, W>,
    post: PoolView<C, W>,
)
    requires
        pre.connecting_count(k) > 0,
        pre.next_id < u64::MAX,
        pre.adds(k, value, added, post),
    ensures
        ({
            let before = if pre.pooled.contains_key(k) {
                pre.pooled[k]
            } else {
                Seq::empty()
            };
            let waiting = if pre.waiters.contains_key(k) {
                pre.waiters[k]
            } else {
                Seq::empty()
            };
            let served: int = if waiting.len() < 4 {
                waiting.len() as int
            } else {
                4
            };
            let last = before.len() as int;
            &&& added.lease.id == pre.next_id
            &&& added.lease.value == value
            &&& added.served@.len() == served
            &&& forall|i: int|
                0 <= i < served ==> (#[trigger] added.served@[i]).0 == waiting[i]
                    && added.served@[i].1.id == pre.next_id && cloned(
                    value,
                    added.served@[i].1.value,
                )
            &&& post.pooled.contains_key(k)
            &&& post.pooled[k].len() == last + 1
            &&& post.pooled[k].take(last) == before
            &&& post.pooled[k][last].id == pre.next_id
            &&& cloned(value, post.pooled[k][last].value)
            &&& post.pooled[k][last].active == 1 + served
            &&& post.pooled[k][last].idle_at is None
            &&& post.pooled.remove(k) == pre.pooled.remove(k)
            &&& post.waiters.contains_key(k) == (waiting.len() > 4)
            &&& waiting.len() > 4 ==> post.waiters[k] == waiting.skip(4)
            &&& post.waiters.remove(k) == pre.waiters.remove(k)
            &&& pre.connecting.contains_key(k)
            &&& post.connecting == pre.connecting.insert(k, (pre.connecting[k] - 1) as u64)
            &&& post.next_id == pre.next_id + 1
        }),
{
    let n = pre.takes_on(k);
    let c = choose|c: Pooled<C>| #[trigger]
        cloned(value, c.value) && c.id == pre.next_id && c.active == n + 1 && c.idle_at is None
            && post == (PoolView { next_id: (pre.next_id + 1) as u64, ..pre }).with_connecting(
            k,
            (pre.connecting_count(k) - 1) as u64,
        ).with_waiting(k, pre.waiting(k).skip(n as int)).with_conns(k, pre.conns(k).push(c));
    assert(post.pooled[k] == pre.conns(k).push(c));
    assert(post.pooled[k].take(pre.conns(k).len() as int) =~= pre.conns(k));
    assert(post.pooled.remove(k) =~= pre.pooled.remove(k));
    assert(post.waiters.remove(k) =~= pre.waiters.remove(k));
}

/// A failed attempt changes one thing: one connection less is being established for its key.
pub proof fn what_failing_does<C: Clone, W>(pre: PoolView<C, W>, k: KeyView)
    requires
        pre.connecting_count(k) > 0,
    ensures
        pre.connecting.contains_key(k),
        pre.after_failure(k).connecting == pre.connecting.insert(
            k,
            (pre.connecting[k] - 1) as u64,
        ),
        pre.after_failure(k).pooled == pre.pooled,
        pre.after_failure(k).waiters == pre.waiters,
        pre.after_failure(k).next_id == pre.next_id,
{
}

/// Beginning to establish connections changes how many there are for the key, and nothing
/// else.
pub proof fn what_connecting_does<C: Clone, W>(pre: PoolView<C, W>, k: KeyView, n: u64)
    ensures
        pre.with_connecting(k, n).connecting == pre.connecting.insert(k, n),
        pre.with_connecting(k, n).pooled == pre.pooled,
        pre.with_connecting(k, n).waiters == pre.waiters,
        pre.with_connecting(k, n).next_id == pre.next_id,
{
}

/// A request can be given back exactly when no connection of that number and key is without
/// one.
pub proof fn what_carrying_means<C: Clone, W>(p: PoolView<C, W>, k: KeyView, id: u64)
    ensures
        p.carries(k, id) <==> forall|i: int|
            p.pooled.contains_key(k) && 0 <= i < p.pooled[k].len() && (
            #[trigger] p.pooled[k][i]).id == id ==> p.pooled[k][i].active > 0,
{
    if p.carries(k, id) {
        assert forall|i: int|
            p.pooled.contains_key(k) && 0 <= i < p.pooled[k].len() && (
            #[trigger] p.pooled[k][i]).id == id implies p.pooled[k][i].active > 0 by {
            assert(p.conns(k)[i].id == id);
        }
    }
    if forall|i: int|
        p.pooled.contains_key(k) && 0 <= i < p.pooled[k].len() && (#[trigger] p.pooled[k][i]).id
            == id ==> p.pooled[k][i].active > 0 {
        assert forall|i: int|
            0 <= i < p.conns(k).len() && (#[trigger] p.conns(k)[i]).id == id implies p.conns(
            k,
        )[i].active > 0 by {
            assert(p.pooled[k][i].id == id);
        }
    }
}

/// Giving a request back: the connection of that number carries one less, and nothing else
/// changes; where there is none, nothing changes at all.
pub proof fn what_releasing_does<C: Clone, W>(
    pre: PoolView<C, W>,
    k: KeyView,
    id: u64,
    post: PoolView<C, W>,
    i: int,
)
    requires
        pre.wf(),
        pre.carries(k, id),
        pre.releases(k, id, post),
    ensures
        post.pooled.remove(k) == pre.pooled.remove(k),
        post.waiters == pre.waiters,
        post.connecting == pre.connecting,
        post.next_id == pre.next_id,
        post.pooled.contains_key(k) == pre.pooled.contains_key(k),
        pre.pooled.contains_key(k) ==> post.pooled[k].len() == pre.pooled[k].len(),
        pre.pooled.contains_key(k) && 0 <= i < pre.pooled[k].len() ==> {
            &&& post.pooled[k][i].id == pre.pooled[k][i].id
            &&& post.pooled[k][i].value == pre.pooled[k][i].value
            &&& post.pooled[k][i].idle_at == pre.pooled[k][i].idle_at
            &&& post.pooled[k][i].active == pre.pooled[k][i].active - if pre.pooled[k][i].id
                == id {
                1int
            } else {
                0
            }
        },
{
    let conns = pre.conns(k);
    if exists|j: int|
        0 <= j < conns.len() && (#[trigger] conns[j]).id == id && post == pre.with_conns(
            k,
            conns.update(j, conns[j].with_active((conns[j].active - 1) as u64)),
        ) {
        let j = choose|j: int|
            0 <= j < conns.len() && (#[trigger] conns[j]).id == id && post == pre.with_conns(
                k,
                conns.update(j, conns[j].with_active((conns[j].active - 1) as u64)),
            );
        assert(pre.pooled[k] == conns);
        assert(pre.conns(k)[j].active > 0);
        assert(post.pooled.remove(k) =~= pre.pooled.remove(k));
        if 0 <= i < conns.len() && i != j {
            if i < j {
                assert(pre.pooled[k][i].id != pre.pooled[k][j].id);
            } else {
                assert(pre.pooled[k][j].id != pre.pooled[k][i].id);
            }
        }
    } else if pre.pooled.contains_key(k) && 0 <= i < pre.pooled[k].len() {
        assert(conns[i].id != id);
    }
}

} // verus!
