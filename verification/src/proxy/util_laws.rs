//! What holds of measured futures and watched writes.

use vstd::prelude::*;

use crate::proxy::util::{
    contents, elapsed, in_turn, is_runtime_shutdown, runtime, shutdown_message, total_len, written,
    ErrorKind, IoError, MAX_DURATION,
};

verus! {

/// Time passes from an earlier instant to a later one, and not the other way.
pub proof fn how_time_passes(from: u128, to: u128)
    ensures
        to >= from ==> elapsed(from, to) == to - from,
        to <= from ==> elapsed(from, to) == 0,
        MAX_DURATION == 0xffff_ffff_ffff_ffff * 1_000_000_000 + 999_999_999,
{
}

/// Polls that take turns take together the sum of their times; without polls no time passes.
pub proof fn polls_take_their_time(polls: Seq<(u128, u128)>, t0: u128, t1: u128)
    requires
        in_turn(polls.push((t0, t1))),
    ensures
        runtime(Seq::empty()) == 0,
        runtime(polls.push((t0, t1))) == runtime(polls) + (t1 - t0),
        forall|i: int| 0 <= i < polls.len() ==> (#[trigger] polls[i]).0 <= polls[i].1 <= t0,
{
    let all = polls.push((t0, t1));
    assert(all.drop_last() =~= polls);
    assert(all[polls.len() as int] == (t0, t1));
    assert forall|i: int| 0 <= i < polls.len() implies (#[trigger] polls[i]).0 <= polls[i].1
        <= t0 by {
        assert(all[i] == polls[i]);
    }
}

/// An error tells of a shutdown exactly when it has no kind of its own and is worded as the
/// runtime words it.
pub proof fn which_errors_tell_of_a_shutdown(e: IoError, r: bool)
    requires
        call_ensures(is_runtime_shutdown, (&e,), r),
    ensures
        r <==> e.kind == ErrorKind::Other && e.message@
            == "A Tokio 1.x context was found, but it is being shutdown."@,
        shutdown_message() == "A Tokio 1.x context was found, but it is being shutdown."@,
{
}

/// Slices say what they hold, one by one.
pub proof fn contents_are_read_one_by_one(bufs: Seq<&[u8]>, i: int)
    requires
        0 <= i < bufs.len(),
    ensures
        contents(bufs).len() == bufs.len(),
        contents(bufs)[i] == bufs[i]@,
{
}

/// The bytes in all parts are as many as there are in the parts put together.
pub proof fn parts_hold_all_bytes(parts: Seq<Seq<u8>>)
    ensures
        total_len(parts) == parts.flatten().len(),
    decreases parts.len(),
{
    if parts.len() > 0 {
        parts_hold_all_bytes(parts.drop_last());
        parts.lemma_flatten_and_flatten_alt_are_equivalent();
        parts.drop_last().lemma_flatten_and_flatten_alt_are_equivalent();
    }
}

/// Buffers are covered one after the other: those before the last byte written in full, and
/// the one that it is in as far as it.
pub proof fn buffers_are_covered_in_order(first: Seq<u8>, rest: Seq<Seq<u8>>, count: nat)
    ensures
        first.len() > 0 && count >= first.len() ==> written(seq![first] + rest, count) == seq![
            first,
        ] + written(rest, (count - first.len()) as nat),
        0 < count < first.len() ==> written(seq![first] + rest, count) == seq![
            first.take(count as int),
        ],
        first.len() == 0 ==> written(seq![first] + rest, count) == written(rest, count),
{
    let bufs = seq![first] + rest;
    assert(bufs.drop_first() =~= rest);
    assert(bufs[0] == first);
    if first.len() > 0 && count >= first.len() {
        assert(first.take(first.len() as int) =~= first);
    }
    if 0 < count < first.len() {
        crate::proxy::util::written_nothing(rest);
        assert(written(bufs, count) =~= seq![first.take(count as int)]);
    }
}

} // verus!
