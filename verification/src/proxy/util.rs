//! Measuring futures, watching writes, and telling errors apart.

use core::future::Future;

use vstd::prelude::*;
use vstd::slice::slice_subrange;
use vstd::string::*;

use crate::text::same_text;

verus! {

/// What kind of thing went wrong in an I/O operation.
#[derive(Clone, Copy, Debug, PartialEq, Eq, Structural)]
pub enum ErrorKind {
    /// Something that has no kind of its own.
    Other,
    /// Something that has a kind of its own.
    Specific,
}

/// An I/O error: its kind and its message.
#[derive(Debug)]
pub struct IoError {
    pub kind: ErrorKind,
    pub message: String,
}

/// What the runtime says when it is asked for something while it shuts down.
pub open spec fn shutdown_message() -> Seq<char> {
    "A Tokio 1.x context was found, but it is being shutdown."@
}

/// Whether an error comes from the runtime shutting down.
pub fn is_runtime_shutdown(e: &IoError) -> (r: bool)
    ensures
        r == (e.kind == ErrorKind::Other && e.message@ == shutdown_message()),
{
    e.kind == ErrorKind::Other && same_text(
        e.message.as_str(),
        "A Tokio 1.x context was found, but it is being shutdown.",
    )
}

/// The longest span of time that is measured, in nanoseconds.
pub const MAX_DURATION: u128 = 18_446_744_073_709_551_615_999_999_999;

/// A future and how long it has been running. Instants are nanoseconds since a fixed
/// origin.
pub struct TimedWrapper<Fut: Future> {
    start: Option<u128>,
    total_runtime: u128,
    total_executions: usize,
    future: Fut,
}

/// How long a future took.
#[derive(Clone, Copy, Debug, PartialEq, Eq, Structural)]
pub struct Timing {
    /// From the first poll until the end.
    pub wall_time: u128,
    /// Inside polls.
    pub cpu_time: u128,
    /// How many polls.
    pub executions: usize,
}

/// The time from `from` to `to`, or none where the clock went back.
pub open spec fn elapsed(from: u128, to: u128) -> u128 {
    if to > from {
        (to - from) as u128
    } else {
        0
    }
}

impl<Fut: Future> TimedWrapper<Fut> {
    /// When the future was first polled.
    pub closed spec fn start(self) -> Option<u128> {
        self.start
    }

    /// The time spent inside polls so far.
    pub closed spec fn total_runtime(self) -> u128 {
        self.total_runtime
    }

    /// The polls so far.
    pub closed spec fn total_executions(self) -> usize {
        self.total_executions
    }

    /// The future itself.
    pub closed spec fn inner(self) -> Fut {
        self.future
    }

    /// A future that has not been polled.
    pub fn new(future: Fut) -> (r: Self)
        ensures
            r.start() is None,
            r.total_runtime() == 0,
            r.total_executions() == 0,
            r.inner() == future,
    {
        TimedWrapper { start: None, total_runtime: 0, total_executions: 0, future }
    }

    /// The future, to poll it.
    pub fn future_mut(&mut self) -> (r: &mut Fut)
        ensures
            *r == old(self).inner(),
            final(self).inner() == *final(r),
            final(self).start() == old(self).start(),
            final(self).total_runtime() == old(self).total_runtime(),
            final(self).total_executions() == old(self).total_executions(),
    {
        &mut self.future
    }

    /// Notes that a poll begins at `t0`.
    pub fn begin_poll(&mut self, t0: u128)
        requires
            old(self).total_executions() < usize::MAX,
        ensures
            final(self).start() == Some(
                match old(self).start() {
                    Some(s) => s,
                    None => t0,
                },
            ),
            final(self).total_executions() == old(self).total_executions() + 1,
            final(self).total_runtime() == old(self).total_runtime(),
            final(self).inner() == old(self).inner(),
    {
        if self.start.is_none() {
            self.start = Some(t0);
        }
        self.total_executions += 1;
    }

    /// Notes that the poll that began at `t0` ended at `t1`.
    pub fn end_poll(&mut self, t0: u128, t1: u128)
        requires
            old(self).total_runtime() + elapsed(t0, t1) <= MAX_DURATION,
        ensures
            final(self).total_runtime() == old(self).total_runtime() + elapsed(t0, t1),
            final(self).start() == old(self).start(),
            final(self).total_executions() == old(self).total_executions(),
            final(self).inner() == old(self).inner(),
    {
        self.total_runtime += t1.saturating_sub(t0);
    }

    /// What a future that is complete at `now` took.
    pub fn report(&self, now: u128) -> (r: Timing)
        requires
            self.start() is Some,
        ensures
            r == (Timing {
                wall_time: elapsed(self.start()->0, now),
                cpu_time: self.total_runtime(),
                executions: self.total_executions(),
            }),
    {
        let wall_time: u128 = match self.start {
            Some(s) => now.saturating_sub(s),
            None => 0,
        };
        Timing {
            wall_time,
            cpu_time: self.total_runtime,
            executions: self.total_executions,
        }
    }
}

/// The time that polls took together; each is given by its beginning and its end.
pub open spec fn runtime(polls: Seq<(u128, u128)>) -> nat
    decreases polls.len(),
{
    if polls.len() == 0 {
        0
    } else {
        runtime(polls.drop_last()) + elapsed(polls.last().0, polls.last().1) as nat
    }
}

/// Whether each poll ends after it begins, and begins after the one before it ended.
pub open spec fn in_turn(polls: Seq<(u128, u128)>) -> bool {
    &&& forall|i: int| 0 <= i < polls.len() ==> (#[trigger] polls[i]).0 <= polls[i].1
    &&& forall|i: int, j: int|
        0 <= i < j < polls.len() ==> (#[trigger] polls[i]).1 <= (#[trigger] polls[j]).0
}

/// Each poll adds the time that it took.
pub proof fn polls_add_up(polls: Seq<(u128, u128)>, t0: u128, t1: u128)
    ensures
        runtime(polls.push((t0, t1))) == runtime(polls) + elapsed(t0, t1),
{
    assert(polls.push((t0, t1)).drop_last() =~= polls);
}

/// While the clock does not go back, a future spends no more time inside polls than passes
/// from its first poll to the end of its last.
pub proof fn polls_fit_in_wall_time(polls: Seq<(u128, u128)>)
    requires
        in_turn(polls),
        polls.len() > 0,
    ensures
        runtime(polls) <= elapsed(polls[0].0, polls.last().1),
    decreases polls.len(),
{
    let init = polls.drop_last();
    if polls.len() > 1 {
        polls_fit_in_wall_time(init);
        assert(init.last() == polls[polls.len() - 2]);
        assert(polls[polls.len() - 2].1 <= polls[polls.len() - 1].0);
        assert(polls[0].0 <= polls[0].1);
        assert(polls[polls.len() - 1].0 <= polls[polls.len() - 1].1);
        assert(polls[polls.len() - 2].0 <= polls[polls.len() - 2].1);
    } else {
        assert(runtime(init) == 0);
        assert(polls.last() == polls[0]);
    }
}

/// A writer whose writes are shown to `f`.
pub struct InspectWriter<W, F> {
    pub writer: W,
    pub f: F,
}

/// What the byte slices in a sequence hold.
pub open spec fn contents(bufs: Seq<&[u8]>) -> Seq<Seq<u8>> {
    bufs.map_values(|b: &[u8]| b@)
}

/// The parts of `bufs` that a write of `count` bytes covers: from each buffer, in order, as
/// much as is left of `count`; buffers of which nothing was written are left out.
pub open spec fn written(bufs: Seq<Seq<u8>>, count: nat) -> Seq<Seq<u8>>
    decreases bufs.len(),
{
    if bufs.len() == 0 {
        Seq::empty()
    } else {
        let size = if count < bufs[0].len() {
            count
        } else {
            bufs[0].len()
        };
        let rest = written(bufs.drop_first(), (count - size) as nat);
        if size == 0 {
            rest
        } else {
            seq![bufs[0].take(size as int)] + rest
        }
    }
}

/// A write of nothing covers nothing.
pub proof fn written_nothing(bufs: Seq<Seq<u8>>)
    ensures
        written(bufs, 0) == Seq::<Seq<u8>>::empty(),
    decreases bufs.len(),
{
    if bufs.len() > 0 {
        written_nothing(bufs.drop_first());
    }
}

/// No part that is shown is empty, and there is at most one for each buffer.
pub proof fn written_parts_are_not_empty(bufs: Seq<Seq<u8>>, count: nat)
    ensures
        written(bufs, count).len() <= bufs.len(),
        forall|i: int|
            0 <= i < written(bufs, count).len() ==> (#[trigger] written(bufs, count)[i]).len() > 0,
    decreases bufs.len(),
{
    if bufs.len() > 0 {
        let size = if count < bufs[0].len() {
            count
        } else {
            bufs[0].len()
        };
        written_parts_are_not_empty(bufs.drop_first(), (count - size) as nat);
    }
}

/// Something is shown exactly when something was written.
pub proof fn shown_iff_written(bufs: Seq<Seq<u8>>, count: nat)
    requires
        count <= bufs.flatten().len(),
    ensures
        written(bufs, count).len() > 0 <==> count > 0,
{
    written_is_what_was_written(bufs, count);
    if count == 0 {
        written_nothing(bufs);
    } else if written(bufs, count).len() == 0 {
        assert(written(bufs, count).flatten().len() == 0);
    }
}

/// The parts that are shown are together exactly the bytes that were written: the first
/// `count` of all the buffers.
pub proof fn written_is_what_was_written(bufs: Seq<Seq<u8>>, count: nat)
    requires
        count <= bufs.flatten().len(),
    ensures
        written(bufs, count).flatten() == bufs.flatten().take(count as int),
    decreases bufs.len(),
{
    if bufs.len() == 0 {
        assert(written(bufs, count).flatten() =~= bufs.flatten().take(count as int));
    } else {
        let size = if count < bufs[0].len() {
            count
        } else {
            bufs[0].len()
        };
        let rest = written(bufs.drop_first(), (count - size) as nat);
        assert(bufs.flatten() =~= bufs[0] + bufs.drop_first().flatten());
        written_is_what_was_written(bufs.drop_first(), (count - size) as nat);
        if size == 0 {
            assert(rest.flatten() =~= bufs.flatten().take(count as int));
        } else {
            let parts = seq![bufs[0].take(size as int)] + rest;
            assert(parts.drop_first() =~= rest);
            assert(parts.flatten() =~= bufs[0].take(size as int) + rest.flatten());
            assert(parts.flatten() =~= bufs.flatten().take(count as int));
        }
    }
}

impl<W, F> InspectWriter<W, F> {
    /// Shows the writes on `writer` to `f`.
    pub fn new(writer: W, f: F) -> (r: InspectWriter<W, F>)
        ensures
            r.writer == writer,
            r.f == f,
    {
        InspectWriter { writer, f }
    }

    /// The writer itself.
    pub fn into_inner(self) -> (r: W)
        ensures
            r == self.writer,
    {
        self.writer
    }
}

/// What a write of `count` bytes of `buf` shows: the bytes, or nothing where none were
/// written.
pub fn written_by_write<'a>(buf: &'a [u8], count: usize) -> (r: Option<&'a [u8]>)
    requires
        count <= buf@.len(),
    ensures
        r is Some <==> count != 0,
        r matches Some(b) ==> b@ == buf@.take(count as int),
{
    if count != 0 {
        Some(slice_subrange(buf, 0, count))
    } else {
        None
    }
}

/// The parts of `bufs` that a write of `count` bytes covers.
fn written_parts<'a>(bufs: &Vec<&'a [u8]>, count: usize) -> (r: Vec<&'a [u8]>)
    ensures
        contents(r@) == written(contents(bufs@), count as nat),
{
    let ghost all = contents(bufs@);
    let mut left: usize = count;
    let mut parts: Vec<&'a [u8]> = Vec::new();
    let mut i: usize = 0;
    assert(contents(parts@) + written(all.skip(0), count as nat) =~= written(all, count as nat))
        by {
        assert(all.skip(0) =~= all);
    }
    while i < bufs.len()
        invariant
            i <= bufs@.len(),
            all == contents(bufs@),
            contents(parts@) + written(all.skip(i as int), left as nat) == written(
                all,
                count as nat,
            ),
        decreases bufs@.len() - i,
    {
        if left == 0 {
            proof {
                written_nothing(all.skip(i as int));
                assert(contents(parts@) =~= written(all, count as nat));
            }
            return parts;
        }
        let buf: &'a [u8] = bufs[i];
        let size: usize = if left < buf.len() {
            left
        } else {
            buf.len()
        };
        let ghost before = contents(parts@);
        let ghost was_left = left;
        assert(all.skip(i as int)[0] == buf@);
        assert(all.skip(i as int).drop_first() =~= all.skip(i + 1));
        if size != 0 {
            parts.push(slice_subrange(buf, 0, size));
            left = left - size;
            assert(contents(parts@) =~= before + seq![buf@.take(size as int)]);
        }
        i += 1;
        assert(contents(parts@) + written(all.skip(i as int), left as nat) =~= before + written(
            all.skip(i - 1),
            was_left as nat,
        ));
    }
    assert(all.skip(i as int) =~= Seq::empty());
    assert(contents(parts@) =~= written(all, count as nat));
    parts
}

/// What a write of `count` bytes from `bufs` shows: the parts of the buffers that were
/// written, or nothing where none were.
pub fn written_by_vectored<'a>(bufs: &Vec<&'a [u8]>, count: usize) -> (r: Option<Vec<&'a [u8]>>)
    ensures
        r is Some <==> written(contents(bufs@), count as nat).len() > 0,
        r matches Some(parts) ==> contents(parts@) == written(contents(bufs@), count as nat),
{
    let parts = written_parts(bufs, count);
    assert(contents(parts@).len() == parts@.len());
    if parts.len() == 0 {
        None
    } else {
        Some(parts)
    }
}

/// The number of bytes in all the parts.
pub open spec fn total_len(parts: Seq<Seq<u8>>) -> nat
    decreases parts.len(),
{
    if parts.len() == 0 {
        0
    } else {
        total_len(parts.drop_last()) + parts.last().len()
    }
}

/// Some of the parts hold no more bytes than all of them.
proof fn total_len_monotone(parts: Seq<Seq<u8>>, i: int)
    requires
        0 <= i <= parts.len(),
    ensures
        total_len(parts.take(i)) <= total_len(parts),
    decreases parts.len() - i,
{
    if i < parts.len() {
        assert(parts.take(i + 1).drop_last() =~= parts.take(i));
        total_len_monotone(parts, i + 1);
    } else {
        assert(parts.take(i) =~= parts);
    }
}

/// What is logged of a write: how many bytes in how many parts.
pub fn write_summary(parts: &Vec<&[u8]>) -> (r: (usize, usize))
    requires
        total_len(contents(parts@)) <= usize::MAX,
    ensures
        r.0 == total_len(contents(parts@)),
        r.1 == parts@.len(),
{
    let ghost all = contents(parts@);
    let mut total: usize = 0;
    let mut i: usize = 0;
    while i < parts.len()
        invariant
            i <= parts@.len(),
            all == contents(parts@),
            total == total_len(all.take(i as int)),
            total_len(all) <= usize::MAX,
        decreases parts@.len() - i,
    {
        proof {
            assert(all.take(i + 1).drop_last() =~= all.take(i as int));
            assert(all.take(i + 1).last() == parts@[i as int]@);
            total_len_monotone(all, i + 1);
        }
        total += parts[i].len();
        i += 1;
    }
    assert(all.take(i as int) =~= all);
    (total, parts.len())
}

} // verus!
