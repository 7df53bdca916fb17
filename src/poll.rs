//! The long-poll cursor: which updates the next poll asks for.
//!
//! The cursor only moves forward. After a batch is read, and before its updates are handled,
//! it moves one past the largest identifier in the batch, so that the service does not send
//! those updates again. It lives in memory only: a new process starts again from 0.
use vstd::prelude::*;
use crate::functions::GetUpdates;
use crate::objects::Update;

verus! {

/// The identifiers of a sequence of updates, in order.
pub open spec fn update_ids(us: Seq<Update>) -> Seq<u32> {
    us.map_values(|u: Update| u.update_id)
}

/// The cursor after the identifiers `ids` are observed in order, starting from `c`: each
/// identifier moves it to one past itself unless it already stands beyond.
pub open spec fn cursor_after(c: int, ids: Seq<u32>) -> int
    decreases ids.len(),
{
    if ids.len() == 0 {
        c
    } else {
        let p = cursor_after(c, ids.drop_last());
        if p < ids.last() + 1 {
            ids.last() + 1
        } else {
            p
        }
    }
}

/// The cursor after whole batches are observed in order.
pub open spec fn cursor_after_batches(c: int, batches: Seq<Seq<u32>>) -> int
    decreases batches.len(),
{
    if batches.len() == 0 {
        c
    } else {
        cursor_after(cursor_after_batches(c, batches.drop_last()), batches.last())
    }
}

/// The position of the long poll: the next poll asks for updates from this identifier on.
#[derive(Debug)]
pub struct UpdateCursor {
    next: u64,
}

impl View for UpdateCursor {
    type V = int;

    closed spec fn view(&self) -> int {
        self.next as int
    }
}

impl UpdateCursor {
    /// A cursor at 0: the first poll asks for every update that the service holds.
    pub fn new() -> (r: UpdateCursor)
        ensures
            r@ == 0,
    {
        UpdateCursor { next: 0 }
    }

    /// The identifier that the next poll starts from.
    pub fn offset(&self) -> (r: u64)
        ensures
            r == self@,
    {
        self.next
    }

    /// Notes that the update with identifier `id` was read.
    pub fn advance(&mut self, id: u32)
        ensures
            final(self)@ == (if old(self)@ < id + 1 {
                id + 1
            } else {
                old(self)@
            }),
    {
        let n = id as u64 + 1;
        if self.next < n {
            self.next = n;
        }
    }

    /// Notes that a batch of updates was read.
    pub fn observe(&mut self, batch: &Vec<Update>)
        ensures
            final(self)@ == cursor_after(old(self)@, update_ids(batch@)),
    {
        let ghost start = self@;
        let mut i: usize = 0;
        while i < batch.len()
            invariant
                i <= batch@.len(),
                self@ == cursor_after(start, update_ids(batch@.take(i as int))),
            decreases batch@.len() - i,
        {
            proof {
                assert(update_ids(batch@.take(i + 1)).drop_last() =~= update_ids(
                    batch@.take(i as int),
                ));
            }
            self.advance(batch[i].update_id);
            i = i + 1;
        }
        assert(batch@.take(batch@.len() as int) == batch@);
    }

    /// The request of the next long poll, which the service may hold open for `timeout`
    /// seconds.
    pub fn request(&self, timeout: u64) -> (r: GetUpdates)
        ensures
            r.offset == Some(self@ as u64),
            r.timeout == Some(timeout),
            r.limit is None,
            r.allowed_updates is None,
    {
        GetUpdates { offset: Some(self.next), limit: None, timeout: Some(timeout), allowed_updates: None }
    }
}

proof fn lemma_cursor_after_bounds(c: int, ids: Seq<u32>)
    ensures
        c <= cursor_after(c, ids),
        forall|i: int| 0 <= i < ids.len() ==> ids[i] + 1 <= cursor_after(c, ids),
        cursor_after(c, ids) == c || exists|i: int|
            0 <= i < ids.len() && cursor_after(c, ids) == ids[i] + 1,
    decreases ids.len(),
{
    if ids.len() > 0 {
        let prev = ids.drop_last();
        lemma_cursor_after_bounds(c, prev);
        assert forall|i: int| 0 <= i < ids.len() implies ids[i] + 1 <= cursor_after(c, ids) by {
            if i < prev.len() {
                assert(prev[i] == ids[i]);
            }
        }
        if cursor_after(c, ids) != c {
            if cursor_after(c, ids) == ids.last() + 1 {
                assert(cursor_after(c, ids) == ids[ids.len() - 1] + 1);
            } else {
                let i = choose|i: int|
                    0 <= i < prev.len() && cursor_after(c, prev) == prev[i] + 1;
                assert(ids[i] == prev[i]);
            }
        }
    }
}

proof fn lemma_cursor_after_batches_bounds(c: int, bs: Seq<Seq<u32>>)
    ensures
        c <= cursor_after_batches(c, bs),
        forall|k: int, i: int|
            0 <= k < bs.len() && 0 <= i < bs[k].len() ==> bs[k][i] + 1 <= cursor_after_batches(
                c,
                bs,
            ),
        cursor_after_batches(c, bs) == c || exists|k: int, i: int|
            0 <= k < bs.len() && 0 <= i < bs[k].len() && cursor_after_batches(c, bs) == bs[k][i]
                + 1,
    decreases bs.len(),
{
    if bs.len() > 0 {
        let prev = bs.drop_last();
        let p = cursor_after_batches(c, prev);
        lemma_cursor_after_batches_bounds(c, prev);
        lemma_cursor_after_bounds(p, bs.last());
        assert forall|k: int, i: int|
            0 <= k < bs.len() && 0 <= i < bs[k].len() implies bs[k][i] + 1
            <= cursor_after_batches(c, bs) by {
            if k < prev.len() {
                assert(prev[k] == bs[k]);
            } else {
                assert(bs[k] == bs.last());
            }
        }
        if cursor_after_batches(c, bs) != c {
            if cursor_after_batches(c, bs) == p {
                let (k, i) = choose|k: int, i: int|
                    0 <= k < prev.len() && 0 <= i < prev[k].len() && p == prev[k][i] + 1;
                assert(bs[k] == prev[k]);
            } else {
                let i = choose|i: int|
                    0 <= i < bs.last().len() && cursor_after(p, bs.last()) == bs.last()[i] + 1;
                assert(bs[bs.len() - 1] == bs.last());
            }
        }
    }
}

proof fn lemma_cursor_batches_monotonic(c: int, bs: Seq<Seq<u32>>, j: int, k: int)
    requires
        0 <= j <= k <= bs.len(),
    ensures
        cursor_after_batches(c, bs.take(j)) <= cursor_after_batches(c, bs.take(k)),
    decreases k - j,
{
    if j < k {
        lemma_cursor_batches_monotonic(c, bs, j, k - 1);
        assert(bs.take(k).drop_last() == bs.take(k - 1));
        lemma_cursor_after_bounds(cursor_after_batches(c, bs.take(k - 1)), bs.take(k).last());
    }
}

/// Polling from a fresh cursor, the cursor after any run of batches is one past the largest
/// update identifier seen in them (0 when none was seen), and it never moves back from one
/// batch to the next, also across an empty batch.
pub proof fn lemma_poll_cursor(batches: Seq<Seq<u32>>)
    ensures
        forall|k: int, i: int|
            0 <= k < batches.len() && 0 <= i < batches[k].len() ==> batches[k][i] + 1
                <= cursor_after_batches(0, batches),
        cursor_after_batches(0, batches) == 0 || exists|k: int, i: int|
            0 <= k < batches.len() && 0 <= i < batches[k].len() && cursor_after_batches(
                0,
                batches,
            ) == batches[k][i] + 1,
        forall|j: int, k: int|
            0 <= j <= k <= batches.len() ==> cursor_after_batches(0, batches.take(j))
                <= cursor_after_batches(0, batches.take(k)),
{
    lemma_cursor_after_batches_bounds(0, batches);
    assert forall|j: int, k: int| 0 <= j <= k <= batches.len() implies cursor_after_batches(
        0,
        batches.take(j),
    ) <= cursor_after_batches(0, batches.take(k)) by {
        lemma_cursor_batches_monotonic(0, batches, j, k);
    }
}

} // verus!
