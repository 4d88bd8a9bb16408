use vstd::prelude::*;

use crate::record::Notification;

verus! {

/// Records of `batch` that are newer than `last`, in batch order.
pub open spec fn fresh(last: int, batch: Seq<Notification>) -> Seq<Notification> {
    batch.filter(|r: Notification| r.id > last)
}

/// The larger of `last` and every identifier in `batch`.
pub open spec fn high_water(last: int, batch: Seq<Notification>) -> int
    decreases batch.len(),
{
    if batch.len() == 0 {
        last
    } else {
        let below = high_water(last, batch.drop_last());
        if batch.last().id > below {
            batch.last().id as int
        } else {
            below
        }
    }
}

/// Highest identifier already delivered in this process.
///
/// Callers that share it between tasks keep it behind one lock, so that each
/// `accept` is a single critical section.
pub struct DeliveryState {
    last_seen_id: i64,
}

impl DeliveryState {
    pub closed spec fn last_seen(&self) -> int {
        self.last_seen_id as int
    }

    /// The state at process start: nothing delivered yet.
    pub fn new() -> (r: DeliveryState)
        ensures
            r.last_seen() == 0,
    {
        DeliveryState { last_seen_id: 0 }
    }

    /// A state whose highest delivered identifier is `id`.
    pub fn starting_after(id: i64) -> (r: DeliveryState)
        ensures
            r.last_seen() == id,
    {
        DeliveryState { last_seen_id: id }
    }

    pub fn last_seen_id(&self) -> (r: i64)
        ensures
            r == self.last_seen(),
    {
        self.last_seen_id
    }

    /// Keeps the records of `batch` whose identifier is above the stored one,
    /// in order, then raises the stored identifier to the highest one seen.
    pub fn accept(&mut self, batch: &Vec<Notification>) -> (r: Vec<Notification>)
        ensures
            r@ == fresh(old(self).last_seen(), batch@),
            final(self).last_seen() == high_water(old(self).last_seen(), batch@),
            final(self).last_seen() >= old(self).last_seen(),
    {
        let last = self.last_seen_id;
        let mut top = last;
        let mut out: Vec<Notification> = Vec::new();
        let mut i: usize = 0;
        while i < batch.len()
            invariant
                i <= batch@.len(),
                out@ == fresh(last as int, batch@.take(i as int)),
                top == high_water(last as int, batch@.take(i as int)),
            decreases batch@.len() - i,
        {
            let rec = &batch[i];
            proof {
                let next = batch@.take(i as int + 1);
                assert(next.drop_last() == batch@.take(i as int));
                assert(next.last() == batch@[i as int]);
                reveal(Seq::filter);
                assert(fresh(last as int, next) == if rec.id > last {
                    fresh(last as int, batch@.take(i as int)).push(*rec)
                } else {
                    fresh(last as int, batch@.take(i as int))
                });
            }
            if rec.id > last {
                out.push(rec.clone());
            }
            if rec.id > top {
                top = rec.id;
            }
            i = i + 1;
        }
        proof {
            assert(batch@.take(batch@.len() as int) == batch@);
            lemma_high_water_floor(last as int, batch@);
        }
        self.last_seen_id = top;
        out
    }
}

/// The high-water mark never falls below the value it starts from.
pub proof fn lemma_high_water_floor(last: int, batch: Seq<Notification>)
    ensures
        high_water(last, batch) >= last,
    decreases batch.len(),
{
    if batch.len() > 0 {
        lemma_high_water_floor(last, batch.drop_last());
    }
}

/// No identifier of `batch` lies above its high-water mark.
pub proof fn lemma_high_water_bounds(last: int, batch: Seq<Notification>)
    ensures
        forall|i: int| 0 <= i < batch.len() ==> batch[i].id <= high_water(last, batch),
    decreases batch.len(),
{
    if batch.len() > 0 {
        let front = batch.drop_last();
        lemma_high_water_bounds(last, front);
        assert forall|i: int| 0 <= i < batch.len() implies batch[i].id <= high_water(
            last,
            batch,
        ) by {
            if i < front.len() {
                assert(batch[i] == front[i]);
            }
        }
    }
}

/// A batch with no record above `last` leaves nothing fresh.
pub proof fn lemma_nothing_fresh(last: int, batch: Seq<Notification>)
    requires
        forall|i: int| 0 <= i < batch.len() ==> batch[i].id <= last,
    ensures
        fresh(last, batch) == Seq::<Notification>::empty(),
        high_water(last, batch) == last,
    decreases batch.len(),
{
    reveal(Seq::filter);
    if batch.len() > 0 {
        let front = batch.drop_last();
        assert forall|i: int| 0 <= i < front.len() implies front[i].id <= last by {
            assert(front[i] == batch[i]);
        }
        lemma_nothing_fresh(last, front);
    }
}

/// Accepting the same batch a second time delivers nothing and leaves the
/// stored identifier where the first acceptance put it.
pub proof fn lemma_accept_twice(last: int, batch: Seq<Notification>)
    ensures
        fresh(high_water(last, batch), batch) == Seq::<Notification>::empty(),
        high_water(high_water(last, batch), batch) == high_water(last, batch),
{
    lemma_high_water_bounds(last, batch);
    lemma_nothing_fresh(high_water(last, batch), batch);
}

/// With `k` stored, a batch holding `k`, `k - 1` and `k + 3` yields only the
/// record `k + 3`, and `k + 3` is stored afterwards.
pub proof fn lemma_stale_and_equal_ids_dropped(
    k: int,
    a: Notification,
    b: Notification,
    c: Notification,
)
    requires
        a.id == k,
        b.id == k - 1,
        c.id == k + 3,
    ensures
        fresh(k, seq![a, b, c]) == seq![c],
        high_water(k, seq![a, b, c]) == k + 3,
{
    reveal_with_fuel(Seq::filter, 4);
    reveal_with_fuel(high_water, 4);
    let s = seq![a, b, c];
    assert(s.drop_last() == seq![a, b]);
    assert(seq![a, b].drop_last() == seq![a]);
    assert(seq![a].drop_last() == Seq::<Notification>::empty());
}

/// Stored identifier after accepting each batch of `batches` in turn.
pub open spec fn last_seen_after(last: int, batches: Seq<Seq<Notification>>) -> int
    decreases batches.len(),
{
    if batches.len() == 0 {
        last
    } else {
        high_water(last_seen_after(last, batches.drop_last()), batches.last())
    }
}

/// Over any run of acceptances the stored identifier never decreases: the
/// value after the first `i` batches is at most the value after the first `j`.
pub proof fn lemma_last_seen_monotone(
    last: int,
    batches: Seq<Seq<Notification>>,
    i: int,
    j: int,
)
    requires
        0 <= i <= j <= batches.len(),
    ensures
        last_seen_after(last, batches.take(i)) <= last_seen_after(last, batches.take(j)),
    decreases j - i,
{
    if i < j {
        lemma_last_seen_monotone(last, batches, i, j - 1);
        let upto = batches.take(j);
        assert(upto.drop_last() == batches.take(j - 1));
        lemma_high_water_floor(last_seen_after(last, batches.take(j - 1)), upto.last());
    }
}

} // verus!
