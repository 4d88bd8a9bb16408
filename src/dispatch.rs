use vstd::prelude::*;

use crate::record::Notification;

verus! {

/// What the desktop is asked to show for one record.
pub struct ShowRequest {
    pub title: String,
    pub body: String,
}

/// The request for record `r`: its title as headline, its message as body.
pub open spec fn request_for(r: Notification) -> ShowRequest {
    ShowRequest { title: r.title, body: r.message }
}

/// Identifiers of the first `outcomes.len()` records of `records` whose
/// outcome is `want`, in record order.
pub open spec fn ids_with(records: Seq<Notification>, outcomes: Seq<bool>, want: bool) -> Seq<i64>
    decreases outcomes.len(),
{
    if outcomes.len() == 0 {
        Seq::empty()
    } else {
        let k = outcomes.len() - 1;
        let before = ids_with(records, outcomes.drop_last(), want);
        if outcomes.last() == want {
            before.push(records[k].id)
        } else {
            before
        }
    }
}

/// Abstract state of a dispatch: the batch, and whether each record tried
/// so far was shown, in order.
pub struct DispatchView {
    pub records: Seq<Notification>,
    pub outcomes: Seq<bool>,
}

impl DispatchView {
    /// The request for the first record not yet tried, if any is left.
    pub open spec fn pending(self) -> Option<ShowRequest> {
        if self.outcomes.len() < self.records.len() {
            Some(request_for(self.records[self.outcomes.len() as int]))
        } else {
            None
        }
    }

    /// The state after the first untried record was settled with `shown`.
    pub open spec fn settled(self, shown: bool) -> DispatchView {
        DispatchView { records: self.records, outcomes: self.outcomes.push(shown) }
    }
}

/// The state reached from a fresh dispatch of `records` by settling
/// `outcomes` one after the other.
pub open spec fn replay(records: Seq<Notification>, outcomes: Seq<bool>) -> DispatchView
    decreases outcomes.len(),
{
    if outcomes.len() == 0 {
        DispatchView { records, outcomes: Seq::empty() }
    } else {
        replay(records, outcomes.drop_last()).settled(outcomes.last())
    }
}

/// However the shows turn out, settling them one by one hands out the
/// request of every record of the batch, in order: a failed show never keeps
/// a later record from being tried.
pub proof fn lemma_every_record_tried(records: Seq<Notification>, outcomes: Seq<bool>, j: int)
    requires
        outcomes.len() <= records.len(),
        0 <= j < outcomes.len(),
    ensures
        replay(records, outcomes.take(j)).pending() == Some(request_for(records[j])),
        replay(records, outcomes) == (DispatchView { records, outcomes }),
{
    lemma_replay_keeps_outcomes(records, outcomes.take(j));
    lemma_replay_keeps_outcomes(records, outcomes);
}

/// Replaying `outcomes` records exactly those outcomes.
pub proof fn lemma_replay_keeps_outcomes(records: Seq<Notification>, outcomes: Seq<bool>)
    ensures
        replay(records, outcomes) == (DispatchView { records, outcomes }),
    decreases outcomes.len(),
{
    if outcomes.len() > 0 {
        lemma_replay_keeps_outcomes(records, outcomes.drop_last());
        assert(outcomes.drop_last().push(outcomes.last()) == outcomes);
    } else {
        assert(outcomes == Seq::<bool>::empty());
    }
}

/// Walks one batch of records through the show capability, one at a time and
/// in order. A record whose show failed is noted and passed over; it never
/// holds up the records behind it.
pub struct Dispatch {
    batch: Vec<Notification>,
    outcomes: Vec<bool>,
}

impl View for Dispatch {
    type V = DispatchView;

    closed spec fn view(&self) -> DispatchView {
        DispatchView { records: self.batch@, outcomes: self.outcomes@ }
    }
}

impl Dispatch {
    #[verifier::type_invariant]
    spec fn tried_within_batch(self) -> bool {
        self.outcomes@.len() <= self.batch@.len()
    }

    /// A dispatch with no record of `batch` tried yet.
    pub fn start(batch: Vec<Notification>) -> (r: Dispatch)
        ensures
            r@ == replay(batch@, Seq::empty()),
    {
        Dispatch { batch, outcomes: Vec::new() }
    }

    /// The request for the first record not yet tried, or `None` once every
    /// record has been tried.
    pub fn next_request(&self) -> (r: Option<ShowRequest>)
        ensures
            r == self@.pending(),
    {
        proof {
            use_type_invariant(self);
        }
        let done = self.outcomes.len();
        if done < self.batch.len() {
            let rec = &self.batch[done];
            Some(ShowRequest { title: rec.title.clone(), body: rec.message.clone() })
        } else {
            None
        }
    }

    /// Settles the first record not yet tried, shown or not, and moves on to
    /// the next one either way.
    pub fn settle(&mut self, shown: bool)
        requires
            old(self)@.pending() is Some,
        ensures
            final(self)@ == old(self)@.settled(shown),
    {
        proof {
            use_type_invariant(&*self);
        }
        let mut outcomes: Vec<bool> = Vec::new();
        std::mem::swap(&mut outcomes, &mut self.outcomes);
        outcomes.push(shown);
        self.outcomes = outcomes;
    }

    /// Whether every record of the batch has been tried.
    pub fn is_finished(&self) -> (r: bool)
        ensures
            r == (self@.pending() is None),
    {
        proof {
            use_type_invariant(self);
        }
        self.outcomes.len() == self.batch.len()
    }

    /// Identifiers of the records tried so far whose show succeeded or (with
    /// `want` false) failed, in order.
    fn ids_by_outcome(&self, want: bool) -> (r: Vec<i64>)
        ensures
            r@ == ids_with(self@.records, self@.outcomes, want),
    {
        proof {
            use_type_invariant(self);
        }
        let mut out: Vec<i64> = Vec::new();
        let mut i: usize = 0;
        while i < self.outcomes.len()
            invariant
                self.outcomes@.len() <= self.batch@.len(),
                i <= self.outcomes@.len(),
                out@ == ids_with(self.batch@, self.outcomes@.take(i as int), want),
            decreases self.outcomes@.len() - i,
        {
            proof {
                let next = self.outcomes@.take(i as int + 1);
                assert(next.drop_last() == self.outcomes@.take(i as int));
            }
            if self.outcomes[i] == want {
                out.push(self.batch[i].id);
            }
            i = i + 1;
        }
        proof {
            assert(self.outcomes@.take(self.outcomes@.len() as int) == self.outcomes@);
        }
        out
    }

    /// Identifiers of the records shown so far, in order.
    pub fn shown_ids(&self) -> (r: Vec<i64>)
        ensures
            r@ == ids_with(self@.records, self@.outcomes, true),
    {
        self.ids_by_outcome(true)
    }

    /// Identifiers of the records whose show failed so far, in order.
    pub fn failed_ids(&self) -> (r: Vec<i64>)
        ensures
            r@ == ids_with(self@.records, self@.outcomes, false),
    {
        self.ids_by_outcome(false)
    }
}

} // verus!
