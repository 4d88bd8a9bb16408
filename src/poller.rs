use vstd::prelude::*;

use crate::delivery::{fresh, high_water, lemma_accept_twice, DeliveryState};
use crate::record::Notification;

verus! {

/// Seconds between two fetches; the first fetch comes one interval after start.
pub const POLL_INTERVAL_SECS: u64 = 30;

/// Seconds after which a fetch that has not answered counts as a transport failure.
pub const FETCH_TIMEOUT_SECS: u64 = 5;

/// Address of the local service that lists pending notifications.
pub fn notifications_url() -> (r: String)
    ensures
        r@ == "http://localhost:3000/notifications"@,
{
    "http://localhost:3000/notifications".to_owned()
}

/// What one fetch of the pending list came to.
pub enum FetchOutcome {
    /// The request failed: no connection, name lookup, time-out.
    TransportFailed,
    /// The service answered but its body could not be read as text.
    BodyUnreadable,
    /// The body was not a list of well-formed records.
    Malformed,
    /// The body decoded to these records, in service order.
    Parsed(Vec<Notification>),
}

/// Why a tick delivered nothing.
#[derive(PartialEq, Eq, Structural, Debug, Clone, Copy)]
pub enum TickError {
    Transport,
    BodyRead,
    Parse,
}

/// Records a tick hands on for display when the stored identifier is `last`.
pub open spec fn tick_delivers(last: int, outcome: FetchOutcome) -> Seq<Notification> {
    match outcome {
        FetchOutcome::Parsed(batch) => fresh(last, batch@),
        _ => Seq::empty(),
    }
}

/// Stored identifier after a tick that started from `last`.
pub open spec fn tick_last_seen(last: int, outcome: FetchOutcome) -> int {
    match outcome {
        FetchOutcome::Parsed(batch) => high_water(last, batch@),
        _ => last,
    }
}

/// The error a tick reports, if any.
pub open spec fn tick_error(outcome: FetchOutcome) -> Option<TickError> {
    match outcome {
        FetchOutcome::TransportFailed => Some(TickError::Transport),
        FetchOutcome::BodyUnreadable => Some(TickError::BodyRead),
        FetchOutcome::Malformed => Some(TickError::Parse),
        FetchOutcome::Parsed(_) => None,
    }
}

/// One poll tick: a failed fetch is reported and changes nothing; a decoded
/// batch goes through the delivery state and the fresh records come back for
/// display, in batch order.
pub fn tick(state: &mut DeliveryState, outcome: FetchOutcome) -> (r: Result<
    Vec<Notification>,
    TickError,
>)
    ensures
        match r {
            Ok(shown) => tick_error(outcome) is None && shown@ == tick_delivers(
                old(state).last_seen(),
                outcome,
            ),
            Err(e) => tick_error(outcome) == Some(e),
        },
        final(state).last_seen() == tick_last_seen(old(state).last_seen(), outcome),
{
    match outcome {
        FetchOutcome::TransportFailed => Err(TickError::Transport),
        FetchOutcome::BodyUnreadable => Err(TickError::BodyRead),
        FetchOutcome::Malformed => Err(TickError::Parse),
        FetchOutcome::Parsed(batch) => Ok(state.accept(&batch)),
    }
}

/// A tick whose fetch failed, for whatever reason, delivers nothing and
/// leaves the stored identifier alone, so the tick after it delivers exactly
/// what it would have delivered had the failed tick never happened.
pub proof fn lemma_failed_tick_is_inert(last: int, failed: FetchOutcome, next: FetchOutcome)
    requires
        !(failed is Parsed),
    ensures
        tick_delivers(last, failed) == Seq::<Notification>::empty(),
        tick_last_seen(last, failed) == last,
        tick_delivers(tick_last_seen(last, failed), next) == tick_delivers(last, next),
        tick_last_seen(tick_last_seen(last, failed), next) == tick_last_seen(last, next),
{
}

/// When the service lists the same records on two ticks in a row, the
/// second tick delivers none of them and leaves the stored identifier alone.
pub proof fn lemma_repeated_listing_delivers_nothing(last: int, outcome: FetchOutcome)
    requires
        outcome is Parsed,
    ensures
        tick_delivers(tick_last_seen(last, outcome), outcome) == Seq::<Notification>::empty(),
        tick_last_seen(tick_last_seen(last, outcome), outcome) == tick_last_seen(last, outcome),
{
    lemma_accept_twice(last, outcome->Parsed_0@);
}

} // verus!
