//! Core of a desktop notification agent: the pending-notification record,
//! the delivery state that keeps a record from being shown twice, the
//! per-tick decision of the poller, the dispatch cursor that isolates
//! failures of single records, and the tray controller that keeps one
//! notifications window alive.

pub mod record;
pub mod delivery;
pub mod poller;
pub mod dispatch;
pub mod tray;
