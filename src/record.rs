use vstd::prelude::*;

verus! {

/// One pending notification as the local notification service lists it.
pub struct Notification {
    /// Identifier assigned by the service; orders records and drives dedup.
    pub id: i64,
    /// Headline of the desktop notification.
    pub title: String,
    /// Body of the desktop notification.
    pub message: String,
    /// Service-defined time stamp, carried through and never interpreted.
    pub timestamp: String,
}

impl Notification {
    pub fn new(id: i64, title: String, message: String, timestamp: String) -> (r: Notification)
        ensures
            r.id == id,
            r.title == title,
            r.message == message,
            r.timestamp == timestamp,
    {
        Notification { id, title, message, timestamp }
    }
}

impl Clone for Notification {
    fn clone(&self) -> (r: Self)
        ensures
            r == *self,
    {
        Notification {
            id: self.id,
            title: self.title.clone(),
            message: self.message.clone(),
            timestamp: self.timestamp.clone(),
        }
    }
}

} // verus!
