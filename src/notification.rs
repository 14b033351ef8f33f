use vstd::prelude::*;

verus! {

/// One observed desktop notification.
pub struct Notification {
    /// Identifier of the application that sent it; may be empty.
    pub app_name: String,
    /// Short title; may be empty.
    pub summary: String,
    /// Details; may be empty.
    pub body: String,
    /// Local wall-clock time at which the call was fully parsed.
    pub timestamp: String,
    /// Identifier assigned by the store, unique among live entries.
    pub id: u64,
}

impl Clone for Notification {
    fn clone(&self) -> (r: Self)
        ensures
            r == *self,
    {
        Notification {
            app_name: self.app_name.clone(),
            summary: self.summary.clone(),
            body: self.body.clone(),
            timestamp: self.timestamp.clone(),
            id: self.id,
        }
    }
}

/// The three text fields that the trace parser extracts from one call.
pub struct ParsedCall {
    pub app_name: String,
    pub summary: String,
    pub body: String,
}

/// The record that the store keeps for `call`, observed at `timestamp`, under `id`.
pub open spec fn record_of(call: ParsedCall, timestamp: String, id: u64) -> Notification {
    Notification {
        app_name: call.app_name,
        summary: call.summary,
        body: call.body,
        timestamp,
        id,
    }
}

} // verus!
