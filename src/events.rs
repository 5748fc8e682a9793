//! Events pushed to the frontend, and the names they are sent under.
use vstd::prelude::*;

verus! {

/// The kinds of event that the frontend listens for.
#[derive(Clone, Copy, Debug, PartialEq, Eq, Structural)]
pub enum EventType {
    UserUpdated,
    DataChanged,
    StatusChanged,
}

/// Payload of a `user-updated` event.
#[derive(Clone, Debug)]
pub struct UserUpdatedEvent {
    pub user_id: u32,
    pub username: String,
}

/// Payload of a `data-changed` event.
#[derive(Clone, Debug)]
pub struct DataChangedEvent {
    pub data_type: String,
    pub timestamp: u64,
}

impl EventType {
    pub open spec fn spec_name(self) -> Seq<char> {
        match self {
            EventType::UserUpdated => "user-updated"@,
            EventType::DataChanged => "data-changed"@,
            EventType::StatusChanged => "status-changed"@,
        }
    }

    /// The name that the frontend subscribes to for this kind of event.
    pub fn name(&self) -> (r: &'static str)
        ensures
            r@ == self.spec_name(),
    {
        match self {
            EventType::UserUpdated => "user-updated",
            EventType::DataChanged => "data-changed",
            EventType::StatusChanged => "status-changed",
        }
    }
}

} // verus!
