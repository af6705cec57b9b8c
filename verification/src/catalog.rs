use vstd::prelude::*;

use crate::error::ErrorCode;
use crate::state::{AuthStore, EventAccount, EventStatus};

verus! {

/// Fact recorded when an event is created.
#[derive(Debug)]
pub struct EventCreated {
    pub event_id: u64,
    pub name: String,
    pub authority: u64,
}

/// Creates a named event container owned by `authority`.  Only an
/// authorized creator may do so.  Contests created later refer to the
/// event by `event_id`.
pub fn create_event(store: &AuthStore, authority: u64, event_id: u64, name: String) -> (r: Result<
    (EventAccount, EventCreated),
    ErrorCode,
>)
    ensures
        r is Ok <==> store.authorized_creators@.contains(authority),
        r matches Err(e) ==> e == ErrorCode::Unauthorized,
        r matches Ok(p) ==> {
            &&& p.0.authority == authority
            &&& p.0.event_id == event_id
            &&& p.0.name@ == name@
            &&& p.0.status is Upcoming
            &&& p.1.event_id == event_id
            &&& p.1.name@ == name@
            &&& p.1.authority == authority
        },
{
    if !crate::registry::is_authorized(store, authority) {
        return Err(ErrorCode::Unauthorized);
    }
    let fact = EventCreated { event_id, name: name.clone(), authority };
    let event = EventAccount { authority, event_id, name, status: EventStatus::Upcoming };
    Ok((event, fact))
}

} // verus!
