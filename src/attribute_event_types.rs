use vstd::prelude::*;

verus! {

/// Event type value that asks the gateway to grant access.
pub const ACCESS_GRANT_VALUE: &'static str = "access_grant";

/// Event type value that asks the gateway to revoke access.
pub const ACCESS_REVOKE_VALUE: &'static str = "access_revoke";

/// The two kinds of event the gateway processes.
#[derive(Clone, Copy, Debug, PartialEq, Eq, Structural)]
pub enum EventKind {
    AccessGrant,
    AccessRevoke,
}

impl EventKind {
    /// The literal carried as the value of the event type attribute.
    pub open spec fn literal(self) -> Seq<char> {
        match self {
            EventKind::AccessGrant => ACCESS_GRANT_VALUE@,
            EventKind::AccessRevoke => ACCESS_REVOKE_VALUE@,
        }
    }

    /// The literal carried as the value of the event type attribute.
    pub fn as_str(self) -> (r: &'static str)
        ensures
            r@ == self.literal(),
    {
        match self {
            EventKind::AccessGrant => ACCESS_GRANT_VALUE,
            EventKind::AccessRevoke => ACCESS_REVOKE_VALUE,
        }
    }
}

/// All event type literals, one named field per kind.
pub struct OsGatewayEventTypes<'a> {
    pub access_grant: &'a str,
    pub access_revoke: &'a str,
}

/// The gateway's event type literals as one record.
pub fn os_gateway_event_types() -> (r: OsGatewayEventTypes<'static>)
    ensures
        r.access_grant@ == EventKind::AccessGrant.literal(),
        r.access_revoke@ == EventKind::AccessRevoke.literal(),
{
    OsGatewayEventTypes { access_grant: ACCESS_GRANT_VALUE, access_revoke: ACCESS_REVOKE_VALUE }
}

} // verus!
