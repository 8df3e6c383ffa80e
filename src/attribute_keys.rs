use vstd::prelude::*;

verus! {

/// Literal of the key that selects the gateway's processing mode.
pub const EVENT_TYPE_KEY: &'static str = "object_store_gateway_event_type";

/// Literal of the key that names the scope an event refers to.
pub const SCOPE_ADDRESS_KEY: &'static str = "object_store_gateway_scope_address";

/// Literal of the key that names the account an event acts upon.
pub const TARGET_ACCOUNT_KEY: &'static str = "object_store_gateway_target_account_address";

/// Literal of the optional key that links an event to one access grant.
pub const ACCESS_GRANT_ID_KEY: &'static str = "object_store_gateway_access_grant_id";

/// The closed set of attribute keys understood by the gateway.
#[derive(Clone, Copy, Debug, PartialEq, Eq, Structural)]
pub enum AttributeKey {
    EventType,
    ScopeAddress,
    TargetAccount,
    AccessGrantId,
}

impl AttributeKey {
    /// The wire literal of this key.
    pub open spec fn literal(self) -> Seq<char> {
        match self {
            AttributeKey::EventType => EVENT_TYPE_KEY@,
            AttributeKey::ScopeAddress => SCOPE_ADDRESS_KEY@,
            AttributeKey::TargetAccount => TARGET_ACCOUNT_KEY@,
            AttributeKey::AccessGrantId => ACCESS_GRANT_ID_KEY@,
        }
    }

    /// The wire literal of this key.
    pub fn as_str(self) -> (r: &'static str)
        ensures
            r@ == self.literal(),
    {
        match self {
            AttributeKey::EventType => EVENT_TYPE_KEY,
            AttributeKey::ScopeAddress => SCOPE_ADDRESS_KEY,
            AttributeKey::TargetAccount => TARGET_ACCOUNT_KEY,
            AttributeKey::AccessGrantId => ACCESS_GRANT_ID_KEY,
        }
    }
}

/// `a` comes strictly before `b` in lexicographic order of code points, the order
/// in which Rust compares `str` values.
pub open spec fn lex_lt(a: Seq<char>, b: Seq<char>) -> bool {
    exists|i: int|
        #![trigger a.subrange(0, i)]
        0 <= i <= a.len() && i <= b.len() && a.subrange(0, i) == b.subrange(0, i) && (if i
            == a.len() {
            i < b.len()
        } else {
            i < b.len() && (a[i] as u32) < (b[i] as u32)
        })
}

/// The four key literals, in ascending lexicographic order.
pub open spec fn canonical_keys() -> Seq<AttributeKey> {
    seq![
        AttributeKey::AccessGrantId,
        AttributeKey::EventType,
        AttributeKey::ScopeAddress,
        AttributeKey::TargetAccount,
    ]
}

/// The key literals, taken in the order of `canonical_keys`, ascend strictly.
pub proof fn lemma_canonical_keys_ascend(i: int, j: int)
    requires
        0 <= i < j < 4,
    ensures
        lex_lt(canonical_keys()[i].literal(), canonical_keys()[j].literal()),
{
    reveal_strlit("object_store_gateway_event_type");
    reveal_strlit("object_store_gateway_scope_address");
    reveal_strlit("object_store_gateway_target_account_address");
    reveal_strlit("object_store_gateway_access_grant_id");
    let a = canonical_keys()[i].literal();
    let b = canonical_keys()[j].literal();
    assert(a.subrange(0, 21) =~= b.subrange(0, 21));
}

/// All gateway key literals, one named field per key.
pub struct OsGatewayKeys<'a> {
    pub event_type: &'a str,
    pub scope_address: &'a str,
    pub target_account: &'a str,
    pub access_grant_id: &'a str,
}

/// The gateway's key literals as one record.
pub fn os_gateway_keys() -> (r: OsGatewayKeys<'static>)
    ensures
        r.event_type@ == AttributeKey::EventType.literal(),
        r.scope_address@ == AttributeKey::ScopeAddress.literal(),
        r.target_account@ == AttributeKey::TargetAccount.literal(),
        r.access_grant_id@ == AttributeKey::AccessGrantId.literal(),
{
    OsGatewayKeys {
        event_type: EVENT_TYPE_KEY,
        scope_address: SCOPE_ADDRESS_KEY,
        target_account: TARGET_ACCOUNT_KEY,
        access_grant_id: ACCESS_GRANT_ID_KEY,
    }
}

} // verus!
