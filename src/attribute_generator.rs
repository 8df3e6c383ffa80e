use crate::attribute_event_types::EventKind;
use crate::attribute_keys::{canonical_keys, lemma_canonical_keys_ascend, lex_lt, AttributeKey};
use vstd::prelude::*;
use vstd::std_specs::iter::IteratorSpec;
use vstd::string::StringExecFns;

verus! {

/// An attribute set in the abstract: each key present maps to its value.
pub type AttributeMap = Map<AttributeKey, Seq<char>>;

/// The pair that `key` contributes to the finalized sequence: one pair when
/// the key is present, none otherwise.
pub open spec fn entry(m: AttributeMap, key: AttributeKey) -> Seq<(Seq<char>, Seq<char>)> {
    if m.contains_key(key) {
        seq![(key.literal(), m[key])]
    } else {
        seq![]
    }
}

/// The finalized form of an attribute set: every present key with its value, in
/// ascending order of the key literals.
pub open spec fn ordered_pairs(m: AttributeMap) -> Seq<(Seq<char>, Seq<char>)> {
    entry(m, AttributeKey::AccessGrantId) + entry(m, AttributeKey::EventType) + entry(
        m,
        AttributeKey::ScopeAddress,
    ) + entry(m, AttributeKey::TargetAccount)
}

/// The minimal attribute set of an event of `kind` on `scope` and `target`.
pub open spec fn event_attributes(kind: EventKind, scope: Seq<char>, target: Seq<char>) -> AttributeMap {
    map![
        AttributeKey::EventType => kind.literal(),
        AttributeKey::ScopeAddress => scope,
        AttributeKey::TargetAccount => target,
    ]
}

/// An attribute set that an event constructor and any number of grant id updates
/// can produce: the three mandatory keys, a known event type, and at most the
/// optional grant id besides.
pub open spec fn is_event_set(m: AttributeMap) -> bool {
    &&& m.contains_key(AttributeKey::EventType)
    &&& m.contains_key(AttributeKey::ScopeAddress)
    &&& m.contains_key(AttributeKey::TargetAccount)
    &&& (m[AttributeKey::EventType] == EventKind::AccessGrant.literal() || m[AttributeKey::EventType]
        == EventKind::AccessRevoke.literal())
}

/// Builds the attributes of one gateway event.
///
/// Repeating a fluent call replaces the value that the previous one supplied.
#[derive(Debug)]
pub struct OsGatewayAttributeGenerator {
    event_type: Option<String>,
    scope_address: Option<String>,
    target_account: Option<String>,
    access_grant_id: Option<String>,
}

impl View for OsGatewayAttributeGenerator {
    type V = AttributeMap;

    closed spec fn view(&self) -> AttributeMap {
        Map::new(
            |k: AttributeKey| self.slot(k) is Some,
            |k: AttributeKey| self.slot(k)->0@,
        )
    }
}

impl Clone for OsGatewayAttributeGenerator {
    fn clone(&self) -> (r: Self)
        ensures
            r@ == self@,
    {
        let r = Self {
            event_type: self.event_type.clone(),
            scope_address: self.scope_address.clone(),
            target_account: self.target_account.clone(),
            access_grant_id: self.access_grant_id.clone(),
        };
        assert(r@ =~= self@);
        r
    }
}

impl IntoIterator for OsGatewayAttributeGenerator {
    type Item = (String, String);

    type IntoIter = std::vec::IntoIter<(String, String)>;

    /// The pairs of `into_attributes`, in the same order.
    fn into_iter(self) -> (r: std::vec::IntoIter<(String, String)>)
        ensures
            r.remaining().map_values(|p: (String, String)| (p.0@, p.1@)) == ordered_pairs(self@),
    {
        broadcast use vstd::std_specs::vec::axiom_spec_into_iter;

        let v = self.into_attributes();
        let r = v.into_iter();
        assert(r.remaining().map_values(|p: (String, String)| (p.0@, p.1@)) =~= v.deep_view());
        r
    }
}

impl OsGatewayAttributeGenerator {
    spec fn slot(&self, key: AttributeKey) -> Option<String> {
        match key {
            AttributeKey::EventType => self.event_type,
            AttributeKey::ScopeAddress => self.scope_address,
            AttributeKey::TargetAccount => self.target_account,
            AttributeKey::AccessGrantId => self.access_grant_id,
        }
    }

    /// Starts an access grant event: `target_account_address` is to be given
    /// access to the records of `scope_address`.
    pub fn access_grant(scope_address: &str, target_account_address: &str) -> (r: Self)
        ensures
            r@ == event_attributes(EventKind::AccessGrant, scope_address@, target_account_address@),
            is_event_set(r@),
    {
        Self::new().with_event_type(EventKind::AccessGrant).with_scope_address(
            scope_address,
        ).with_target_account_address(target_account_address)
    }

    /// Starts an access revoke event: the grants of `target_account_address` on
    /// `scope_address` are to be removed, or only the one named by a grant id
    /// when one is attached.
    pub fn access_revoke(scope_address: &str, target_account_address: &str) -> (r: Self)
        ensures
            r@ == event_attributes(EventKind::AccessRevoke, scope_address@, target_account_address@),
            is_event_set(r@),
    {
        Self::new().with_event_type(EventKind::AccessRevoke).with_scope_address(
            scope_address,
        ).with_target_account_address(target_account_address)
    }

    /// Attaches `access_grant_id`, replacing any id attached before.
    pub fn with_access_grant_id(self, access_grant_id: &str) -> (r: Self)
        ensures
            r@ == self@.insert(AttributeKey::AccessGrantId, access_grant_id@),
            is_event_set(self@) ==> is_event_set(r@),
    {
        self.insert_attribute(AttributeKey::AccessGrantId, String::from_str(access_grant_id))
    }

    fn with_event_type(self, kind: EventKind) -> (r: Self)
        ensures
            r@ == self@.insert(AttributeKey::EventType, kind.literal()),
    {
        self.insert_attribute(AttributeKey::EventType, String::from_str(kind.as_str()))
    }

    fn with_scope_address(self, scope_address: &str) -> (r: Self)
        ensures
            r@ == self@.insert(AttributeKey::ScopeAddress, scope_address@),
    {
        self.insert_attribute(AttributeKey::ScopeAddress, String::from_str(scope_address))
    }

    fn with_target_account_address(self, target_account_address: &str) -> (r: Self)
        ensures
            r@ == self@.insert(AttributeKey::TargetAccount, target_account_address@),
    {
        self.insert_attribute(AttributeKey::TargetAccount, String::from_str(target_account_address))
    }

    fn new() -> (r: Self)
        ensures
            r@ == Map::<AttributeKey, Seq<char>>::empty(),
    {
        let r = Self {
            event_type: None,
            scope_address: None,
            target_account: None,
            access_grant_id: None,
        };
        assert(r@ =~= Map::<AttributeKey, Seq<char>>::empty());
        r
    }

    fn insert_attribute(self, key: AttributeKey, value: String) -> (r: Self)
        ensures
            r@ == self@.insert(key, value@),
    {
        let mut r = self;
        match key {
            AttributeKey::EventType => r.event_type = Some(value),
            AttributeKey::ScopeAddress => r.scope_address = Some(value),
            AttributeKey::TargetAccount => r.target_account = Some(value),
            AttributeKey::AccessGrantId => r.access_grant_id = Some(value),
        }
        assert(r@ =~= self@.insert(key, value@));
        r
    }

    /// Consumes the builder into its key/value pairs, ordered by ascending key.
    pub fn into_attributes(self) -> (r: Vec<(String, String)>)
        ensures
            r.deep_view() == ordered_pairs(self@),
            r.len() == ordered_pairs(self@).len(),
    {
        let ghost m = self@;
        let mut out: Vec<(String, String)> = Vec::new();
        assert(out.deep_view() =~= Seq::<(Seq<char>, Seq<char>)>::empty());
        push_entry(&mut out, AttributeKey::AccessGrantId, self.access_grant_id);
        push_entry(&mut out, AttributeKey::EventType, self.event_type);
        push_entry(&mut out, AttributeKey::ScopeAddress, self.scope_address);
        push_entry(&mut out, AttributeKey::TargetAccount, self.target_account);
        assert(out.deep_view() =~= ordered_pairs(m));
        out
    }
}

/// The pair that a key with `value` contributes to the finalized sequence.
spec fn entry_of(key: AttributeKey, value: Option<String>) -> Seq<(Seq<char>, Seq<char>)> {
    match value {
        Some(v) => seq![(key.literal(), v@)],
        None => seq![],
    }
}

fn push_entry(out: &mut Vec<(String, String)>, key: AttributeKey, value: Option<String>)
    ensures
        final(out).deep_view() == old(out).deep_view() + entry_of(key, value),
{
    if let Some(v) = value {
        out.push((String::from_str(key.as_str()), v));
    }
    assert(out.deep_view() =~= old(out).deep_view() + entry_of(key, value));
}

/// The attribute set of an event with an optional grant id attached.
pub open spec fn with_optional_id(m: AttributeMap, id: Option<Seq<char>>) -> AttributeMap {
    match id {
        Some(v) => m.insert(AttributeKey::AccessGrantId, v),
        None => m,
    }
}

/// The four key literals are pairwise distinct.
pub proof fn lemma_key_literals_distinct(a: AttributeKey, b: AttributeKey)
    requires
        a != b,
    ensures
        a.literal() != b.literal(),
{
    reveal_strlit("object_store_gateway_event_type");
    reveal_strlit("object_store_gateway_scope_address");
    reveal_strlit("object_store_gateway_target_account_address");
    reveal_strlit("object_store_gateway_access_grant_id");
    assert(a.literal().len() != b.literal().len());
}

/// An event of either kind finalizes to exactly three pairs: the event type with
/// the kind's literal, then the scope and the target as given.
pub proof fn lemma_event_finalizes_to_three_pairs(kind: EventKind, scope: Seq<char>, target: Seq<char>)
    ensures
        ordered_pairs(event_attributes(kind, scope, target)) == seq![
            (AttributeKey::EventType.literal(), kind.literal()),
            (AttributeKey::ScopeAddress.literal(), scope),
            (AttributeKey::TargetAccount.literal(), target),
        ],
        ordered_pairs(event_attributes(kind, scope, target)).len() == 3,
{
    let m = event_attributes(kind, scope, target);
    assert(!m.contains_key(AttributeKey::AccessGrantId));
    assert(ordered_pairs(m) =~= seq![
        (AttributeKey::EventType.literal(), kind.literal()),
        (AttributeKey::ScopeAddress.literal(), scope),
        (AttributeKey::TargetAccount.literal(), target),
    ]);
}

/// Attaching a grant id once adds exactly one pair, the id verbatim, to the
/// three pairs of the event.
pub proof fn lemma_grant_id_adds_one_pair(
    kind: EventKind,
    scope: Seq<char>,
    target: Seq<char>,
    id: Seq<char>,
)
    ensures
        ordered_pairs(event_attributes(kind, scope, target).insert(AttributeKey::AccessGrantId, id))
            == seq![
            (AttributeKey::AccessGrantId.literal(), id),
            (AttributeKey::EventType.literal(), kind.literal()),
            (AttributeKey::ScopeAddress.literal(), scope),
            (AttributeKey::TargetAccount.literal(), target),
        ],
{
    let m = event_attributes(kind, scope, target).insert(AttributeKey::AccessGrantId, id);
    assert(ordered_pairs(m) =~= seq![
        (AttributeKey::AccessGrantId.literal(), id),
        (AttributeKey::EventType.literal(), kind.literal()),
        (AttributeKey::ScopeAddress.literal(), scope),
        (AttributeKey::TargetAccount.literal(), target),
    ]);
}

/// Attaching a grant id twice keeps four pairs and only the last id: the
/// result is the one of attaching the last id alone.
pub proof fn lemma_grant_id_overwrites(
    kind: EventKind,
    scope: Seq<char>,
    target: Seq<char>,
    first: Seq<char>,
    last: Seq<char>,
)
    ensures
        ordered_pairs(
            event_attributes(kind, scope, target).insert(AttributeKey::AccessGrantId, first).insert(
                AttributeKey::AccessGrantId,
                last,
            ),
        ) == ordered_pairs(
            event_attributes(kind, scope, target).insert(AttributeKey::AccessGrantId, last),
        ),
        ordered_pairs(
            event_attributes(kind, scope, target).insert(AttributeKey::AccessGrantId, first).insert(
                AttributeKey::AccessGrantId,
                last,
            ),
        ).len() == 4,
{
    let m = event_attributes(kind, scope, target);
    assert(m.insert(AttributeKey::AccessGrantId, first).insert(AttributeKey::AccessGrantId, last)
        =~= m.insert(AttributeKey::AccessGrantId, last));
    lemma_grant_id_adds_one_pair(kind, scope, target, last);
}

/// Identical inputs, the optional grant id or its absence included, finalize to
/// identical pair sequences.
pub proof fn lemma_finalization_deterministic(
    kind1: EventKind,
    scope1: Seq<char>,
    target1: Seq<char>,
    id1: Option<Seq<char>>,
    kind2: EventKind,
    scope2: Seq<char>,
    target2: Seq<char>,
    id2: Option<Seq<char>>,
)
    requires
        kind1 == kind2,
        scope1 == scope2,
        target1 == target2,
        id1 == id2,
    ensures
        ordered_pairs(with_optional_id(event_attributes(kind1, scope1, target1), id1))
            == ordered_pairs(with_optional_id(event_attributes(kind2, scope2, target2), id2)),
{
}

/// The order in which two different keys are set does not change the
/// finalized sequence.
pub proof fn lemma_setter_order_irrelevant(
    m: AttributeMap,
    k1: AttributeKey,
    v1: Seq<char>,
    k2: AttributeKey,
    v2: Seq<char>,
)
    requires
        k1 != k2,
    ensures
        ordered_pairs(m.insert(k1, v1).insert(k2, v2)) == ordered_pairs(
            m.insert(k2, v2).insert(k1, v1),
        ),
{
    assert(m.insert(k1, v1).insert(k2, v2) =~= m.insert(k2, v2).insert(k1, v1));
}

/// The keys of any finalized sequence ascend strictly in lexicographic order.
pub proof fn lemma_keys_strictly_ascend(m: AttributeMap)
    ensures
        forall|i: int, j: int|
            0 <= i < j < ordered_pairs(m).len() ==> lex_lt(
                #[trigger] ordered_pairs(m)[i].0,
                #[trigger] ordered_pairs(m)[j].0,
            ),
{
    assert forall|a: int, b: int| 0 <= a < b < 4 implies lex_lt(
        canonical_keys()[a].literal(),
        canonical_keys()[b].literal(),
    ) by {
        lemma_canonical_keys_ascend(a, b);
    }
    let p = ordered_pairs(m);
    assert forall|i: int, j: int| 0 <= i < j < p.len() implies lex_lt(p[i].0, p[j].0) by {
        lemma_key_position(m, i);
        lemma_key_position(m, j);
    }
}

/// Where in `canonical_keys` the key of the `i`-th finalized pair stands.
spec fn key_position(m: AttributeMap, i: int) -> int {
    let c0 = entry(m, AttributeKey::AccessGrantId).len();
    let c1 = c0 + entry(m, AttributeKey::EventType).len();
    let c2 = c1 + entry(m, AttributeKey::ScopeAddress).len();
    if i < c0 {
        0
    } else if i < c1 {
        1
    } else if i < c2 {
        2
    } else {
        3
    }
}

proof fn lemma_key_position(m: AttributeMap, i: int)
    requires
        0 <= i < ordered_pairs(m).len(),
    ensures
        0 <= key_position(m, i) < 4,
        ordered_pairs(m)[i].0 == canonical_keys()[key_position(m, i)].literal(),
        forall|j: int| i < j < ordered_pairs(m).len() ==> key_position(m, i) < key_position(m, j),
{
}

/// Without a grant id, no finalized pair carries the grant id key.
pub proof fn lemma_no_id_no_id_pair(kind: EventKind, scope: Seq<char>, target: Seq<char>)
    ensures
        forall|i: int|
            0 <= i < ordered_pairs(event_attributes(kind, scope, target)).len() ==> (#[trigger] ordered_pairs(
                event_attributes(kind, scope, target),
            )[i]).0 != AttributeKey::AccessGrantId.literal(),
{
    lemma_event_finalizes_to_three_pairs(kind, scope, target);
    lemma_key_literals_distinct(AttributeKey::EventType, AttributeKey::AccessGrantId);
    lemma_key_literals_distinct(AttributeKey::ScopeAddress, AttributeKey::AccessGrantId);
    lemma_key_literals_distinct(AttributeKey::TargetAccount, AttributeKey::AccessGrantId);
}

} // verus!
