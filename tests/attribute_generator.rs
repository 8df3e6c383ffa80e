use os_gateway_contract_attributes::{
    os_gateway_event_types, os_gateway_keys, AttributeKey, EventKind, OsGatewayAttributeGenerator,
};

const DEFAULT_SCOPE_ADDRESS: &str = "scope_address";
const DEFAULT_TARGET_ACCOUNT: &str = "target_account_address";
const DEFAULT_GRANT_ID: &str = "grant_id";

fn test_access_grant() -> OsGatewayAttributeGenerator {
    OsGatewayAttributeGenerator::access_grant(DEFAULT_SCOPE_ADDRESS, DEFAULT_TARGET_ACCOUNT)
}

fn test_access_revoke() -> OsGatewayAttributeGenerator {
    OsGatewayAttributeGenerator::access_revoke(DEFAULT_SCOPE_ADDRESS, DEFAULT_TARGET_ACCOUNT)
}

fn single_attribute_for_key(attributes: &[(String, String)], key: &str) -> String {
    let matching: Vec<&(String, String)> = attributes.iter().filter(|(k, _)| k == key).collect();
    assert_eq!(1, matching.len(), "expected exactly one attribute for key {}", key);
    matching[0].1.clone()
}

fn assert_attribute_values_are_correct(
    expected_event_key: &str,
    generator: &OsGatewayAttributeGenerator,
    grant_id: Option<&str>,
) {
    let keys = os_gateway_keys();
    let expected_attribute_count = 3 + if grant_id.is_some() { 1 } else { 0 };
    let attributes = generator.clone().into_attributes();
    assert_eq!(
        expected_attribute_count,
        attributes.len(),
        "expected the correct number of attributes to be held in the attribute generator",
    );
    assert_eq!(
        expected_event_key,
        single_attribute_for_key(&attributes, keys.event_type),
        "the event type key should equate to the expected value",
    );
    assert_eq!(
        DEFAULT_SCOPE_ADDRESS,
        single_attribute_for_key(&attributes, keys.scope_address),
        "the scope address key should contain the default scope address value",
    );
    assert_eq!(
        DEFAULT_TARGET_ACCOUNT,
        single_attribute_for_key(&attributes, keys.target_account),
        "the target account key should contain the default target account address value",
    );
    if let Some(grant_id) = grant_id {
        assert_eq!(
            grant_id,
            single_attribute_for_key(&attributes, keys.access_grant_id),
            "the access grant id key should contain the provided access grant id value",
        );
    } else {
        assert!(
            !attributes.iter().any(|(k, _)| k == keys.access_grant_id),
            "the access grant id key was not expected to be provided",
        );
    }
}

#[test]
fn test_access_grant_contents() {
    let grant_value = os_gateway_event_types().access_grant;
    let mut access_grant = test_access_grant();
    assert_attribute_values_are_correct(grant_value, &access_grant, None);
    access_grant = access_grant.with_access_grant_id(DEFAULT_GRANT_ID);
    assert_attribute_values_are_correct(grant_value, &access_grant, Some(DEFAULT_GRANT_ID));
    access_grant = access_grant.with_access_grant_id("grant_id_2");
    assert_attribute_values_are_correct(grant_value, &access_grant, Some("grant_id_2"));
}

#[test]
fn test_access_revoke_contents() {
    let revoke_value = os_gateway_event_types().access_revoke;
    let mut access_revoke = test_access_revoke();
    assert_attribute_values_are_correct(revoke_value, &access_revoke, None);
    access_revoke = access_revoke.with_access_grant_id(DEFAULT_GRANT_ID);
    assert_attribute_values_are_correct(revoke_value, &access_revoke, Some(DEFAULT_GRANT_ID));
    access_revoke = access_revoke.with_access_grant_id("grant_id_2");
    assert_attribute_values_are_correct(revoke_value, &access_revoke, Some("grant_id_2"));
}

#[test]
fn test_output_attributes_are_deterministic() {
    let keys = os_gateway_keys();
    let first_grant_attrs = test_access_grant()
        .with_access_grant_id("a")
        .into_iter()
        .collect::<Vec<(String, String)>>();
    let second_grant_attrs = test_access_grant()
        .with_access_grant_id("a")
        .into_iter()
        .collect::<Vec<(String, String)>>();
    assert_eq!(
        first_grant_attrs, second_grant_attrs,
        "both grant attributes lists should be identical due to deterministic ordering",
    );
    assert_eq!(4, first_grant_attrs.len(), "four attributes should be produced",);
    let mut expected_keys = vec![
        keys.scope_address,
        keys.access_grant_id,
        keys.event_type,
        keys.target_account,
    ];
    expected_keys.sort();
    for (index, key) in expected_keys.into_iter().enumerate() {
        assert_eq!(
            key, first_grant_attrs[index].0,
            "the key at position {} should be {key} - the result of the attribute sort was not deterministic",
            index,
        );
    }
}

fn pairs(items: &[(&str, &str)]) -> Vec<(String, String)> {
    items.iter().map(|(k, v)| (k.to_string(), v.to_string())).collect()
}

#[test]
fn grant_example_finalizes_to_three_sorted_pairs() {
    let attrs = OsGatewayAttributeGenerator::access_grant(
        "scope1qzn7jghj8puprmdcvunm3330jutsj803zz",
        "tp12vu3ww5tfta78fl3fvehacunrud4gtqqcpfwnr",
    )
    .into_attributes();
    assert_eq!(
        pairs(&[
            ("object_store_gateway_event_type", "access_grant"),
            ("object_store_gateway_scope_address", "scope1qzn7jghj8puprmdcvunm3330jutsj803zz"),
            (
                "object_store_gateway_target_account_address",
                "tp12vu3ww5tfta78fl3fvehacunrud4gtqqcpfwnr"
            ),
        ]),
        attrs
    );
}

#[test]
fn grant_example_with_id_finalizes_to_four_sorted_pairs() {
    let attrs = OsGatewayAttributeGenerator::access_grant(
        "scope1qzn7jghj8puprmdcvunm3330jutsj803zz",
        "tp12vu3ww5tfta78fl3fvehacunrud4gtqqcpfwnr",
    )
    .with_access_grant_id("my_unique_id")
    .into_attributes();
    assert_eq!(
        pairs(&[
            ("object_store_gateway_access_grant_id", "my_unique_id"),
            ("object_store_gateway_event_type", "access_grant"),
            ("object_store_gateway_scope_address", "scope1qzn7jghj8puprmdcvunm3330jutsj803zz"),
            (
                "object_store_gateway_target_account_address",
                "tp12vu3ww5tfta78fl3fvehacunrud4gtqqcpfwnr"
            ),
        ]),
        attrs
    );
}

#[test]
fn revoke_finalizes_with_revoke_literal() {
    let attrs = OsGatewayAttributeGenerator::access_revoke("scope", "target").into_attributes();
    assert_eq!(
        pairs(&[
            ("object_store_gateway_event_type", "access_revoke"),
            ("object_store_gateway_scope_address", "scope"),
            ("object_store_gateway_target_account_address", "target"),
        ]),
        attrs
    );
}

#[test]
fn second_grant_id_replaces_first() {
    let attrs = OsGatewayAttributeGenerator::access_revoke("scope", "target")
        .with_access_grant_id("first")
        .with_access_grant_id("second")
        .into_attributes();
    assert_eq!(
        pairs(&[
            ("object_store_gateway_access_grant_id", "second"),
            ("object_store_gateway_event_type", "access_revoke"),
            ("object_store_gateway_scope_address", "scope"),
            ("object_store_gateway_target_account_address", "target"),
        ]),
        attrs
    );
}

#[test]
fn empty_strings_are_kept_verbatim() {
    let attrs = OsGatewayAttributeGenerator::access_grant("", "")
        .with_access_grant_id("")
        .into_attributes();
    assert_eq!(
        pairs(&[
            ("object_store_gateway_access_grant_id", ""),
            ("object_store_gateway_event_type", "access_grant"),
            ("object_store_gateway_scope_address", ""),
            ("object_store_gateway_target_account_address", ""),
        ]),
        attrs
    );
}

#[test]
fn no_grant_id_means_no_grant_id_pair() {
    let attrs = OsGatewayAttributeGenerator::access_grant("scope", "target").into_attributes();
    assert_eq!(3, attrs.len());
    assert!(attrs.iter().all(|(k, _)| k != "object_store_gateway_access_grant_id"));
}

#[test]
fn finalized_keys_strictly_ascend() {
    for generator in [
        OsGatewayAttributeGenerator::access_grant("s", "t"),
        OsGatewayAttributeGenerator::access_revoke("s", "t").with_access_grant_id("id"),
    ] {
        let attrs = generator.into_attributes();
        for window in attrs.windows(2) {
            assert!(window[0].0 < window[1].0);
        }
    }
}

#[test]
fn into_iter_matches_into_attributes() {
    let generator = OsGatewayAttributeGenerator::access_grant("s", "t").with_access_grant_id("id");
    let via_iter: Vec<(String, String)> = generator.clone().into_iter().collect();
    assert_eq!(generator.into_attributes(), via_iter);
}

#[test]
fn clone_keeps_attributes() {
    let generator = OsGatewayAttributeGenerator::access_revoke("s", "t").with_access_grant_id("id");
    let copy = generator.clone();
    assert_eq!(generator.into_attributes(), copy.into_attributes());
}

#[test]
fn key_registry_literals() {
    let keys = os_gateway_keys();
    assert_eq!("object_store_gateway_event_type", keys.event_type);
    assert_eq!("object_store_gateway_scope_address", keys.scope_address);
    assert_eq!("object_store_gateway_target_account_address", keys.target_account);
    assert_eq!("object_store_gateway_access_grant_id", keys.access_grant_id);
    assert_eq!(keys.event_type, AttributeKey::EventType.as_str());
    assert_eq!(keys.scope_address, AttributeKey::ScopeAddress.as_str());
    assert_eq!(keys.target_account, AttributeKey::TargetAccount.as_str());
    assert_eq!(keys.access_grant_id, AttributeKey::AccessGrantId.as_str());
}

#[test]
fn event_type_literals() {
    let kinds = os_gateway_event_types();
    assert_eq!("access_grant", kinds.access_grant);
    assert_eq!("access_revoke", kinds.access_revoke);
    assert_eq!(kinds.access_grant, EventKind::AccessGrant.as_str());
    assert_eq!(kinds.access_revoke, EventKind::AccessRevoke.as_str());
}
