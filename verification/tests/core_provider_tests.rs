//! Tests of the core provider and its builder.

use parsec_core::core_provider::{CoreProvider, CoreProviderBuilder};
use parsec_core::operations::OpPing;
use parsec_core::requests::ProviderId;

#[test]
fn test_ping() {
    let provider = CoreProvider {
        version_min: 8,
        version_maj: 10,
        providers: Vec::new(),
    };
    let op = OpPing {};
    let result = provider.ping(op).unwrap();
    assert_eq!(result.supp_version_maj, provider.version_maj);
    assert_eq!(result.supp_version_min, provider.version_min);
}

#[test]
fn core_lists_its_three_opcodes() {
    let provider = CoreProvider {
        version_min: 0,
        version_maj: 1,
        providers: Vec::new(),
    };
    let ops = provider.list_opcodes().unwrap();
    assert_eq!(ops.len(), 3);
}

#[test]
fn describe_reports_core_identity() {
    let provider = CoreProvider {
        version_min: 0,
        version_maj: 1,
        providers: Vec::new(),
    };
    let info = provider.describe();
    assert_eq!(info.id, ProviderId::Core);
    assert_eq!(info.uuid.len(), 16);
    assert_eq!(info.uuid[0], 0x47);
    assert_eq!(info.version_maj, 0);
    assert_eq!(info.version_min, 1);
}

#[test]
fn builder_appends_own_description_last() {
    let provider = CoreProviderBuilder::new()
        .with_version(0, 1)
        .with_provider_info(CoreProvider {
            version_min: 0,
            version_maj: 1,
            providers: Vec::new(),
        }.describe())
        .build()
        .unwrap();
    assert_eq!(provider.version_maj, 1);
    assert_eq!(provider.version_min, 0);
    assert_eq!(provider.providers.len(), 2);
    assert_eq!(provider.providers[1].id, ProviderId::Core);
    let listed = provider.list_providers().unwrap();
    assert_eq!(listed.len(), 2);
}

#[test]
fn builder_requires_every_field() {
    assert!(CoreProviderBuilder::new().build().is_none());
    assert!(CoreProviderBuilder::new().with_version(0, 1).build().is_none());
}

#[test]
fn builder_keeps_configured_descriptors_in_order() {
    let peer = CoreProvider {
        version_min: 0,
        version_maj: 1,
        providers: Vec::new(),
    }.describe();
    let mut expected_uuid = peer.uuid.clone();
    expected_uuid[0] = 0x99;
    let mut changed = peer;
    changed.uuid = expected_uuid.clone();
    let provider = CoreProviderBuilder::new()
        .with_version(2, 3)
        .with_provider_info(changed)
        .build()
        .unwrap();
    assert_eq!(provider.providers.len(), 2);
    assert_eq!(provider.providers[0].uuid, expected_uuid);
    assert_eq!(provider.providers[1].id, ProviderId::Core);
}
