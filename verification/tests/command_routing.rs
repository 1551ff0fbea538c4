use unifi_core::command::{
    merge_acl_update, merge_network_update, merge_zone_update, route_command, voucher_body, AclBody,
    Backends, Command, IntegrationCall, LegacyCall, NetworkBody, Route, ZoneBody,
};
use unifi_core::controller::{require_uuid, unsupported, CoreError};
use unifi_core::entity_id::{EntityId, MacAddress};
use unifi_core::json::Json;
use unifi_core::model::FirewallAction;
use unifi_core::requests::{
    CreateVouchersRequest, UpdateAclRuleRequest, UpdateFirewallZoneRequest, UpdateNetworkRequest,
};
use unifi_core::store::DataStore;

const INTEGRATION: Backends = Backends { integration: true, site_id: Some(42), legacy: true };
const LEGACY_ONLY: Backends = Backends { integration: false, site_id: None, legacy: true };
const NOTHING: Backends = Backends { integration: false, site_id: None, legacy: false };

#[test]
fn adopt_prefers_the_integration_api() {
    let store = DataStore::new();
    let mac = MacAddress::new("AA-BB-CC-00-11-22");
    match route_command(Command::AdoptDevice { mac: mac.clone() }, INTEGRATION, &store) {
        Ok(Route::Integration { site: 42, call: IntegrationCall::AdoptDevice { mac: m } }) => {
            assert_eq!(m.as_str(), "aa:bb:cc:00:11:22")
        }
        other => panic!("unexpected route {other:?}"),
    }
    match route_command(Command::AdoptDevice { mac }, LEGACY_ONLY, &store) {
        Ok(Route::Legacy(LegacyCall::AdoptDevice { .. })) => {}
        other => panic!("unexpected route {other:?}"),
    }
}

#[test]
fn legacy_only_commands_need_the_legacy_client() {
    let store = DataStore::new();
    let mac = MacAddress::new("aa:bb:cc:00:11:22");
    assert!(matches!(
        route_command(Command::ForgetClient { mac }, NOTHING, &store),
        Err(CoreError::ControllerDisconnected)
    ));
    assert!(matches!(
        route_command(Command::CreateBackup, LEGACY_ONLY, &store),
        Ok(Route::Legacy(LegacyCall::CreateBackup))
    ));
}

#[test]
fn integration_only_commands_are_refused_without_it() {
    let store = DataStore::new();
    match route_command(Command::DeleteNetwork { id: EntityId::Uuid(7), force: false }, LEGACY_ONLY, &store)
    {
        Err(CoreError::Unsupported { operation, required }) => {
            assert_eq!(operation, "DeleteNetwork");
            assert_eq!(required, "Integration API");
        }
        other => panic!("unexpected route {other:?}"),
    }
}

#[test]
fn legacy_ids_are_refused_for_integration_calls() {
    let store = DataStore::new();
    let id = EntityId::Legacy("507f1f77bcf86cd799439011".into());
    match route_command(Command::RemoveDevice { id }, INTEGRATION, &store) {
        Err(CoreError::Unsupported { operation, required }) => {
            assert_eq!(operation, "Integration API operation on legacy ID");
            assert_eq!(required, "UUID-based entity ID");
        }
        other => panic!("unexpected route {other:?}"),
    }
}

#[test]
fn locate_needs_the_device_in_the_store() {
    let store = DataStore::new();
    let mac = MacAddress::new("aa:bb:cc:00:11:22");
    match route_command(Command::LocateDevice { mac, enable: true }, INTEGRATION, &store) {
        Err(CoreError::DeviceNotFound { identifier }) => assert_eq!(identifier, "aa:bb:cc:00:11:22"),
        other => panic!("unexpected route {other:?}"),
    }
}

#[test]
fn restart_on_legacy_needs_the_device_in_the_store() {
    let store = DataStore::new();
    match route_command(Command::RestartDevice { id: EntityId::Legacy("abc".into()) }, LEGACY_ONLY, &store) {
        Err(CoreError::DeviceNotFound { identifier }) => assert_eq!(identifier, "abc"),
        other => panic!("unexpected route {other:?}"),
    }
}

#[test]
fn restart_on_integration_is_a_device_action() {
    let store = DataStore::new();
    match route_command(Command::RestartDevice { id: EntityId::Uuid(9) }, INTEGRATION, &store) {
        Ok(Route::Integration { site: 42, call: IntegrationCall::DeviceAction { device: 9, action } }) => {
            assert_eq!(action, "RESTART")
        }
        other => panic!("unexpected route {other:?}"),
    }
}

#[test]
fn unsupported_commands_name_the_operation() {
    let store = DataStore::new();
    match route_command(Command::RebootController, INTEGRATION, &store) {
        Err(CoreError::Unsupported { operation, .. }) => {
            assert_eq!(operation, "controller power management")
        }
        other => panic!("unexpected route {other:?}"),
    }
    match unsupported("X") {
        CoreError::Unsupported { operation, required } => {
            assert_eq!(operation, "X");
            assert_eq!(required, "Integration API");
        }
        other => panic!("unexpected error {other:?}"),
    }
    assert_eq!(require_uuid(&EntityId::Uuid(3)).unwrap(), 3);
}

#[test]
fn reorder_converts_every_id() {
    let store = DataStore::new();
    let ids = vec![EntityId::Uuid(1), EntityId::Uuid(2)];
    match route_command(Command::ReorderAclRules { ordered_ids: ids }, INTEGRATION, &store) {
        Ok(Route::Integration { call: IntegrationCall::SetAclRuleOrdering { ordered_acl_rule_ids }, .. }) => {
            assert_eq!(ordered_acl_rule_ids, vec![1, 2])
        }
        other => panic!("unexpected route {other:?}"),
    }
    let bad = vec![EntityId::Uuid(1), EntityId::Legacy("x".into())];
    assert!(route_command(Command::ReorderAclRules { ordered_ids: bad }, INTEGRATION, &store).is_err());
}

#[test]
fn network_update_merges_into_existing() {
    let existing = NetworkBody {
        name: "LAN".into(),
        enabled: true,
        management: "GATEWAY".into(),
        vlan_id: 1,
        dhcp_guarding: Some(Json::Bool(true)),
    };
    let update = UpdateNetworkRequest { vlan_id: Some(20), enabled: Some(false), ..Default::default() };
    let merged = merge_network_update(update, existing);
    assert_eq!(merged.name, "LAN");
    assert!(!merged.enabled);
    assert_eq!(merged.management, "GATEWAY");
    assert_eq!(merged.vlan_id, 20);
    assert!(matches!(merged.dhcp_guarding, Some(Json::Bool(true))));
}

#[test]
fn acl_update_maps_the_action() {
    let existing = AclBody {
        name: "r".into(),
        rule_type: "IPV4".into(),
        action: "ALLOW".into(),
        enabled: true,
    };
    let update = UpdateAclRuleRequest { action: Some(FirewallAction::Block), ..Default::default() };
    let merged = merge_acl_update(update, existing);
    assert_eq!(merged.action, "BLOCK");
    assert_eq!(merged.rule_type, "IPV4");
}

#[test]
fn zone_update_refuses_legacy_network_ids() {
    let existing = ZoneBody { name: "z".into(), network_ids: vec![5] };
    let update = UpdateFirewallZoneRequest {
        network_ids: Some(vec![EntityId::Legacy("x".into())]),
        ..Default::default()
    };
    assert!(merge_zone_update(update, existing).is_err());
    let existing = ZoneBody { name: "z".into(), network_ids: vec![5] };
    let kept = merge_zone_update(UpdateFirewallZoneRequest::default(), existing).unwrap();
    assert_eq!(kept.network_ids, vec![5]);
}

#[test]
fn voucher_defaults() {
    let req = CreateVouchersRequest {
        count: 3,
        name: None,
        time_limit_minutes: None,
        data_usage_limit_mb: Some(100),
        rx_rate_limit_kbps: None,
        tx_rate_limit_kbps: None,
        authorized_guest_limit: None,
    };
    let body = voucher_body(req);
    assert_eq!(body.name, "Voucher");
    assert_eq!(body.count, Some(3));
    assert_eq!(body.time_limit_minutes, 60);
    assert_eq!(body.data_usage_limit_mbytes, Some(100));
}
