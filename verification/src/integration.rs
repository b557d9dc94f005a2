//! Integration related data structures: the legacy models of the first API
//! revision, kept beside the current [`crate::intg`] module.

use crate::ws::WsAuthentication;
use vstd::prelude::*;
use vstd::string::StringExecFns;

verus! {


/// Integration driver version information.
#[derive(Debug, Clone)]
pub struct IntegrationVersion {
    /// Implemented API version.
    pub api: String,
    /// Version of the integration.
    pub integration: String,
}

/// Subscribe to entity state change events to receive `entity_change` events
/// from the integration driver.
#[derive(Debug, Clone)]
pub struct SubscribeEvents {
    /// Only required for multi-device integrations.
    pub device_id: Option<String>,
    /// Subscribe to events for the specified entities.
    pub entity_ids: Vec<String>,
}

/// Integration status information.
#[derive(Debug, Clone)]
pub struct IntegrationStatus {
    pub integration_id: String,
    /// Name of the integration driver, as language texts.
    pub name: Vec<(String, String)>,
    pub icon: Option<String>,
    /// Device state. This is the last known state of the device.
    pub state: DeviceState,
    /// Integration is enabled.
    pub enabled: bool,
}

/// Minimal integration driver information, intended for driver overview
/// pages.
#[derive(Debug, Clone)]
pub struct IntegrationDriverInfo {
    pub driver_id: String,
    /// Name of the driver, as language texts.
    pub name: Vec<(String, String)>,
    pub driver_url: String,
    pub version: String,
    pub icon: Option<String>,
    pub enabled: bool,
}

/// Integration driver model.
///
/// A driver represents the communication aspect of an integration: how one
/// can connect to it and which API version it supports.
#[derive(Debug)]
pub struct IntegrationDriver {
    /// Unique driver identifier.
    pub driver_id: String,
    /// Name of the driver to display in the UI, as language texts. An
    /// english text with key `en` should always be provided as fallback.
    pub name: Vec<(String, String)>,
    /// WebSocket URL of the integration driver.
    pub driver_url: String,
    /// Optional driver authentication token. Not returned to external
    /// clients.
    pub token: Option<String>,
    /// Authentication method if token is used.
    pub auth_method: Option<WsAuthentication>,
    /// Driver version, semantic versioning preferred.
    pub version: String,
    /// Optional version check: minimum required core API version in the
    /// remote.
    pub min_core_api: Option<String>,
    pub icon: Option<String>,
    /// Enables or disables driver communication. If disabled, all
    /// integration instances won't be activated.
    pub enabled: bool,
    /// Optional description of the integration, as language texts.
    pub description: Option<Vec<(String, String)>>,
    /// Optional information about the integration developer or company.
    pub developer: Option<DriverDeveloper>,
    /// Optional home page url for more information.
    pub home_page: Option<String>,
    /// Driver supports multi-device discovery.
    pub device_discovery: bool,
    /// Driver configuration metadata describing configuration parameters for
    /// the web-configurator.
    pub setup_data_schema: serde_json::Value,
    /// Release date of the driver, in its wire form.
    pub release_date: Option<String>,
}

/// Integration driver update model: a dedicated model related to
/// [`IntegrationDriver`] for create and patch update operations.
#[derive(Debug)]
pub struct IntegrationDriverUpdate {
    pub driver_id: Option<String>,
    pub name: Option<Vec<(String, String)>>,
    pub driver_url: Option<String>,
    pub token: Option<String>,
    pub auth_method: Option<WsAuthentication>,
    pub version: Option<String>,
    pub min_core_api: Option<String>,
    pub icon: Option<String>,
    pub enabled: Option<bool>,
    pub description: Option<Vec<(String, String)>>,
    pub developer: Option<DriverDeveloper>,
    pub home_page: Option<String>,
    pub device_discovery: Option<bool>,
    pub setup_data_schema: Option<serde_json::Value>,
    /// Release date of the driver, in its wire form.
    pub release_date: Option<String>,
}

/// Developer information for an integration driver.
#[derive(Debug, Clone)]
pub struct DriverDeveloper {
    pub name: Option<String>,
    pub url: Option<String>,
    pub email: Option<String>,
}

/// Integration instance model: a configured integration driver.
#[derive(Debug)]
pub struct Integration {
    /// Unique integration identifier.
    pub integration_id: String,
    /// The required integration driver. References [`IntegrationDriver`].
    pub driver_id: String,
    /// Only required for multi-device integrations.
    pub device_id: Option<String>,
    /// Name of the integration instance, as language texts.
    pub name: Vec<(String, String)>,
    pub icon: Option<String>,
    pub enabled: bool,
    /// Optional configuration data if supported or required by the driver.
    pub setup_data: serde_json::Map<String, serde_json::Value>,
}

/// Integration instance update model: a dedicated model related to
/// [`Integration`] for create and patch update operations.
#[derive(Debug)]
pub struct IntegrationUpdate {
    /// Unique integration instance identifier, set by the system. This field
    /// cannot be updated.
    pub integration_id: Option<String>,
    /// The required integration driver. This field cannot be updated.
    pub driver_id: Option<String>,
    /// Only required for multi-device integrations. This field cannot be
    /// updated.
    pub device_id: Option<String>,
    pub name: Option<Vec<(String, String)>>,
    pub icon: Option<String>,
    pub enabled: Option<bool>,
    pub setup_data: Option<serde_json::Map<String, serde_json::Value>>,
}

/// Integration device states, serialized in `SCREAMING_SNAKE_CASE`.
#[derive(Debug, Clone, PartialEq, Eq, Structural)]
pub enum DeviceState {
    Connecting,
    Connected,
    Disconnected,
    Error,
}

impl DeviceState {
    /// The wire name of the variant.
    pub open spec fn wire_str(self) -> Seq<char> {
        match self {
            DeviceState::Connecting => "CONNECTING"@,
            DeviceState::Connected => "CONNECTED"@,
            DeviceState::Disconnected => "DISCONNECTED"@,
            DeviceState::Error => "ERROR"@,
        }
    }

    /// The variant a wire name denotes, if any.
    pub open spec fn spec_from_wire(s: Seq<char>) -> Option<DeviceState> {
        if s == "CONNECTING"@ {
            Some(DeviceState::Connecting)
        } else if s == "CONNECTED"@ {
            Some(DeviceState::Connected)
        } else if s == "DISCONNECTED"@ {
            Some(DeviceState::Disconnected)
        } else if s == "ERROR"@ {
            Some(DeviceState::Error)
        } else {
            None
        }
    }

    /// The wire name of the variant.
    pub fn as_str(&self) -> (r: &'static str)
        ensures
            r@ == self.wire_str(),
    {
        match self {
            DeviceState::Connecting => "CONNECTING",
            DeviceState::Connected => "CONNECTED",
            DeviceState::Disconnected => "DISCONNECTED",
            DeviceState::Error => "ERROR",
        }
    }

    /// Parse a wire name.
    pub fn from_str(s: &str) -> (r: Option<DeviceState>)
        ensures
            r == DeviceState::spec_from_wire(s@),
    {
        let o = s.to_owned();
        if o == String::from_str("CONNECTING") {
            Some(DeviceState::Connecting)
        } else if o == String::from_str("CONNECTED") {
            Some(DeviceState::Connected)
        } else if o == String::from_str("DISCONNECTED") {
            Some(DeviceState::Disconnected)
        } else if o == String::from_str("ERROR") {
            Some(DeviceState::Error)
        } else {
            None
        }
    }
}

/// Payload data of a `device_state` event message.
#[derive(Debug, Clone)]
pub struct DeviceStateMsgData {
    /// Only required for multi-device integrations.
    pub device_id: Option<String>,
    pub state: DeviceState,
}

/// Payload data of an `entity_change` event message.
#[derive(Debug)]
pub struct EntityChangeMsgData {
    /// Only required for multi-device integrations.
    pub device_id: Option<String>,
    pub entity_type: crate::entity::EntityType,
    pub entity_id: String,
    pub attributes: Option<serde_json::Map<String, serde_json::Value>>,
}

/// Payload data of an `entity_available` event message.
#[derive(Debug, Clone)]
pub struct EntityAvailableMsgData {
    /// Only required for multi-device integrations.
    pub device_id: Option<String>,
    pub entity_type: crate::entity::EntityType,
    pub entity_id: String,
    pub features: Option<Vec<String>>,
    /// Display name of the entity, as language texts.
    pub name: Vec<(String, String)>,
    pub area: Option<String>,
}

/// Payload data of an `entity_removed` event message.
#[derive(Debug, Clone)]
pub struct EntityRemovedMsgData {
    /// Only required for multi-device integrations.
    pub device_id: Option<String>,
    pub entity_type: crate::entity::EntityType,
    pub entity_id: String,
}

/// Filter of an `available_entities` request.
#[derive(Debug, Clone)]
pub struct AvailableEntitiesFilter {
    pub device_id: Option<String>,
    pub entity_type: Option<crate::entity::EntityType>,
}

/// Payload data of an `available_entities` response message.
#[derive(Debug)]
pub struct AvailableEntitiesMsgData {
    pub filter: Option<AvailableEntitiesFilter>,
    pub available_entities: Vec<crate::intg::entity::AvailableIntgEntity>,
}


/// Parsing the wire name of a variant yields the variant again: the
/// wire mapping loses nothing.
pub proof fn lemma_device_state_wire_round_trip(x: DeviceState)
    ensures
        DeviceState::spec_from_wire(x.wire_str()) == Some(x),
{
    reveal_strlit("CONNECTING");
    reveal_strlit("CONNECTED");
    reveal_strlit("DISCONNECTED");
    reveal_strlit("ERROR");
    assert("CONNECTING"@.len() == 10);
    assert("CONNECTED"@.len() == 9);
    assert("DISCONNECTED"@.len() == 12);
    assert("ERROR"@.len() == 5);
}

} // verus!
