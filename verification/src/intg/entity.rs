//! Integration API related entity data structures.

use crate::entity::EntityType;
use vstd::prelude::*;

verus! {

/// Execute an entity command.
///
/// Instructs the integration driver to execute a command like "turn on" or
/// "change temperature". Optional command data like a temperature value can
/// be provided in `params`. After successfully executing a command, the
/// remote expects an `entity_change` event with the updated attribute
/// values; the immediate `result` response only acknowledges the command.
#[derive(Debug)]
pub struct EntityCommand {
    pub device_id: Option<String>,
    pub entity_type: EntityType,
    pub entity_id: String,
    pub cmd_id: String,
    pub params: Option<serde_json::Map<String, serde_json::Value>>,
}

/// Entity state change event.
///
/// Emitted when an attribute of an entity changes, either after an
/// `entity_command` or if the entity is updated manually through a user or
/// an external system. This keeps the remote in sync without polling.
#[derive(Debug)]
pub struct EntityChange {
    /// Only required for multi-device integrations.
    pub device_id: Option<String>,
    pub entity_type: EntityType,
    /// Integration specific entity identifier.
    pub entity_id: String,
    pub attributes: serde_json::Map<String, serde_json::Value>,
}

/// Available entity definition provided by an integration.
///
/// The `entity_type` value acts as discriminator for the entity type, which
/// defines the supported features and options of an entity.
#[derive(Debug)]
pub struct AvailableIntgEntity {
    /// Unique entity identifier within the integration device.
    pub entity_id: String,
    /// Optional associated device, only if the integration driver supports
    /// multiple devices.
    pub device_id: Option<String>,
    /// Discriminator value for the concrete entity device type.
    pub entity_type: EntityType,
    /// Optional device class, used by the UI to represent the entity with a
    /// different icon, behaviour etc.
    pub device_class: Option<String>,
    /// Display name of the entity in the UI, as language texts. An english
    /// text with key `en` should always be provided as fallback.
    pub name: Vec<(String, String)>,
    /// Supported features of the entity, as feature wire names.
    pub features: Option<Vec<String>>,
    /// Optional area if supported by the integration, e.g. `Living room`.
    pub area: Option<String>,
    /// Optional entity options.
    pub options: Option<serde_json::Map<String, serde_json::Value>>,
}

} // verus!
