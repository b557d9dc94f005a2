//! Integration API related data structures, independent of the transport
//! layer.
//!
//! See the [`ws`] sub module for WebSocket specific message structures.
//! Language-dependent display texts are lists of `(language key, text)`
//! pairs, resolved with [`crate::util::text_from_language_map`]. Calendar
//! dates travel in their wire form as strings.

pub mod entity;
pub mod ws;

use crate::ws::WsAuthentication;
use vstd::prelude::*;
use vstd::string::StringExecFns;

verus! {

/// Integration driver version information.
#[derive(Debug, Clone)]
pub struct IntegrationVersion {
    /// Implemented API version.
    pub api: Option<String>,
    /// Version of the integration.
    pub driver: Option<String>,
}

/// Subscribe to entity state change events to receive `entity_change` events
/// from the integration driver.
///
/// If no entity IDs are specified then events for all available entities are
/// sent to the remote.
#[derive(Debug, Clone)]
pub struct SubscribeEvents {
    /// Only required for multi-device integrations.
    pub device_id: Option<String>,
    /// Subscribe to events for the specified entities.
    pub entity_ids: Vec<String>,
}

/// Integration status information, for a single integration instance.
#[derive(Debug, Clone)]
pub struct IntegrationStatus {
    /// Integration driver identifier.
    pub driver_id: Option<String>,
    /// Integration instance identifier.
    pub integration_id: Option<String>,
    /// Name of the integration driver, as language texts.
    pub name: Vec<(String, String)>,
    /// Optional icon identifier of the integration.
    pub icon: Option<String>,
    pub driver_type: DriverType,
    /// Integration state.
    pub state: Option<IntegrationState>,
    /// Last known state of the device as sent by the integration driver.
    /// Superseded by `state`.
    pub device_state: Option<DeviceState>,
    /// Integration driver connection state. Superseded by `state`.
    pub driver_state: Option<DriverState>,
}

/// Minimal integration driver information, intended for driver overview
/// pages.
#[derive(Debug, Clone)]
pub struct IntegrationDriverInfo {
    /// Integration driver identifier.
    pub driver_id: String,
    /// Name of the driver, as language texts.
    pub name: Vec<(String, String)>,
    pub developer_name: Option<String>,
    pub driver_type: DriverType,
    pub driver_url: String,
    pub version: String,
    /// Optional icon identifier of the integration driver.
    pub icon: Option<String>,
    pub enabled: bool,
    /// true: multi-instance driver with device discovery, false: single
    /// instance driver.
    pub device_discovery: bool,
    /// Number of integration instances.
    pub instance_count: u16,
    /// Current state. `Idle` if the driver is not in use.
    pub driver_state: Option<DriverState>,
}

/// Message data payload of `setup_driver` to start driver setup.
#[derive(Debug, Clone)]
pub struct SetupDriver {
    /// Flag to distinguish regular driver setup vs. driver reconfiguration.
    pub reconfigure: Option<bool>,
    /// Input values of the initial setup page, as `(field id, value)` pairs.
    pub setup_data: Vec<(String, String)>,
}

/// Message data payload of `set_driver_user_data`.
#[derive(Debug, Clone)]
pub enum IntegrationSetup {
    /// User provided input values of a settings page, as
    /// `(field id, value)` pairs.
    InputValues(Vec<(String, String)>),
    /// User confirmation. The value is always true: if the user did not
    /// confirm the setup settings page, the setup flow is aborted.
    Confirm(bool),
}

/// Integration driver model.
///
/// A driver represents the communication aspect of an integration: how one
/// can connect to it and which API version it supports. One driver can
/// provide multiple [`Integration`] instances.
#[derive(Debug)]
pub struct IntegrationDriver {
    /// Unique driver identifier.
    pub driver_id: String,
    /// Name of the driver to display in the UI, as language texts. An
    /// english text with key `en` should always be provided as fallback.
    pub name: Vec<(String, String)>,
    pub driver_type: DriverType,
    /// WebSocket URL of the integration driver.
    pub driver_url: String,
    /// Optional driver authentication token. Not returned to external
    /// clients; see `pwd_protected` if a token is required.
    pub token: Option<String>,
    /// Authentication method if token is used.
    pub auth_method: Option<WsAuthentication>,
    /// Driver requires a connection password.
    pub pwd_protected: Option<bool>,
    /// Driver version, semantic versioning preferred.
    pub version: String,
    /// Optional version check: minimum required core API version in the
    /// remote.
    pub min_core_api: Option<String>,
    /// Optional icon identifier of the integration driver.
    pub icon: Option<String>,
    /// Enables or disables driver communication. If disabled, all
    /// integration instances won't be activated, even if the instance is
    /// enabled.
    pub enabled: bool,
    /// Optional description of the integration, as language texts.
    pub description: Option<Vec<(String, String)>>,
    /// Optional information about the integration developer or company.
    pub developer: Option<DriverDeveloper>,
    /// Optional home page url for more information.
    pub home_page: Option<String>,
    /// Driver supports multi-device discovery.
    pub device_discovery: bool,
    /// Number of integration instances.
    pub instance_count: Option<u16>,
    /// Driver configuration metadata describing configuration parameters for
    /// the web-configurator.
    pub setup_data_schema: serde_json::Value,
    /// Release date of the driver, in its wire form.
    pub release_date: Option<String>,
    /// Current state. `Idle` if the driver is not in use.
    pub driver_state: Option<DriverState>,
}

/// Integration driver update model: a dedicated model related to
/// [`IntegrationDriver`] for create and patch update operations.
#[derive(Debug)]
pub struct IntegrationDriverUpdate {
    /// Integration driver identifier.
    pub driver_id: Option<String>,
    pub name: Option<Vec<(String, String)>>,
    pub driver_url: Option<String>,
    pub token: Option<String>,
    pub auth_method: Option<WsAuthentication>,
    pub pwd_protected: Option<bool>,
    pub version: Option<String>,
    pub min_core_api: Option<String>,
    /// Optional icon identifier of the integration driver.
    pub icon: Option<String>,
    pub enabled: Option<bool>,
    pub description: Option<Vec<(String, String)>>,
    pub developer: Option<DriverDeveloper>,
    pub home_page: Option<String>,
    pub device_discovery: Option<bool>,
    pub setup_data_schema: Option<serde_json::Value>,
    /// The driver manifest is only used for registering external drivers. It
    /// cannot be updated.
    pub manifest: Option<DriverManifest>,
    /// Release date of the driver, in its wire form.
    pub release_date: Option<String>,
}

impl From<IntegrationDriver> for IntegrationDriverUpdate {
    /// Turn a full driver model into an update carrying every field of it;
    /// the required fields become present optional values, and no manifest
    /// is attached.
    fn from(drv: IntegrationDriver) -> (r: IntegrationDriverUpdate) {
        IntegrationDriverUpdate {
            driver_id: Some(drv.driver_id),
            name: Some(drv.name),
            driver_url: Some(drv.driver_url),
            token: drv.token,
            auth_method: drv.auth_method,
            pwd_protected: drv.pwd_protected,
            version: Some(drv.version),
            min_core_api: drv.min_core_api,
            icon: drv.icon,
            enabled: Some(drv.enabled),
            description: drv.description,
            developer: drv.developer,
            home_page: drv.home_page,
            device_discovery: Some(drv.device_discovery),
            setup_data_schema: Some(drv.setup_data_schema),
            manifest: None,
            release_date: drv.release_date,
        }
    }
}

impl vstd::std_specs::convert::FromSpecImpl<IntegrationDriver> for IntegrationDriverUpdate {
    open spec fn obeys_from_spec() -> bool {
        true
    }

    open spec fn from_spec(drv: IntegrationDriver) -> IntegrationDriverUpdate {
        IntegrationDriverUpdate {
            driver_id: Some(drv.driver_id),
            name: Some(drv.name),
            driver_url: Some(drv.driver_url),
            token: drv.token,
            auth_method: drv.auth_method,
            pwd_protected: drv.pwd_protected,
            version: Some(drv.version),
            min_core_api: drv.min_core_api,
            icon: drv.icon,
            enabled: Some(drv.enabled),
            description: drv.description,
            developer: drv.developer,
            home_page: drv.home_page,
            device_discovery: Some(drv.device_discovery),
            setup_data_schema: Some(drv.setup_data_schema),
            manifest: None,
            release_date: drv.release_date,
        }
    }
}

/// Developer information for an integration driver.
#[derive(Debug, Clone)]
pub struct DriverDeveloper {
    pub name: Option<String>,
    pub url: Option<String>,
    pub email: Option<String>,
}

/// The driver manifest contains required and optional features for the
/// driver to work, and additional metadata for the core service.
#[derive(Debug)]
pub struct DriverManifest {
    /// Required features of an integration driver.
    pub features: Option<Vec<DriverFeature>>,
    pub iot_class: Option<IotClass>,
}

impl Default for DriverManifest {
    /// A manifest with no features and no IoT class.
    fn default() -> (r: DriverManifest)
        ensures
            r.features is None,
            r.iot_class is None,
    {
        DriverManifest { features: None, iot_class: None }
    }
}

/// A single hardware or software feature used by the driver.
#[derive(Debug)]
pub struct DriverFeature {
    /// Property specifying a single hardware or software feature used by the
    /// driver.
    pub name: String,
    /// Optional or required feature: `true` (default) when the driver cannot
    /// function without it, `false` when it is used only if present.
    pub required: Option<bool>,
    /// Optional feature specific data.
    pub data: Option<serde_json::Value>,
}

/// Integration instance model: a configured integration driver.
#[derive(Debug)]
pub struct Integration {
    /// Unique integration identifier.
    pub integration_id: String,
    /// The required integration driver. References [`IntegrationDriver`].
    pub driver_id: String,
    /// Only required for multi-device integrations.
    pub device_id: Option<String>,
    /// Name of the integration instance, as language texts.
    pub name: Vec<(String, String)>,
    /// Optional icon identifier of the integration.
    pub icon: Option<String>,
    pub enabled: bool,
    /// Optional configuration data if supported or required by the driver.
    pub setup_data: serde_json::Map<String, serde_json::Value>,
    /// Integration state.
    pub device_state: Option<DeviceState>,
}

/// Integration instance update model: a dedicated model related to
/// [`Integration`] for create and patch update operations.
#[derive(Debug)]
pub struct IntegrationUpdate {
    /// Unique integration instance identifier, set by the system. This field
    /// cannot be updated.
    pub integration_id: Option<String>,
    /// The required integration driver. This field cannot be updated.
    pub driver_id: Option<String>,
    /// Only required for multi-device integrations. This field cannot be
    /// updated.
    pub device_id: Option<String>,
    pub name: Option<Vec<(String, String)>>,
    /// Optional icon identifier of the integration.
    pub icon: Option<String>,
    pub enabled: Option<bool>,
    pub setup_data: Option<serde_json::Map<String, serde_json::Value>>,
}

impl From<Integration> for IntegrationUpdate {
    /// Turn a full integration model into an update carrying every field of
    /// it; the required fields become present optional values.
    fn from(intg: Integration) -> (r: IntegrationUpdate) {
        IntegrationUpdate {
            integration_id: Some(intg.integration_id),
            driver_id: Some(intg.driver_id),
            device_id: intg.device_id,
            name: Some(intg.name),
            icon: intg.icon,
            enabled: Some(intg.enabled),
            setup_data: Some(intg.setup_data),
        }
    }
}

impl vstd::std_specs::convert::FromSpecImpl<Integration> for IntegrationUpdate {
    open spec fn obeys_from_spec() -> bool {
        true
    }

    open spec fn from_spec(intg: Integration) -> IntegrationUpdate {
        IntegrationUpdate {
            integration_id: Some(intg.integration_id),
            driver_id: Some(intg.driver_id),
            device_id: intg.device_id,
            name: Some(intg.name),
            icon: intg.icon,
            enabled: Some(intg.enabled),
            setup_data: Some(intg.setup_data),
        }
    }
}

/// Integration driver type, serialized in `SCREAMING_SNAKE_CASE`.
#[derive(Debug, Clone, Copy, PartialEq, Eq, Structural)]
pub enum DriverType {
    /// Pre-installed integration in the firmware.
    Local,
    /// External integration on the network.
    External,
    /// Custom installed integration on the remote.
    Custom,
}

impl DriverType {
    /// The wire name of the variant.
    pub open spec fn wire_str(self) -> Seq<char> {
        match self {
            DriverType::Local => "LOCAL"@,
            DriverType::External => "EXTERNAL"@,
            DriverType::Custom => "CUSTOM"@,
        }
    }

    /// The variant a wire name denotes, if any.
    pub open spec fn spec_from_wire(s: Seq<char>) -> Option<DriverType> {
        if s == "LOCAL"@ {
            Some(DriverType::Local)
        } else if s == "EXTERNAL"@ {
            Some(DriverType::External)
        } else if s == "CUSTOM"@ {
            Some(DriverType::Custom)
        } else {
            None
        }
    }

    /// The wire name of the variant.
    pub fn as_str(&self) -> (r: &'static str)
        ensures
            r@ == self.wire_str(),
    {
        match self {
            DriverType::Local => "LOCAL",
            DriverType::External => "EXTERNAL",
            DriverType::Custom => "CUSTOM",
        }
    }

    /// Parse a wire name.
    pub fn from_str(s: &str) -> (r: Option<DriverType>)
        ensures
            r == DriverType::spec_from_wire(s@),
    {
        let o = s.to_owned();
        if o == String::from_str("LOCAL") {
            Some(DriverType::Local)
        } else if o == String::from_str("EXTERNAL") {
            Some(DriverType::External)
        } else if o == String::from_str("CUSTOM") {
            Some(DriverType::Custom)
        } else {
            None
        }
    }
}

/// How the integration connects and communicates with a device or
/// service.
#[derive(Debug, Clone, Copy, PartialEq, Eq, Structural)]
pub enum IotClass {
    AssumedState,
    CloudPolling,
    CloudPush,
    LocalPolling,
    LocalPush,
}

impl IotClass {
    /// The wire name of the variant.
    pub open spec fn wire_str(self) -> Seq<char> {
        match self {
            IotClass::AssumedState => "assumed_state"@,
            IotClass::CloudPolling => "cloud_polling"@,
            IotClass::CloudPush => "cloud_push"@,
            IotClass::LocalPolling => "local_polling"@,
            IotClass::LocalPush => "local_push"@,
        }
    }

    /// The variant a wire name denotes, if any.
    pub open spec fn spec_from_wire(s: Seq<char>) -> Option<IotClass> {
        if s == "assumed_state"@ {
            Some(IotClass::AssumedState)
        } else if s == "cloud_polling"@ {
            Some(IotClass::CloudPolling)
        } else if s == "cloud_push"@ {
            Some(IotClass::CloudPush)
        } else if s == "local_polling"@ {
            Some(IotClass::LocalPolling)
        } else if s == "local_push"@ {
            Some(IotClass::LocalPush)
        } else {
            None
        }
    }

    /// The wire name of the variant.
    pub fn as_str(&self) -> (r: &'static str)
        ensures
            r@ == self.wire_str(),
    {
        match self {
            IotClass::AssumedState => "assumed_state",
            IotClass::CloudPolling => "cloud_polling",
            IotClass::CloudPush => "cloud_push",
            IotClass::LocalPolling => "local_polling",
            IotClass::LocalPush => "local_push",
        }
    }

    /// Parse a wire name.
    pub fn from_str(s: &str) -> (r: Option<IotClass>)
        ensures
            r == IotClass::spec_from_wire(s@),
    {
        let o = s.to_owned();
        if o == String::from_str("assumed_state") {
            Some(IotClass::AssumedState)
        } else if o == String::from_str("cloud_polling") {
            Some(IotClass::CloudPolling)
        } else if o == String::from_str("cloud_push") {
            Some(IotClass::CloudPush)
        } else if o == String::from_str("local_polling") {
            Some(IotClass::LocalPolling)
        } else if o == String::from_str("local_push") {
            Some(IotClass::LocalPush)
        } else {
            None
        }
    }
}

/// Integration device states, serialized in `SCREAMING_SNAKE_CASE`.
#[derive(Debug, Clone, Copy, PartialEq, Eq, Structural)]
pub enum DeviceState {
    Unknown,
    Connecting,
    Connected,
    Disconnected,
    Error,
}

impl DeviceState {
    /// The wire name of the variant.
    pub open spec fn wire_str(self) -> Seq<char> {
        match self {
            DeviceState::Unknown => "UNKNOWN"@,
            DeviceState::Connecting => "CONNECTING"@,
            DeviceState::Connected => "CONNECTED"@,
            DeviceState::Disconnected => "DISCONNECTED"@,
            DeviceState::Error => "ERROR"@,
        }
    }

    /// The variant a wire name denotes, if any.
    pub open spec fn spec_from_wire(s: Seq<char>) -> Option<DeviceState> {
        if s == "UNKNOWN"@ {
            Some(DeviceState::Unknown)
        } else if s == "CONNECTING"@ {
            Some(DeviceState::Connecting)
        } else if s == "CONNECTED"@ {
            Some(DeviceState::Connected)
        } else if s == "DISCONNECTED"@ {
            Some(DeviceState::Disconnected)
        } else if s == "ERROR"@ {
            Some(DeviceState::Error)
        } else {
            None
        }
    }

    /// The wire name of the variant.
    pub fn as_str(&self) -> (r: &'static str)
        ensures
            r@ == self.wire_str(),
    {
        match self {
            DeviceState::Unknown => "UNKNOWN",
            DeviceState::Connecting => "CONNECTING",
            DeviceState::Connected => "CONNECTED",
            DeviceState::Disconnected => "DISCONNECTED",
            DeviceState::Error => "ERROR",
        }
    }

    /// Parse a wire name.
    pub fn from_str(s: &str) -> (r: Option<DeviceState>)
        ensures
            r == DeviceState::spec_from_wire(s@),
    {
        let o = s.to_owned();
        if o == String::from_str("UNKNOWN") {
            Some(DeviceState::Unknown)
        } else if o == String::from_str("CONNECTING") {
            Some(DeviceState::Connecting)
        } else if o == String::from_str("CONNECTED") {
            Some(DeviceState::Connected)
        } else if o == String::from_str("DISCONNECTED") {
            Some(DeviceState::Disconnected)
        } else if o == String::from_str("ERROR") {
            Some(DeviceState::Error)
        } else {
            None
        }
    }
}

/// Integration driver states, serialized in `SCREAMING_SNAKE_CASE`.
///
/// The short-lived intermediate states (connected but not yet
/// authenticated, and disconnecting) are not reported.
#[derive(Debug, Clone, Copy, PartialEq, Eq, Structural)]
pub enum DriverState {
    NotConfigured,
    Idle,
    Connecting,
    Active,
    Reconnecting,
    Error,
}

impl DriverState {
    /// The wire name of the variant.
    pub open spec fn wire_str(self) -> Seq<char> {
        match self {
            DriverState::NotConfigured => "NOT_CONFIGURED"@,
            DriverState::Idle => "IDLE"@,
            DriverState::Connecting => "CONNECTING"@,
            DriverState::Active => "ACTIVE"@,
            DriverState::Reconnecting => "RECONNECTING"@,
            DriverState::Error => "ERROR"@,
        }
    }

    /// The variant a wire name denotes, if any.
    pub open spec fn spec_from_wire(s: Seq<char>) -> Option<DriverState> {
        if s == "NOT_CONFIGURED"@ {
            Some(DriverState::NotConfigured)
        } else if s == "IDLE"@ {
            Some(DriverState::Idle)
        } else if s == "CONNECTING"@ {
            Some(DriverState::Connecting)
        } else if s == "ACTIVE"@ {
            Some(DriverState::Active)
        } else if s == "RECONNECTING"@ {
            Some(DriverState::Reconnecting)
        } else if s == "ERROR"@ {
            Some(DriverState::Error)
        } else {
            None
        }
    }

    /// The wire name of the variant.
    pub fn as_str(&self) -> (r: &'static str)
        ensures
            r@ == self.wire_str(),
    {
        match self {
            DriverState::NotConfigured => "NOT_CONFIGURED",
            DriverState::Idle => "IDLE",
            DriverState::Connecting => "CONNECTING",
            DriverState::Active => "ACTIVE",
            DriverState::Reconnecting => "RECONNECTING",
            DriverState::Error => "ERROR",
        }
    }

    /// Parse a wire name.
    pub fn from_str(s: &str) -> (r: Option<DriverState>)
        ensures
            r == DriverState::spec_from_wire(s@),
    {
        let o = s.to_owned();
        if o == String::from_str("NOT_CONFIGURED") {
            Some(DriverState::NotConfigured)
        } else if o == String::from_str("IDLE") {
            Some(DriverState::Idle)
        } else if o == String::from_str("CONNECTING") {
            Some(DriverState::Connecting)
        } else if o == String::from_str("ACTIVE") {
            Some(DriverState::Active)
        } else if o == String::from_str("RECONNECTING") {
            Some(DriverState::Reconnecting)
        } else if o == String::from_str("ERROR") {
            Some(DriverState::Error)
        } else {
            None
        }
    }
}

/// Integration states, serialized in `SCREAMING_SNAKE_CASE`.
#[derive(Debug, Clone, Copy, PartialEq, Eq, Structural)]
pub enum IntegrationState {
    NotConfigured,
    Unknown,
    Idle,
    Connecting,
    Connected,
    Disconnected,
    Reconnecting,
    Active,
    Error,
}

impl IntegrationState {
    /// The wire name of the variant.
    pub open spec fn wire_str(self) -> Seq<char> {
        match self {
            IntegrationState::NotConfigured => "NOT_CONFIGURED"@,
            IntegrationState::Unknown => "UNKNOWN"@,
            IntegrationState::Idle => "IDLE"@,
            IntegrationState::Connecting => "CONNECTING"@,
            IntegrationState::Connected => "CONNECTED"@,
            IntegrationState::Disconnected => "DISCONNECTED"@,
            IntegrationState::Reconnecting => "RECONNECTING"@,
            IntegrationState::Active => "ACTIVE"@,
            IntegrationState::Error => "ERROR"@,
        }
    }

    /// The variant a wire name denotes, if any.
    pub open spec fn spec_from_wire(s: Seq<char>) -> Option<IntegrationState> {
        if s == "NOT_CONFIGURED"@ {
            Some(IntegrationState::NotConfigured)
        } else if s == "UNKNOWN"@ {
            Some(IntegrationState::Unknown)
        } else if s == "IDLE"@ {
            Some(IntegrationState::Idle)
        } else if s == "CONNECTING"@ {
            Some(IntegrationState::Connecting)
        } else if s == "CONNECTED"@ {
            Some(IntegrationState::Connected)
        } else if s == "DISCONNECTED"@ {
            Some(IntegrationState::Disconnected)
        } else if s == "RECONNECTING"@ {
            Some(IntegrationState::Reconnecting)
        } else if s == "ACTIVE"@ {
            Some(IntegrationState::Active)
        } else if s == "ERROR"@ {
            Some(IntegrationState::Error)
        } else {
            None
        }
    }

    /// The wire name of the variant.
    pub fn as_str(&self) -> (r: &'static str)
        ensures
            r@ == self.wire_str(),
    {
        match self {
            IntegrationState::NotConfigured => "NOT_CONFIGURED",
            IntegrationState::Unknown => "UNKNOWN",
            IntegrationState::Idle => "IDLE",
            IntegrationState::Connecting => "CONNECTING",
            IntegrationState::Connected => "CONNECTED",
            IntegrationState::Disconnected => "DISCONNECTED",
            IntegrationState::Reconnecting => "RECONNECTING",
            IntegrationState::Active => "ACTIVE",
            IntegrationState::Error => "ERROR",
        }
    }

    /// Parse a wire name.
    pub fn from_str(s: &str) -> (r: Option<IntegrationState>)
        ensures
            r == IntegrationState::spec_from_wire(s@),
    {
        let o = s.to_owned();
        if o == String::from_str("NOT_CONFIGURED") {
            Some(IntegrationState::NotConfigured)
        } else if o == String::from_str("UNKNOWN") {
            Some(IntegrationState::Unknown)
        } else if o == String::from_str("IDLE") {
            Some(IntegrationState::Idle)
        } else if o == String::from_str("CONNECTING") {
            Some(IntegrationState::Connecting)
        } else if o == String::from_str("CONNECTED") {
            Some(IntegrationState::Connected)
        } else if o == String::from_str("DISCONNECTED") {
            Some(IntegrationState::Disconnected)
        } else if o == String::from_str("RECONNECTING") {
            Some(IntegrationState::Reconnecting)
        } else if o == String::from_str("ACTIVE") {
            Some(IntegrationState::Active)
        } else if o == String::from_str("ERROR") {
            Some(IntegrationState::Error)
        } else {
            None
        }
    }
}

/// Parsing the wire name of a variant yields the variant again: the
/// wire mapping loses nothing.
pub proof fn lemma_driver_type_wire_round_trip(x: DriverType)
    ensures
        DriverType::spec_from_wire(x.wire_str()) == Some(x),
{
    reveal_strlit("LOCAL");
    reveal_strlit("EXTERNAL");
    reveal_strlit("CUSTOM");
    assert("LOCAL"@.len() == 5);
    assert("EXTERNAL"@.len() == 8);
    assert("CUSTOM"@.len() == 6);
}

/// Parsing the wire name of a variant yields the variant again: the
/// wire mapping loses nothing.
pub proof fn lemma_iot_class_wire_round_trip(x: IotClass)
    ensures
        IotClass::spec_from_wire(x.wire_str()) == Some(x),
{
    reveal_strlit("assumed_state");
    reveal_strlit("cloud_polling");
    reveal_strlit("cloud_push");
    reveal_strlit("local_polling");
    reveal_strlit("local_push");
    assert("assumed_state"@.len() == 13);
    assert("cloud_polling"@.len() == 13);
    assert("cloud_push"@.len() == 10);
    assert("local_polling"@.len() == 13);
    assert("local_push"@.len() == 10);
    assert("assumed_state"@[0] == 'a' && "cloud_polling"@[0] == 'c');
    assert("assumed_state"@[0] == 'a' && "local_polling"@[0] == 'l');
    assert("cloud_polling"@[0] == 'c' && "local_polling"@[0] == 'l');
    assert("cloud_push"@[0] == 'c' && "local_push"@[0] == 'l');
}

/// Parsing the wire name of a variant yields the variant again: the
/// wire mapping loses nothing.
pub proof fn lemma_device_state_wire_round_trip(x: DeviceState)
    ensures
        DeviceState::spec_from_wire(x.wire_str()) == Some(x),
{
    reveal_strlit("UNKNOWN");
    reveal_strlit("CONNECTING");
    reveal_strlit("CONNECTED");
    reveal_strlit("DISCONNECTED");
    reveal_strlit("ERROR");
    assert("UNKNOWN"@.len() == 7);
    assert("CONNECTING"@.len() == 10);
    assert("CONNECTED"@.len() == 9);
    assert("DISCONNECTED"@.len() == 12);
    assert("ERROR"@.len() == 5);
}

/// Parsing the wire name of a variant yields the variant again: the
/// wire mapping loses nothing.
pub proof fn lemma_driver_state_wire_round_trip(x: DriverState)
    ensures
        DriverState::spec_from_wire(x.wire_str()) == Some(x),
{
    reveal_strlit("NOT_CONFIGURED");
    reveal_strlit("IDLE");
    reveal_strlit("CONNECTING");
    reveal_strlit("ACTIVE");
    reveal_strlit("RECONNECTING");
    reveal_strlit("ERROR");
    assert("NOT_CONFIGURED"@.len() == 14);
    assert("IDLE"@.len() == 4);
    assert("CONNECTING"@.len() == 10);
    assert("ACTIVE"@.len() == 6);
    assert("RECONNECTING"@.len() == 12);
    assert("ERROR"@.len() == 5);
}

/// Parsing the wire name of a variant yields the variant again: the
/// wire mapping loses nothing.
pub proof fn lemma_integration_state_wire_round_trip(x: IntegrationState)
    ensures
        IntegrationState::spec_from_wire(x.wire_str()) == Some(x),
{
    reveal_strlit("NOT_CONFIGURED");
    reveal_strlit("UNKNOWN");
    reveal_strlit("IDLE");
    reveal_strlit("CONNECTING");
    reveal_strlit("CONNECTED");
    reveal_strlit("DISCONNECTED");
    reveal_strlit("RECONNECTING");
    reveal_strlit("ACTIVE");
    reveal_strlit("ERROR");
    assert("NOT_CONFIGURED"@.len() == 14);
    assert("UNKNOWN"@.len() == 7);
    assert("IDLE"@.len() == 4);
    assert("CONNECTING"@.len() == 10);
    assert("CONNECTED"@.len() == 9);
    assert("DISCONNECTED"@.len() == 12);
    assert("RECONNECTING"@.len() == 12);
    assert("ACTIVE"@.len() == 6);
    assert("ERROR"@.len() == 5);
    assert("DISCONNECTED"@[0] == 'D' && "RECONNECTING"@[0] == 'R');
}

} // verus!
