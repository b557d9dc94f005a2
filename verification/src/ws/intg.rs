//! Integration driver specific WebSocket messages: the legacy message name
//! enumerations.

use vstd::prelude::*;
use vstd::string::StringExecFns;

verus! {


/// Requests initiated by the remote towards the integration driver.
#[derive(Debug, Clone, PartialEq, Eq, Structural)]
pub enum R2Request {
    GetDriverVersion,
    /// Answered by an event instead of a response message.
    GetDeviceState,
    SetupDevice,
    GetAvailableEntities,
    SubscribeEvents,
    UnsubscribeEvents,
    GetEntityStates,
    EntityCommand,
}

impl R2Request {
    /// The wire name of the variant.
    pub open spec fn wire_str(self) -> Seq<char> {
        match self {
            R2Request::GetDriverVersion => "get_driver_version"@,
            R2Request::GetDeviceState => "get_device_state"@,
            R2Request::SetupDevice => "setup_device"@,
            R2Request::GetAvailableEntities => "get_available_entities"@,
            R2Request::SubscribeEvents => "subscribe_events"@,
            R2Request::UnsubscribeEvents => "unsubscribe_events"@,
            R2Request::GetEntityStates => "get_entity_states"@,
            R2Request::EntityCommand => "entity_command"@,
        }
    }

    /// The variant a wire name denotes, if any.
    pub open spec fn spec_from_wire(s: Seq<char>) -> Option<R2Request> {
        if s == "get_driver_version"@ {
            Some(R2Request::GetDriverVersion)
        } else if s == "get_device_state"@ {
            Some(R2Request::GetDeviceState)
        } else if s == "setup_device"@ {
            Some(R2Request::SetupDevice)
        } else if s == "get_available_entities"@ {
            Some(R2Request::GetAvailableEntities)
        } else if s == "subscribe_events"@ {
            Some(R2Request::SubscribeEvents)
        } else if s == "unsubscribe_events"@ {
            Some(R2Request::UnsubscribeEvents)
        } else if s == "get_entity_states"@ {
            Some(R2Request::GetEntityStates)
        } else if s == "entity_command"@ {
            Some(R2Request::EntityCommand)
        } else {
            None
        }
    }

    /// The wire name of the variant.
    pub fn as_str(&self) -> (r: &'static str)
        ensures
            r@ == self.wire_str(),
    {
        match self {
            R2Request::GetDriverVersion => "get_driver_version",
            R2Request::GetDeviceState => "get_device_state",
            R2Request::SetupDevice => "setup_device",
            R2Request::GetAvailableEntities => "get_available_entities",
            R2Request::SubscribeEvents => "subscribe_events",
            R2Request::UnsubscribeEvents => "unsubscribe_events",
            R2Request::GetEntityStates => "get_entity_states",
            R2Request::EntityCommand => "entity_command",
        }
    }

    /// Parse a wire name.
    pub fn from_str(s: &str) -> (r: Option<R2Request>)
        ensures
            r == R2Request::spec_from_wire(s@),
    {
        let o = s.to_owned();
        if o == String::from_str("get_driver_version") {
            Some(R2Request::GetDriverVersion)
        } else if o == String::from_str("get_device_state") {
            Some(R2Request::GetDeviceState)
        } else if o == String::from_str("setup_device") {
            Some(R2Request::SetupDevice)
        } else if o == String::from_str("get_available_entities") {
            Some(R2Request::GetAvailableEntities)
        } else if o == String::from_str("subscribe_events") {
            Some(R2Request::SubscribeEvents)
        } else if o == String::from_str("unsubscribe_events") {
            Some(R2Request::UnsubscribeEvents)
        } else if o == String::from_str("get_entity_states") {
            Some(R2Request::GetEntityStates)
        } else if o == String::from_str("entity_command") {
            Some(R2Request::EntityCommand)
        } else {
            None
        }
    }
}

impl R2Request {
    /// The message name of the response that answers the request, `None` for
    /// the one request that is answered by an event instead.
    pub open spec fn spec_response_msg(self) -> Option<Seq<char>> {
        match self {
            R2Request::GetDriverVersion => Some("driver_version"@),
            R2Request::GetDeviceState => None,
            R2Request::SetupDevice => Some("device_setup_complete"@),
            R2Request::GetAvailableEntities => Some("available_entities"@),
            R2Request::SubscribeEvents => Some("result"@),
            R2Request::UnsubscribeEvents => Some("result"@),
            R2Request::GetEntityStates => Some("entity_states"@),
            R2Request::EntityCommand => Some("result"@),
        }
    }

    /// The message name of the response that answers the request.
    pub fn response_msg(&self) -> (r: Option<&'static str>)
        ensures
            r is Some <==> self.spec_response_msg() is Some,
            r matches Some(n) ==> Some(n@) == self.spec_response_msg(),
    {
        match self {
            R2Request::GetDriverVersion => Some("driver_version"),
            R2Request::GetDeviceState => None,
            R2Request::SetupDevice => Some("device_setup_complete"),
            R2Request::GetAvailableEntities => Some("available_entities"),
            R2Request::SubscribeEvents => Some("result"),
            R2Request::UnsubscribeEvents => Some("result"),
            R2Request::GetEntityStates => Some("entity_states"),
            R2Request::EntityCommand => Some("result"),
        }
    }
}

/// Response messages of the remote for the integration driver.
#[derive(Debug, Clone, PartialEq, Eq, Structural)]
pub enum R2Response {
    Version,
    SupportedEntityTypes,
    ConfiguredEntities,
    LocalizationCfg,
    SetupUserAction,
}

impl R2Response {
    /// The wire name of the variant.
    pub open spec fn wire_str(self) -> Seq<char> {
        match self {
            R2Response::Version => "version"@,
            R2Response::SupportedEntityTypes => "supported_entity_types"@,
            R2Response::ConfiguredEntities => "configured_entities"@,
            R2Response::LocalizationCfg => "localization_cfg"@,
            R2Response::SetupUserAction => "setup_user_action"@,
        }
    }

    /// The variant a wire name denotes, if any.
    pub open spec fn spec_from_wire(s: Seq<char>) -> Option<R2Response> {
        if s == "version"@ {
            Some(R2Response::Version)
        } else if s == "supported_entity_types"@ {
            Some(R2Response::SupportedEntityTypes)
        } else if s == "configured_entities"@ {
            Some(R2Response::ConfiguredEntities)
        } else if s == "localization_cfg"@ {
            Some(R2Response::LocalizationCfg)
        } else if s == "setup_user_action"@ {
            Some(R2Response::SetupUserAction)
        } else {
            None
        }
    }

    /// The wire name of the variant.
    pub fn as_str(&self) -> (r: &'static str)
        ensures
            r@ == self.wire_str(),
    {
        match self {
            R2Response::Version => "version",
            R2Response::SupportedEntityTypes => "supported_entity_types",
            R2Response::ConfiguredEntities => "configured_entities",
            R2Response::LocalizationCfg => "localization_cfg",
            R2Response::SetupUserAction => "setup_user_action",
        }
    }

    /// Parse a wire name.
    pub fn from_str(s: &str) -> (r: Option<R2Response>)
        ensures
            r == R2Response::spec_from_wire(s@),
    {
        let o = s.to_owned();
        if o == String::from_str("version") {
            Some(R2Response::Version)
        } else if o == String::from_str("supported_entity_types") {
            Some(R2Response::SupportedEntityTypes)
        } else if o == String::from_str("configured_entities") {
            Some(R2Response::ConfiguredEntities)
        } else if o == String::from_str("localization_cfg") {
            Some(R2Response::LocalizationCfg)
        } else if o == String::from_str("setup_user_action") {
            Some(R2Response::SetupUserAction)
        } else {
            None
        }
    }
}

/// Integration specific events emitted from the remote.
#[derive(Debug, Clone, PartialEq, Eq, Structural)]
pub enum R2Event {
    Connect,
    Disconnect,
    EnterStandby,
    ExitStandby,
    StartDiscovery,
    StopDiscovery,
    AbortDeviceSetup,
}

impl R2Event {
    /// The wire name of the variant.
    pub open spec fn wire_str(self) -> Seq<char> {
        match self {
            R2Event::Connect => "connect"@,
            R2Event::Disconnect => "disconnect"@,
            R2Event::EnterStandby => "enter_standby"@,
            R2Event::ExitStandby => "exit_standby"@,
            R2Event::StartDiscovery => "start_discovery"@,
            R2Event::StopDiscovery => "stop_discovery"@,
            R2Event::AbortDeviceSetup => "abort_device_setup"@,
        }
    }

    /// The variant a wire name denotes, if any.
    pub open spec fn spec_from_wire(s: Seq<char>) -> Option<R2Event> {
        if s == "connect"@ {
            Some(R2Event::Connect)
        } else if s == "disconnect"@ {
            Some(R2Event::Disconnect)
        } else if s == "enter_standby"@ {
            Some(R2Event::EnterStandby)
        } else if s == "exit_standby"@ {
            Some(R2Event::ExitStandby)
        } else if s == "start_discovery"@ {
            Some(R2Event::StartDiscovery)
        } else if s == "stop_discovery"@ {
            Some(R2Event::StopDiscovery)
        } else if s == "abort_device_setup"@ {
            Some(R2Event::AbortDeviceSetup)
        } else {
            None
        }
    }

    /// The wire name of the variant.
    pub fn as_str(&self) -> (r: &'static str)
        ensures
            r@ == self.wire_str(),
    {
        match self {
            R2Event::Connect => "connect",
            R2Event::Disconnect => "disconnect",
            R2Event::EnterStandby => "enter_standby",
            R2Event::ExitStandby => "exit_standby",
            R2Event::StartDiscovery => "start_discovery",
            R2Event::StopDiscovery => "stop_discovery",
            R2Event::AbortDeviceSetup => "abort_device_setup",
        }
    }

    /// Parse a wire name.
    pub fn from_str(s: &str) -> (r: Option<R2Event>)
        ensures
            r == R2Event::spec_from_wire(s@),
    {
        let o = s.to_owned();
        if o == String::from_str("connect") {
            Some(R2Event::Connect)
        } else if o == String::from_str("disconnect") {
            Some(R2Event::Disconnect)
        } else if o == String::from_str("enter_standby") {
            Some(R2Event::EnterStandby)
        } else if o == String::from_str("exit_standby") {
            Some(R2Event::ExitStandby)
        } else if o == String::from_str("start_discovery") {
            Some(R2Event::StartDiscovery)
        } else if o == String::from_str("stop_discovery") {
            Some(R2Event::StopDiscovery)
        } else if o == String::from_str("abort_device_setup") {
            Some(R2Event::AbortDeviceSetup)
        } else {
            None
        }
    }
}

/// Integration driver response messages.
#[derive(Debug, Clone, PartialEq, Eq, Structural)]
pub enum DriverResponse {
    DriverVersion,
    DeviceSetupComplete,
    AvailableEntities,
    EntityStates,
}

impl DriverResponse {
    /// The wire name of the variant.
    pub open spec fn wire_str(self) -> Seq<char> {
        match self {
            DriverResponse::DriverVersion => "driver_version"@,
            DriverResponse::DeviceSetupComplete => "device_setup_complete"@,
            DriverResponse::AvailableEntities => "available_entities"@,
            DriverResponse::EntityStates => "entity_states"@,
        }
    }

    /// The variant a wire name denotes, if any.
    pub open spec fn spec_from_wire(s: Seq<char>) -> Option<DriverResponse> {
        if s == "driver_version"@ {
            Some(DriverResponse::DriverVersion)
        } else if s == "device_setup_complete"@ {
            Some(DriverResponse::DeviceSetupComplete)
        } else if s == "available_entities"@ {
            Some(DriverResponse::AvailableEntities)
        } else if s == "entity_states"@ {
            Some(DriverResponse::EntityStates)
        } else {
            None
        }
    }

    /// The wire name of the variant.
    pub fn as_str(&self) -> (r: &'static str)
        ensures
            r@ == self.wire_str(),
    {
        match self {
            DriverResponse::DriverVersion => "driver_version",
            DriverResponse::DeviceSetupComplete => "device_setup_complete",
            DriverResponse::AvailableEntities => "available_entities",
            DriverResponse::EntityStates => "entity_states",
        }
    }

    /// Parse a wire name.
    pub fn from_str(s: &str) -> (r: Option<DriverResponse>)
        ensures
            r == DriverResponse::spec_from_wire(s@),
    {
        let o = s.to_owned();
        if o == String::from_str("driver_version") {
            Some(DriverResponse::DriverVersion)
        } else if o == String::from_str("device_setup_complete") {
            Some(DriverResponse::DeviceSetupComplete)
        } else if o == String::from_str("available_entities") {
            Some(DriverResponse::AvailableEntities)
        } else if o == String::from_str("entity_states") {
            Some(DriverResponse::EntityStates)
        } else {
            None
        }
    }
}

/// Events emitted from the integration driver.
#[derive(Debug, Clone, PartialEq, Eq, Structural)]
pub enum DriverEvent {
    AuthRequired,
    DeviceState,
    DeviceSetupProgress,
    AbortDeviceSetup,
    EntityChange,
    EntityAvailable,
    EntityRemoved,
    DiscoveredDevice,
    DiscoveryFinished,
}

impl DriverEvent {
    /// The wire name of the variant.
    pub open spec fn wire_str(self) -> Seq<char> {
        match self {
            DriverEvent::AuthRequired => "auth_required"@,
            DriverEvent::DeviceState => "device_state"@,
            DriverEvent::DeviceSetupProgress => "device_setup_progress"@,
            DriverEvent::AbortDeviceSetup => "abort_device_setup"@,
            DriverEvent::EntityChange => "entity_change"@,
            DriverEvent::EntityAvailable => "entity_available"@,
            DriverEvent::EntityRemoved => "entity_removed"@,
            DriverEvent::DiscoveredDevice => "discovered_device"@,
            DriverEvent::DiscoveryFinished => "discovery_finished"@,
        }
    }

    /// The variant a wire name denotes, if any.
    pub open spec fn spec_from_wire(s: Seq<char>) -> Option<DriverEvent> {
        if s == "auth_required"@ {
            Some(DriverEvent::AuthRequired)
        } else if s == "device_state"@ {
            Some(DriverEvent::DeviceState)
        } else if s == "device_setup_progress"@ {
            Some(DriverEvent::DeviceSetupProgress)
        } else if s == "abort_device_setup"@ {
            Some(DriverEvent::AbortDeviceSetup)
        } else if s == "entity_change"@ {
            Some(DriverEvent::EntityChange)
        } else if s == "entity_available"@ {
            Some(DriverEvent::EntityAvailable)
        } else if s == "entity_removed"@ {
            Some(DriverEvent::EntityRemoved)
        } else if s == "discovered_device"@ {
            Some(DriverEvent::DiscoveredDevice)
        } else if s == "discovery_finished"@ {
            Some(DriverEvent::DiscoveryFinished)
        } else {
            None
        }
    }

    /// The wire name of the variant.
    pub fn as_str(&self) -> (r: &'static str)
        ensures
            r@ == self.wire_str(),
    {
        match self {
            DriverEvent::AuthRequired => "auth_required",
            DriverEvent::DeviceState => "device_state",
            DriverEvent::DeviceSetupProgress => "device_setup_progress",
            DriverEvent::AbortDeviceSetup => "abort_device_setup",
            DriverEvent::EntityChange => "entity_change",
            DriverEvent::EntityAvailable => "entity_available",
            DriverEvent::EntityRemoved => "entity_removed",
            DriverEvent::DiscoveredDevice => "discovered_device",
            DriverEvent::DiscoveryFinished => "discovery_finished",
        }
    }

    /// Parse a wire name.
    pub fn from_str(s: &str) -> (r: Option<DriverEvent>)
        ensures
            r == DriverEvent::spec_from_wire(s@),
    {
        let o = s.to_owned();
        if o == String::from_str("auth_required") {
            Some(DriverEvent::AuthRequired)
        } else if o == String::from_str("device_state") {
            Some(DriverEvent::DeviceState)
        } else if o == String::from_str("device_setup_progress") {
            Some(DriverEvent::DeviceSetupProgress)
        } else if o == String::from_str("abort_device_setup") {
            Some(DriverEvent::AbortDeviceSetup)
        } else if o == String::from_str("entity_change") {
            Some(DriverEvent::EntityChange)
        } else if o == String::from_str("entity_available") {
            Some(DriverEvent::EntityAvailable)
        } else if o == String::from_str("entity_removed") {
            Some(DriverEvent::EntityRemoved)
        } else if o == String::from_str("discovered_device") {
            Some(DriverEvent::DiscoveredDevice)
        } else if o == String::from_str("discovery_finished") {
            Some(DriverEvent::DiscoveryFinished)
        } else {
            None
        }
    }
}

/// Parsing the wire name of a variant yields the variant again: the
/// wire mapping loses nothing.
pub proof fn lemma_r2_request_wire_round_trip(x: R2Request)
    ensures
        R2Request::spec_from_wire(x.wire_str()) == Some(x),
{
    reveal_strlit("get_driver_version");
    reveal_strlit("get_device_state");
    reveal_strlit("setup_device");
    reveal_strlit("get_available_entities");
    reveal_strlit("subscribe_events");
    reveal_strlit("unsubscribe_events");
    reveal_strlit("get_entity_states");
    reveal_strlit("entity_command");
    assert("get_driver_version"@.len() == 18);
    assert("get_device_state"@.len() == 16);
    assert("setup_device"@.len() == 12);
    assert("get_available_entities"@.len() == 22);
    assert("subscribe_events"@.len() == 16);
    assert("unsubscribe_events"@.len() == 18);
    assert("get_entity_states"@.len() == 17);
    assert("entity_command"@.len() == 14);
    assert("get_device_state"@[0] == 'g' && "subscribe_events"@[0] == 's');
    assert("get_driver_version"@[0] == 'g' && "unsubscribe_events"@[0] == 'u');
}

/// Parsing the wire name of a variant yields the variant again: the
/// wire mapping loses nothing.
pub proof fn lemma_r2_response_wire_round_trip(x: R2Response)
    ensures
        R2Response::spec_from_wire(x.wire_str()) == Some(x),
{
    reveal_strlit("version");
    reveal_strlit("supported_entity_types");
    reveal_strlit("configured_entities");
    reveal_strlit("localization_cfg");
    reveal_strlit("setup_user_action");
    assert("version"@.len() == 7);
    assert("supported_entity_types"@.len() == 22);
    assert("configured_entities"@.len() == 19);
    assert("localization_cfg"@.len() == 16);
    assert("setup_user_action"@.len() == 17);
}

/// Parsing the wire name of a variant yields the variant again: the
/// wire mapping loses nothing.
pub proof fn lemma_r2_event_wire_round_trip(x: R2Event)
    ensures
        R2Event::spec_from_wire(x.wire_str()) == Some(x),
{
    reveal_strlit("connect");
    reveal_strlit("disconnect");
    reveal_strlit("enter_standby");
    reveal_strlit("exit_standby");
    reveal_strlit("start_discovery");
    reveal_strlit("stop_discovery");
    reveal_strlit("abort_device_setup");
    assert("connect"@.len() == 7);
    assert("disconnect"@.len() == 10);
    assert("enter_standby"@.len() == 13);
    assert("exit_standby"@.len() == 12);
    assert("start_discovery"@.len() == 15);
    assert("stop_discovery"@.len() == 14);
    assert("abort_device_setup"@.len() == 18);
}

/// Parsing the wire name of a variant yields the variant again: the
/// wire mapping loses nothing.
pub proof fn lemma_driver_response_wire_round_trip(x: DriverResponse)
    ensures
        DriverResponse::spec_from_wire(x.wire_str()) == Some(x),
{
    reveal_strlit("driver_version");
    reveal_strlit("device_setup_complete");
    reveal_strlit("available_entities");
    reveal_strlit("entity_states");
    assert("driver_version"@.len() == 14);
    assert("device_setup_complete"@.len() == 21);
    assert("available_entities"@.len() == 18);
    assert("entity_states"@.len() == 13);
}

/// Parsing the wire name of a variant yields the variant again: the
/// wire mapping loses nothing.
pub proof fn lemma_driver_event_wire_round_trip(x: DriverEvent)
    ensures
        DriverEvent::spec_from_wire(x.wire_str()) == Some(x),
{
    reveal_strlit("auth_required");
    reveal_strlit("device_state");
    reveal_strlit("device_setup_progress");
    reveal_strlit("abort_device_setup");
    reveal_strlit("entity_change");
    reveal_strlit("entity_available");
    reveal_strlit("entity_removed");
    reveal_strlit("discovered_device");
    reveal_strlit("discovery_finished");
    assert("auth_required"@.len() == 13);
    assert("device_state"@.len() == 12);
    assert("device_setup_progress"@.len() == 21);
    assert("abort_device_setup"@.len() == 18);
    assert("entity_change"@.len() == 13);
    assert("entity_available"@.len() == 16);
    assert("entity_removed"@.len() == 14);
    assert("discovered_device"@.len() == 17);
    assert("discovery_finished"@.len() == 18);
    assert("auth_required"@[0] == 'a' && "entity_change"@[0] == 'e');
    assert("abort_device_setup"@[0] == 'a' && "discovery_finished"@[0] == 'd');
}

} // verus!
