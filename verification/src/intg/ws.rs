//! Integration API specific WebSocket messages.

use crate::entity::EntityType;
use crate::intg::entity::AvailableIntgEntity;
use crate::intg::DeviceState;
use crate::intg::IntegrationVersion;
use crate::model::Oauth2Token;
use vstd::prelude::*;
use vstd::string::StringExecFns;

verus! {


/// Requests initiated by the remote towards the integration driver.
#[derive(Debug, Clone, Copy, PartialEq, Eq, Structural)]
pub enum R2Request {
    GetDriverVersion,
    /// Answered by an event instead of a response message.
    GetDeviceState,
    GetAvailableEntities,
    SubscribeEvents,
    UnsubscribeEvents,
    GetEntityStates,
    EntityCommand,
    GetDriverMetadata,
    SetupDriver,
    SetDriverUserData,
}

impl R2Request {
    /// The wire name of the variant.
    pub open spec fn wire_str(self) -> Seq<char> {
        match self {
            R2Request::GetDriverVersion => "get_driver_version"@,
            R2Request::GetDeviceState => "get_device_state"@,
            R2Request::GetAvailableEntities => "get_available_entities"@,
            R2Request::SubscribeEvents => "subscribe_events"@,
            R2Request::UnsubscribeEvents => "unsubscribe_events"@,
            R2Request::GetEntityStates => "get_entity_states"@,
            R2Request::EntityCommand => "entity_command"@,
            R2Request::GetDriverMetadata => "get_driver_metadata"@,
            R2Request::SetupDriver => "setup_driver"@,
            R2Request::SetDriverUserData => "set_driver_user_data"@,
        }
    }

    /// The variant a wire name denotes, if any.
    pub open spec fn spec_from_wire(s: Seq<char>) -> Option<R2Request> {
        if s == "get_driver_version"@ {
            Some(R2Request::GetDriverVersion)
        } else if s == "get_device_state"@ {
            Some(R2Request::GetDeviceState)
        } else if s == "get_available_entities"@ {
            Some(R2Request::GetAvailableEntities)
        } else if s == "subscribe_events"@ {
            Some(R2Request::SubscribeEvents)
        } else if s == "unsubscribe_events"@ {
            Some(R2Request::UnsubscribeEvents)
        } else if s == "get_entity_states"@ {
            Some(R2Request::GetEntityStates)
        } else if s == "entity_command"@ {
            Some(R2Request::EntityCommand)
        } else if s == "get_driver_metadata"@ {
            Some(R2Request::GetDriverMetadata)
        } else if s == "setup_driver"@ {
            Some(R2Request::SetupDriver)
        } else if s == "set_driver_user_data"@ {
            Some(R2Request::SetDriverUserData)
        } else {
            None
        }
    }

    /// The wire name of the variant.
    pub fn as_str(&self) -> (r: &'static str)
        ensures
            r@ == self.wire_str(),
    {
        match self {
            R2Request::GetDriverVersion => "get_driver_version",
            R2Request::GetDeviceState => "get_device_state",
            R2Request::GetAvailableEntities => "get_available_entities",
            R2Request::SubscribeEvents => "subscribe_events",
            R2Request::UnsubscribeEvents => "unsubscribe_events",
            R2Request::GetEntityStates => "get_entity_states",
            R2Request::EntityCommand => "entity_command",
            R2Request::GetDriverMetadata => "get_driver_metadata",
            R2Request::SetupDriver => "setup_driver",
            R2Request::SetDriverUserData => "set_driver_user_data",
        }
    }

    /// Parse a wire name.
    pub fn from_str(s: &str) -> (r: Option<R2Request>)
        ensures
            r == R2Request::spec_from_wire(s@),
    {
        let o = s.to_owned();
        if o == String::from_str("get_driver_version") {
            Some(R2Request::GetDriverVersion)
        } else if o == String::from_str("get_device_state") {
            Some(R2Request::GetDeviceState)
        } else if o == String::from_str("get_available_entities") {
            Some(R2Request::GetAvailableEntities)
        } else if o == String::from_str("subscribe_events") {
            Some(R2Request::SubscribeEvents)
        } else if o == String::from_str("unsubscribe_events") {
            Some(R2Request::UnsubscribeEvents)
        } else if o == String::from_str("get_entity_states") {
            Some(R2Request::GetEntityStates)
        } else if o == String::from_str("entity_command") {
            Some(R2Request::EntityCommand)
        } else if o == String::from_str("get_driver_metadata") {
            Some(R2Request::GetDriverMetadata)
        } else if o == String::from_str("setup_driver") {
            Some(R2Request::SetupDriver)
        } else if o == String::from_str("set_driver_user_data") {
            Some(R2Request::SetDriverUserData)
        } else {
            None
        }
    }
}

impl R2Request {
    /// The message name of the response that answers the request, `None` for
    /// the one request that is answered by an event instead.
    pub open spec fn spec_response_msg(self) -> Option<Seq<char>> {
        match self {
            R2Request::GetDriverVersion => Some("driver_version"@),
            R2Request::GetDeviceState => None,
            R2Request::GetAvailableEntities => Some("available_entities"@),
            R2Request::SubscribeEvents => Some("result"@),
            R2Request::UnsubscribeEvents => Some("result"@),
            R2Request::GetEntityStates => Some("entity_states"@),
            R2Request::EntityCommand => Some("result"@),
            R2Request::GetDriverMetadata => Some("driver_metadata"@),
            R2Request::SetupDriver => Some("result"@),
            R2Request::SetDriverUserData => Some("result"@),
        }
    }

    /// The message name of the response that answers the request.
    pub fn response_msg(&self) -> (r: Option<&'static str>)
        ensures
            r is Some <==> self.spec_response_msg() is Some,
            r matches Some(n) ==> Some(n@) == self.spec_response_msg(),
    {
        match self {
            R2Request::GetDriverVersion => Some("driver_version"),
            R2Request::GetDeviceState => None,
            R2Request::GetAvailableEntities => Some("available_entities"),
            R2Request::SubscribeEvents => Some("result"),
            R2Request::UnsubscribeEvents => Some("result"),
            R2Request::GetEntityStates => Some("entity_states"),
            R2Request::EntityCommand => Some("result"),
            R2Request::GetDriverMetadata => Some("driver_metadata"),
            R2Request::SetupDriver => Some("result"),
            R2Request::SetDriverUserData => Some("result"),
        }
    }
}

/// Response messages of the remote for the integration driver.
#[derive(Debug, Clone, Copy, PartialEq, Eq, Structural)]
pub enum R2Response {
    Version,
    SupportedEntityTypes,
    ConfiguredEntities,
    LocalizationCfg,
    RuntimeInfo,
    Oauth2AuthUrl,
    Oauth2Token,
}

impl R2Response {
    /// The wire name of the variant.
    pub open spec fn wire_str(self) -> Seq<char> {
        match self {
            R2Response::Version => "version"@,
            R2Response::SupportedEntityTypes => "supported_entity_types"@,
            R2Response::ConfiguredEntities => "configured_entities"@,
            R2Response::LocalizationCfg => "localization_cfg"@,
            R2Response::RuntimeInfo => "runtime_info"@,
            R2Response::Oauth2AuthUrl => "oauth2_auth_url"@,
            R2Response::Oauth2Token => "oauth2_token"@,
        }
    }

    /// The variant a wire name denotes, if any.
    pub open spec fn spec_from_wire(s: Seq<char>) -> Option<R2Response> {
        if s == "version"@ {
            Some(R2Response::Version)
        } else if s == "supported_entity_types"@ {
            Some(R2Response::SupportedEntityTypes)
        } else if s == "configured_entities"@ {
            Some(R2Response::ConfiguredEntities)
        } else if s == "localization_cfg"@ {
            Some(R2Response::LocalizationCfg)
        } else if s == "runtime_info"@ {
            Some(R2Response::RuntimeInfo)
        } else if s == "oauth2_auth_url"@ {
            Some(R2Response::Oauth2AuthUrl)
        } else if s == "oauth2_token"@ {
            Some(R2Response::Oauth2Token)
        } else {
            None
        }
    }

    /// The wire name of the variant.
    pub fn as_str(&self) -> (r: &'static str)
        ensures
            r@ == self.wire_str(),
    {
        match self {
            R2Response::Version => "version",
            R2Response::SupportedEntityTypes => "supported_entity_types",
            R2Response::ConfiguredEntities => "configured_entities",
            R2Response::LocalizationCfg => "localization_cfg",
            R2Response::RuntimeInfo => "runtime_info",
            R2Response::Oauth2AuthUrl => "oauth2_auth_url",
            R2Response::Oauth2Token => "oauth2_token",
        }
    }

    /// Parse a wire name.
    pub fn from_str(s: &str) -> (r: Option<R2Response>)
        ensures
            r == R2Response::spec_from_wire(s@),
    {
        let o = s.to_owned();
        if o == String::from_str("version") {
            Some(R2Response::Version)
        } else if o == String::from_str("supported_entity_types") {
            Some(R2Response::SupportedEntityTypes)
        } else if o == String::from_str("configured_entities") {
            Some(R2Response::ConfiguredEntities)
        } else if o == String::from_str("localization_cfg") {
            Some(R2Response::LocalizationCfg)
        } else if o == String::from_str("runtime_info") {
            Some(R2Response::RuntimeInfo)
        } else if o == String::from_str("oauth2_auth_url") {
            Some(R2Response::Oauth2AuthUrl)
        } else if o == String::from_str("oauth2_token") {
            Some(R2Response::Oauth2Token)
        } else {
            None
        }
    }
}

/// Integration specific events emitted from the remote.
#[derive(Debug, Clone, Copy, PartialEq, Eq, Structural)]
pub enum R2Event {
    Connect,
    Disconnect,
    EnterStandby,
    ExitStandby,
    AbortDriverSetup,
    Oauth2Authorization,
}

impl R2Event {
    /// The wire name of the variant.
    pub open spec fn wire_str(self) -> Seq<char> {
        match self {
            R2Event::Connect => "connect"@,
            R2Event::Disconnect => "disconnect"@,
            R2Event::EnterStandby => "enter_standby"@,
            R2Event::ExitStandby => "exit_standby"@,
            R2Event::AbortDriverSetup => "abort_driver_setup"@,
            R2Event::Oauth2Authorization => "oauth2_authorization"@,
        }
    }

    /// The variant a wire name denotes, if any.
    pub open spec fn spec_from_wire(s: Seq<char>) -> Option<R2Event> {
        if s == "connect"@ {
            Some(R2Event::Connect)
        } else if s == "disconnect"@ {
            Some(R2Event::Disconnect)
        } else if s == "enter_standby"@ {
            Some(R2Event::EnterStandby)
        } else if s == "exit_standby"@ {
            Some(R2Event::ExitStandby)
        } else if s == "abort_driver_setup"@ {
            Some(R2Event::AbortDriverSetup)
        } else if s == "oauth2_authorization"@ {
            Some(R2Event::Oauth2Authorization)
        } else {
            None
        }
    }

    /// The wire name of the variant.
    pub fn as_str(&self) -> (r: &'static str)
        ensures
            r@ == self.wire_str(),
    {
        match self {
            R2Event::Connect => "connect",
            R2Event::Disconnect => "disconnect",
            R2Event::EnterStandby => "enter_standby",
            R2Event::ExitStandby => "exit_standby",
            R2Event::AbortDriverSetup => "abort_driver_setup",
            R2Event::Oauth2Authorization => "oauth2_authorization",
        }
    }

    /// Parse a wire name.
    pub fn from_str(s: &str) -> (r: Option<R2Event>)
        ensures
            r == R2Event::spec_from_wire(s@),
    {
        let o = s.to_owned();
        if o == String::from_str("connect") {
            Some(R2Event::Connect)
        } else if o == String::from_str("disconnect") {
            Some(R2Event::Disconnect)
        } else if o == String::from_str("enter_standby") {
            Some(R2Event::EnterStandby)
        } else if o == String::from_str("exit_standby") {
            Some(R2Event::ExitStandby)
        } else if o == String::from_str("abort_driver_setup") {
            Some(R2Event::AbortDriverSetup)
        } else if o == String::from_str("oauth2_authorization") {
            Some(R2Event::Oauth2Authorization)
        } else {
            None
        }
    }
}

/// Integration driver response messages.
#[derive(Debug, Clone, Copy, PartialEq, Eq, Structural)]
pub enum DriverResponse {
    Result,
    DriverVersion,
    AvailableEntities,
    EntityStates,
    DriverMetadata,
}

impl DriverResponse {
    /// The wire name of the variant.
    pub open spec fn wire_str(self) -> Seq<char> {
        match self {
            DriverResponse::Result => "result"@,
            DriverResponse::DriverVersion => "driver_version"@,
            DriverResponse::AvailableEntities => "available_entities"@,
            DriverResponse::EntityStates => "entity_states"@,
            DriverResponse::DriverMetadata => "driver_metadata"@,
        }
    }

    /// The variant a wire name denotes, if any.
    pub open spec fn spec_from_wire(s: Seq<char>) -> Option<DriverResponse> {
        if s == "result"@ {
            Some(DriverResponse::Result)
        } else if s == "driver_version"@ {
            Some(DriverResponse::DriverVersion)
        } else if s == "available_entities"@ {
            Some(DriverResponse::AvailableEntities)
        } else if s == "entity_states"@ {
            Some(DriverResponse::EntityStates)
        } else if s == "driver_metadata"@ {
            Some(DriverResponse::DriverMetadata)
        } else {
            None
        }
    }

    /// The wire name of the variant.
    pub fn as_str(&self) -> (r: &'static str)
        ensures
            r@ == self.wire_str(),
    {
        match self {
            DriverResponse::Result => "result",
            DriverResponse::DriverVersion => "driver_version",
            DriverResponse::AvailableEntities => "available_entities",
            DriverResponse::EntityStates => "entity_states",
            DriverResponse::DriverMetadata => "driver_metadata",
        }
    }

    /// Parse a wire name.
    pub fn from_str(s: &str) -> (r: Option<DriverResponse>)
        ensures
            r == DriverResponse::spec_from_wire(s@),
    {
        let o = s.to_owned();
        if o == String::from_str("result") {
            Some(DriverResponse::Result)
        } else if o == String::from_str("driver_version") {
            Some(DriverResponse::DriverVersion)
        } else if o == String::from_str("available_entities") {
            Some(DriverResponse::AvailableEntities)
        } else if o == String::from_str("entity_states") {
            Some(DriverResponse::EntityStates)
        } else if o == String::from_str("driver_metadata") {
            Some(DriverResponse::DriverMetadata)
        } else {
            None
        }
    }
}

/// Events emitted from the integration driver.
#[derive(Debug, Clone, Copy, PartialEq, Eq, Structural)]
pub enum DriverEvent {
    AuthRequired,
    DeviceState,
    EntityChange,
    EntityAvailable,
    EntityRemoved,
    DriverSetupChange,
}

impl DriverEvent {
    /// The wire name of the variant.
    pub open spec fn wire_str(self) -> Seq<char> {
        match self {
            DriverEvent::AuthRequired => "auth_required"@,
            DriverEvent::DeviceState => "device_state"@,
            DriverEvent::EntityChange => "entity_change"@,
            DriverEvent::EntityAvailable => "entity_available"@,
            DriverEvent::EntityRemoved => "entity_removed"@,
            DriverEvent::DriverSetupChange => "driver_setup_change"@,
        }
    }

    /// The variant a wire name denotes, if any.
    pub open spec fn spec_from_wire(s: Seq<char>) -> Option<DriverEvent> {
        if s == "auth_required"@ {
            Some(DriverEvent::AuthRequired)
        } else if s == "device_state"@ {
            Some(DriverEvent::DeviceState)
        } else if s == "entity_change"@ {
            Some(DriverEvent::EntityChange)
        } else if s == "entity_available"@ {
            Some(DriverEvent::EntityAvailable)
        } else if s == "entity_removed"@ {
            Some(DriverEvent::EntityRemoved)
        } else if s == "driver_setup_change"@ {
            Some(DriverEvent::DriverSetupChange)
        } else {
            None
        }
    }

    /// The wire name of the variant.
    pub fn as_str(&self) -> (r: &'static str)
        ensures
            r@ == self.wire_str(),
    {
        match self {
            DriverEvent::AuthRequired => "auth_required",
            DriverEvent::DeviceState => "device_state",
            DriverEvent::EntityChange => "entity_change",
            DriverEvent::EntityAvailable => "entity_available",
            DriverEvent::EntityRemoved => "entity_removed",
            DriverEvent::DriverSetupChange => "driver_setup_change",
        }
    }

    /// Parse a wire name.
    pub fn from_str(s: &str) -> (r: Option<DriverEvent>)
        ensures
            r == DriverEvent::spec_from_wire(s@),
    {
        let o = s.to_owned();
        if o == String::from_str("auth_required") {
            Some(DriverEvent::AuthRequired)
        } else if o == String::from_str("device_state") {
            Some(DriverEvent::DeviceState)
        } else if o == String::from_str("entity_change") {
            Some(DriverEvent::EntityChange)
        } else if o == String::from_str("entity_available") {
            Some(DriverEvent::EntityAvailable)
        } else if o == String::from_str("entity_removed") {
            Some(DriverEvent::EntityRemoved)
        } else if o == String::from_str("driver_setup_change") {
            Some(DriverEvent::DriverSetupChange)
        } else {
            None
        }
    }
}

/// Requests initiated by the integration driver towards the remote.
#[derive(Debug, Clone, Copy, PartialEq, Eq, Structural)]
pub enum DriverRequest {
    GetVersion,
    GetSupportedEntityTypes,
    GetConfiguredEntities,
    GetLocalizationCfg,
    GetRuntimeInfo,
    GenerateOauth2AuthUrl,
    CreateOauth2Cfg,
    GetOauth2Token,
    DeleteOauth2Token,
}

impl DriverRequest {
    /// The wire name of the variant.
    pub open spec fn wire_str(self) -> Seq<char> {
        match self {
            DriverRequest::GetVersion => "get_version"@,
            DriverRequest::GetSupportedEntityTypes => "get_supported_entity_types"@,
            DriverRequest::GetConfiguredEntities => "get_configured_entities"@,
            DriverRequest::GetLocalizationCfg => "get_localization_cfg"@,
            DriverRequest::GetRuntimeInfo => "get_runtime_info"@,
            DriverRequest::GenerateOauth2AuthUrl => "generate_oauth2_auth_url"@,
            DriverRequest::CreateOauth2Cfg => "create_oauth2_cfg"@,
            DriverRequest::GetOauth2Token => "get_oauth2_token"@,
            DriverRequest::DeleteOauth2Token => "delete_oauth2_token"@,
        }
    }

    /// The variant a wire name denotes, if any.
    pub open spec fn spec_from_wire(s: Seq<char>) -> Option<DriverRequest> {
        if s == "get_version"@ {
            Some(DriverRequest::GetVersion)
        } else if s == "get_supported_entity_types"@ {
            Some(DriverRequest::GetSupportedEntityTypes)
        } else if s == "get_configured_entities"@ {
            Some(DriverRequest::GetConfiguredEntities)
        } else if s == "get_localization_cfg"@ {
            Some(DriverRequest::GetLocalizationCfg)
        } else if s == "get_runtime_info"@ {
            Some(DriverRequest::GetRuntimeInfo)
        } else if s == "generate_oauth2_auth_url"@ {
            Some(DriverRequest::GenerateOauth2AuthUrl)
        } else if s == "create_oauth2_cfg"@ {
            Some(DriverRequest::CreateOauth2Cfg)
        } else if s == "get_oauth2_token"@ {
            Some(DriverRequest::GetOauth2Token)
        } else if s == "delete_oauth2_token"@ {
            Some(DriverRequest::DeleteOauth2Token)
        } else {
            None
        }
    }

    /// The wire name of the variant.
    pub fn as_str(&self) -> (r: &'static str)
        ensures
            r@ == self.wire_str(),
    {
        match self {
            DriverRequest::GetVersion => "get_version",
            DriverRequest::GetSupportedEntityTypes => "get_supported_entity_types",
            DriverRequest::GetConfiguredEntities => "get_configured_entities",
            DriverRequest::GetLocalizationCfg => "get_localization_cfg",
            DriverRequest::GetRuntimeInfo => "get_runtime_info",
            DriverRequest::GenerateOauth2AuthUrl => "generate_oauth2_auth_url",
            DriverRequest::CreateOauth2Cfg => "create_oauth2_cfg",
            DriverRequest::GetOauth2Token => "get_oauth2_token",
            DriverRequest::DeleteOauth2Token => "delete_oauth2_token",
        }
    }

    /// Parse a wire name.
    pub fn from_str(s: &str) -> (r: Option<DriverRequest>)
        ensures
            r == DriverRequest::spec_from_wire(s@),
    {
        let o = s.to_owned();
        if o == String::from_str("get_version") {
            Some(DriverRequest::GetVersion)
        } else if o == String::from_str("get_supported_entity_types") {
            Some(DriverRequest::GetSupportedEntityTypes)
        } else if o == String::from_str("get_configured_entities") {
            Some(DriverRequest::GetConfiguredEntities)
        } else if o == String::from_str("get_localization_cfg") {
            Some(DriverRequest::GetLocalizationCfg)
        } else if o == String::from_str("get_runtime_info") {
            Some(DriverRequest::GetRuntimeInfo)
        } else if o == String::from_str("generate_oauth2_auth_url") {
            Some(DriverRequest::GenerateOauth2AuthUrl)
        } else if o == String::from_str("create_oauth2_cfg") {
            Some(DriverRequest::CreateOauth2Cfg)
        } else if o == String::from_str("get_oauth2_token") {
            Some(DriverRequest::GetOauth2Token)
        } else if o == String::from_str("delete_oauth2_token") {
            Some(DriverRequest::DeleteOauth2Token)
        } else {
            None
        }
    }
}


/// Payload data of a `driver_version` response message.
#[derive(Debug, Clone)]
pub struct DriverVersionMsgData {
    /// Only required for multi-device integrations.
    pub name: Option<String>,
    pub version: Option<IntegrationVersion>,
}

/// Payload data of a `device_state` event message.
#[derive(Debug, Clone)]
pub struct DeviceStateMsgData {
    /// Only required for multi-device integrations.
    pub device_id: Option<String>,
    pub state: DeviceState,
}

/// Payload data of an `entity_available` event message.
#[derive(Debug, Clone)]
pub struct EntityAvailableMsgData {
    /// Only required for multi-device integrations.
    pub device_id: Option<String>,
    pub entity_type: EntityType,
    pub entity_id: String,
    pub features: Option<Vec<String>>,
    /// Display name of the entity, as language texts.
    pub name: Vec<(String, String)>,
    pub area: Option<String>,
}

/// Payload data of an `entity_removed` event message.
#[derive(Debug, Clone)]
pub struct EntityRemovedMsgData {
    /// Only required for multi-device integrations.
    pub device_id: Option<String>,
    pub entity_type: EntityType,
    pub entity_id: String,
}

/// Filter of an `available_entities` request.
#[derive(Debug, Clone)]
pub struct AvailableEntitiesFilter {
    pub device_id: Option<String>,
    pub entity_type: Option<EntityType>,
}

/// Payload data of an `available_entities` response message.
#[derive(Debug)]
pub struct AvailableEntitiesMsgData {
    pub filter: Option<AvailableEntitiesFilter>,
    pub available_entities: Vec<AvailableIntgEntity>,
}

/// Payload data of a `runtime_info` response message.
#[derive(Debug, Clone)]
pub struct RuntimeInfoMsgData {
    pub driver_id: String,
    pub intg_ids: Vec<String>,
    pub log_id: Option<String>,
}

/// Payload data of a `generate_oauth2_auth_url` request message: request an
/// OAuth2 authorization URL for the user.
///
/// A new unique authorization URL is created, which may only be used once.
/// Once the user has authorized the integration driver by the authorization
/// server, the `oauth2_authorization` event is emitted. The `client_data`
/// pairs are encoded into the URL and returned in that event, which allows
/// linking the authorization event to internal driver states.
#[derive(Debug, Clone)]
pub struct GenerateOauth2AuthUrlMsgData {
    /// Additional key-value pairs which should be encoded into the `state`
    /// query parameter of the authorization request.
    pub client_data: Vec<(String, String)>,
}

/// Payload data of an `oauth2_auth_url` response message.
#[derive(Debug, Clone)]
pub struct Oauth2AuthUrlMsgData {
    /// The authorization URL, in its wire form.
    pub auth_url: String,
}

/// Payload data of a `create_oauth2_cfg` request message: create an OAuth2
/// configuration entry in the core.
#[derive(Debug, Clone)]
pub struct CreateOauth2CfgMsgData {
    /// Token identifier to use for the OAuth2 token.
    pub token_id: String,
    /// Friendly name of the OAuth2 token.
    pub name: String,
    /// The OAuth2 token as received in the `oauth2_authorization` event.
    pub token: Oauth2Token,
}

/// Payload data of a `get_oauth2_token` request message.
#[derive(Debug, Clone)]
pub struct GetOauth2TokenMsgData {
    pub token_id: String,
    /// Force a token refresh, no matter if the current token is still valid
    /// or not.
    pub force_refresh: Option<bool>,
}

/// Payload data of an `oauth2_token` response message.
#[derive(Debug, Clone)]
pub struct Oauth2TokenMsgData {
    pub token_id: String,
    pub token: Oauth2Token,
}

/// Payload data of a `delete_oauth2_token` request message.
#[derive(Debug, Clone)]
pub struct DeleteOauth2TokenMsgData {
    pub token_id: String,
}

/// Payload data of an `oauth2_authorization` event message.
#[derive(Debug, Clone)]
pub struct Oauth2AuthorizationMsgData {
    /// Provided key-value pairs in the authorization request URL.
    pub client_data: Vec<(String, String)>,
    /// Set if the authorization failed.
    pub error_code: Option<String>,
    pub error_description: Option<String>,
    /// Only set if authorization has been successful.
    pub token: Option<Oauth2Token>,
}

impl Oauth2AuthorizationMsgData {
    /// A successful authorization: the token is present and no error is set.
    pub fn ok(client_data: Vec<(String, String)>, token: Oauth2Token) -> (r:
        Oauth2AuthorizationMsgData)
        ensures
            r.client_data == client_data,
            r.error_code is None,
            r.error_description is None,
            r.token == Some(token),
    {
        Oauth2AuthorizationMsgData {
            client_data,
            error_code: None,
            error_description: None,
            token: Some(token),
        }
    }

    /// A failed authorization: the error code is present and no token is
    /// set.
    pub fn error(client_data: Vec<(String, String)>, code: &str, description: Option<&str>) -> (r:
        Oauth2AuthorizationMsgData)
        ensures
            r.client_data == client_data,
            r.error_code matches Some(c) && c@ == code@,
            r.error_description is Some <==> description is Some,
            description matches Some(d) ==> (r.error_description matches Some(rd) && rd@ == d@),
            r.token is None,
    {
        let error_description = match description {
            Some(d) => Some(d.to_owned()),
            None => None,
        };
        Oauth2AuthorizationMsgData {
            client_data,
            error_code: Some(code.to_owned()),
            error_description,
            token: None,
        }
    }
}

/// Parsing the wire name of a variant yields the variant again: the
/// wire mapping loses nothing.
pub proof fn lemma_r2_request_wire_round_trip(x: R2Request)
    ensures
        R2Request::spec_from_wire(x.wire_str()) == Some(x),
{
    reveal_strlit("get_driver_version");
    reveal_strlit("get_device_state");
    reveal_strlit("get_available_entities");
    reveal_strlit("subscribe_events");
    reveal_strlit("unsubscribe_events");
    reveal_strlit("get_entity_states");
    reveal_strlit("entity_command");
    reveal_strlit("get_driver_metadata");
    reveal_strlit("setup_driver");
    reveal_strlit("set_driver_user_data");
    assert("get_driver_version"@.len() == 18);
    assert("get_device_state"@.len() == 16);
    assert("get_available_entities"@.len() == 22);
    assert("subscribe_events"@.len() == 16);
    assert("unsubscribe_events"@.len() == 18);
    assert("get_entity_states"@.len() == 17);
    assert("entity_command"@.len() == 14);
    assert("get_driver_metadata"@.len() == 19);
    assert("setup_driver"@.len() == 12);
    assert("set_driver_user_data"@.len() == 20);
    assert("get_device_state"@[0] == 'g' && "subscribe_events"@[0] == 's');
    assert("get_driver_version"@[0] == 'g' && "unsubscribe_events"@[0] == 'u');
}

/// Parsing the wire name of a variant yields the variant again: the
/// wire mapping loses nothing.
pub proof fn lemma_r2_response_wire_round_trip(x: R2Response)
    ensures
        R2Response::spec_from_wire(x.wire_str()) == Some(x),
{
    reveal_strlit("version");
    reveal_strlit("supported_entity_types");
    reveal_strlit("configured_entities");
    reveal_strlit("localization_cfg");
    reveal_strlit("runtime_info");
    reveal_strlit("oauth2_auth_url");
    reveal_strlit("oauth2_token");
    assert("version"@.len() == 7);
    assert("supported_entity_types"@.len() == 22);
    assert("configured_entities"@.len() == 19);
    assert("localization_cfg"@.len() == 16);
    assert("runtime_info"@.len() == 12);
    assert("oauth2_auth_url"@.len() == 15);
    assert("oauth2_token"@.len() == 12);
    assert("runtime_info"@[0] == 'r' && "oauth2_token"@[0] == 'o');
}

/// Parsing the wire name of a variant yields the variant again: the
/// wire mapping loses nothing.
pub proof fn lemma_r2_event_wire_round_trip(x: R2Event)
    ensures
        R2Event::spec_from_wire(x.wire_str()) == Some(x),
{
    reveal_strlit("connect");
    reveal_strlit("disconnect");
    reveal_strlit("enter_standby");
    reveal_strlit("exit_standby");
    reveal_strlit("abort_driver_setup");
    reveal_strlit("oauth2_authorization");
    assert("connect"@.len() == 7);
    assert("disconnect"@.len() == 10);
    assert("enter_standby"@.len() == 13);
    assert("exit_standby"@.len() == 12);
    assert("abort_driver_setup"@.len() == 18);
    assert("oauth2_authorization"@.len() == 20);
}

/// Parsing the wire name of a variant yields the variant again: the
/// wire mapping loses nothing.
pub proof fn lemma_driver_response_wire_round_trip(x: DriverResponse)
    ensures
        DriverResponse::spec_from_wire(x.wire_str()) == Some(x),
{
    reveal_strlit("result");
    reveal_strlit("driver_version");
    reveal_strlit("available_entities");
    reveal_strlit("entity_states");
    reveal_strlit("driver_metadata");
    assert("result"@.len() == 6);
    assert("driver_version"@.len() == 14);
    assert("available_entities"@.len() == 18);
    assert("entity_states"@.len() == 13);
    assert("driver_metadata"@.len() == 15);
}

/// Parsing the wire name of a variant yields the variant again: the
/// wire mapping loses nothing.
pub proof fn lemma_driver_event_wire_round_trip(x: DriverEvent)
    ensures
        DriverEvent::spec_from_wire(x.wire_str()) == Some(x),
{
    reveal_strlit("auth_required");
    reveal_strlit("device_state");
    reveal_strlit("entity_change");
    reveal_strlit("entity_available");
    reveal_strlit("entity_removed");
    reveal_strlit("driver_setup_change");
    assert("auth_required"@.len() == 13);
    assert("device_state"@.len() == 12);
    assert("entity_change"@.len() == 13);
    assert("entity_available"@.len() == 16);
    assert("entity_removed"@.len() == 14);
    assert("driver_setup_change"@.len() == 19);
    assert("auth_required"@[0] == 'a' && "entity_change"@[0] == 'e');
}

/// Parsing the wire name of a variant yields the variant again: the
/// wire mapping loses nothing.
pub proof fn lemma_driver_request_wire_round_trip(x: DriverRequest)
    ensures
        DriverRequest::spec_from_wire(x.wire_str()) == Some(x),
{
    reveal_strlit("get_version");
    reveal_strlit("get_supported_entity_types");
    reveal_strlit("get_configured_entities");
    reveal_strlit("get_localization_cfg");
    reveal_strlit("get_runtime_info");
    reveal_strlit("generate_oauth2_auth_url");
    reveal_strlit("create_oauth2_cfg");
    reveal_strlit("get_oauth2_token");
    reveal_strlit("delete_oauth2_token");
    assert("get_version"@.len() == 11);
    assert("get_supported_entity_types"@.len() == 26);
    assert("get_configured_entities"@.len() == 23);
    assert("get_localization_cfg"@.len() == 20);
    assert("get_runtime_info"@.len() == 16);
    assert("generate_oauth2_auth_url"@.len() == 24);
    assert("create_oauth2_cfg"@.len() == 17);
    assert("get_oauth2_token"@.len() == 16);
    assert("delete_oauth2_token"@.len() == 19);
    assert("get_runtime_info"@[4] == 'r' && "get_oauth2_token"@[4] == 'o');
}

} // verus!
