//! Shared integration setup models.
//!
//! The user-action request that embeds a settings page carries
//! floating-point number fields and lives with the callers instead.

use vstd::prelude::*;
use vstd::string::StringExecFns;

verus! {


/// Setup flow change event type, serialized in `SCREAMING_SNAKE_CASE`.
#[derive(Debug, Clone, Copy, PartialEq, Eq, Structural)]
pub enum SetupChangeEventType {
    /// Setup started.
    Start,
    /// Setup in progress. See the state for the current setup state.
    Setup,
    /// Setup finished, successfully or not; the state tells which.
    Stop,
}

impl SetupChangeEventType {
    /// The wire name of the variant.
    pub open spec fn wire_str(self) -> Seq<char> {
        match self {
            SetupChangeEventType::Start => "START"@,
            SetupChangeEventType::Setup => "SETUP"@,
            SetupChangeEventType::Stop => "STOP"@,
        }
    }

    /// The variant a wire name denotes, if any.
    pub open spec fn spec_from_wire(s: Seq<char>) -> Option<SetupChangeEventType> {
        if s == "START"@ {
            Some(SetupChangeEventType::Start)
        } else if s == "SETUP"@ {
            Some(SetupChangeEventType::Setup)
        } else if s == "STOP"@ {
            Some(SetupChangeEventType::Stop)
        } else {
            None
        }
    }

    /// The wire name of the variant.
    pub fn as_str(&self) -> (r: &'static str)
        ensures
            r@ == self.wire_str(),
    {
        match self {
            SetupChangeEventType::Start => "START",
            SetupChangeEventType::Setup => "SETUP",
            SetupChangeEventType::Stop => "STOP",
        }
    }

    /// Parse a wire name.
    pub fn from_str(s: &str) -> (r: Option<SetupChangeEventType>)
        ensures
            r == SetupChangeEventType::spec_from_wire(s@),
    {
        let o = s.to_owned();
        if o == String::from_str("START") {
            Some(SetupChangeEventType::Start)
        } else if o == String::from_str("SETUP") {
            Some(SetupChangeEventType::Setup)
        } else if o == String::from_str("STOP") {
            Some(SetupChangeEventType::Stop)
        } else {
            None
        }
    }
}

/// Setup flow state, serialized in `SCREAMING_SNAKE_CASE`.
#[derive(Debug, Clone, Copy, PartialEq, Eq, Structural)]
pub enum IntegrationSetupState {
    /// Internal state while preparing setup.
    New,
    /// Setup in progress.
    Setup,
    /// Setup flow is waiting for user input.
    WaitUserAction,
    /// Setup finished successfully; the wire name is `OK`.
    Okay,
    /// Setup error.
    Error,
}

impl IntegrationSetupState {
    /// The wire name of the variant.
    pub open spec fn wire_str(self) -> Seq<char> {
        match self {
            IntegrationSetupState::New => "NEW"@,
            IntegrationSetupState::Setup => "SETUP"@,
            IntegrationSetupState::WaitUserAction => "WAIT_USER_ACTION"@,
            IntegrationSetupState::Okay => "OK"@,
            IntegrationSetupState::Error => "ERROR"@,
        }
    }

    /// The variant a wire name denotes, if any.
    pub open spec fn spec_from_wire(s: Seq<char>) -> Option<IntegrationSetupState> {
        if s == "NEW"@ {
            Some(IntegrationSetupState::New)
        } else if s == "SETUP"@ {
            Some(IntegrationSetupState::Setup)
        } else if s == "WAIT_USER_ACTION"@ {
            Some(IntegrationSetupState::WaitUserAction)
        } else if s == "OK"@ {
            Some(IntegrationSetupState::Okay)
        } else if s == "ERROR"@ {
            Some(IntegrationSetupState::Error)
        } else {
            None
        }
    }

    /// The wire name of the variant.
    pub fn as_str(&self) -> (r: &'static str)
        ensures
            r@ == self.wire_str(),
    {
        match self {
            IntegrationSetupState::New => "NEW",
            IntegrationSetupState::Setup => "SETUP",
            IntegrationSetupState::WaitUserAction => "WAIT_USER_ACTION",
            IntegrationSetupState::Okay => "OK",
            IntegrationSetupState::Error => "ERROR",
        }
    }

    /// Parse a wire name.
    pub fn from_str(s: &str) -> (r: Option<IntegrationSetupState>)
        ensures
            r == IntegrationSetupState::spec_from_wire(s@),
    {
        let o = s.to_owned();
        if o == String::from_str("NEW") {
            Some(IntegrationSetupState::New)
        } else if o == String::from_str("SETUP") {
            Some(IntegrationSetupState::Setup)
        } else if o == String::from_str("WAIT_USER_ACTION") {
            Some(IntegrationSetupState::WaitUserAction)
        } else if o == String::from_str("OK") {
            Some(IntegrationSetupState::Okay)
        } else if o == String::from_str("ERROR") {
            Some(IntegrationSetupState::Error)
        } else {
            None
        }
    }
}

/// More detailed error reason for an `ERROR` setup state, serialized in
/// `SCREAMING_SNAKE_CASE`.
#[derive(Debug, Clone, Copy, PartialEq, Eq, Structural)]
pub enum IntegrationSetupError {
    /// No error; the wire name is `NONE`.
    NoError,
    NotFound,
    ConnectionRefused,
    AuthorizationError,
    Timeout,
    Other,
}

impl IntegrationSetupError {
    /// The wire name of the variant.
    pub open spec fn wire_str(self) -> Seq<char> {
        match self {
            IntegrationSetupError::NoError => "NONE"@,
            IntegrationSetupError::NotFound => "NOT_FOUND"@,
            IntegrationSetupError::ConnectionRefused => "CONNECTION_REFUSED"@,
            IntegrationSetupError::AuthorizationError => "AUTHORIZATION_ERROR"@,
            IntegrationSetupError::Timeout => "TIMEOUT"@,
            IntegrationSetupError::Other => "OTHER"@,
        }
    }

    /// The variant a wire name denotes, if any.
    pub open spec fn spec_from_wire(s: Seq<char>) -> Option<IntegrationSetupError> {
        if s == "NONE"@ {
            Some(IntegrationSetupError::NoError)
        } else if s == "NOT_FOUND"@ {
            Some(IntegrationSetupError::NotFound)
        } else if s == "CONNECTION_REFUSED"@ {
            Some(IntegrationSetupError::ConnectionRefused)
        } else if s == "AUTHORIZATION_ERROR"@ {
            Some(IntegrationSetupError::AuthorizationError)
        } else if s == "TIMEOUT"@ {
            Some(IntegrationSetupError::Timeout)
        } else if s == "OTHER"@ {
            Some(IntegrationSetupError::Other)
        } else {
            None
        }
    }

    /// The wire name of the variant.
    pub fn as_str(&self) -> (r: &'static str)
        ensures
            r@ == self.wire_str(),
    {
        match self {
            IntegrationSetupError::NoError => "NONE",
            IntegrationSetupError::NotFound => "NOT_FOUND",
            IntegrationSetupError::ConnectionRefused => "CONNECTION_REFUSED",
            IntegrationSetupError::AuthorizationError => "AUTHORIZATION_ERROR",
            IntegrationSetupError::Timeout => "TIMEOUT",
            IntegrationSetupError::Other => "OTHER",
        }
    }

    /// Parse a wire name.
    pub fn from_str(s: &str) -> (r: Option<IntegrationSetupError>)
        ensures
            r == IntegrationSetupError::spec_from_wire(s@),
    {
        let o = s.to_owned();
        if o == String::from_str("NONE") {
            Some(IntegrationSetupError::NoError)
        } else if o == String::from_str("NOT_FOUND") {
            Some(IntegrationSetupError::NotFound)
        } else if o == String::from_str("CONNECTION_REFUSED") {
            Some(IntegrationSetupError::ConnectionRefused)
        } else if o == String::from_str("AUTHORIZATION_ERROR") {
            Some(IntegrationSetupError::AuthorizationError)
        } else if o == String::from_str("TIMEOUT") {
            Some(IntegrationSetupError::Timeout)
        } else if o == String::from_str("OTHER") {
            Some(IntegrationSetupError::Other)
        } else {
            None
        }
    }
}

/// Parsing the wire name of a variant yields the variant again: the
/// wire mapping loses nothing.
pub proof fn lemma_setup_change_event_type_wire_round_trip(x: SetupChangeEventType)
    ensures
        SetupChangeEventType::spec_from_wire(x.wire_str()) == Some(x),
{
    reveal_strlit("START");
    reveal_strlit("SETUP");
    reveal_strlit("STOP");
    assert("START"@.len() == 5);
    assert("SETUP"@.len() == 5);
    assert("STOP"@.len() == 4);
    assert("START"@[1] == 'T' && "SETUP"@[1] == 'E');
}

/// Parsing the wire name of a variant yields the variant again: the
/// wire mapping loses nothing.
pub proof fn lemma_integration_setup_state_wire_round_trip(x: IntegrationSetupState)
    ensures
        IntegrationSetupState::spec_from_wire(x.wire_str()) == Some(x),
{
    reveal_strlit("NEW");
    reveal_strlit("SETUP");
    reveal_strlit("WAIT_USER_ACTION");
    reveal_strlit("OK");
    reveal_strlit("ERROR");
    assert("NEW"@.len() == 3);
    assert("SETUP"@.len() == 5);
    assert("WAIT_USER_ACTION"@.len() == 16);
    assert("OK"@.len() == 2);
    assert("ERROR"@.len() == 5);
    assert("SETUP"@[0] == 'S' && "ERROR"@[0] == 'E');
}

/// Parsing the wire name of a variant yields the variant again: the
/// wire mapping loses nothing.
pub proof fn lemma_integration_setup_error_wire_round_trip(x: IntegrationSetupError)
    ensures
        IntegrationSetupError::spec_from_wire(x.wire_str()) == Some(x),
{
    reveal_strlit("NONE");
    reveal_strlit("NOT_FOUND");
    reveal_strlit("CONNECTION_REFUSED");
    reveal_strlit("AUTHORIZATION_ERROR");
    reveal_strlit("TIMEOUT");
    reveal_strlit("OTHER");
    assert("NONE"@.len() == 4);
    assert("NOT_FOUND"@.len() == 9);
    assert("CONNECTION_REFUSED"@.len() == 18);
    assert("AUTHORIZATION_ERROR"@.len() == 19);
    assert("TIMEOUT"@.len() == 7);
    assert("OTHER"@.len() == 5);
}

} // verus!
