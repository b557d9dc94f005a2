//! Core-API related entity data structures.

use vstd::prelude::*;
use vstd::string::StringExecFns;

verus! {


/// Core-API remote entity option fields.
///
/// Only valid in the Core-API data model; the integration API has its own
/// remote entity model.
#[derive(Debug, Clone, PartialEq, Eq, Structural)]
pub enum RemoteOptionField {
    Editable,
    /// List of command identifiers which can be used in the `send` command.
    SimpleCommands,
    ButtonMapping,
    UserInterface,
}

impl RemoteOptionField {
    /// The wire name of the variant.
    pub open spec fn wire_str(self) -> Seq<char> {
        match self {
            RemoteOptionField::Editable => "editable"@,
            RemoteOptionField::SimpleCommands => "simple_commands"@,
            RemoteOptionField::ButtonMapping => "button_mapping"@,
            RemoteOptionField::UserInterface => "user_interface"@,
        }
    }

    /// The variant a wire name denotes, if any.
    pub open spec fn spec_from_wire(s: Seq<char>) -> Option<RemoteOptionField> {
        if s == "editable"@ {
            Some(RemoteOptionField::Editable)
        } else if s == "simple_commands"@ {
            Some(RemoteOptionField::SimpleCommands)
        } else if s == "button_mapping"@ {
            Some(RemoteOptionField::ButtonMapping)
        } else if s == "user_interface"@ {
            Some(RemoteOptionField::UserInterface)
        } else {
            None
        }
    }

    /// The wire name of the variant.
    pub fn as_str(&self) -> (r: &'static str)
        ensures
            r@ == self.wire_str(),
    {
        match self {
            RemoteOptionField::Editable => "editable",
            RemoteOptionField::SimpleCommands => "simple_commands",
            RemoteOptionField::ButtonMapping => "button_mapping",
            RemoteOptionField::UserInterface => "user_interface",
        }
    }

    /// Parse a wire name.
    pub fn from_str(s: &str) -> (r: Option<RemoteOptionField>)
        ensures
            r == RemoteOptionField::spec_from_wire(s@),
    {
        let o = s.to_owned();
        if o == String::from_str("editable") {
            Some(RemoteOptionField::Editable)
        } else if o == String::from_str("simple_commands") {
            Some(RemoteOptionField::SimpleCommands)
        } else if o == String::from_str("button_mapping") {
            Some(RemoteOptionField::ButtonMapping)
        } else if o == String::from_str("user_interface") {
            Some(RemoteOptionField::UserInterface)
        } else {
            None
        }
    }
}

/// Core-API remote features.
#[derive(Debug, Clone, PartialEq, Eq, Structural)]
pub enum RemoteFeature {
    OnOff,
    Toggle,
    /// Send IR commands.
    Send,
    /// Stop sending a repeated IR command.
    StopSend,
    /// Send arbitrary commands.
    SendCmd,
}

impl RemoteFeature {
    /// The wire name of the variant.
    pub open spec fn wire_str(self) -> Seq<char> {
        match self {
            RemoteFeature::OnOff => "on_off"@,
            RemoteFeature::Toggle => "toggle"@,
            RemoteFeature::Send => "send"@,
            RemoteFeature::StopSend => "stop_send"@,
            RemoteFeature::SendCmd => "send_cmd"@,
        }
    }

    /// The variant a wire name denotes, if any.
    pub open spec fn spec_from_wire(s: Seq<char>) -> Option<RemoteFeature> {
        if s == "on_off"@ {
            Some(RemoteFeature::OnOff)
        } else if s == "toggle"@ {
            Some(RemoteFeature::Toggle)
        } else if s == "send"@ {
            Some(RemoteFeature::Send)
        } else if s == "stop_send"@ {
            Some(RemoteFeature::StopSend)
        } else if s == "send_cmd"@ {
            Some(RemoteFeature::SendCmd)
        } else {
            None
        }
    }

    /// The wire name of the variant.
    pub fn as_str(&self) -> (r: &'static str)
        ensures
            r@ == self.wire_str(),
    {
        match self {
            RemoteFeature::OnOff => "on_off",
            RemoteFeature::Toggle => "toggle",
            RemoteFeature::Send => "send",
            RemoteFeature::StopSend => "stop_send",
            RemoteFeature::SendCmd => "send_cmd",
        }
    }

    /// Parse a wire name.
    pub fn from_str(s: &str) -> (r: Option<RemoteFeature>)
        ensures
            r == RemoteFeature::spec_from_wire(s@),
    {
        let o = s.to_owned();
        if o == String::from_str("on_off") {
            Some(RemoteFeature::OnOff)
        } else if o == String::from_str("toggle") {
            Some(RemoteFeature::Toggle)
        } else if o == String::from_str("send") {
            Some(RemoteFeature::Send)
        } else if o == String::from_str("stop_send") {
            Some(RemoteFeature::StopSend)
        } else if o == String::from_str("send_cmd") {
            Some(RemoteFeature::SendCmd)
        } else {
            None
        }
    }
}

/// Core-API remote entity commands.
#[derive(Debug, Clone, PartialEq, Eq, Structural)]
pub enum RemoteCommand {
    On,
    Off,
    Toggle,
    Send,
    StopSend,
    SendSequence,
    SendCmd,
    SendCmdSequence,
}

impl RemoteCommand {
    /// The wire name of the variant.
    pub open spec fn wire_str(self) -> Seq<char> {
        match self {
            RemoteCommand::On => "on"@,
            RemoteCommand::Off => "off"@,
            RemoteCommand::Toggle => "toggle"@,
            RemoteCommand::Send => "send"@,
            RemoteCommand::StopSend => "stop_send"@,
            RemoteCommand::SendSequence => "send_sequence"@,
            RemoteCommand::SendCmd => "send_cmd"@,
            RemoteCommand::SendCmdSequence => "send_cmd_sequence"@,
        }
    }

    /// The variant a wire name denotes, if any.
    pub open spec fn spec_from_wire(s: Seq<char>) -> Option<RemoteCommand> {
        if s == "on"@ {
            Some(RemoteCommand::On)
        } else if s == "off"@ {
            Some(RemoteCommand::Off)
        } else if s == "toggle"@ {
            Some(RemoteCommand::Toggle)
        } else if s == "send"@ {
            Some(RemoteCommand::Send)
        } else if s == "stop_send"@ {
            Some(RemoteCommand::StopSend)
        } else if s == "send_sequence"@ {
            Some(RemoteCommand::SendSequence)
        } else if s == "send_cmd"@ {
            Some(RemoteCommand::SendCmd)
        } else if s == "send_cmd_sequence"@ {
            Some(RemoteCommand::SendCmdSequence)
        } else {
            None
        }
    }

    /// The wire name of the variant.
    pub fn as_str(&self) -> (r: &'static str)
        ensures
            r@ == self.wire_str(),
    {
        match self {
            RemoteCommand::On => "on",
            RemoteCommand::Off => "off",
            RemoteCommand::Toggle => "toggle",
            RemoteCommand::Send => "send",
            RemoteCommand::StopSend => "stop_send",
            RemoteCommand::SendSequence => "send_sequence",
            RemoteCommand::SendCmd => "send_cmd",
            RemoteCommand::SendCmdSequence => "send_cmd_sequence",
        }
    }

    /// Parse a wire name.
    pub fn from_str(s: &str) -> (r: Option<RemoteCommand>)
        ensures
            r == RemoteCommand::spec_from_wire(s@),
    {
        let o = s.to_owned();
        if o == String::from_str("on") {
            Some(RemoteCommand::On)
        } else if o == String::from_str("off") {
            Some(RemoteCommand::Off)
        } else if o == String::from_str("toggle") {
            Some(RemoteCommand::Toggle)
        } else if o == String::from_str("send") {
            Some(RemoteCommand::Send)
        } else if o == String::from_str("stop_send") {
            Some(RemoteCommand::StopSend)
        } else if o == String::from_str("send_sequence") {
            Some(RemoteCommand::SendSequence)
        } else if o == String::from_str("send_cmd") {
            Some(RemoteCommand::SendCmd)
        } else if o == String::from_str("send_cmd_sequence") {
            Some(RemoteCommand::SendCmdSequence)
        } else {
            None
        }
    }
}

/// Parsing the wire name of a variant yields the variant again: the
/// wire mapping loses nothing.
pub proof fn lemma_remote_option_field_wire_round_trip(x: RemoteOptionField)
    ensures
        RemoteOptionField::spec_from_wire(x.wire_str()) == Some(x),
{
    reveal_strlit("editable");
    reveal_strlit("simple_commands");
    reveal_strlit("button_mapping");
    reveal_strlit("user_interface");
    assert("editable"@.len() == 8);
    assert("simple_commands"@.len() == 15);
    assert("button_mapping"@.len() == 14);
    assert("user_interface"@.len() == 14);
    assert("button_mapping"@[0] == 'b' && "user_interface"@[0] == 'u');
}

/// Parsing the wire name of a variant yields the variant again: the
/// wire mapping loses nothing.
pub proof fn lemma_remote_feature_wire_round_trip(x: RemoteFeature)
    ensures
        RemoteFeature::spec_from_wire(x.wire_str()) == Some(x),
{
    reveal_strlit("on_off");
    reveal_strlit("toggle");
    reveal_strlit("send");
    reveal_strlit("stop_send");
    reveal_strlit("send_cmd");
    assert("on_off"@.len() == 6);
    assert("toggle"@.len() == 6);
    assert("send"@.len() == 4);
    assert("stop_send"@.len() == 9);
    assert("send_cmd"@.len() == 8);
    assert("on_off"@[0] == 'o' && "toggle"@[0] == 't');
}

/// Parsing the wire name of a variant yields the variant again: the
/// wire mapping loses nothing.
pub proof fn lemma_remote_command_wire_round_trip(x: RemoteCommand)
    ensures
        RemoteCommand::spec_from_wire(x.wire_str()) == Some(x),
{
    reveal_strlit("on");
    reveal_strlit("off");
    reveal_strlit("toggle");
    reveal_strlit("send");
    reveal_strlit("stop_send");
    reveal_strlit("send_sequence");
    reveal_strlit("send_cmd");
    reveal_strlit("send_cmd_sequence");
    assert("on"@.len() == 2);
    assert("off"@.len() == 3);
    assert("toggle"@.len() == 6);
    assert("send"@.len() == 4);
    assert("stop_send"@.len() == 9);
    assert("send_sequence"@.len() == 13);
    assert("send_cmd"@.len() == 8);
    assert("send_cmd_sequence"@.len() == 17);
}

} // verus!
