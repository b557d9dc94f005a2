//! Common entity related data structures used in the core and integration
//! APIs.
//!
//! Each enumeration carries an explicit, hand-written mapping to its wire
//! string form. Variants are serialized in `snake_case` unless noted
//! otherwise; the one irregular mapping is the media-player directional-pad
//! feature, which serializes as the literal `dpad`.

use vstd::prelude::*;
use vstd::string::StringExecFns;

verus! {


/// Supported entity types.
#[derive(Debug, Clone, PartialEq, Eq, Structural)]
pub enum EntityType {
    Button,
    Switch,
    Climate,
    Cover,
    Light,
    MediaPlayer,
    Sensor,
    /// Internal entity only at the moment.
    Activity,
    /// Internal entity only at the moment.
    Macro,
    Remote,
}

impl EntityType {
    /// The wire name of the variant.
    pub open spec fn wire_str(self) -> Seq<char> {
        match self {
            EntityType::Button => "button"@,
            EntityType::Switch => "switch"@,
            EntityType::Climate => "climate"@,
            EntityType::Cover => "cover"@,
            EntityType::Light => "light"@,
            EntityType::MediaPlayer => "media_player"@,
            EntityType::Sensor => "sensor"@,
            EntityType::Activity => "activity"@,
            EntityType::Macro => "macro"@,
            EntityType::Remote => "remote"@,
        }
    }

    /// The variant a wire name denotes, if any.
    pub open spec fn spec_from_wire(s: Seq<char>) -> Option<EntityType> {
        if s == "button"@ {
            Some(EntityType::Button)
        } else if s == "switch"@ {
            Some(EntityType::Switch)
        } else if s == "climate"@ {
            Some(EntityType::Climate)
        } else if s == "cover"@ {
            Some(EntityType::Cover)
        } else if s == "light"@ {
            Some(EntityType::Light)
        } else if s == "media_player"@ {
            Some(EntityType::MediaPlayer)
        } else if s == "sensor"@ {
            Some(EntityType::Sensor)
        } else if s == "activity"@ {
            Some(EntityType::Activity)
        } else if s == "macro"@ {
            Some(EntityType::Macro)
        } else if s == "remote"@ {
            Some(EntityType::Remote)
        } else {
            None
        }
    }

    /// The wire name of the variant.
    pub fn as_str(&self) -> (r: &'static str)
        ensures
            r@ == self.wire_str(),
    {
        match self {
            EntityType::Button => "button",
            EntityType::Switch => "switch",
            EntityType::Climate => "climate",
            EntityType::Cover => "cover",
            EntityType::Light => "light",
            EntityType::MediaPlayer => "media_player",
            EntityType::Sensor => "sensor",
            EntityType::Activity => "activity",
            EntityType::Macro => "macro",
            EntityType::Remote => "remote",
        }
    }

    /// Parse a wire name.
    pub fn from_str(s: &str) -> (r: Option<EntityType>)
        ensures
            r == EntityType::spec_from_wire(s@),
    {
        let o = s.to_owned();
        if o == String::from_str("button") {
            Some(EntityType::Button)
        } else if o == String::from_str("switch") {
            Some(EntityType::Switch)
        } else if o == String::from_str("climate") {
            Some(EntityType::Climate)
        } else if o == String::from_str("cover") {
            Some(EntityType::Cover)
        } else if o == String::from_str("light") {
            Some(EntityType::Light)
        } else if o == String::from_str("media_player") {
            Some(EntityType::MediaPlayer)
        } else if o == String::from_str("sensor") {
            Some(EntityType::Sensor)
        } else if o == String::from_str("activity") {
            Some(EntityType::Activity)
        } else if o == String::from_str("macro") {
            Some(EntityType::Macro)
        } else if o == String::from_str("remote") {
            Some(EntityType::Remote)
        } else {
            None
        }
    }
}

/// Button features.
#[derive(Debug, Clone, PartialEq, Eq, Structural)]
pub enum ButtonFeature {
    Press,
}

impl ButtonFeature {
    /// The wire name of the variant.
    pub open spec fn wire_str(self) -> Seq<char> {
        match self {
            ButtonFeature::Press => "press"@,
        }
    }

    /// The variant a wire name denotes, if any.
    pub open spec fn spec_from_wire(s: Seq<char>) -> Option<ButtonFeature> {
        if s == "press"@ {
            Some(ButtonFeature::Press)
        } else {
            None
        }
    }

    /// The wire name of the variant.
    pub fn as_str(&self) -> (r: &'static str)
        ensures
            r@ == self.wire_str(),
    {
        match self {
            ButtonFeature::Press => "press",
        }
    }

    /// Parse a wire name.
    pub fn from_str(s: &str) -> (r: Option<ButtonFeature>)
        ensures
            r == ButtonFeature::spec_from_wire(s@),
    {
        let o = s.to_owned();
        if o == String::from_str("press") {
            Some(ButtonFeature::Press)
        } else {
            None
        }
    }
}

/// Button entity commands.
#[derive(Debug, Clone, PartialEq, Eq, Structural)]
pub enum ButtonCommand {
    Push,
}

impl ButtonCommand {
    /// The wire name of the variant.
    pub open spec fn wire_str(self) -> Seq<char> {
        match self {
            ButtonCommand::Push => "push"@,
        }
    }

    /// The variant a wire name denotes, if any.
    pub open spec fn spec_from_wire(s: Seq<char>) -> Option<ButtonCommand> {
        if s == "push"@ {
            Some(ButtonCommand::Push)
        } else {
            None
        }
    }

    /// The wire name of the variant.
    pub fn as_str(&self) -> (r: &'static str)
        ensures
            r@ == self.wire_str(),
    {
        match self {
            ButtonCommand::Push => "push",
        }
    }

    /// Parse a wire name.
    pub fn from_str(s: &str) -> (r: Option<ButtonCommand>)
        ensures
            r == ButtonCommand::spec_from_wire(s@),
    {
        let o = s.to_owned();
        if o == String::from_str("push") {
            Some(ButtonCommand::Push)
        } else {
            None
        }
    }
}

/// Button entity attributes.
#[derive(Debug, Clone, PartialEq, Eq, Structural)]
pub enum ButtonAttribute {
    State,
}

impl ButtonAttribute {
    /// The wire name of the variant.
    pub open spec fn wire_str(self) -> Seq<char> {
        match self {
            ButtonAttribute::State => "state"@,
        }
    }

    /// The variant a wire name denotes, if any.
    pub open spec fn spec_from_wire(s: Seq<char>) -> Option<ButtonAttribute> {
        if s == "state"@ {
            Some(ButtonAttribute::State)
        } else {
            None
        }
    }

    /// The wire name of the variant.
    pub fn as_str(&self) -> (r: &'static str)
        ensures
            r@ == self.wire_str(),
    {
        match self {
            ButtonAttribute::State => "state",
        }
    }

    /// Parse a wire name.
    pub fn from_str(s: &str) -> (r: Option<ButtonAttribute>)
        ensures
            r == ButtonAttribute::spec_from_wire(s@),
    {
        let o = s.to_owned();
        if o == String::from_str("state") {
            Some(ButtonAttribute::State)
        } else {
            None
        }
    }
}

/// Switch features.
#[derive(Debug, Clone, PartialEq, Eq, Structural)]
pub enum SwitchFeature {
    OnOff,
    Toggle,
}

impl SwitchFeature {
    /// The wire name of the variant.
    pub open spec fn wire_str(self) -> Seq<char> {
        match self {
            SwitchFeature::OnOff => "on_off"@,
            SwitchFeature::Toggle => "toggle"@,
        }
    }

    /// The variant a wire name denotes, if any.
    pub open spec fn spec_from_wire(s: Seq<char>) -> Option<SwitchFeature> {
        if s == "on_off"@ {
            Some(SwitchFeature::OnOff)
        } else if s == "toggle"@ {
            Some(SwitchFeature::Toggle)
        } else {
            None
        }
    }

    /// The wire name of the variant.
    pub fn as_str(&self) -> (r: &'static str)
        ensures
            r@ == self.wire_str(),
    {
        match self {
            SwitchFeature::OnOff => "on_off",
            SwitchFeature::Toggle => "toggle",
        }
    }

    /// Parse a wire name.
    pub fn from_str(s: &str) -> (r: Option<SwitchFeature>)
        ensures
            r == SwitchFeature::spec_from_wire(s@),
    {
        let o = s.to_owned();
        if o == String::from_str("on_off") {
            Some(SwitchFeature::OnOff)
        } else if o == String::from_str("toggle") {
            Some(SwitchFeature::Toggle)
        } else {
            None
        }
    }
}

/// Switch entity commands.
#[derive(Debug, Clone, PartialEq, Eq, Structural)]
pub enum SwitchCommand {
    On,
    Off,
    Toggle,
}

impl SwitchCommand {
    /// The wire name of the variant.
    pub open spec fn wire_str(self) -> Seq<char> {
        match self {
            SwitchCommand::On => "on"@,
            SwitchCommand::Off => "off"@,
            SwitchCommand::Toggle => "toggle"@,
        }
    }

    /// The variant a wire name denotes, if any.
    pub open spec fn spec_from_wire(s: Seq<char>) -> Option<SwitchCommand> {
        if s == "on"@ {
            Some(SwitchCommand::On)
        } else if s == "off"@ {
            Some(SwitchCommand::Off)
        } else if s == "toggle"@ {
            Some(SwitchCommand::Toggle)
        } else {
            None
        }
    }

    /// The wire name of the variant.
    pub fn as_str(&self) -> (r: &'static str)
        ensures
            r@ == self.wire_str(),
    {
        match self {
            SwitchCommand::On => "on",
            SwitchCommand::Off => "off",
            SwitchCommand::Toggle => "toggle",
        }
    }

    /// Parse a wire name.
    pub fn from_str(s: &str) -> (r: Option<SwitchCommand>)
        ensures
            r == SwitchCommand::spec_from_wire(s@),
    {
        let o = s.to_owned();
        if o == String::from_str("on") {
            Some(SwitchCommand::On)
        } else if o == String::from_str("off") {
            Some(SwitchCommand::Off)
        } else if o == String::from_str("toggle") {
            Some(SwitchCommand::Toggle)
        } else {
            None
        }
    }
}

/// Switch entity device classes.
#[derive(Debug, Clone, PartialEq, Eq, Structural)]
pub enum SwitchDeviceClass {
    /// The switch represents a switchable power outlet.
    Outlet,
    /// Generic switch.
    Switch,
}

impl SwitchDeviceClass {
    /// The wire name of the variant.
    pub open spec fn wire_str(self) -> Seq<char> {
        match self {
            SwitchDeviceClass::Outlet => "outlet"@,
            SwitchDeviceClass::Switch => "switch"@,
        }
    }

    /// The variant a wire name denotes, if any.
    pub open spec fn spec_from_wire(s: Seq<char>) -> Option<SwitchDeviceClass> {
        if s == "outlet"@ {
            Some(SwitchDeviceClass::Outlet)
        } else if s == "switch"@ {
            Some(SwitchDeviceClass::Switch)
        } else {
            None
        }
    }

    /// The wire name of the variant.
    pub fn as_str(&self) -> (r: &'static str)
        ensures
            r@ == self.wire_str(),
    {
        match self {
            SwitchDeviceClass::Outlet => "outlet",
            SwitchDeviceClass::Switch => "switch",
        }
    }

    /// Parse a wire name.
    pub fn from_str(s: &str) -> (r: Option<SwitchDeviceClass>)
        ensures
            r == SwitchDeviceClass::spec_from_wire(s@),
    {
        let o = s.to_owned();
        if o == String::from_str("outlet") {
            Some(SwitchDeviceClass::Outlet)
        } else if o == String::from_str("switch") {
            Some(SwitchDeviceClass::Switch)
        } else {
            None
        }
    }
}

/// Switch entity options.
#[derive(Debug, Clone, PartialEq, Eq, Structural)]
pub enum SwitchOption {
    Readable,
}

impl SwitchOption {
    /// The wire name of the variant.
    pub open spec fn wire_str(self) -> Seq<char> {
        match self {
            SwitchOption::Readable => "readable"@,
        }
    }

    /// The variant a wire name denotes, if any.
    pub open spec fn spec_from_wire(s: Seq<char>) -> Option<SwitchOption> {
        if s == "readable"@ {
            Some(SwitchOption::Readable)
        } else {
            None
        }
    }

    /// The wire name of the variant.
    pub fn as_str(&self) -> (r: &'static str)
        ensures
            r@ == self.wire_str(),
    {
        match self {
            SwitchOption::Readable => "readable",
        }
    }

    /// Parse a wire name.
    pub fn from_str(s: &str) -> (r: Option<SwitchOption>)
        ensures
            r == SwitchOption::spec_from_wire(s@),
    {
        let o = s.to_owned();
        if o == String::from_str("readable") {
            Some(SwitchOption::Readable)
        } else {
            None
        }
    }
}

/// Switch entity attributes.
#[derive(Debug, Clone, PartialEq, Eq, Structural)]
pub enum SwitchAttribute {
    State,
}

impl SwitchAttribute {
    /// The wire name of the variant.
    pub open spec fn wire_str(self) -> Seq<char> {
        match self {
            SwitchAttribute::State => "state"@,
        }
    }

    /// The variant a wire name denotes, if any.
    pub open spec fn spec_from_wire(s: Seq<char>) -> Option<SwitchAttribute> {
        if s == "state"@ {
            Some(SwitchAttribute::State)
        } else {
            None
        }
    }

    /// The wire name of the variant.
    pub fn as_str(&self) -> (r: &'static str)
        ensures
            r@ == self.wire_str(),
    {
        match self {
            SwitchAttribute::State => "state",
        }
    }

    /// Parse a wire name.
    pub fn from_str(s: &str) -> (r: Option<SwitchAttribute>)
        ensures
            r == SwitchAttribute::spec_from_wire(s@),
    {
        let o = s.to_owned();
        if o == String::from_str("state") {
            Some(SwitchAttribute::State)
        } else {
            None
        }
    }
}

/// Climate entity features.
#[derive(Debug, Clone, PartialEq, Eq, Structural)]
pub enum ClimateFeature {
    OnOff,
    Heat,
    Cool,
    CurrentTemperature,
    TargetTemperature,
}

impl ClimateFeature {
    /// The wire name of the variant.
    pub open spec fn wire_str(self) -> Seq<char> {
        match self {
            ClimateFeature::OnOff => "on_off"@,
            ClimateFeature::Heat => "heat"@,
            ClimateFeature::Cool => "cool"@,
            ClimateFeature::CurrentTemperature => "current_temperature"@,
            ClimateFeature::TargetTemperature => "target_temperature"@,
        }
    }

    /// The variant a wire name denotes, if any.
    pub open spec fn spec_from_wire(s: Seq<char>) -> Option<ClimateFeature> {
        if s == "on_off"@ {
            Some(ClimateFeature::OnOff)
        } else if s == "heat"@ {
            Some(ClimateFeature::Heat)
        } else if s == "cool"@ {
            Some(ClimateFeature::Cool)
        } else if s == "current_temperature"@ {
            Some(ClimateFeature::CurrentTemperature)
        } else if s == "target_temperature"@ {
            Some(ClimateFeature::TargetTemperature)
        } else {
            None
        }
    }

    /// The wire name of the variant.
    pub fn as_str(&self) -> (r: &'static str)
        ensures
            r@ == self.wire_str(),
    {
        match self {
            ClimateFeature::OnOff => "on_off",
            ClimateFeature::Heat => "heat",
            ClimateFeature::Cool => "cool",
            ClimateFeature::CurrentTemperature => "current_temperature",
            ClimateFeature::TargetTemperature => "target_temperature",
        }
    }

    /// Parse a wire name.
    pub fn from_str(s: &str) -> (r: Option<ClimateFeature>)
        ensures
            r == ClimateFeature::spec_from_wire(s@),
    {
        let o = s.to_owned();
        if o == String::from_str("on_off") {
            Some(ClimateFeature::OnOff)
        } else if o == String::from_str("heat") {
            Some(ClimateFeature::Heat)
        } else if o == String::from_str("cool") {
            Some(ClimateFeature::Cool)
        } else if o == String::from_str("current_temperature") {
            Some(ClimateFeature::CurrentTemperature)
        } else if o == String::from_str("target_temperature") {
            Some(ClimateFeature::TargetTemperature)
        } else {
            None
        }
    }
}

/// Climate entity options.
#[derive(Debug, Clone, PartialEq, Eq, Structural)]
pub enum ClimateOption {
    TemperatureUnit,
    TargetTemperatureStep,
    MaxTemperature,
    MinTemperature,
}

impl ClimateOption {
    /// The wire name of the variant.
    pub open spec fn wire_str(self) -> Seq<char> {
        match self {
            ClimateOption::TemperatureUnit => "temperature_unit"@,
            ClimateOption::TargetTemperatureStep => "target_temperature_step"@,
            ClimateOption::MaxTemperature => "max_temperature"@,
            ClimateOption::MinTemperature => "min_temperature"@,
        }
    }

    /// The variant a wire name denotes, if any.
    pub open spec fn spec_from_wire(s: Seq<char>) -> Option<ClimateOption> {
        if s == "temperature_unit"@ {
            Some(ClimateOption::TemperatureUnit)
        } else if s == "target_temperature_step"@ {
            Some(ClimateOption::TargetTemperatureStep)
        } else if s == "max_temperature"@ {
            Some(ClimateOption::MaxTemperature)
        } else if s == "min_temperature"@ {
            Some(ClimateOption::MinTemperature)
        } else {
            None
        }
    }

    /// The wire name of the variant.
    pub fn as_str(&self) -> (r: &'static str)
        ensures
            r@ == self.wire_str(),
    {
        match self {
            ClimateOption::TemperatureUnit => "temperature_unit",
            ClimateOption::TargetTemperatureStep => "target_temperature_step",
            ClimateOption::MaxTemperature => "max_temperature",
            ClimateOption::MinTemperature => "min_temperature",
        }
    }

    /// Parse a wire name.
    pub fn from_str(s: &str) -> (r: Option<ClimateOption>)
        ensures
            r == ClimateOption::spec_from_wire(s@),
    {
        let o = s.to_owned();
        if o == String::from_str("temperature_unit") {
            Some(ClimateOption::TemperatureUnit)
        } else if o == String::from_str("target_temperature_step") {
            Some(ClimateOption::TargetTemperatureStep)
        } else if o == String::from_str("max_temperature") {
            Some(ClimateOption::MaxTemperature)
        } else if o == String::from_str("min_temperature") {
            Some(ClimateOption::MinTemperature)
        } else {
            None
        }
    }
}

/// Climate entity commands.
#[derive(Debug, Clone, PartialEq, Eq, Structural)]
pub enum ClimateCommand {
    On,
    Off,
    HvacMode,
    TargetTemperature,
}

impl ClimateCommand {
    /// The wire name of the variant.
    pub open spec fn wire_str(self) -> Seq<char> {
        match self {
            ClimateCommand::On => "on"@,
            ClimateCommand::Off => "off"@,
            ClimateCommand::HvacMode => "hvac_mode"@,
            ClimateCommand::TargetTemperature => "target_temperature"@,
        }
    }

    /// The variant a wire name denotes, if any.
    pub open spec fn spec_from_wire(s: Seq<char>) -> Option<ClimateCommand> {
        if s == "on"@ {
            Some(ClimateCommand::On)
        } else if s == "off"@ {
            Some(ClimateCommand::Off)
        } else if s == "hvac_mode"@ {
            Some(ClimateCommand::HvacMode)
        } else if s == "target_temperature"@ {
            Some(ClimateCommand::TargetTemperature)
        } else {
            None
        }
    }

    /// The wire name of the variant.
    pub fn as_str(&self) -> (r: &'static str)
        ensures
            r@ == self.wire_str(),
    {
        match self {
            ClimateCommand::On => "on",
            ClimateCommand::Off => "off",
            ClimateCommand::HvacMode => "hvac_mode",
            ClimateCommand::TargetTemperature => "target_temperature",
        }
    }

    /// Parse a wire name.
    pub fn from_str(s: &str) -> (r: Option<ClimateCommand>)
        ensures
            r == ClimateCommand::spec_from_wire(s@),
    {
        let o = s.to_owned();
        if o == String::from_str("on") {
            Some(ClimateCommand::On)
        } else if o == String::from_str("off") {
            Some(ClimateCommand::Off)
        } else if o == String::from_str("hvac_mode") {
            Some(ClimateCommand::HvacMode)
        } else if o == String::from_str("target_temperature") {
            Some(ClimateCommand::TargetTemperature)
        } else {
            None
        }
    }
}

/// Climate entity attributes.
#[derive(Debug, Clone, PartialEq, Eq, Structural)]
pub enum ClimateAttribute {
    State,
    CurrentTemperature,
    TargetTemperature,
    TargetTemperatureHigh,
    TargetTemperatureLow,
    FanMode,
}

impl ClimateAttribute {
    /// The wire name of the variant.
    pub open spec fn wire_str(self) -> Seq<char> {
        match self {
            ClimateAttribute::State => "state"@,
            ClimateAttribute::CurrentTemperature => "current_temperature"@,
            ClimateAttribute::TargetTemperature => "target_temperature"@,
            ClimateAttribute::TargetTemperatureHigh => "target_temperature_high"@,
            ClimateAttribute::TargetTemperatureLow => "target_temperature_low"@,
            ClimateAttribute::FanMode => "fan_mode"@,
        }
    }

    /// The variant a wire name denotes, if any.
    pub open spec fn spec_from_wire(s: Seq<char>) -> Option<ClimateAttribute> {
        if s == "state"@ {
            Some(ClimateAttribute::State)
        } else if s == "current_temperature"@ {
            Some(ClimateAttribute::CurrentTemperature)
        } else if s == "target_temperature"@ {
            Some(ClimateAttribute::TargetTemperature)
        } else if s == "target_temperature_high"@ {
            Some(ClimateAttribute::TargetTemperatureHigh)
        } else if s == "target_temperature_low"@ {
            Some(ClimateAttribute::TargetTemperatureLow)
        } else if s == "fan_mode"@ {
            Some(ClimateAttribute::FanMode)
        } else {
            None
        }
    }

    /// The wire name of the variant.
    pub fn as_str(&self) -> (r: &'static str)
        ensures
            r@ == self.wire_str(),
    {
        match self {
            ClimateAttribute::State => "state",
            ClimateAttribute::CurrentTemperature => "current_temperature",
            ClimateAttribute::TargetTemperature => "target_temperature",
            ClimateAttribute::TargetTemperatureHigh => "target_temperature_high",
            ClimateAttribute::TargetTemperatureLow => "target_temperature_low",
            ClimateAttribute::FanMode => "fan_mode",
        }
    }

    /// Parse a wire name.
    pub fn from_str(s: &str) -> (r: Option<ClimateAttribute>)
        ensures
            r == ClimateAttribute::spec_from_wire(s@),
    {
        let o = s.to_owned();
        if o == String::from_str("state") {
            Some(ClimateAttribute::State)
        } else if o == String::from_str("current_temperature") {
            Some(ClimateAttribute::CurrentTemperature)
        } else if o == String::from_str("target_temperature") {
            Some(ClimateAttribute::TargetTemperature)
        } else if o == String::from_str("target_temperature_high") {
            Some(ClimateAttribute::TargetTemperatureHigh)
        } else if o == String::from_str("target_temperature_low") {
            Some(ClimateAttribute::TargetTemperatureLow)
        } else if o == String::from_str("fan_mode") {
            Some(ClimateAttribute::FanMode)
        } else {
            None
        }
    }
}

/// Cover entity features.
#[derive(Debug, Clone, PartialEq, Eq, Structural)]
pub enum CoverFeature {
    Open,
    Close,
    Stop,
    Position,
}

impl CoverFeature {
    /// The wire name of the variant.
    pub open spec fn wire_str(self) -> Seq<char> {
        match self {
            CoverFeature::Open => "open"@,
            CoverFeature::Close => "close"@,
            CoverFeature::Stop => "stop"@,
            CoverFeature::Position => "position"@,
        }
    }

    /// The variant a wire name denotes, if any.
    pub open spec fn spec_from_wire(s: Seq<char>) -> Option<CoverFeature> {
        if s == "open"@ {
            Some(CoverFeature::Open)
        } else if s == "close"@ {
            Some(CoverFeature::Close)
        } else if s == "stop"@ {
            Some(CoverFeature::Stop)
        } else if s == "position"@ {
            Some(CoverFeature::Position)
        } else {
            None
        }
    }

    /// The wire name of the variant.
    pub fn as_str(&self) -> (r: &'static str)
        ensures
            r@ == self.wire_str(),
    {
        match self {
            CoverFeature::Open => "open",
            CoverFeature::Close => "close",
            CoverFeature::Stop => "stop",
            CoverFeature::Position => "position",
        }
    }

    /// Parse a wire name.
    pub fn from_str(s: &str) -> (r: Option<CoverFeature>)
        ensures
            r == CoverFeature::spec_from_wire(s@),
    {
        let o = s.to_owned();
        if o == String::from_str("open") {
            Some(CoverFeature::Open)
        } else if o == String::from_str("close") {
            Some(CoverFeature::Close)
        } else if o == String::from_str("stop") {
            Some(CoverFeature::Stop)
        } else if o == String::from_str("position") {
            Some(CoverFeature::Position)
        } else {
            None
        }
    }
}

/// Cover entity commands.
#[derive(Debug, Clone, PartialEq, Eq, Structural)]
pub enum CoverCommand {
    Open,
    Close,
    Stop,
    Position,
}

impl CoverCommand {
    /// The wire name of the variant.
    pub open spec fn wire_str(self) -> Seq<char> {
        match self {
            CoverCommand::Open => "open"@,
            CoverCommand::Close => "close"@,
            CoverCommand::Stop => "stop"@,
            CoverCommand::Position => "position"@,
        }
    }

    /// The variant a wire name denotes, if any.
    pub open spec fn spec_from_wire(s: Seq<char>) -> Option<CoverCommand> {
        if s == "open"@ {
            Some(CoverCommand::Open)
        } else if s == "close"@ {
            Some(CoverCommand::Close)
        } else if s == "stop"@ {
            Some(CoverCommand::Stop)
        } else if s == "position"@ {
            Some(CoverCommand::Position)
        } else {
            None
        }
    }

    /// The wire name of the variant.
    pub fn as_str(&self) -> (r: &'static str)
        ensures
            r@ == self.wire_str(),
    {
        match self {
            CoverCommand::Open => "open",
            CoverCommand::Close => "close",
            CoverCommand::Stop => "stop",
            CoverCommand::Position => "position",
        }
    }

    /// Parse a wire name.
    pub fn from_str(s: &str) -> (r: Option<CoverCommand>)
        ensures
            r == CoverCommand::spec_from_wire(s@),
    {
        let o = s.to_owned();
        if o == String::from_str("open") {
            Some(CoverCommand::Open)
        } else if o == String::from_str("close") {
            Some(CoverCommand::Close)
        } else if o == String::from_str("stop") {
            Some(CoverCommand::Stop)
        } else if o == String::from_str("position") {
            Some(CoverCommand::Position)
        } else {
            None
        }
    }
}

/// Cover entity device classes.
#[derive(Debug, Clone, PartialEq, Eq, Structural)]
pub enum CoverDeviceClass {
    Blind,
    Curtain,
    Garage,
    Shade,
}

impl CoverDeviceClass {
    /// The wire name of the variant.
    pub open spec fn wire_str(self) -> Seq<char> {
        match self {
            CoverDeviceClass::Blind => "blind"@,
            CoverDeviceClass::Curtain => "curtain"@,
            CoverDeviceClass::Garage => "garage"@,
            CoverDeviceClass::Shade => "shade"@,
        }
    }

    /// The variant a wire name denotes, if any.
    pub open spec fn spec_from_wire(s: Seq<char>) -> Option<CoverDeviceClass> {
        if s == "blind"@ {
            Some(CoverDeviceClass::Blind)
        } else if s == "curtain"@ {
            Some(CoverDeviceClass::Curtain)
        } else if s == "garage"@ {
            Some(CoverDeviceClass::Garage)
        } else if s == "shade"@ {
            Some(CoverDeviceClass::Shade)
        } else {
            None
        }
    }

    /// The wire name of the variant.
    pub fn as_str(&self) -> (r: &'static str)
        ensures
            r@ == self.wire_str(),
    {
        match self {
            CoverDeviceClass::Blind => "blind",
            CoverDeviceClass::Curtain => "curtain",
            CoverDeviceClass::Garage => "garage",
            CoverDeviceClass::Shade => "shade",
        }
    }

    /// Parse a wire name.
    pub fn from_str(s: &str) -> (r: Option<CoverDeviceClass>)
        ensures
            r == CoverDeviceClass::spec_from_wire(s@),
    {
        let o = s.to_owned();
        if o == String::from_str("blind") {
            Some(CoverDeviceClass::Blind)
        } else if o == String::from_str("curtain") {
            Some(CoverDeviceClass::Curtain)
        } else if o == String::from_str("garage") {
            Some(CoverDeviceClass::Garage)
        } else if o == String::from_str("shade") {
            Some(CoverDeviceClass::Shade)
        } else {
            None
        }
    }
}

/// Cover entity attributes.
#[derive(Debug, Clone, PartialEq, Eq, Structural)]
pub enum CoverAttribute {
    State,
    Position,
    TiltPosition,
}

impl CoverAttribute {
    /// The wire name of the variant.
    pub open spec fn wire_str(self) -> Seq<char> {
        match self {
            CoverAttribute::State => "state"@,
            CoverAttribute::Position => "position"@,
            CoverAttribute::TiltPosition => "tilt_position"@,
        }
    }

    /// The variant a wire name denotes, if any.
    pub open spec fn spec_from_wire(s: Seq<char>) -> Option<CoverAttribute> {
        if s == "state"@ {
            Some(CoverAttribute::State)
        } else if s == "position"@ {
            Some(CoverAttribute::Position)
        } else if s == "tilt_position"@ {
            Some(CoverAttribute::TiltPosition)
        } else {
            None
        }
    }

    /// The wire name of the variant.
    pub fn as_str(&self) -> (r: &'static str)
        ensures
            r@ == self.wire_str(),
    {
        match self {
            CoverAttribute::State => "state",
            CoverAttribute::Position => "position",
            CoverAttribute::TiltPosition => "tilt_position",
        }
    }

    /// Parse a wire name.
    pub fn from_str(s: &str) -> (r: Option<CoverAttribute>)
        ensures
            r == CoverAttribute::spec_from_wire(s@),
    {
        let o = s.to_owned();
        if o == String::from_str("state") {
            Some(CoverAttribute::State)
        } else if o == String::from_str("position") {
            Some(CoverAttribute::Position)
        } else if o == String::from_str("tilt_position") {
            Some(CoverAttribute::TiltPosition)
        } else {
            None
        }
    }
}

/// Light entity features.
#[derive(Debug, Clone, PartialEq, Eq, Structural)]
pub enum LightFeature {
    OnOff,
    Toggle,
    Dim,
    Color,
    ColorTemperature,
}

impl LightFeature {
    /// The wire name of the variant.
    pub open spec fn wire_str(self) -> Seq<char> {
        match self {
            LightFeature::OnOff => "on_off"@,
            LightFeature::Toggle => "toggle"@,
            LightFeature::Dim => "dim"@,
            LightFeature::Color => "color"@,
            LightFeature::ColorTemperature => "color_temperature"@,
        }
    }

    /// The variant a wire name denotes, if any.
    pub open spec fn spec_from_wire(s: Seq<char>) -> Option<LightFeature> {
        if s == "on_off"@ {
            Some(LightFeature::OnOff)
        } else if s == "toggle"@ {
            Some(LightFeature::Toggle)
        } else if s == "dim"@ {
            Some(LightFeature::Dim)
        } else if s == "color"@ {
            Some(LightFeature::Color)
        } else if s == "color_temperature"@ {
            Some(LightFeature::ColorTemperature)
        } else {
            None
        }
    }

    /// The wire name of the variant.
    pub fn as_str(&self) -> (r: &'static str)
        ensures
            r@ == self.wire_str(),
    {
        match self {
            LightFeature::OnOff => "on_off",
            LightFeature::Toggle => "toggle",
            LightFeature::Dim => "dim",
            LightFeature::Color => "color",
            LightFeature::ColorTemperature => "color_temperature",
        }
    }

    /// Parse a wire name.
    pub fn from_str(s: &str) -> (r: Option<LightFeature>)
        ensures
            r == LightFeature::spec_from_wire(s@),
    {
        let o = s.to_owned();
        if o == String::from_str("on_off") {
            Some(LightFeature::OnOff)
        } else if o == String::from_str("toggle") {
            Some(LightFeature::Toggle)
        } else if o == String::from_str("dim") {
            Some(LightFeature::Dim)
        } else if o == String::from_str("color") {
            Some(LightFeature::Color)
        } else if o == String::from_str("color_temperature") {
            Some(LightFeature::ColorTemperature)
        } else {
            None
        }
    }
}

/// Light entity commands.
#[derive(Debug, Clone, PartialEq, Eq, Structural)]
pub enum LightCommand {
    On,
    Off,
    Toggle,
}

impl LightCommand {
    /// The wire name of the variant.
    pub open spec fn wire_str(self) -> Seq<char> {
        match self {
            LightCommand::On => "on"@,
            LightCommand::Off => "off"@,
            LightCommand::Toggle => "toggle"@,
        }
    }

    /// The variant a wire name denotes, if any.
    pub open spec fn spec_from_wire(s: Seq<char>) -> Option<LightCommand> {
        if s == "on"@ {
            Some(LightCommand::On)
        } else if s == "off"@ {
            Some(LightCommand::Off)
        } else if s == "toggle"@ {
            Some(LightCommand::Toggle)
        } else {
            None
        }
    }

    /// The wire name of the variant.
    pub fn as_str(&self) -> (r: &'static str)
        ensures
            r@ == self.wire_str(),
    {
        match self {
            LightCommand::On => "on",
            LightCommand::Off => "off",
            LightCommand::Toggle => "toggle",
        }
    }

    /// Parse a wire name.
    pub fn from_str(s: &str) -> (r: Option<LightCommand>)
        ensures
            r == LightCommand::spec_from_wire(s@),
    {
        let o = s.to_owned();
        if o == String::from_str("on") {
            Some(LightCommand::On)
        } else if o == String::from_str("off") {
            Some(LightCommand::Off)
        } else if o == String::from_str("toggle") {
            Some(LightCommand::Toggle)
        } else {
            None
        }
    }
}

/// Light entity options.
#[derive(Debug, Clone, PartialEq, Eq, Structural)]
pub enum LightOption {
    ColorTemperatureSteps,
}

impl LightOption {
    /// The wire name of the variant.
    pub open spec fn wire_str(self) -> Seq<char> {
        match self {
            LightOption::ColorTemperatureSteps => "color_temperature_steps"@,
        }
    }

    /// The variant a wire name denotes, if any.
    pub open spec fn spec_from_wire(s: Seq<char>) -> Option<LightOption> {
        if s == "color_temperature_steps"@ {
            Some(LightOption::ColorTemperatureSteps)
        } else {
            None
        }
    }

    /// The wire name of the variant.
    pub fn as_str(&self) -> (r: &'static str)
        ensures
            r@ == self.wire_str(),
    {
        match self {
            LightOption::ColorTemperatureSteps => "color_temperature_steps",
        }
    }

    /// Parse a wire name.
    pub fn from_str(s: &str) -> (r: Option<LightOption>)
        ensures
            r == LightOption::spec_from_wire(s@),
    {
        let o = s.to_owned();
        if o == String::from_str("color_temperature_steps") {
            Some(LightOption::ColorTemperatureSteps)
        } else {
            None
        }
    }
}

/// Light entity attributes.
#[derive(Debug, Clone, PartialEq, Eq, Structural)]
pub enum LightAttribute {
    State,
    Hue,
    Saturation,
    Brightness,
    ColorTemperature,
}

impl LightAttribute {
    /// The wire name of the variant.
    pub open spec fn wire_str(self) -> Seq<char> {
        match self {
            LightAttribute::State => "state"@,
            LightAttribute::Hue => "hue"@,
            LightAttribute::Saturation => "saturation"@,
            LightAttribute::Brightness => "brightness"@,
            LightAttribute::ColorTemperature => "color_temperature"@,
        }
    }

    /// The variant a wire name denotes, if any.
    pub open spec fn spec_from_wire(s: Seq<char>) -> Option<LightAttribute> {
        if s == "state"@ {
            Some(LightAttribute::State)
        } else if s == "hue"@ {
            Some(LightAttribute::Hue)
        } else if s == "saturation"@ {
            Some(LightAttribute::Saturation)
        } else if s == "brightness"@ {
            Some(LightAttribute::Brightness)
        } else if s == "color_temperature"@ {
            Some(LightAttribute::ColorTemperature)
        } else {
            None
        }
    }

    /// The wire name of the variant.
    pub fn as_str(&self) -> (r: &'static str)
        ensures
            r@ == self.wire_str(),
    {
        match self {
            LightAttribute::State => "state",
            LightAttribute::Hue => "hue",
            LightAttribute::Saturation => "saturation",
            LightAttribute::Brightness => "brightness",
            LightAttribute::ColorTemperature => "color_temperature",
        }
    }

    /// Parse a wire name.
    pub fn from_str(s: &str) -> (r: Option<LightAttribute>)
        ensures
            r == LightAttribute::spec_from_wire(s@),
    {
        let o = s.to_owned();
        if o == String::from_str("state") {
            Some(LightAttribute::State)
        } else if o == String::from_str("hue") {
            Some(LightAttribute::Hue)
        } else if o == String::from_str("saturation") {
            Some(LightAttribute::Saturation)
        } else if o == String::from_str("brightness") {
            Some(LightAttribute::Brightness)
        } else if o == String::from_str("color_temperature") {
            Some(LightAttribute::ColorTemperature)
        } else {
            None
        }
    }
}

/// Media player entity features.
#[derive(Debug, Clone, PartialEq, Eq, Structural)]
pub enum MediaPlayerFeature {
    OnOff,
    Toggle,
    Volume,
    VolumeUpDown,
    MuteToggle,
    Mute,
    Unmute,
    PlayPause,
    Stop,
    Next,
    Previous,
    FastForward,
    Rewind,
    Repeat,
    Shuffle,
    Seek,
    MediaDuration,
    MediaPosition,
    MediaTitle,
    MediaArtist,
    MediaAlbum,
    MediaImageUrl,
    MediaType,
    /// Directional pad navigation. Serializes as the literal `dpad`,
    /// an explicit override of the default casing rule.
    DPad,
    Numpad,
    Home,
    Menu,
    ContextMenu,
    Guide,
    Info,
    ColorButtons,
    ChannelSwitcher,
    SelectSource,
    SelectSoundMode,
    Eject,
    OpenClose,
    AudioTrack,
    Subtitle,
    Record,
    Settings,
}

impl MediaPlayerFeature {
    /// The wire name of the variant.
    pub open spec fn wire_str(self) -> Seq<char> {
        match self {
            MediaPlayerFeature::OnOff => "on_off"@,
            MediaPlayerFeature::Toggle => "toggle"@,
            MediaPlayerFeature::Volume => "volume"@,
            MediaPlayerFeature::VolumeUpDown => "volume_up_down"@,
            MediaPlayerFeature::MuteToggle => "mute_toggle"@,
            MediaPlayerFeature::Mute => "mute"@,
            MediaPlayerFeature::Unmute => "unmute"@,
            MediaPlayerFeature::PlayPause => "play_pause"@,
            MediaPlayerFeature::Stop => "stop"@,
            MediaPlayerFeature::Next => "next"@,
            MediaPlayerFeature::Previous => "previous"@,
            MediaPlayerFeature::FastForward => "fast_forward"@,
            MediaPlayerFeature::Rewind => "rewind"@,
            MediaPlayerFeature::Repeat => "repeat"@,
            MediaPlayerFeature::Shuffle => "shuffle"@,
            MediaPlayerFeature::Seek => "seek"@,
            MediaPlayerFeature::MediaDuration => "media_duration"@,
            MediaPlayerFeature::MediaPosition => "media_position"@,
            MediaPlayerFeature::MediaTitle => "media_title"@,
            MediaPlayerFeature::MediaArtist => "media_artist"@,
            MediaPlayerFeature::MediaAlbum => "media_album"@,
            MediaPlayerFeature::MediaImageUrl => "media_image_url"@,
            MediaPlayerFeature::MediaType => "media_type"@,
            MediaPlayerFeature::DPad => "dpad"@,
            MediaPlayerFeature::Numpad => "numpad"@,
            MediaPlayerFeature::Home => "home"@,
            MediaPlayerFeature::Menu => "menu"@,
            MediaPlayerFeature::ContextMenu => "context_menu"@,
            MediaPlayerFeature::Guide => "guide"@,
            MediaPlayerFeature::Info => "info"@,
            MediaPlayerFeature::ColorButtons => "color_buttons"@,
            MediaPlayerFeature::ChannelSwitcher => "channel_switcher"@,
            MediaPlayerFeature::SelectSource => "select_source"@,
            MediaPlayerFeature::SelectSoundMode => "select_sound_mode"@,
            MediaPlayerFeature::Eject => "eject"@,
            MediaPlayerFeature::OpenClose => "open_close"@,
            MediaPlayerFeature::AudioTrack => "audio_track"@,
            MediaPlayerFeature::Subtitle => "subtitle"@,
            MediaPlayerFeature::Record => "record"@,
            MediaPlayerFeature::Settings => "settings"@,
        }
    }

    /// The variant a wire name denotes, if any.
    pub open spec fn spec_from_wire(s: Seq<char>) -> Option<MediaPlayerFeature> {
        if s == "dpad"@ {
            Some(MediaPlayerFeature::DPad)
        } else if s == "on_off"@ {
            Some(MediaPlayerFeature::OnOff)
        } else if s == "toggle"@ {
            Some(MediaPlayerFeature::Toggle)
        } else if s == "volume"@ {
            Some(MediaPlayerFeature::Volume)
        } else if s == "volume_up_down"@ {
            Some(MediaPlayerFeature::VolumeUpDown)
        } else if s == "mute_toggle"@ {
            Some(MediaPlayerFeature::MuteToggle)
        } else if s == "mute"@ {
            Some(MediaPlayerFeature::Mute)
        } else if s == "unmute"@ {
            Some(MediaPlayerFeature::Unmute)
        } else if s == "play_pause"@ {
            Some(MediaPlayerFeature::PlayPause)
        } else if s == "stop"@ {
            Some(MediaPlayerFeature::Stop)
        } else if s == "next"@ {
            Some(MediaPlayerFeature::Next)
        } else if s == "previous"@ {
            Some(MediaPlayerFeature::Previous)
        } else if s == "fast_forward"@ {
            Some(MediaPlayerFeature::FastForward)
        } else if s == "rewind"@ {
            Some(MediaPlayerFeature::Rewind)
        } else if s == "repeat"@ {
            Some(MediaPlayerFeature::Repeat)
        } else if s == "shuffle"@ {
            Some(MediaPlayerFeature::Shuffle)
        } else if s == "seek"@ {
            Some(MediaPlayerFeature::Seek)
        } else if s == "media_duration"@ {
            Some(MediaPlayerFeature::MediaDuration)
        } else if s == "media_position"@ {
            Some(MediaPlayerFeature::MediaPosition)
        } else if s == "media_title"@ {
            Some(MediaPlayerFeature::MediaTitle)
        } else if s == "media_artist"@ {
            Some(MediaPlayerFeature::MediaArtist)
        } else if s == "media_album"@ {
            Some(MediaPlayerFeature::MediaAlbum)
        } else if s == "media_image_url"@ {
            Some(MediaPlayerFeature::MediaImageUrl)
        } else if s == "media_type"@ {
            Some(MediaPlayerFeature::MediaType)
        } else if s == "numpad"@ {
            Some(MediaPlayerFeature::Numpad)
        } else if s == "home"@ {
            Some(MediaPlayerFeature::Home)
        } else if s == "menu"@ {
            Some(MediaPlayerFeature::Menu)
        } else if s == "context_menu"@ {
            Some(MediaPlayerFeature::ContextMenu)
        } else if s == "guide"@ {
            Some(MediaPlayerFeature::Guide)
        } else if s == "info"@ {
            Some(MediaPlayerFeature::Info)
        } else if s == "color_buttons"@ {
            Some(MediaPlayerFeature::ColorButtons)
        } else if s == "channel_switcher"@ {
            Some(MediaPlayerFeature::ChannelSwitcher)
        } else if s == "select_source"@ {
            Some(MediaPlayerFeature::SelectSource)
        } else if s == "select_sound_mode"@ {
            Some(MediaPlayerFeature::SelectSoundMode)
        } else if s == "eject"@ {
            Some(MediaPlayerFeature::Eject)
        } else if s == "open_close"@ {
            Some(MediaPlayerFeature::OpenClose)
        } else if s == "audio_track"@ {
            Some(MediaPlayerFeature::AudioTrack)
        } else if s == "subtitle"@ {
            Some(MediaPlayerFeature::Subtitle)
        } else if s == "record"@ {
            Some(MediaPlayerFeature::Record)
        } else if s == "settings"@ {
            Some(MediaPlayerFeature::Settings)
        } else {
            None
        }
    }

    /// The wire name of the variant.
    pub fn as_str(&self) -> (r: &'static str)
        ensures
            r@ == self.wire_str(),
    {
        match self {
            MediaPlayerFeature::OnOff => "on_off",
            MediaPlayerFeature::Toggle => "toggle",
            MediaPlayerFeature::Volume => "volume",
            MediaPlayerFeature::VolumeUpDown => "volume_up_down",
            MediaPlayerFeature::MuteToggle => "mute_toggle",
            MediaPlayerFeature::Mute => "mute",
            MediaPlayerFeature::Unmute => "unmute",
            MediaPlayerFeature::PlayPause => "play_pause",
            MediaPlayerFeature::Stop => "stop",
            MediaPlayerFeature::Next => "next",
            MediaPlayerFeature::Previous => "previous",
            MediaPlayerFeature::FastForward => "fast_forward",
            MediaPlayerFeature::Rewind => "rewind",
            MediaPlayerFeature::Repeat => "repeat",
            MediaPlayerFeature::Shuffle => "shuffle",
            MediaPlayerFeature::Seek => "seek",
            MediaPlayerFeature::MediaDuration => "media_duration",
            MediaPlayerFeature::MediaPosition => "media_position",
            MediaPlayerFeature::MediaTitle => "media_title",
            MediaPlayerFeature::MediaArtist => "media_artist",
            MediaPlayerFeature::MediaAlbum => "media_album",
            MediaPlayerFeature::MediaImageUrl => "media_image_url",
            MediaPlayerFeature::MediaType => "media_type",
            MediaPlayerFeature::DPad => "dpad",
            MediaPlayerFeature::Numpad => "numpad",
            MediaPlayerFeature::Home => "home",
            MediaPlayerFeature::Menu => "menu",
            MediaPlayerFeature::ContextMenu => "context_menu",
            MediaPlayerFeature::Guide => "guide",
            MediaPlayerFeature::Info => "info",
            MediaPlayerFeature::ColorButtons => "color_buttons",
            MediaPlayerFeature::ChannelSwitcher => "channel_switcher",
            MediaPlayerFeature::SelectSource => "select_source",
            MediaPlayerFeature::SelectSoundMode => "select_sound_mode",
            MediaPlayerFeature::Eject => "eject",
            MediaPlayerFeature::OpenClose => "open_close",
            MediaPlayerFeature::AudioTrack => "audio_track",
            MediaPlayerFeature::Subtitle => "subtitle",
            MediaPlayerFeature::Record => "record",
            MediaPlayerFeature::Settings => "settings",
        }
    }

    /// Parse a wire name.
    pub fn from_str(s: &str) -> (r: Option<MediaPlayerFeature>)
        ensures
            r == MediaPlayerFeature::spec_from_wire(s@),
    {
        let o = s.to_owned();
        if o == String::from_str("dpad") {
            Some(MediaPlayerFeature::DPad)
        } else if o == String::from_str("on_off") {
            Some(MediaPlayerFeature::OnOff)
        } else if o == String::from_str("toggle") {
            Some(MediaPlayerFeature::Toggle)
        } else if o == String::from_str("volume") {
            Some(MediaPlayerFeature::Volume)
        } else if o == String::from_str("volume_up_down") {
            Some(MediaPlayerFeature::VolumeUpDown)
        } else if o == String::from_str("mute_toggle") {
            Some(MediaPlayerFeature::MuteToggle)
        } else if o == String::from_str("mute") {
            Some(MediaPlayerFeature::Mute)
        } else if o == String::from_str("unmute") {
            Some(MediaPlayerFeature::Unmute)
        } else if o == String::from_str("play_pause") {
            Some(MediaPlayerFeature::PlayPause)
        } else if o == String::from_str("stop") {
            Some(MediaPlayerFeature::Stop)
        } else if o == String::from_str("next") {
            Some(MediaPlayerFeature::Next)
        } else if o == String::from_str("previous") {
            Some(MediaPlayerFeature::Previous)
        } else if o == String::from_str("fast_forward") {
            Some(MediaPlayerFeature::FastForward)
        } else if o == String::from_str("rewind") {
            Some(MediaPlayerFeature::Rewind)
        } else if o == String::from_str("repeat") {
            Some(MediaPlayerFeature::Repeat)
        } else if o == String::from_str("shuffle") {
            Some(MediaPlayerFeature::Shuffle)
        } else if o == String::from_str("seek") {
            Some(MediaPlayerFeature::Seek)
        } else if o == String::from_str("media_duration") {
            Some(MediaPlayerFeature::MediaDuration)
        } else if o == String::from_str("media_position") {
            Some(MediaPlayerFeature::MediaPosition)
        } else if o == String::from_str("media_title") {
            Some(MediaPlayerFeature::MediaTitle)
        } else if o == String::from_str("media_artist") {
            Some(MediaPlayerFeature::MediaArtist)
        } else if o == String::from_str("media_album") {
            Some(MediaPlayerFeature::MediaAlbum)
        } else if o == String::from_str("media_image_url") {
            Some(MediaPlayerFeature::MediaImageUrl)
        } else if o == String::from_str("media_type") {
            Some(MediaPlayerFeature::MediaType)
        } else if o == String::from_str("numpad") {
            Some(MediaPlayerFeature::Numpad)
        } else if o == String::from_str("home") {
            Some(MediaPlayerFeature::Home)
        } else if o == String::from_str("menu") {
            Some(MediaPlayerFeature::Menu)
        } else if o == String::from_str("context_menu") {
            Some(MediaPlayerFeature::ContextMenu)
        } else if o == String::from_str("guide") {
            Some(MediaPlayerFeature::Guide)
        } else if o == String::from_str("info") {
            Some(MediaPlayerFeature::Info)
        } else if o == String::from_str("color_buttons") {
            Some(MediaPlayerFeature::ColorButtons)
        } else if o == String::from_str("channel_switcher") {
            Some(MediaPlayerFeature::ChannelSwitcher)
        } else if o == String::from_str("select_source") {
            Some(MediaPlayerFeature::SelectSource)
        } else if o == String::from_str("select_sound_mode") {
            Some(MediaPlayerFeature::SelectSoundMode)
        } else if o == String::from_str("eject") {
            Some(MediaPlayerFeature::Eject)
        } else if o == String::from_str("open_close") {
            Some(MediaPlayerFeature::OpenClose)
        } else if o == String::from_str("audio_track") {
            Some(MediaPlayerFeature::AudioTrack)
        } else if o == String::from_str("subtitle") {
            Some(MediaPlayerFeature::Subtitle)
        } else if o == String::from_str("record") {
            Some(MediaPlayerFeature::Record)
        } else if o == String::from_str("settings") {
            Some(MediaPlayerFeature::Settings)
        } else {
            None
        }
    }
}

/// Media player entity commands.
#[derive(Debug, Clone, PartialEq, Eq, Structural)]
#[allow(non_camel_case_types)]
pub enum MediaPlayerCommand {
    On,
    Off,
    Toggle,
    PlayPause,
    Stop,
    Previous,
    Next,
    FastForward,
    Rewind,
    Seek,
    Volume,
    VolumeUp,
    VolumeDown,
    MuteToggle,
    Mute,
    Unmute,
    Repeat,
    Shuffle,
    ChannelUp,
    ChannelDown,
    CursorUp,
    CursorDown,
    CursorLeft,
    CursorRight,
    CursorEnter,
    Digit_0,
    Digit_1,
    Digit_2,
    Digit_3,
    Digit_4,
    Digit_5,
    Digit_6,
    Digit_7,
    Digit_8,
    Digit_9,
    FunctionRed,
    FunctionGreen,
    FunctionYellow,
    FunctionBlue,
    Home,
    Menu,
    ContextMenu,
    Guide,
    Info,
    Back,
    SelectSource,
    SelectSoundMode,
    Record,
    MyRecordings,
    Live,
    Eject,
    OpenClose,
    AudioTrack,
    Subtitle,
    Settings,
}

impl MediaPlayerCommand {
    /// The wire name of the variant.
    pub open spec fn wire_str(self) -> Seq<char> {
        match self {
            MediaPlayerCommand::On => "on"@,
            MediaPlayerCommand::Off => "off"@,
            MediaPlayerCommand::Toggle => "toggle"@,
            MediaPlayerCommand::PlayPause => "play_pause"@,
            MediaPlayerCommand::Stop => "stop"@,
            MediaPlayerCommand::Previous => "previous"@,
            MediaPlayerCommand::Next => "next"@,
            MediaPlayerCommand::FastForward => "fast_forward"@,
            MediaPlayerCommand::Rewind => "rewind"@,
            MediaPlayerCommand::Seek => "seek"@,
            MediaPlayerCommand::Volume => "volume"@,
            MediaPlayerCommand::VolumeUp => "volume_up"@,
            MediaPlayerCommand::VolumeDown => "volume_down"@,
            MediaPlayerCommand::MuteToggle => "mute_toggle"@,
            MediaPlayerCommand::Mute => "mute"@,
            MediaPlayerCommand::Unmute => "unmute"@,
            MediaPlayerCommand::Repeat => "repeat"@,
            MediaPlayerCommand::Shuffle => "shuffle"@,
            MediaPlayerCommand::ChannelUp => "channel_up"@,
            MediaPlayerCommand::ChannelDown => "channel_down"@,
            MediaPlayerCommand::CursorUp => "cursor_up"@,
            MediaPlayerCommand::CursorDown => "cursor_down"@,
            MediaPlayerCommand::CursorLeft => "cursor_left"@,
            MediaPlayerCommand::CursorRight => "cursor_right"@,
            MediaPlayerCommand::CursorEnter => "cursor_enter"@,
            MediaPlayerCommand::Digit_0 => "digit_0"@,
            MediaPlayerCommand::Digit_1 => "digit_1"@,
            MediaPlayerCommand::Digit_2 => "digit_2"@,
            MediaPlayerCommand::Digit_3 => "digit_3"@,
            MediaPlayerCommand::Digit_4 => "digit_4"@,
            MediaPlayerCommand::Digit_5 => "digit_5"@,
            MediaPlayerCommand::Digit_6 => "digit_6"@,
            MediaPlayerCommand::Digit_7 => "digit_7"@,
            MediaPlayerCommand::Digit_8 => "digit_8"@,
            MediaPlayerCommand::Digit_9 => "digit_9"@,
            MediaPlayerCommand::FunctionRed => "function_red"@,
            MediaPlayerCommand::FunctionGreen => "function_green"@,
            MediaPlayerCommand::FunctionYellow => "function_yellow"@,
            MediaPlayerCommand::FunctionBlue => "function_blue"@,
            MediaPlayerCommand::Home => "home"@,
            MediaPlayerCommand::Menu => "menu"@,
            MediaPlayerCommand::ContextMenu => "context_menu"@,
            MediaPlayerCommand::Guide => "guide"@,
            MediaPlayerCommand::Info => "info"@,
            MediaPlayerCommand::Back => "back"@,
            MediaPlayerCommand::SelectSource => "select_source"@,
            MediaPlayerCommand::SelectSoundMode => "select_sound_mode"@,
            MediaPlayerCommand::Record => "record"@,
            MediaPlayerCommand::MyRecordings => "my_recordings"@,
            MediaPlayerCommand::Live => "live"@,
            MediaPlayerCommand::Eject => "eject"@,
            MediaPlayerCommand::OpenClose => "open_close"@,
            MediaPlayerCommand::AudioTrack => "audio_track"@,
            MediaPlayerCommand::Subtitle => "subtitle"@,
            MediaPlayerCommand::Settings => "settings"@,
        }
    }

    /// The variant a wire name denotes, if any.
    pub open spec fn spec_from_wire(s: Seq<char>) -> Option<MediaPlayerCommand> {
        if s == "on"@ {
            Some(MediaPlayerCommand::On)
        } else if s == "off"@ {
            Some(MediaPlayerCommand::Off)
        } else if s == "toggle"@ {
            Some(MediaPlayerCommand::Toggle)
        } else if s == "play_pause"@ {
            Some(MediaPlayerCommand::PlayPause)
        } else if s == "stop"@ {
            Some(MediaPlayerCommand::Stop)
        } else if s == "previous"@ {
            Some(MediaPlayerCommand::Previous)
        } else if s == "next"@ {
            Some(MediaPlayerCommand::Next)
        } else if s == "fast_forward"@ {
            Some(MediaPlayerCommand::FastForward)
        } else if s == "rewind"@ {
            Some(MediaPlayerCommand::Rewind)
        } else if s == "seek"@ {
            Some(MediaPlayerCommand::Seek)
        } else if s == "volume"@ {
            Some(MediaPlayerCommand::Volume)
        } else if s == "volume_up"@ {
            Some(MediaPlayerCommand::VolumeUp)
        } else if s == "volume_down"@ {
            Some(MediaPlayerCommand::VolumeDown)
        } else if s == "mute_toggle"@ {
            Some(MediaPlayerCommand::MuteToggle)
        } else if s == "mute"@ {
            Some(MediaPlayerCommand::Mute)
        } else if s == "unmute"@ {
            Some(MediaPlayerCommand::Unmute)
        } else if s == "repeat"@ {
            Some(MediaPlayerCommand::Repeat)
        } else if s == "shuffle"@ {
            Some(MediaPlayerCommand::Shuffle)
        } else if s == "channel_up"@ {
            Some(MediaPlayerCommand::ChannelUp)
        } else if s == "channel_down"@ {
            Some(MediaPlayerCommand::ChannelDown)
        } else if s == "cursor_up"@ {
            Some(MediaPlayerCommand::CursorUp)
        } else if s == "cursor_down"@ {
            Some(MediaPlayerCommand::CursorDown)
        } else if s == "cursor_left"@ {
            Some(MediaPlayerCommand::CursorLeft)
        } else if s == "cursor_right"@ {
            Some(MediaPlayerCommand::CursorRight)
        } else if s == "cursor_enter"@ {
            Some(MediaPlayerCommand::CursorEnter)
        } else if s == "digit_0"@ {
            Some(MediaPlayerCommand::Digit_0)
        } else if s == "digit_1"@ {
            Some(MediaPlayerCommand::Digit_1)
        } else if s == "digit_2"@ {
            Some(MediaPlayerCommand::Digit_2)
        } else if s == "digit_3"@ {
            Some(MediaPlayerCommand::Digit_3)
        } else if s == "digit_4"@ {
            Some(MediaPlayerCommand::Digit_4)
        } else if s == "digit_5"@ {
            Some(MediaPlayerCommand::Digit_5)
        } else if s == "digit_6"@ {
            Some(MediaPlayerCommand::Digit_6)
        } else if s == "digit_7"@ {
            Some(MediaPlayerCommand::Digit_7)
        } else if s == "digit_8"@ {
            Some(MediaPlayerCommand::Digit_8)
        } else if s == "digit_9"@ {
            Some(MediaPlayerCommand::Digit_9)
        } else if s == "function_red"@ {
            Some(MediaPlayerCommand::FunctionRed)
        } else if s == "function_green"@ {
            Some(MediaPlayerCommand::FunctionGreen)
        } else if s == "function_yellow"@ {
            Some(MediaPlayerCommand::FunctionYellow)
        } else if s == "function_blue"@ {
            Some(MediaPlayerCommand::FunctionBlue)
        } else if s == "home"@ {
            Some(MediaPlayerCommand::Home)
        } else if s == "menu"@ {
            Some(MediaPlayerCommand::Menu)
        } else if s == "context_menu"@ {
            Some(MediaPlayerCommand::ContextMenu)
        } else if s == "guide"@ {
            Some(MediaPlayerCommand::Guide)
        } else if s == "info"@ {
            Some(MediaPlayerCommand::Info)
        } else if s == "back"@ {
            Some(MediaPlayerCommand::Back)
        } else if s == "select_source"@ {
            Some(MediaPlayerCommand::SelectSource)
        } else if s == "select_sound_mode"@ {
            Some(MediaPlayerCommand::SelectSoundMode)
        } else if s == "record"@ {
            Some(MediaPlayerCommand::Record)
        } else if s == "my_recordings"@ {
            Some(MediaPlayerCommand::MyRecordings)
        } else if s == "live"@ {
            Some(MediaPlayerCommand::Live)
        } else if s == "eject"@ {
            Some(MediaPlayerCommand::Eject)
        } else if s == "open_close"@ {
            Some(MediaPlayerCommand::OpenClose)
        } else if s == "audio_track"@ {
            Some(MediaPlayerCommand::AudioTrack)
        } else if s == "subtitle"@ {
            Some(MediaPlayerCommand::Subtitle)
        } else if s == "settings"@ {
            Some(MediaPlayerCommand::Settings)
        } else {
            None
        }
    }

    /// The wire name of the variant.
    pub fn as_str(&self) -> (r: &'static str)
        ensures
            r@ == self.wire_str(),
    {
        match self {
            MediaPlayerCommand::On => "on",
            MediaPlayerCommand::Off => "off",
            MediaPlayerCommand::Toggle => "toggle",
            MediaPlayerCommand::PlayPause => "play_pause",
            MediaPlayerCommand::Stop => "stop",
            MediaPlayerCommand::Previous => "previous",
            MediaPlayerCommand::Next => "next",
            MediaPlayerCommand::FastForward => "fast_forward",
            MediaPlayerCommand::Rewind => "rewind",
            MediaPlayerCommand::Seek => "seek",
            MediaPlayerCommand::Volume => "volume",
            MediaPlayerCommand::VolumeUp => "volume_up",
            MediaPlayerCommand::VolumeDown => "volume_down",
            MediaPlayerCommand::MuteToggle => "mute_toggle",
            MediaPlayerCommand::Mute => "mute",
            MediaPlayerCommand::Unmute => "unmute",
            MediaPlayerCommand::Repeat => "repeat",
            MediaPlayerCommand::Shuffle => "shuffle",
            MediaPlayerCommand::ChannelUp => "channel_up",
            MediaPlayerCommand::ChannelDown => "channel_down",
            MediaPlayerCommand::CursorUp => "cursor_up",
            MediaPlayerCommand::CursorDown => "cursor_down",
            MediaPlayerCommand::CursorLeft => "cursor_left",
            MediaPlayerCommand::CursorRight => "cursor_right",
            MediaPlayerCommand::CursorEnter => "cursor_enter",
            MediaPlayerCommand::Digit_0 => "digit_0",
            MediaPlayerCommand::Digit_1 => "digit_1",
            MediaPlayerCommand::Digit_2 => "digit_2",
            MediaPlayerCommand::Digit_3 => "digit_3",
            MediaPlayerCommand::Digit_4 => "digit_4",
            MediaPlayerCommand::Digit_5 => "digit_5",
            MediaPlayerCommand::Digit_6 => "digit_6",
            MediaPlayerCommand::Digit_7 => "digit_7",
            MediaPlayerCommand::Digit_8 => "digit_8",
            MediaPlayerCommand::Digit_9 => "digit_9",
            MediaPlayerCommand::FunctionRed => "function_red",
            MediaPlayerCommand::FunctionGreen => "function_green",
            MediaPlayerCommand::FunctionYellow => "function_yellow",
            MediaPlayerCommand::FunctionBlue => "function_blue",
            MediaPlayerCommand::Home => "home",
            MediaPlayerCommand::Menu => "menu",
            MediaPlayerCommand::ContextMenu => "context_menu",
            MediaPlayerCommand::Guide => "guide",
            MediaPlayerCommand::Info => "info",
            MediaPlayerCommand::Back => "back",
            MediaPlayerCommand::SelectSource => "select_source",
            MediaPlayerCommand::SelectSoundMode => "select_sound_mode",
            MediaPlayerCommand::Record => "record",
            MediaPlayerCommand::MyRecordings => "my_recordings",
            MediaPlayerCommand::Live => "live",
            MediaPlayerCommand::Eject => "eject",
            MediaPlayerCommand::OpenClose => "open_close",
            MediaPlayerCommand::AudioTrack => "audio_track",
            MediaPlayerCommand::Subtitle => "subtitle",
            MediaPlayerCommand::Settings => "settings",
        }
    }

    /// Parse a wire name.
    pub fn from_str(s: &str) -> (r: Option<MediaPlayerCommand>)
        ensures
            r == MediaPlayerCommand::spec_from_wire(s@),
    {
        let o = s.to_owned();
        if o == String::from_str("on") {
            Some(MediaPlayerCommand::On)
        } else if o == String::from_str("off") {
            Some(MediaPlayerCommand::Off)
        } else if o == String::from_str("toggle") {
            Some(MediaPlayerCommand::Toggle)
        } else if o == String::from_str("play_pause") {
            Some(MediaPlayerCommand::PlayPause)
        } else if o == String::from_str("stop") {
            Some(MediaPlayerCommand::Stop)
        } else if o == String::from_str("previous") {
            Some(MediaPlayerCommand::Previous)
        } else if o == String::from_str("next") {
            Some(MediaPlayerCommand::Next)
        } else if o == String::from_str("fast_forward") {
            Some(MediaPlayerCommand::FastForward)
        } else if o == String::from_str("rewind") {
            Some(MediaPlayerCommand::Rewind)
        } else if o == String::from_str("seek") {
            Some(MediaPlayerCommand::Seek)
        } else if o == String::from_str("volume") {
            Some(MediaPlayerCommand::Volume)
        } else if o == String::from_str("volume_up") {
            Some(MediaPlayerCommand::VolumeUp)
        } else if o == String::from_str("volume_down") {
            Some(MediaPlayerCommand::VolumeDown)
        } else if o == String::from_str("mute_toggle") {
            Some(MediaPlayerCommand::MuteToggle)
        } else if o == String::from_str("mute") {
            Some(MediaPlayerCommand::Mute)
        } else if o == String::from_str("unmute") {
            Some(MediaPlayerCommand::Unmute)
        } else if o == String::from_str("repeat") {
            Some(MediaPlayerCommand::Repeat)
        } else if o == String::from_str("shuffle") {
            Some(MediaPlayerCommand::Shuffle)
        } else if o == String::from_str("channel_up") {
            Some(MediaPlayerCommand::ChannelUp)
        } else if o == String::from_str("channel_down") {
            Some(MediaPlayerCommand::ChannelDown)
        } else if o == String::from_str("cursor_up") {
            Some(MediaPlayerCommand::CursorUp)
        } else if o == String::from_str("cursor_down") {
            Some(MediaPlayerCommand::CursorDown)
        } else if o == String::from_str("cursor_left") {
            Some(MediaPlayerCommand::CursorLeft)
        } else if o == String::from_str("cursor_right") {
            Some(MediaPlayerCommand::CursorRight)
        } else if o == String::from_str("cursor_enter") {
            Some(MediaPlayerCommand::CursorEnter)
        } else if o == String::from_str("digit_0") {
            Some(MediaPlayerCommand::Digit_0)
        } else if o == String::from_str("digit_1") {
            Some(MediaPlayerCommand::Digit_1)
        } else if o == String::from_str("digit_2") {
            Some(MediaPlayerCommand::Digit_2)
        } else if o == String::from_str("digit_3") {
            Some(MediaPlayerCommand::Digit_3)
        } else if o == String::from_str("digit_4") {
            Some(MediaPlayerCommand::Digit_4)
        } else if o == String::from_str("digit_5") {
            Some(MediaPlayerCommand::Digit_5)
        } else if o == String::from_str("digit_6") {
            Some(MediaPlayerCommand::Digit_6)
        } else if o == String::from_str("digit_7") {
            Some(MediaPlayerCommand::Digit_7)
        } else if o == String::from_str("digit_8") {
            Some(MediaPlayerCommand::Digit_8)
        } else if o == String::from_str("digit_9") {
            Some(MediaPlayerCommand::Digit_9)
        } else if o == String::from_str("function_red") {
            Some(MediaPlayerCommand::FunctionRed)
        } else if o == String::from_str("function_green") {
            Some(MediaPlayerCommand::FunctionGreen)
        } else if o == String::from_str("function_yellow") {
            Some(MediaPlayerCommand::FunctionYellow)
        } else if o == String::from_str("function_blue") {
            Some(MediaPlayerCommand::FunctionBlue)
        } else if o == String::from_str("home") {
            Some(MediaPlayerCommand::Home)
        } else if o == String::from_str("menu") {
            Some(MediaPlayerCommand::Menu)
        } else if o == String::from_str("context_menu") {
            Some(MediaPlayerCommand::ContextMenu)
        } else if o == String::from_str("guide") {
            Some(MediaPlayerCommand::Guide)
        } else if o == String::from_str("info") {
            Some(MediaPlayerCommand::Info)
        } else if o == String::from_str("back") {
            Some(MediaPlayerCommand::Back)
        } else if o == String::from_str("select_source") {
            Some(MediaPlayerCommand::SelectSource)
        } else if o == String::from_str("select_sound_mode") {
            Some(MediaPlayerCommand::SelectSoundMode)
        } else if o == String::from_str("record") {
            Some(MediaPlayerCommand::Record)
        } else if o == String::from_str("my_recordings") {
            Some(MediaPlayerCommand::MyRecordings)
        } else if o == String::from_str("live") {
            Some(MediaPlayerCommand::Live)
        } else if o == String::from_str("eject") {
            Some(MediaPlayerCommand::Eject)
        } else if o == String::from_str("open_close") {
            Some(MediaPlayerCommand::OpenClose)
        } else if o == String::from_str("audio_track") {
            Some(MediaPlayerCommand::AudioTrack)
        } else if o == String::from_str("subtitle") {
            Some(MediaPlayerCommand::Subtitle)
        } else if o == String::from_str("settings") {
            Some(MediaPlayerCommand::Settings)
        } else {
            None
        }
    }
}

/// Media player entity device classes.
#[derive(Debug, Clone, PartialEq, Eq, Structural)]
pub enum MediaPlayerDeviceClass {
    Receiver,
    SetTopBox,
    Speaker,
    StreamingBox,
    TV,
}

impl MediaPlayerDeviceClass {
    /// The wire name of the variant.
    pub open spec fn wire_str(self) -> Seq<char> {
        match self {
            MediaPlayerDeviceClass::Receiver => "receiver"@,
            MediaPlayerDeviceClass::SetTopBox => "set_top_box"@,
            MediaPlayerDeviceClass::Speaker => "speaker"@,
            MediaPlayerDeviceClass::StreamingBox => "streaming_box"@,
            MediaPlayerDeviceClass::TV => "tv"@,
        }
    }

    /// The variant a wire name denotes, if any.
    pub open spec fn spec_from_wire(s: Seq<char>) -> Option<MediaPlayerDeviceClass> {
        if s == "receiver"@ {
            Some(MediaPlayerDeviceClass::Receiver)
        } else if s == "set_top_box"@ {
            Some(MediaPlayerDeviceClass::SetTopBox)
        } else if s == "speaker"@ {
            Some(MediaPlayerDeviceClass::Speaker)
        } else if s == "streaming_box"@ {
            Some(MediaPlayerDeviceClass::StreamingBox)
        } else if s == "tv"@ {
            Some(MediaPlayerDeviceClass::TV)
        } else {
            None
        }
    }

    /// The wire name of the variant.
    pub fn as_str(&self) -> (r: &'static str)
        ensures
            r@ == self.wire_str(),
    {
        match self {
            MediaPlayerDeviceClass::Receiver => "receiver",
            MediaPlayerDeviceClass::SetTopBox => "set_top_box",
            MediaPlayerDeviceClass::Speaker => "speaker",
            MediaPlayerDeviceClass::StreamingBox => "streaming_box",
            MediaPlayerDeviceClass::TV => "tv",
        }
    }

    /// Parse a wire name.
    pub fn from_str(s: &str) -> (r: Option<MediaPlayerDeviceClass>)
        ensures
            r == MediaPlayerDeviceClass::spec_from_wire(s@),
    {
        let o = s.to_owned();
        if o == String::from_str("receiver") {
            Some(MediaPlayerDeviceClass::Receiver)
        } else if o == String::from_str("set_top_box") {
            Some(MediaPlayerDeviceClass::SetTopBox)
        } else if o == String::from_str("speaker") {
            Some(MediaPlayerDeviceClass::Speaker)
        } else if o == String::from_str("streaming_box") {
            Some(MediaPlayerDeviceClass::StreamingBox)
        } else if o == String::from_str("tv") {
            Some(MediaPlayerDeviceClass::TV)
        } else {
            None
        }
    }
}

/// Media player entity options.
#[derive(Debug, Clone, PartialEq, Eq, Structural)]
pub enum MediaPlayerOption {
    SimpleCommands,
    VolumeSteps,
}

impl MediaPlayerOption {
    /// The wire name of the variant.
    pub open spec fn wire_str(self) -> Seq<char> {
        match self {
            MediaPlayerOption::SimpleCommands => "simple_commands"@,
            MediaPlayerOption::VolumeSteps => "volume_steps"@,
        }
    }

    /// The variant a wire name denotes, if any.
    pub open spec fn spec_from_wire(s: Seq<char>) -> Option<MediaPlayerOption> {
        if s == "simple_commands"@ {
            Some(MediaPlayerOption::SimpleCommands)
        } else if s == "volume_steps"@ {
            Some(MediaPlayerOption::VolumeSteps)
        } else {
            None
        }
    }

    /// The wire name of the variant.
    pub fn as_str(&self) -> (r: &'static str)
        ensures
            r@ == self.wire_str(),
    {
        match self {
            MediaPlayerOption::SimpleCommands => "simple_commands",
            MediaPlayerOption::VolumeSteps => "volume_steps",
        }
    }

    /// Parse a wire name.
    pub fn from_str(s: &str) -> (r: Option<MediaPlayerOption>)
        ensures
            r == MediaPlayerOption::spec_from_wire(s@),
    {
        let o = s.to_owned();
        if o == String::from_str("simple_commands") {
            Some(MediaPlayerOption::SimpleCommands)
        } else if o == String::from_str("volume_steps") {
            Some(MediaPlayerOption::VolumeSteps)
        } else {
            None
        }
    }
}

/// Media player media types, serialized in `SCREAMING_SNAKE_CASE`.
#[derive(Debug, Clone, PartialEq, Eq, Structural)]
pub enum MediaType {
    Music,
    Radio,
    Tvshow,
    Movie,
    Video,
}

impl MediaType {
    /// The wire name of the variant.
    pub open spec fn wire_str(self) -> Seq<char> {
        match self {
            MediaType::Music => "MUSIC"@,
            MediaType::Radio => "RADIO"@,
            MediaType::Tvshow => "TVSHOW"@,
            MediaType::Movie => "MOVIE"@,
            MediaType::Video => "VIDEO"@,
        }
    }

    /// The variant a wire name denotes, if any.
    pub open spec fn spec_from_wire(s: Seq<char>) -> Option<MediaType> {
        if s == "MUSIC"@ {
            Some(MediaType::Music)
        } else if s == "RADIO"@ {
            Some(MediaType::Radio)
        } else if s == "TVSHOW"@ {
            Some(MediaType::Tvshow)
        } else if s == "MOVIE"@ {
            Some(MediaType::Movie)
        } else if s == "VIDEO"@ {
            Some(MediaType::Video)
        } else {
            None
        }
    }

    /// The wire name of the variant.
    pub fn as_str(&self) -> (r: &'static str)
        ensures
            r@ == self.wire_str(),
    {
        match self {
            MediaType::Music => "MUSIC",
            MediaType::Radio => "RADIO",
            MediaType::Tvshow => "TVSHOW",
            MediaType::Movie => "MOVIE",
            MediaType::Video => "VIDEO",
        }
    }

    /// Parse a wire name.
    pub fn from_str(s: &str) -> (r: Option<MediaType>)
        ensures
            r == MediaType::spec_from_wire(s@),
    {
        let o = s.to_owned();
        if o == String::from_str("MUSIC") {
            Some(MediaType::Music)
        } else if o == String::from_str("RADIO") {
            Some(MediaType::Radio)
        } else if o == String::from_str("TVSHOW") {
            Some(MediaType::Tvshow)
        } else if o == String::from_str("MOVIE") {
            Some(MediaType::Movie)
        } else if o == String::from_str("VIDEO") {
            Some(MediaType::Video)
        } else {
            None
        }
    }
}

/// Media player repeat modes.
#[derive(Debug, Clone, PartialEq, Eq, Structural)]
pub enum MediaPlayerRepeatMode {
    Off,
    All,
    One,
}

impl MediaPlayerRepeatMode {
    /// The wire name of the variant.
    pub open spec fn wire_str(self) -> Seq<char> {
        match self {
            MediaPlayerRepeatMode::Off => "off"@,
            MediaPlayerRepeatMode::All => "all"@,
            MediaPlayerRepeatMode::One => "one"@,
        }
    }

    /// The variant a wire name denotes, if any.
    pub open spec fn spec_from_wire(s: Seq<char>) -> Option<MediaPlayerRepeatMode> {
        if s == "off"@ {
            Some(MediaPlayerRepeatMode::Off)
        } else if s == "all"@ {
            Some(MediaPlayerRepeatMode::All)
        } else if s == "one"@ {
            Some(MediaPlayerRepeatMode::One)
        } else {
            None
        }
    }

    /// The wire name of the variant.
    pub fn as_str(&self) -> (r: &'static str)
        ensures
            r@ == self.wire_str(),
    {
        match self {
            MediaPlayerRepeatMode::Off => "off",
            MediaPlayerRepeatMode::All => "all",
            MediaPlayerRepeatMode::One => "one",
        }
    }

    /// Parse a wire name.
    pub fn from_str(s: &str) -> (r: Option<MediaPlayerRepeatMode>)
        ensures
            r == MediaPlayerRepeatMode::spec_from_wire(s@),
    {
        let o = s.to_owned();
        if o == String::from_str("off") {
            Some(MediaPlayerRepeatMode::Off)
        } else if o == String::from_str("all") {
            Some(MediaPlayerRepeatMode::All)
        } else if o == String::from_str("one") {
            Some(MediaPlayerRepeatMode::One)
        } else {
            None
        }
    }
}

/// Media player entity attributes.
#[derive(Debug, Clone, PartialEq, Eq, Structural)]
pub enum MediaPlayerAttribute {
    State,
    Volume,
    Muted,
    MediaPosition,
    MediaDuration,
    MediaTitle,
    MediaArtist,
    MediaAlbum,
    MediaImageUrl,
    MediaImageUrlSmall,
    MediaImageUrlMedium,
    MediaImageUrlLarge,
    MediaType,
    Repeat,
    Shuffle,
    Source,
    SourceList,
    SoundMode,
    SoundModeList,
}

impl MediaPlayerAttribute {
    /// The wire name of the variant.
    pub open spec fn wire_str(self) -> Seq<char> {
        match self {
            MediaPlayerAttribute::State => "state"@,
            MediaPlayerAttribute::Volume => "volume"@,
            MediaPlayerAttribute::Muted => "muted"@,
            MediaPlayerAttribute::MediaPosition => "media_position"@,
            MediaPlayerAttribute::MediaDuration => "media_duration"@,
            MediaPlayerAttribute::MediaTitle => "media_title"@,
            MediaPlayerAttribute::MediaArtist => "media_artist"@,
            MediaPlayerAttribute::MediaAlbum => "media_album"@,
            MediaPlayerAttribute::MediaImageUrl => "media_image_url"@,
            MediaPlayerAttribute::MediaImageUrlSmall => "media_image_url_small"@,
            MediaPlayerAttribute::MediaImageUrlMedium => "media_image_url_medium"@,
            MediaPlayerAttribute::MediaImageUrlLarge => "media_image_url_large"@,
            MediaPlayerAttribute::MediaType => "media_type"@,
            MediaPlayerAttribute::Repeat => "repeat"@,
            MediaPlayerAttribute::Shuffle => "shuffle"@,
            MediaPlayerAttribute::Source => "source"@,
            MediaPlayerAttribute::SourceList => "source_list"@,
            MediaPlayerAttribute::SoundMode => "sound_mode"@,
            MediaPlayerAttribute::SoundModeList => "sound_mode_list"@,
        }
    }

    /// The variant a wire name denotes, if any.
    pub open spec fn spec_from_wire(s: Seq<char>) -> Option<MediaPlayerAttribute> {
        if s == "state"@ {
            Some(MediaPlayerAttribute::State)
        } else if s == "volume"@ {
            Some(MediaPlayerAttribute::Volume)
        } else if s == "muted"@ {
            Some(MediaPlayerAttribute::Muted)
        } else if s == "media_position"@ {
            Some(MediaPlayerAttribute::MediaPosition)
        } else if s == "media_duration"@ {
            Some(MediaPlayerAttribute::MediaDuration)
        } else if s == "media_title"@ {
            Some(MediaPlayerAttribute::MediaTitle)
        } else if s == "media_artist"@ {
            Some(MediaPlayerAttribute::MediaArtist)
        } else if s == "media_album"@ {
            Some(MediaPlayerAttribute::MediaAlbum)
        } else if s == "media_image_url"@ {
            Some(MediaPlayerAttribute::MediaImageUrl)
        } else if s == "media_image_url_small"@ {
            Some(MediaPlayerAttribute::MediaImageUrlSmall)
        } else if s == "media_image_url_medium"@ {
            Some(MediaPlayerAttribute::MediaImageUrlMedium)
        } else if s == "media_image_url_large"@ {
            Some(MediaPlayerAttribute::MediaImageUrlLarge)
        } else if s == "media_type"@ {
            Some(MediaPlayerAttribute::MediaType)
        } else if s == "repeat"@ {
            Some(MediaPlayerAttribute::Repeat)
        } else if s == "shuffle"@ {
            Some(MediaPlayerAttribute::Shuffle)
        } else if s == "source"@ {
            Some(MediaPlayerAttribute::Source)
        } else if s == "source_list"@ {
            Some(MediaPlayerAttribute::SourceList)
        } else if s == "sound_mode"@ {
            Some(MediaPlayerAttribute::SoundMode)
        } else if s == "sound_mode_list"@ {
            Some(MediaPlayerAttribute::SoundModeList)
        } else {
            None
        }
    }

    /// The wire name of the variant.
    pub fn as_str(&self) -> (r: &'static str)
        ensures
            r@ == self.wire_str(),
    {
        match self {
            MediaPlayerAttribute::State => "state",
            MediaPlayerAttribute::Volume => "volume",
            MediaPlayerAttribute::Muted => "muted",
            MediaPlayerAttribute::MediaPosition => "media_position",
            MediaPlayerAttribute::MediaDuration => "media_duration",
            MediaPlayerAttribute::MediaTitle => "media_title",
            MediaPlayerAttribute::MediaArtist => "media_artist",
            MediaPlayerAttribute::MediaAlbum => "media_album",
            MediaPlayerAttribute::MediaImageUrl => "media_image_url",
            MediaPlayerAttribute::MediaImageUrlSmall => "media_image_url_small",
            MediaPlayerAttribute::MediaImageUrlMedium => "media_image_url_medium",
            MediaPlayerAttribute::MediaImageUrlLarge => "media_image_url_large",
            MediaPlayerAttribute::MediaType => "media_type",
            MediaPlayerAttribute::Repeat => "repeat",
            MediaPlayerAttribute::Shuffle => "shuffle",
            MediaPlayerAttribute::Source => "source",
            MediaPlayerAttribute::SourceList => "source_list",
            MediaPlayerAttribute::SoundMode => "sound_mode",
            MediaPlayerAttribute::SoundModeList => "sound_mode_list",
        }
    }

    /// Parse a wire name.
    pub fn from_str(s: &str) -> (r: Option<MediaPlayerAttribute>)
        ensures
            r == MediaPlayerAttribute::spec_from_wire(s@),
    {
        let o = s.to_owned();
        if o == String::from_str("state") {
            Some(MediaPlayerAttribute::State)
        } else if o == String::from_str("volume") {
            Some(MediaPlayerAttribute::Volume)
        } else if o == String::from_str("muted") {
            Some(MediaPlayerAttribute::Muted)
        } else if o == String::from_str("media_position") {
            Some(MediaPlayerAttribute::MediaPosition)
        } else if o == String::from_str("media_duration") {
            Some(MediaPlayerAttribute::MediaDuration)
        } else if o == String::from_str("media_title") {
            Some(MediaPlayerAttribute::MediaTitle)
        } else if o == String::from_str("media_artist") {
            Some(MediaPlayerAttribute::MediaArtist)
        } else if o == String::from_str("media_album") {
            Some(MediaPlayerAttribute::MediaAlbum)
        } else if o == String::from_str("media_image_url") {
            Some(MediaPlayerAttribute::MediaImageUrl)
        } else if o == String::from_str("media_image_url_small") {
            Some(MediaPlayerAttribute::MediaImageUrlSmall)
        } else if o == String::from_str("media_image_url_medium") {
            Some(MediaPlayerAttribute::MediaImageUrlMedium)
        } else if o == String::from_str("media_image_url_large") {
            Some(MediaPlayerAttribute::MediaImageUrlLarge)
        } else if o == String::from_str("media_type") {
            Some(MediaPlayerAttribute::MediaType)
        } else if o == String::from_str("repeat") {
            Some(MediaPlayerAttribute::Repeat)
        } else if o == String::from_str("shuffle") {
            Some(MediaPlayerAttribute::Shuffle)
        } else if o == String::from_str("source") {
            Some(MediaPlayerAttribute::Source)
        } else if o == String::from_str("source_list") {
            Some(MediaPlayerAttribute::SourceList)
        } else if o == String::from_str("sound_mode") {
            Some(MediaPlayerAttribute::SoundMode)
        } else if o == String::from_str("sound_mode_list") {
            Some(MediaPlayerAttribute::SoundModeList)
        } else {
            None
        }
    }
}

/// Sensor entity options.
#[derive(Debug, Clone, PartialEq, Eq, Structural)]
pub enum SensorOption {
    CustomLabel,
    CustomUnit,
    NativeUnit,
    Decimals,
}

impl SensorOption {
    /// The wire name of the variant.
    pub open spec fn wire_str(self) -> Seq<char> {
        match self {
            SensorOption::CustomLabel => "custom_label"@,
            SensorOption::CustomUnit => "custom_unit"@,
            SensorOption::NativeUnit => "native_unit"@,
            SensorOption::Decimals => "decimals"@,
        }
    }

    /// The variant a wire name denotes, if any.
    pub open spec fn spec_from_wire(s: Seq<char>) -> Option<SensorOption> {
        if s == "custom_label"@ {
            Some(SensorOption::CustomLabel)
        } else if s == "custom_unit"@ {
            Some(SensorOption::CustomUnit)
        } else if s == "native_unit"@ {
            Some(SensorOption::NativeUnit)
        } else if s == "decimals"@ {
            Some(SensorOption::Decimals)
        } else {
            None
        }
    }

    /// The wire name of the variant.
    pub fn as_str(&self) -> (r: &'static str)
        ensures
            r@ == self.wire_str(),
    {
        match self {
            SensorOption::CustomLabel => "custom_label",
            SensorOption::CustomUnit => "custom_unit",
            SensorOption::NativeUnit => "native_unit",
            SensorOption::Decimals => "decimals",
        }
    }

    /// Parse a wire name.
    pub fn from_str(s: &str) -> (r: Option<SensorOption>)
        ensures
            r == SensorOption::spec_from_wire(s@),
    {
        let o = s.to_owned();
        if o == String::from_str("custom_label") {
            Some(SensorOption::CustomLabel)
        } else if o == String::from_str("custom_unit") {
            Some(SensorOption::CustomUnit)
        } else if o == String::from_str("native_unit") {
            Some(SensorOption::NativeUnit)
        } else if o == String::from_str("decimals") {
            Some(SensorOption::Decimals)
        } else {
            None
        }
    }
}

/// Sensor entity device classes.
#[derive(Debug, Clone, PartialEq, Eq, Structural)]
pub enum SensorDeviceClass {
    Custom,
    Battery,
    Current,
    Energy,
    Humidity,
    Power,
    Temperature,
    Voltage,
}

impl SensorDeviceClass {
    /// The wire name of the variant.
    pub open spec fn wire_str(self) -> Seq<char> {
        match self {
            SensorDeviceClass::Custom => "custom"@,
            SensorDeviceClass::Battery => "battery"@,
            SensorDeviceClass::Current => "current"@,
            SensorDeviceClass::Energy => "energy"@,
            SensorDeviceClass::Humidity => "humidity"@,
            SensorDeviceClass::Power => "power"@,
            SensorDeviceClass::Temperature => "temperature"@,
            SensorDeviceClass::Voltage => "voltage"@,
        }
    }

    /// The variant a wire name denotes, if any.
    pub open spec fn spec_from_wire(s: Seq<char>) -> Option<SensorDeviceClass> {
        if s == "custom"@ {
            Some(SensorDeviceClass::Custom)
        } else if s == "battery"@ {
            Some(SensorDeviceClass::Battery)
        } else if s == "current"@ {
            Some(SensorDeviceClass::Current)
        } else if s == "energy"@ {
            Some(SensorDeviceClass::Energy)
        } else if s == "humidity"@ {
            Some(SensorDeviceClass::Humidity)
        } else if s == "power"@ {
            Some(SensorDeviceClass::Power)
        } else if s == "temperature"@ {
            Some(SensorDeviceClass::Temperature)
        } else if s == "voltage"@ {
            Some(SensorDeviceClass::Voltage)
        } else {
            None
        }
    }

    /// The wire name of the variant.
    pub fn as_str(&self) -> (r: &'static str)
        ensures
            r@ == self.wire_str(),
    {
        match self {
            SensorDeviceClass::Custom => "custom",
            SensorDeviceClass::Battery => "battery",
            SensorDeviceClass::Current => "current",
            SensorDeviceClass::Energy => "energy",
            SensorDeviceClass::Humidity => "humidity",
            SensorDeviceClass::Power => "power",
            SensorDeviceClass::Temperature => "temperature",
            SensorDeviceClass::Voltage => "voltage",
        }
    }

    /// Parse a wire name.
    pub fn from_str(s: &str) -> (r: Option<SensorDeviceClass>)
        ensures
            r == SensorDeviceClass::spec_from_wire(s@),
    {
        let o = s.to_owned();
        if o == String::from_str("custom") {
            Some(SensorDeviceClass::Custom)
        } else if o == String::from_str("battery") {
            Some(SensorDeviceClass::Battery)
        } else if o == String::from_str("current") {
            Some(SensorDeviceClass::Current)
        } else if o == String::from_str("energy") {
            Some(SensorDeviceClass::Energy)
        } else if o == String::from_str("humidity") {
            Some(SensorDeviceClass::Humidity)
        } else if o == String::from_str("power") {
            Some(SensorDeviceClass::Power)
        } else if o == String::from_str("temperature") {
            Some(SensorDeviceClass::Temperature)
        } else if o == String::from_str("voltage") {
            Some(SensorDeviceClass::Voltage)
        } else {
            None
        }
    }
}

/// Sensor entity attributes.
#[derive(Debug, Clone, PartialEq, Eq, Structural)]
pub enum SensorAttribute {
    State,
    Value,
    Unit,
}

impl SensorAttribute {
    /// The wire name of the variant.
    pub open spec fn wire_str(self) -> Seq<char> {
        match self {
            SensorAttribute::State => "state"@,
            SensorAttribute::Value => "value"@,
            SensorAttribute::Unit => "unit"@,
        }
    }

    /// The variant a wire name denotes, if any.
    pub open spec fn spec_from_wire(s: Seq<char>) -> Option<SensorAttribute> {
        if s == "state"@ {
            Some(SensorAttribute::State)
        } else if s == "value"@ {
            Some(SensorAttribute::Value)
        } else if s == "unit"@ {
            Some(SensorAttribute::Unit)
        } else {
            None
        }
    }

    /// The wire name of the variant.
    pub fn as_str(&self) -> (r: &'static str)
        ensures
            r@ == self.wire_str(),
    {
        match self {
            SensorAttribute::State => "state",
            SensorAttribute::Value => "value",
            SensorAttribute::Unit => "unit",
        }
    }

    /// Parse a wire name.
    pub fn from_str(s: &str) -> (r: Option<SensorAttribute>)
        ensures
            r == SensorAttribute::spec_from_wire(s@),
    {
        let o = s.to_owned();
        if o == String::from_str("state") {
            Some(SensorAttribute::State)
        } else if o == String::from_str("value") {
            Some(SensorAttribute::Value)
        } else if o == String::from_str("unit") {
            Some(SensorAttribute::Unit)
        } else {
            None
        }
    }
}

/// Activity features.
#[derive(Debug, Clone, PartialEq, Eq, Structural)]
pub enum ActivityFeature {
    OnOff,
    Start,
}

impl ActivityFeature {
    /// The wire name of the variant.
    pub open spec fn wire_str(self) -> Seq<char> {
        match self {
            ActivityFeature::OnOff => "on_off"@,
            ActivityFeature::Start => "start"@,
        }
    }

    /// The variant a wire name denotes, if any.
    pub open spec fn spec_from_wire(s: Seq<char>) -> Option<ActivityFeature> {
        if s == "on_off"@ {
            Some(ActivityFeature::OnOff)
        } else if s == "start"@ {
            Some(ActivityFeature::Start)
        } else {
            None
        }
    }

    /// The wire name of the variant.
    pub fn as_str(&self) -> (r: &'static str)
        ensures
            r@ == self.wire_str(),
    {
        match self {
            ActivityFeature::OnOff => "on_off",
            ActivityFeature::Start => "start",
        }
    }

    /// Parse a wire name.
    pub fn from_str(s: &str) -> (r: Option<ActivityFeature>)
        ensures
            r == ActivityFeature::spec_from_wire(s@),
    {
        let o = s.to_owned();
        if o == String::from_str("on_off") {
            Some(ActivityFeature::OnOff)
        } else if o == String::from_str("start") {
            Some(ActivityFeature::Start)
        } else {
            None
        }
    }
}

/// Activity entity commands.
#[derive(Debug, Clone, PartialEq, Eq, Structural)]
pub enum ActivityCommand {
    On,
    Off,
    Start,
}

impl ActivityCommand {
    /// The wire name of the variant.
    pub open spec fn wire_str(self) -> Seq<char> {
        match self {
            ActivityCommand::On => "on"@,
            ActivityCommand::Off => "off"@,
            ActivityCommand::Start => "start"@,
        }
    }

    /// The variant a wire name denotes, if any.
    pub open spec fn spec_from_wire(s: Seq<char>) -> Option<ActivityCommand> {
        if s == "on"@ {
            Some(ActivityCommand::On)
        } else if s == "off"@ {
            Some(ActivityCommand::Off)
        } else if s == "start"@ {
            Some(ActivityCommand::Start)
        } else {
            None
        }
    }

    /// The wire name of the variant.
    pub fn as_str(&self) -> (r: &'static str)
        ensures
            r@ == self.wire_str(),
    {
        match self {
            ActivityCommand::On => "on",
            ActivityCommand::Off => "off",
            ActivityCommand::Start => "start",
        }
    }

    /// Parse a wire name.
    pub fn from_str(s: &str) -> (r: Option<ActivityCommand>)
        ensures
            r == ActivityCommand::spec_from_wire(s@),
    {
        let o = s.to_owned();
        if o == String::from_str("on") {
            Some(ActivityCommand::On)
        } else if o == String::from_str("off") {
            Some(ActivityCommand::Off)
        } else if o == String::from_str("start") {
            Some(ActivityCommand::Start)
        } else {
            None
        }
    }
}

/// Macro features.
#[derive(Debug, Clone, PartialEq, Eq, Structural)]
pub enum MacroFeature {
    Run,
}

impl MacroFeature {
    /// The wire name of the variant.
    pub open spec fn wire_str(self) -> Seq<char> {
        match self {
            MacroFeature::Run => "run"@,
        }
    }

    /// The variant a wire name denotes, if any.
    pub open spec fn spec_from_wire(s: Seq<char>) -> Option<MacroFeature> {
        if s == "run"@ {
            Some(MacroFeature::Run)
        } else {
            None
        }
    }

    /// The wire name of the variant.
    pub fn as_str(&self) -> (r: &'static str)
        ensures
            r@ == self.wire_str(),
    {
        match self {
            MacroFeature::Run => "run",
        }
    }

    /// Parse a wire name.
    pub fn from_str(s: &str) -> (r: Option<MacroFeature>)
        ensures
            r == MacroFeature::spec_from_wire(s@),
    {
        let o = s.to_owned();
        if o == String::from_str("run") {
            Some(MacroFeature::Run)
        } else {
            None
        }
    }
}

/// Macro entity commands.
#[derive(Debug, Clone, PartialEq, Eq, Structural)]
pub enum MacroCommand {
    Run,
}

impl MacroCommand {
    /// The wire name of the variant.
    pub open spec fn wire_str(self) -> Seq<char> {
        match self {
            MacroCommand::Run => "run"@,
        }
    }

    /// The variant a wire name denotes, if any.
    pub open spec fn spec_from_wire(s: Seq<char>) -> Option<MacroCommand> {
        if s == "run"@ {
            Some(MacroCommand::Run)
        } else {
            None
        }
    }

    /// The wire name of the variant.
    pub fn as_str(&self) -> (r: &'static str)
        ensures
            r@ == self.wire_str(),
    {
        match self {
            MacroCommand::Run => "run",
        }
    }

    /// Parse a wire name.
    pub fn from_str(s: &str) -> (r: Option<MacroCommand>)
        ensures
            r == MacroCommand::spec_from_wire(s@),
    {
        let o = s.to_owned();
        if o == String::from_str("run") {
            Some(MacroCommand::Run)
        } else {
            None
        }
    }
}

/// Remote features.
#[derive(Debug, Clone, PartialEq, Eq, Structural)]
pub enum RemoteFeature {
    OnOff,
    Toggle,
    Send,
    StopSend,
}

impl RemoteFeature {
    /// The wire name of the variant.
    pub open spec fn wire_str(self) -> Seq<char> {
        match self {
            RemoteFeature::OnOff => "on_off"@,
            RemoteFeature::Toggle => "toggle"@,
            RemoteFeature::Send => "send"@,
            RemoteFeature::StopSend => "stop_send"@,
        }
    }

    /// The variant a wire name denotes, if any.
    pub open spec fn spec_from_wire(s: Seq<char>) -> Option<RemoteFeature> {
        if s == "on_off"@ {
            Some(RemoteFeature::OnOff)
        } else if s == "toggle"@ {
            Some(RemoteFeature::Toggle)
        } else if s == "send"@ {
            Some(RemoteFeature::Send)
        } else if s == "stop_send"@ {
            Some(RemoteFeature::StopSend)
        } else {
            None
        }
    }

    /// The wire name of the variant.
    pub fn as_str(&self) -> (r: &'static str)
        ensures
            r@ == self.wire_str(),
    {
        match self {
            RemoteFeature::OnOff => "on_off",
            RemoteFeature::Toggle => "toggle",
            RemoteFeature::Send => "send",
            RemoteFeature::StopSend => "stop_send",
        }
    }

    /// Parse a wire name.
    pub fn from_str(s: &str) -> (r: Option<RemoteFeature>)
        ensures
            r == RemoteFeature::spec_from_wire(s@),
    {
        let o = s.to_owned();
        if o == String::from_str("on_off") {
            Some(RemoteFeature::OnOff)
        } else if o == String::from_str("toggle") {
            Some(RemoteFeature::Toggle)
        } else if o == String::from_str("send") {
            Some(RemoteFeature::Send)
        } else if o == String::from_str("stop_send") {
            Some(RemoteFeature::StopSend)
        } else {
            None
        }
    }
}

/// Remote entity commands.
#[derive(Debug, Clone, PartialEq, Eq, Structural)]
pub enum RemoteCommand {
    On,
    Off,
    Toggle,
    Send,
    StopSend,
    SendSequence,
}

impl RemoteCommand {
    /// The wire name of the variant.
    pub open spec fn wire_str(self) -> Seq<char> {
        match self {
            RemoteCommand::On => "on"@,
            RemoteCommand::Off => "off"@,
            RemoteCommand::Toggle => "toggle"@,
            RemoteCommand::Send => "send"@,
            RemoteCommand::StopSend => "stop_send"@,
            RemoteCommand::SendSequence => "send_sequence"@,
        }
    }

    /// The variant a wire name denotes, if any.
    pub open spec fn spec_from_wire(s: Seq<char>) -> Option<RemoteCommand> {
        if s == "on"@ {
            Some(RemoteCommand::On)
        } else if s == "off"@ {
            Some(RemoteCommand::Off)
        } else if s == "toggle"@ {
            Some(RemoteCommand::Toggle)
        } else if s == "send"@ {
            Some(RemoteCommand::Send)
        } else if s == "stop_send"@ {
            Some(RemoteCommand::StopSend)
        } else if s == "send_sequence"@ {
            Some(RemoteCommand::SendSequence)
        } else {
            None
        }
    }

    /// The wire name of the variant.
    pub fn as_str(&self) -> (r: &'static str)
        ensures
            r@ == self.wire_str(),
    {
        match self {
            RemoteCommand::On => "on",
            RemoteCommand::Off => "off",
            RemoteCommand::Toggle => "toggle",
            RemoteCommand::Send => "send",
            RemoteCommand::StopSend => "stop_send",
            RemoteCommand::SendSequence => "send_sequence",
        }
    }

    /// Parse a wire name.
    pub fn from_str(s: &str) -> (r: Option<RemoteCommand>)
        ensures
            r == RemoteCommand::spec_from_wire(s@),
    {
        let o = s.to_owned();
        if o == String::from_str("on") {
            Some(RemoteCommand::On)
        } else if o == String::from_str("off") {
            Some(RemoteCommand::Off)
        } else if o == String::from_str("toggle") {
            Some(RemoteCommand::Toggle)
        } else if o == String::from_str("send") {
            Some(RemoteCommand::Send)
        } else if o == String::from_str("stop_send") {
            Some(RemoteCommand::StopSend)
        } else if o == String::from_str("send_sequence") {
            Some(RemoteCommand::SendSequence)
        } else {
            None
        }
    }
}

/// Remote entity attributes.
#[derive(Debug, Clone, PartialEq, Eq, Structural)]
pub enum RemoteAttribute {
    State,
}

impl RemoteAttribute {
    /// The wire name of the variant.
    pub open spec fn wire_str(self) -> Seq<char> {
        match self {
            RemoteAttribute::State => "state"@,
        }
    }

    /// The variant a wire name denotes, if any.
    pub open spec fn spec_from_wire(s: Seq<char>) -> Option<RemoteAttribute> {
        if s == "state"@ {
            Some(RemoteAttribute::State)
        } else {
            None
        }
    }

    /// The wire name of the variant.
    pub fn as_str(&self) -> (r: &'static str)
        ensures
            r@ == self.wire_str(),
    {
        match self {
            RemoteAttribute::State => "state",
        }
    }

    /// Parse a wire name.
    pub fn from_str(s: &str) -> (r: Option<RemoteAttribute>)
        ensures
            r == RemoteAttribute::spec_from_wire(s@),
    {
        let o = s.to_owned();
        if o == String::from_str("state") {
            Some(RemoteAttribute::State)
        } else {
            None
        }
    }
}

/// The directional-pad feature keeps its irregular wire name through a round
/// trip: it serializes as `dpad`, and parsing `dpad` yields the same variant.
pub proof fn lemma_dpad_wire_round_trip()
    ensures
        MediaPlayerFeature::DPad.wire_str() == "dpad"@,
        MediaPlayerFeature::spec_from_wire("dpad"@) == Some(MediaPlayerFeature::DPad),
{
}

/// Parsing the wire name of a variant yields the variant again: the
/// wire mapping loses nothing.
pub proof fn lemma_entity_type_wire_round_trip(x: EntityType)
    ensures
        EntityType::spec_from_wire(x.wire_str()) == Some(x),
{
    reveal_strlit("button");
    reveal_strlit("switch");
    reveal_strlit("climate");
    reveal_strlit("cover");
    reveal_strlit("light");
    reveal_strlit("media_player");
    reveal_strlit("sensor");
    reveal_strlit("activity");
    reveal_strlit("macro");
    reveal_strlit("remote");
    assert("button"@.len() == 6);
    assert("switch"@.len() == 6);
    assert("climate"@.len() == 7);
    assert("cover"@.len() == 5);
    assert("light"@.len() == 5);
    assert("media_player"@.len() == 12);
    assert("sensor"@.len() == 6);
    assert("activity"@.len() == 8);
    assert("macro"@.len() == 5);
    assert("remote"@.len() == 6);
    assert("button"@[0] == 'b' && "switch"@[0] == 's');
    assert("cover"@[0] == 'c' && "light"@[0] == 'l');
    assert("button"@[0] == 'b' && "sensor"@[0] == 's');
    assert("switch"@[1] == 'w' && "sensor"@[1] == 'e');
    assert("cover"@[0] == 'c' && "macro"@[0] == 'm');
    assert("light"@[0] == 'l' && "macro"@[0] == 'm');
    assert("button"@[0] == 'b' && "remote"@[0] == 'r');
    assert("switch"@[0] == 's' && "remote"@[0] == 'r');
    assert("sensor"@[0] == 's' && "remote"@[0] == 'r');
}

/// Parsing the wire name of a variant yields the variant again: the
/// wire mapping loses nothing.
pub proof fn lemma_button_feature_wire_round_trip(x: ButtonFeature)
    ensures
        ButtonFeature::spec_from_wire(x.wire_str()) == Some(x),
{
    reveal_strlit("press");
    assert("press"@.len() == 5);
}

/// Parsing the wire name of a variant yields the variant again: the
/// wire mapping loses nothing.
pub proof fn lemma_button_command_wire_round_trip(x: ButtonCommand)
    ensures
        ButtonCommand::spec_from_wire(x.wire_str()) == Some(x),
{
    reveal_strlit("push");
    assert("push"@.len() == 4);
}

/// Parsing the wire name of a variant yields the variant again: the
/// wire mapping loses nothing.
pub proof fn lemma_button_attribute_wire_round_trip(x: ButtonAttribute)
    ensures
        ButtonAttribute::spec_from_wire(x.wire_str()) == Some(x),
{
    reveal_strlit("state");
    assert("state"@.len() == 5);
}

/// Parsing the wire name of a variant yields the variant again: the
/// wire mapping loses nothing.
pub proof fn lemma_switch_feature_wire_round_trip(x: SwitchFeature)
    ensures
        SwitchFeature::spec_from_wire(x.wire_str()) == Some(x),
{
    reveal_strlit("on_off");
    reveal_strlit("toggle");
    assert("on_off"@.len() == 6);
    assert("toggle"@.len() == 6);
    assert("on_off"@[0] == 'o' && "toggle"@[0] == 't');
}

/// Parsing the wire name of a variant yields the variant again: the
/// wire mapping loses nothing.
pub proof fn lemma_switch_command_wire_round_trip(x: SwitchCommand)
    ensures
        SwitchCommand::spec_from_wire(x.wire_str()) == Some(x),
{
    reveal_strlit("on");
    reveal_strlit("off");
    reveal_strlit("toggle");
    assert("on"@.len() == 2);
    assert("off"@.len() == 3);
    assert("toggle"@.len() == 6);
}

/// Parsing the wire name of a variant yields the variant again: the
/// wire mapping loses nothing.
pub proof fn lemma_switch_device_class_wire_round_trip(x: SwitchDeviceClass)
    ensures
        SwitchDeviceClass::spec_from_wire(x.wire_str()) == Some(x),
{
    reveal_strlit("outlet");
    reveal_strlit("switch");
    assert("outlet"@.len() == 6);
    assert("switch"@.len() == 6);
    assert("outlet"@[0] == 'o' && "switch"@[0] == 's');
}

/// Parsing the wire name of a variant yields the variant again: the
/// wire mapping loses nothing.
pub proof fn lemma_switch_option_wire_round_trip(x: SwitchOption)
    ensures
        SwitchOption::spec_from_wire(x.wire_str()) == Some(x),
{
    reveal_strlit("readable");
    assert("readable"@.len() == 8);
}

/// Parsing the wire name of a variant yields the variant again: the
/// wire mapping loses nothing.
pub proof fn lemma_switch_attribute_wire_round_trip(x: SwitchAttribute)
    ensures
        SwitchAttribute::spec_from_wire(x.wire_str()) == Some(x),
{
    reveal_strlit("state");
    assert("state"@.len() == 5);
}

/// Parsing the wire name of a variant yields the variant again: the
/// wire mapping loses nothing.
pub proof fn lemma_climate_feature_wire_round_trip(x: ClimateFeature)
    ensures
        ClimateFeature::spec_from_wire(x.wire_str()) == Some(x),
{
    reveal_strlit("on_off");
    reveal_strlit("heat");
    reveal_strlit("cool");
    reveal_strlit("current_temperature");
    reveal_strlit("target_temperature");
    assert("on_off"@.len() == 6);
    assert("heat"@.len() == 4);
    assert("cool"@.len() == 4);
    assert("current_temperature"@.len() == 19);
    assert("target_temperature"@.len() == 18);
    assert("heat"@[0] == 'h' && "cool"@[0] == 'c');
}

/// Parsing the wire name of a variant yields the variant again: the
/// wire mapping loses nothing.
pub proof fn lemma_climate_option_wire_round_trip(x: ClimateOption)
    ensures
        ClimateOption::spec_from_wire(x.wire_str()) == Some(x),
{
    reveal_strlit("temperature_unit");
    reveal_strlit("target_temperature_step");
    reveal_strlit("max_temperature");
    reveal_strlit("min_temperature");
    assert("temperature_unit"@.len() == 16);
    assert("target_temperature_step"@.len() == 23);
    assert("max_temperature"@.len() == 15);
    assert("min_temperature"@.len() == 15);
    assert("max_temperature"@[1] == 'a' && "min_temperature"@[1] == 'i');
}

/// Parsing the wire name of a variant yields the variant again: the
/// wire mapping loses nothing.
pub proof fn lemma_climate_command_wire_round_trip(x: ClimateCommand)
    ensures
        ClimateCommand::spec_from_wire(x.wire_str()) == Some(x),
{
    reveal_strlit("on");
    reveal_strlit("off");
    reveal_strlit("hvac_mode");
    reveal_strlit("target_temperature");
    assert("on"@.len() == 2);
    assert("off"@.len() == 3);
    assert("hvac_mode"@.len() == 9);
    assert("target_temperature"@.len() == 18);
}

/// Parsing the wire name of a variant yields the variant again: the
/// wire mapping loses nothing.
pub proof fn lemma_climate_attribute_wire_round_trip(x: ClimateAttribute)
    ensures
        ClimateAttribute::spec_from_wire(x.wire_str()) == Some(x),
{
    reveal_strlit("state");
    reveal_strlit("current_temperature");
    reveal_strlit("target_temperature");
    reveal_strlit("target_temperature_high");
    reveal_strlit("target_temperature_low");
    reveal_strlit("fan_mode");
    assert("state"@.len() == 5);
    assert("current_temperature"@.len() == 19);
    assert("target_temperature"@.len() == 18);
    assert("target_temperature_high"@.len() == 23);
    assert("target_temperature_low"@.len() == 22);
    assert("fan_mode"@.len() == 8);
}

/// Parsing the wire name of a variant yields the variant again: the
/// wire mapping loses nothing.
pub proof fn lemma_cover_feature_wire_round_trip(x: CoverFeature)
    ensures
        CoverFeature::spec_from_wire(x.wire_str()) == Some(x),
{
    reveal_strlit("open");
    reveal_strlit("close");
    reveal_strlit("stop");
    reveal_strlit("position");
    assert("open"@.len() == 4);
    assert("close"@.len() == 5);
    assert("stop"@.len() == 4);
    assert("position"@.len() == 8);
    assert("open"@[0] == 'o' && "stop"@[0] == 's');
}

/// Parsing the wire name of a variant yields the variant again: the
/// wire mapping loses nothing.
pub proof fn lemma_cover_command_wire_round_trip(x: CoverCommand)
    ensures
        CoverCommand::spec_from_wire(x.wire_str()) == Some(x),
{
    reveal_strlit("open");
    reveal_strlit("close");
    reveal_strlit("stop");
    reveal_strlit("position");
    assert("open"@.len() == 4);
    assert("close"@.len() == 5);
    assert("stop"@.len() == 4);
    assert("position"@.len() == 8);
    assert("open"@[0] == 'o' && "stop"@[0] == 's');
}

/// Parsing the wire name of a variant yields the variant again: the
/// wire mapping loses nothing.
pub proof fn lemma_cover_device_class_wire_round_trip(x: CoverDeviceClass)
    ensures
        CoverDeviceClass::spec_from_wire(x.wire_str()) == Some(x),
{
    reveal_strlit("blind");
    reveal_strlit("curtain");
    reveal_strlit("garage");
    reveal_strlit("shade");
    assert("blind"@.len() == 5);
    assert("curtain"@.len() == 7);
    assert("garage"@.len() == 6);
    assert("shade"@.len() == 5);
    assert("blind"@[0] == 'b' && "shade"@[0] == 's');
}

/// Parsing the wire name of a variant yields the variant again: the
/// wire mapping loses nothing.
pub proof fn lemma_cover_attribute_wire_round_trip(x: CoverAttribute)
    ensures
        CoverAttribute::spec_from_wire(x.wire_str()) == Some(x),
{
    reveal_strlit("state");
    reveal_strlit("position");
    reveal_strlit("tilt_position");
    assert("state"@.len() == 5);
    assert("position"@.len() == 8);
    assert("tilt_position"@.len() == 13);
}

/// Parsing the wire name of a variant yields the variant again: the
/// wire mapping loses nothing.
pub proof fn lemma_light_feature_wire_round_trip(x: LightFeature)
    ensures
        LightFeature::spec_from_wire(x.wire_str()) == Some(x),
{
    reveal_strlit("on_off");
    reveal_strlit("toggle");
    reveal_strlit("dim");
    reveal_strlit("color");
    reveal_strlit("color_temperature");
    assert("on_off"@.len() == 6);
    assert("toggle"@.len() == 6);
    assert("dim"@.len() == 3);
    assert("color"@.len() == 5);
    assert("color_temperature"@.len() == 17);
    assert("on_off"@[0] == 'o' && "toggle"@[0] == 't');
}

/// Parsing the wire name of a variant yields the variant again: the
/// wire mapping loses nothing.
pub proof fn lemma_light_command_wire_round_trip(x: LightCommand)
    ensures
        LightCommand::spec_from_wire(x.wire_str()) == Some(x),
{
    reveal_strlit("on");
    reveal_strlit("off");
    reveal_strlit("toggle");
    assert("on"@.len() == 2);
    assert("off"@.len() == 3);
    assert("toggle"@.len() == 6);
}

/// Parsing the wire name of a variant yields the variant again: the
/// wire mapping loses nothing.
pub proof fn lemma_light_option_wire_round_trip(x: LightOption)
    ensures
        LightOption::spec_from_wire(x.wire_str()) == Some(x),
{
    reveal_strlit("color_temperature_steps");
    assert("color_temperature_steps"@.len() == 23);
}

/// Parsing the wire name of a variant yields the variant again: the
/// wire mapping loses nothing.
pub proof fn lemma_light_attribute_wire_round_trip(x: LightAttribute)
    ensures
        LightAttribute::spec_from_wire(x.wire_str()) == Some(x),
{
    reveal_strlit("state");
    reveal_strlit("hue");
    reveal_strlit("saturation");
    reveal_strlit("brightness");
    reveal_strlit("color_temperature");
    assert("state"@.len() == 5);
    assert("hue"@.len() == 3);
    assert("saturation"@.len() == 10);
    assert("brightness"@.len() == 10);
    assert("color_temperature"@.len() == 17);
    assert("saturation"@[0] == 's' && "brightness"@[0] == 'b');
}

/// Parsing the wire name of a variant yields the variant again: the
/// wire mapping loses nothing.
pub proof fn lemma_media_player_feature_wire_round_trip(x: MediaPlayerFeature)
    ensures
        MediaPlayerFeature::spec_from_wire(x.wire_str()) == Some(x),
{
    reveal_strlit("dpad");
    reveal_strlit("on_off");
    reveal_strlit("toggle");
    reveal_strlit("volume");
    reveal_strlit("volume_up_down");
    reveal_strlit("mute_toggle");
    reveal_strlit("mute");
    reveal_strlit("unmute");
    reveal_strlit("play_pause");
    reveal_strlit("stop");
    reveal_strlit("next");
    reveal_strlit("previous");
    reveal_strlit("fast_forward");
    reveal_strlit("rewind");
    reveal_strlit("repeat");
    reveal_strlit("shuffle");
    reveal_strlit("seek");
    reveal_strlit("media_duration");
    reveal_strlit("media_position");
    reveal_strlit("media_title");
    reveal_strlit("media_artist");
    reveal_strlit("media_album");
    reveal_strlit("media_image_url");
    reveal_strlit("media_type");
    reveal_strlit("numpad");
    reveal_strlit("home");
    reveal_strlit("menu");
    reveal_strlit("context_menu");
    reveal_strlit("guide");
    reveal_strlit("info");
    reveal_strlit("color_buttons");
    reveal_strlit("channel_switcher");
    reveal_strlit("select_source");
    reveal_strlit("select_sound_mode");
    reveal_strlit("eject");
    reveal_strlit("open_close");
    reveal_strlit("audio_track");
    reveal_strlit("subtitle");
    reveal_strlit("record");
    reveal_strlit("settings");
    assert("dpad"@.len() == 4);
    assert("on_off"@.len() == 6);
    assert("toggle"@.len() == 6);
    assert("volume"@.len() == 6);
    assert("volume_up_down"@.len() == 14);
    assert("mute_toggle"@.len() == 11);
    assert("mute"@.len() == 4);
    assert("unmute"@.len() == 6);
    assert("play_pause"@.len() == 10);
    assert("stop"@.len() == 4);
    assert("next"@.len() == 4);
    assert("previous"@.len() == 8);
    assert("fast_forward"@.len() == 12);
    assert("rewind"@.len() == 6);
    assert("repeat"@.len() == 6);
    assert("shuffle"@.len() == 7);
    assert("seek"@.len() == 4);
    assert("media_duration"@.len() == 14);
    assert("media_position"@.len() == 14);
    assert("media_title"@.len() == 11);
    assert("media_artist"@.len() == 12);
    assert("media_album"@.len() == 11);
    assert("media_image_url"@.len() == 15);
    assert("media_type"@.len() == 10);
    assert("numpad"@.len() == 6);
    assert("home"@.len() == 4);
    assert("menu"@.len() == 4);
    assert("context_menu"@.len() == 12);
    assert("guide"@.len() == 5);
    assert("info"@.len() == 4);
    assert("color_buttons"@.len() == 13);
    assert("channel_switcher"@.len() == 16);
    assert("select_source"@.len() == 13);
    assert("select_sound_mode"@.len() == 17);
    assert("eject"@.len() == 5);
    assert("open_close"@.len() == 10);
    assert("audio_track"@.len() == 11);
    assert("subtitle"@.len() == 8);
    assert("record"@.len() == 6);
    assert("settings"@.len() == 8);
    assert("on_off"@[0] == 'o' && "toggle"@[0] == 't');
    assert("on_off"@[0] == 'o' && "volume"@[0] == 'v');
    assert("toggle"@[0] == 't' && "volume"@[0] == 'v');
    assert("dpad"@[0] == 'd' && "mute"@[0] == 'm');
    assert("on_off"@[0] == 'o' && "unmute"@[0] == 'u');
    assert("toggle"@[0] == 't' && "unmute"@[0] == 'u');
    assert("volume"@[0] == 'v' && "unmute"@[0] == 'u');
    assert("dpad"@[0] == 'd' && "stop"@[0] == 's');
    assert("mute"@[0] == 'm' && "stop"@[0] == 's');
    assert("dpad"@[0] == 'd' && "next"@[0] == 'n');
    assert("mute"@[0] == 'm' && "next"@[0] == 'n');
    assert("stop"@[0] == 's' && "next"@[0] == 'n');
    assert("on_off"@[0] == 'o' && "rewind"@[0] == 'r');
    assert("toggle"@[0] == 't' && "rewind"@[0] == 'r');
    assert("volume"@[0] == 'v' && "rewind"@[0] == 'r');
    assert("unmute"@[0] == 'u' && "rewind"@[0] == 'r');
    assert("on_off"@[0] == 'o' && "repeat"@[0] == 'r');
    assert("toggle"@[0] == 't' && "repeat"@[0] == 'r');
    assert("volume"@[0] == 'v' && "repeat"@[0] == 'r');
    assert("unmute"@[0] == 'u' && "repeat"@[0] == 'r');
    assert("rewind"@[2] == 'w' && "repeat"@[2] == 'p');
    assert("dpad"@[0] == 'd' && "seek"@[0] == 's');
    assert("mute"@[0] == 'm' && "seek"@[0] == 's');
    assert("stop"@[1] == 't' && "seek"@[1] == 'e');
    assert("next"@[0] == 'n' && "seek"@[0] == 's');
    assert("volume_up_down"@[0] == 'v' && "media_duration"@[0] == 'm');
    assert("volume_up_down"@[0] == 'v' && "media_position"@[0] == 'm');
    assert("media_duration"@[6] == 'd' && "media_position"@[6] == 'p');
    assert("mute_toggle"@[1] == 'u' && "media_title"@[1] == 'e');
    assert("fast_forward"@[0] == 'f' && "media_artist"@[0] == 'm');
    assert("mute_toggle"@[1] == 'u' && "media_album"@[1] == 'e');
    assert("media_title"@[6] == 't' && "media_album"@[6] == 'a');
    assert("play_pause"@[0] == 'p' && "media_type"@[0] == 'm');
    assert("on_off"@[0] == 'o' && "numpad"@[0] == 'n');
    assert("toggle"@[0] == 't' && "numpad"@[0] == 'n');
    assert("volume"@[0] == 'v' && "numpad"@[0] == 'n');
    assert("unmute"@[0] == 'u' && "numpad"@[0] == 'n');
    assert("rewind"@[0] == 'r' && "numpad"@[0] == 'n');
    assert("repeat"@[0] == 'r' && "numpad"@[0] == 'n');
    assert("dpad"@[0] == 'd' && "home"@[0] == 'h');
    assert("mute"@[0] == 'm' && "home"@[0] == 'h');
    assert("stop"@[0] == 's' && "home"@[0] == 'h');
    assert("next"@[0] == 'n' && "home"@[0] == 'h');
    assert("seek"@[0] == 's' && "home"@[0] == 'h');
    assert("dpad"@[0] == 'd' && "menu"@[0] == 'm');
    assert("mute"@[1] == 'u' && "menu"@[1] == 'e');
    assert("stop"@[0] == 's' && "menu"@[0] == 'm');
    assert("next"@[0] == 'n' && "menu"@[0] == 'm');
    assert("seek"@[0] == 's' && "menu"@[0] == 'm');
    assert("home"@[0] == 'h' && "menu"@[0] == 'm');
    assert("fast_forward"@[0] == 'f' && "context_menu"@[0] == 'c');
    assert("media_artist"@[0] == 'm' && "context_menu"@[0] == 'c');
    assert("dpad"@[0] == 'd' && "info"@[0] == 'i');
    assert("mute"@[0] == 'm' && "info"@[0] == 'i');
    assert("stop"@[0] == 's' && "info"@[0] == 'i');
    assert("next"@[0] == 'n' && "info"@[0] == 'i');
    assert("seek"@[0] == 's' && "info"@[0] == 'i');
    assert("home"@[0] == 'h' && "info"@[0] == 'i');
    assert("menu"@[0] == 'm' && "info"@[0] == 'i');
    assert("color_buttons"@[0] == 'c' && "select_source"@[0] == 's');
    assert("guide"@[0] == 'g' && "eject"@[0] == 'e');
    assert("play_pause"@[0] == 'p' && "open_close"@[0] == 'o');
    assert("media_type"@[0] == 'm' && "open_close"@[0] == 'o');
    assert("mute_toggle"@[0] == 'm' && "audio_track"@[0] == 'a');
    assert("media_title"@[0] == 'm' && "audio_track"@[0] == 'a');
    assert("media_album"@[0] == 'm' && "audio_track"@[0] == 'a');
    assert("previous"@[0] == 'p' && "subtitle"@[0] == 's');
    assert("on_off"@[0] == 'o' && "record"@[0] == 'r');
    assert("toggle"@[0] == 't' && "record"@[0] == 'r');
    assert("volume"@[0] == 'v' && "record"@[0] == 'r');
    assert("unmute"@[0] == 'u' && "record"@[0] == 'r');
    assert("rewind"@[2] == 'w' && "record"@[2] == 'c');
    assert("repeat"@[2] == 'p' && "record"@[2] == 'c');
    assert("numpad"@[0] == 'n' && "record"@[0] == 'r');
    assert("previous"@[0] == 'p' && "settings"@[0] == 's');
    assert("subtitle"@[1] == 'u' && "settings"@[1] == 'e');
}

/// Parsing the wire name of a variant yields the variant again: the
/// wire mapping loses nothing.
pub proof fn lemma_media_player_command_wire_round_trip(x: MediaPlayerCommand)
    ensures
        MediaPlayerCommand::spec_from_wire(x.wire_str()) == Some(x),
{
    reveal_strlit("on");
    reveal_strlit("off");
    reveal_strlit("toggle");
    reveal_strlit("play_pause");
    reveal_strlit("stop");
    reveal_strlit("previous");
    reveal_strlit("next");
    reveal_strlit("fast_forward");
    reveal_strlit("rewind");
    reveal_strlit("seek");
    reveal_strlit("volume");
    reveal_strlit("volume_up");
    reveal_strlit("volume_down");
    reveal_strlit("mute_toggle");
    reveal_strlit("mute");
    reveal_strlit("unmute");
    reveal_strlit("repeat");
    reveal_strlit("shuffle");
    reveal_strlit("channel_up");
    reveal_strlit("channel_down");
    reveal_strlit("cursor_up");
    reveal_strlit("cursor_down");
    reveal_strlit("cursor_left");
    reveal_strlit("cursor_right");
    reveal_strlit("cursor_enter");
    reveal_strlit("digit_0");
    reveal_strlit("digit_1");
    reveal_strlit("digit_2");
    reveal_strlit("digit_3");
    reveal_strlit("digit_4");
    reveal_strlit("digit_5");
    reveal_strlit("digit_6");
    reveal_strlit("digit_7");
    reveal_strlit("digit_8");
    reveal_strlit("digit_9");
    reveal_strlit("function_red");
    reveal_strlit("function_green");
    reveal_strlit("function_yellow");
    reveal_strlit("function_blue");
    reveal_strlit("home");
    reveal_strlit("menu");
    reveal_strlit("context_menu");
    reveal_strlit("guide");
    reveal_strlit("info");
    reveal_strlit("back");
    reveal_strlit("select_source");
    reveal_strlit("select_sound_mode");
    reveal_strlit("record");
    reveal_strlit("my_recordings");
    reveal_strlit("live");
    reveal_strlit("eject");
    reveal_strlit("open_close");
    reveal_strlit("audio_track");
    reveal_strlit("subtitle");
    reveal_strlit("settings");
    assert("on"@.len() == 2);
    assert("off"@.len() == 3);
    assert("toggle"@.len() == 6);
    assert("play_pause"@.len() == 10);
    assert("stop"@.len() == 4);
    assert("previous"@.len() == 8);
    assert("next"@.len() == 4);
    assert("fast_forward"@.len() == 12);
    assert("rewind"@.len() == 6);
    assert("seek"@.len() == 4);
    assert("volume"@.len() == 6);
    assert("volume_up"@.len() == 9);
    assert("volume_down"@.len() == 11);
    assert("mute_toggle"@.len() == 11);
    assert("mute"@.len() == 4);
    assert("unmute"@.len() == 6);
    assert("repeat"@.len() == 6);
    assert("shuffle"@.len() == 7);
    assert("channel_up"@.len() == 10);
    assert("channel_down"@.len() == 12);
    assert("cursor_up"@.len() == 9);
    assert("cursor_down"@.len() == 11);
    assert("cursor_left"@.len() == 11);
    assert("cursor_right"@.len() == 12);
    assert("cursor_enter"@.len() == 12);
    assert("digit_0"@.len() == 7);
    assert("digit_1"@.len() == 7);
    assert("digit_2"@.len() == 7);
    assert("digit_3"@.len() == 7);
    assert("digit_4"@.len() == 7);
    assert("digit_5"@.len() == 7);
    assert("digit_6"@.len() == 7);
    assert("digit_7"@.len() == 7);
    assert("digit_8"@.len() == 7);
    assert("digit_9"@.len() == 7);
    assert("function_red"@.len() == 12);
    assert("function_green"@.len() == 14);
    assert("function_yellow"@.len() == 15);
    assert("function_blue"@.len() == 13);
    assert("home"@.len() == 4);
    assert("menu"@.len() == 4);
    assert("context_menu"@.len() == 12);
    assert("guide"@.len() == 5);
    assert("info"@.len() == 4);
    assert("back"@.len() == 4);
    assert("select_source"@.len() == 13);
    assert("select_sound_mode"@.len() == 17);
    assert("record"@.len() == 6);
    assert("my_recordings"@.len() == 13);
    assert("live"@.len() == 4);
    assert("eject"@.len() == 5);
    assert("open_close"@.len() == 10);
    assert("audio_track"@.len() == 11);
    assert("subtitle"@.len() == 8);
    assert("settings"@.len() == 8);
    assert("stop"@[0] == 's' && "next"@[0] == 'n');
    assert("toggle"@[0] == 't' && "rewind"@[0] == 'r');
    assert("stop"@[1] == 't' && "seek"@[1] == 'e');
    assert("next"@[0] == 'n' && "seek"@[0] == 's');
    assert("toggle"@[0] == 't' && "volume"@[0] == 'v');
    assert("rewind"@[0] == 'r' && "volume"@[0] == 'v');
    assert("volume_down"@[0] == 'v' && "mute_toggle"@[0] == 'm');
    assert("stop"@[0] == 's' && "mute"@[0] == 'm');
    assert("next"@[0] == 'n' && "mute"@[0] == 'm');
    assert("seek"@[0] == 's' && "mute"@[0] == 'm');
    assert("toggle"@[0] == 't' && "unmute"@[0] == 'u');
    assert("rewind"@[0] == 'r' && "unmute"@[0] == 'u');
    assert("volume"@[0] == 'v' && "unmute"@[0] == 'u');
    assert("toggle"@[0] == 't' && "repeat"@[0] == 'r');
    assert("rewind"@[2] == 'w' && "repeat"@[2] == 'p');
    assert("volume"@[0] == 'v' && "repeat"@[0] == 'r');
    assert("unmute"@[0] == 'u' && "repeat"@[0] == 'r');
    assert("play_pause"@[0] == 'p' && "channel_up"@[0] == 'c');
    assert("fast_forward"@[0] == 'f' && "channel_down"@[0] == 'c');
    assert("volume_up"@[0] == 'v' && "cursor_up"@[0] == 'c');
    assert("volume_down"@[0] == 'v' && "cursor_down"@[0] == 'c');
    assert("mute_toggle"@[0] == 'm' && "cursor_down"@[0] == 'c');
    assert("volume_down"@[0] == 'v' && "cursor_left"@[0] == 'c');
    assert("mute_toggle"@[0] == 'm' && "cursor_left"@[0] == 'c');
    assert("cursor_down"@[7] == 'd' && "cursor_left"@[7] == 'l');
    assert("fast_forward"@[0] == 'f' && "cursor_right"@[0] == 'c');
    assert("channel_down"@[1] == 'h' && "cursor_right"@[1] == 'u');
    assert("fast_forward"@[0] == 'f' && "cursor_enter"@[0] == 'c');
    assert("channel_down"@[1] == 'h' && "cursor_enter"@[1] == 'u');
    assert("cursor_right"@[7] == 'r' && "cursor_enter"@[7] == 'e');
    assert("shuffle"@[0] == 's' && "digit_0"@[0] == 'd');
    assert("shuffle"@[0] == 's' && "digit_1"@[0] == 'd');
    assert("digit_0"@[6] == '0' && "digit_1"@[6] == '1');
    assert("shuffle"@[0] == 's' && "digit_2"@[0] == 'd');
    assert("digit_0"@[6] == '0' && "digit_2"@[6] == '2');
    assert("digit_1"@[6] == '1' && "digit_2"@[6] == '2');
    assert("shuffle"@[0] == 's' && "digit_3"@[0] == 'd');
    assert("digit_0"@[6] == '0' && "digit_3"@[6] == '3');
    assert("digit_1"@[6] == '1' && "digit_3"@[6] == '3');
    assert("digit_2"@[6] == '2' && "digit_3"@[6] == '3');
    assert("shuffle"@[0] == 's' && "digit_4"@[0] == 'd');
    assert("digit_0"@[6] == '0' && "digit_4"@[6] == '4');
    assert("digit_1"@[6] == '1' && "digit_4"@[6] == '4');
    assert("digit_2"@[6] == '2' && "digit_4"@[6] == '4');
    assert("digit_3"@[6] == '3' && "digit_4"@[6] == '4');
    assert("shuffle"@[0] == 's' && "digit_5"@[0] == 'd');
    assert("digit_0"@[6] == '0' && "digit_5"@[6] == '5');
    assert("digit_1"@[6] == '1' && "digit_5"@[6] == '5');
    assert("digit_2"@[6] == '2' && "digit_5"@[6] == '5');
    assert("digit_3"@[6] == '3' && "digit_5"@[6] == '5');
    assert("digit_4"@[6] == '4' && "digit_5"@[6] == '5');
    assert("shuffle"@[0] == 's' && "digit_6"@[0] == 'd');
    assert("digit_0"@[6] == '0' && "digit_6"@[6] == '6');
    assert("digit_1"@[6] == '1' && "digit_6"@[6] == '6');
    assert("digit_2"@[6] == '2' && "digit_6"@[6] == '6');
    assert("digit_3"@[6] == '3' && "digit_6"@[6] == '6');
    assert("digit_4"@[6] == '4' && "digit_6"@[6] == '6');
    assert("digit_5"@[6] == '5' && "digit_6"@[6] == '6');
    assert("shuffle"@[0] == 's' && "digit_7"@[0] == 'd');
    assert("digit_0"@[6] == '0' && "digit_7"@[6] == '7');
    assert("digit_1"@[6] == '1' && "digit_7"@[6] == '7');
    assert("digit_2"@[6] == '2' && "digit_7"@[6] == '7');
    assert("digit_3"@[6] == '3' && "digit_7"@[6] == '7');
    assert("digit_4"@[6] == '4' && "digit_7"@[6] == '7');
    assert("digit_5"@[6] == '5' && "digit_7"@[6] == '7');
    assert("digit_6"@[6] == '6' && "digit_7"@[6] == '7');
    assert("shuffle"@[0] == 's' && "digit_8"@[0] == 'd');
    assert("digit_0"@[6] == '0' && "digit_8"@[6] == '8');
    assert("digit_1"@[6] == '1' && "digit_8"@[6] == '8');
    assert("digit_2"@[6] == '2' && "digit_8"@[6] == '8');
    assert("digit_3"@[6] == '3' && "digit_8"@[6] == '8');
    assert("digit_4"@[6] == '4' && "digit_8"@[6] == '8');
    assert("digit_5"@[6] == '5' && "digit_8"@[6] == '8');
    assert("digit_6"@[6] == '6' && "digit_8"@[6] == '8');
    assert("digit_7"@[6] == '7' && "digit_8"@[6] == '8');
    assert("shuffle"@[0] == 's' && "digit_9"@[0] == 'd');
    assert("digit_0"@[6] == '0' && "digit_9"@[6] == '9');
    assert("digit_1"@[6] == '1' && "digit_9"@[6] == '9');
    assert("digit_2"@[6] == '2' && "digit_9"@[6] == '9');
    assert("digit_3"@[6] == '3' && "digit_9"@[6] == '9');
    assert("digit_4"@[6] == '4' && "digit_9"@[6] == '9');
    assert("digit_5"@[6] == '5' && "digit_9"@[6] == '9');
    assert("digit_6"@[6] == '6' && "digit_9"@[6] == '9');
    assert("digit_7"@[6] == '7' && "digit_9"@[6] == '9');
    assert("digit_8"@[6] == '8' && "digit_9"@[6] == '9');
    assert("fast_forward"@[1] == 'a' && "function_red"@[1] == 'u');
    assert("channel_down"@[0] == 'c' && "function_red"@[0] == 'f');
    assert("cursor_right"@[0] == 'c' && "function_red"@[0] == 'f');
    assert("cursor_enter"@[0] == 'c' && "function_red"@[0] == 'f');
    assert("stop"@[0] == 's' && "home"@[0] == 'h');
    assert("next"@[0] == 'n' && "home"@[0] == 'h');
    assert("seek"@[0] == 's' && "home"@[0] == 'h');
    assert("mute"@[0] == 'm' && "home"@[0] == 'h');
    assert("stop"@[0] == 's' && "menu"@[0] == 'm');
    assert("next"@[0] == 'n' && "menu"@[0] == 'm');
    assert("seek"@[0] == 's' && "menu"@[0] == 'm');
    assert("mute"@[1] == 'u' && "menu"@[1] == 'e');
    assert("home"@[0] == 'h' && "menu"@[0] == 'm');
    assert("fast_forward"@[0] == 'f' && "context_menu"@[0] == 'c');
    assert("channel_down"@[1] == 'h' && "context_menu"@[1] == 'o');
    assert("cursor_right"@[1] == 'u' && "context_menu"@[1] == 'o');
    assert("cursor_enter"@[1] == 'u' && "context_menu"@[1] == 'o');
    assert("function_red"@[0] == 'f' && "context_menu"@[0] == 'c');
    assert("stop"@[0] == 's' && "info"@[0] == 'i');
    assert("next"@[0] == 'n' && "info"@[0] == 'i');
    assert("seek"@[0] == 's' && "info"@[0] == 'i');
    assert("mute"@[0] == 'm' && "info"@[0] == 'i');
    assert("home"@[0] == 'h' && "info"@[0] == 'i');
    assert("menu"@[0] == 'm' && "info"@[0] == 'i');
    assert("stop"@[0] == 's' && "back"@[0] == 'b');
    assert("next"@[0] == 'n' && "back"@[0] == 'b');
    assert("seek"@[0] == 's' && "back"@[0] == 'b');
    assert("mute"@[0] == 'm' && "back"@[0] == 'b');
    assert("home"@[0] == 'h' && "back"@[0] == 'b');
    assert("menu"@[0] == 'm' && "back"@[0] == 'b');
    assert("info"@[0] == 'i' && "back"@[0] == 'b');
    assert("function_blue"@[0] == 'f' && "select_source"@[0] == 's');
    assert("toggle"@[0] == 't' && "record"@[0] == 'r');
    assert("rewind"@[2] == 'w' && "record"@[2] == 'c');
    assert("volume"@[0] == 'v' && "record"@[0] == 'r');
    assert("unmute"@[0] == 'u' && "record"@[0] == 'r');
    assert("repeat"@[2] == 'p' && "record"@[2] == 'c');
    assert("function_blue"@[0] == 'f' && "my_recordings"@[0] == 'm');
    assert("select_source"@[0] == 's' && "my_recordings"@[0] == 'm');
    assert("stop"@[0] == 's' && "live"@[0] == 'l');
    assert("next"@[0] == 'n' && "live"@[0] == 'l');
    assert("seek"@[0] == 's' && "live"@[0] == 'l');
    assert("mute"@[0] == 'm' && "live"@[0] == 'l');
    assert("home"@[0] == 'h' && "live"@[0] == 'l');
    assert("menu"@[0] == 'm' && "live"@[0] == 'l');
    assert("info"@[0] == 'i' && "live"@[0] == 'l');
    assert("back"@[0] == 'b' && "live"@[0] == 'l');
    assert("guide"@[0] == 'g' && "eject"@[0] == 'e');
    assert("play_pause"@[0] == 'p' && "open_close"@[0] == 'o');
    assert("channel_up"@[0] == 'c' && "open_close"@[0] == 'o');
    assert("volume_down"@[0] == 'v' && "audio_track"@[0] == 'a');
    assert("mute_toggle"@[0] == 'm' && "audio_track"@[0] == 'a');
    assert("cursor_down"@[0] == 'c' && "audio_track"@[0] == 'a');
    assert("cursor_left"@[0] == 'c' && "audio_track"@[0] == 'a');
    assert("previous"@[0] == 'p' && "subtitle"@[0] == 's');
    assert("previous"@[0] == 'p' && "settings"@[0] == 's');
    assert("subtitle"@[1] == 'u' && "settings"@[1] == 'e');
}

/// Parsing the wire name of a variant yields the variant again: the
/// wire mapping loses nothing.
pub proof fn lemma_media_player_device_class_wire_round_trip(x: MediaPlayerDeviceClass)
    ensures
        MediaPlayerDeviceClass::spec_from_wire(x.wire_str()) == Some(x),
{
    reveal_strlit("receiver");
    reveal_strlit("set_top_box");
    reveal_strlit("speaker");
    reveal_strlit("streaming_box");
    reveal_strlit("tv");
    assert("receiver"@.len() == 8);
    assert("set_top_box"@.len() == 11);
    assert("speaker"@.len() == 7);
    assert("streaming_box"@.len() == 13);
    assert("tv"@.len() == 2);
}

/// Parsing the wire name of a variant yields the variant again: the
/// wire mapping loses nothing.
pub proof fn lemma_media_player_option_wire_round_trip(x: MediaPlayerOption)
    ensures
        MediaPlayerOption::spec_from_wire(x.wire_str()) == Some(x),
{
    reveal_strlit("simple_commands");
    reveal_strlit("volume_steps");
    assert("simple_commands"@.len() == 15);
    assert("volume_steps"@.len() == 12);
}

/// Parsing the wire name of a variant yields the variant again: the
/// wire mapping loses nothing.
pub proof fn lemma_media_type_wire_round_trip(x: MediaType)
    ensures
        MediaType::spec_from_wire(x.wire_str()) == Some(x),
{
    reveal_strlit("MUSIC");
    reveal_strlit("RADIO");
    reveal_strlit("TVSHOW");
    reveal_strlit("MOVIE");
    reveal_strlit("VIDEO");
    assert("MUSIC"@.len() == 5);
    assert("RADIO"@.len() == 5);
    assert("TVSHOW"@.len() == 6);
    assert("MOVIE"@.len() == 5);
    assert("VIDEO"@.len() == 5);
    assert("MUSIC"@[0] == 'M' && "RADIO"@[0] == 'R');
    assert("MUSIC"@[1] == 'U' && "MOVIE"@[1] == 'O');
    assert("RADIO"@[0] == 'R' && "MOVIE"@[0] == 'M');
    assert("MUSIC"@[0] == 'M' && "VIDEO"@[0] == 'V');
    assert("RADIO"@[0] == 'R' && "VIDEO"@[0] == 'V');
    assert("MOVIE"@[0] == 'M' && "VIDEO"@[0] == 'V');
}

/// Parsing the wire name of a variant yields the variant again: the
/// wire mapping loses nothing.
pub proof fn lemma_media_player_repeat_mode_wire_round_trip(x: MediaPlayerRepeatMode)
    ensures
        MediaPlayerRepeatMode::spec_from_wire(x.wire_str()) == Some(x),
{
    reveal_strlit("off");
    reveal_strlit("all");
    reveal_strlit("one");
    assert("off"@.len() == 3);
    assert("all"@.len() == 3);
    assert("one"@.len() == 3);
    assert("off"@[0] == 'o' && "all"@[0] == 'a');
    assert("off"@[1] == 'f' && "one"@[1] == 'n');
    assert("all"@[0] == 'a' && "one"@[0] == 'o');
}

/// Parsing the wire name of a variant yields the variant again: the
/// wire mapping loses nothing.
pub proof fn lemma_media_player_attribute_wire_round_trip(x: MediaPlayerAttribute)
    ensures
        MediaPlayerAttribute::spec_from_wire(x.wire_str()) == Some(x),
{
    reveal_strlit("state");
    reveal_strlit("volume");
    reveal_strlit("muted");
    reveal_strlit("media_position");
    reveal_strlit("media_duration");
    reveal_strlit("media_title");
    reveal_strlit("media_artist");
    reveal_strlit("media_album");
    reveal_strlit("media_image_url");
    reveal_strlit("media_image_url_small");
    reveal_strlit("media_image_url_medium");
    reveal_strlit("media_image_url_large");
    reveal_strlit("media_type");
    reveal_strlit("repeat");
    reveal_strlit("shuffle");
    reveal_strlit("source");
    reveal_strlit("source_list");
    reveal_strlit("sound_mode");
    reveal_strlit("sound_mode_list");
    assert("state"@.len() == 5);
    assert("volume"@.len() == 6);
    assert("muted"@.len() == 5);
    assert("media_position"@.len() == 14);
    assert("media_duration"@.len() == 14);
    assert("media_title"@.len() == 11);
    assert("media_artist"@.len() == 12);
    assert("media_album"@.len() == 11);
    assert("media_image_url"@.len() == 15);
    assert("media_image_url_small"@.len() == 21);
    assert("media_image_url_medium"@.len() == 22);
    assert("media_image_url_large"@.len() == 21);
    assert("media_type"@.len() == 10);
    assert("repeat"@.len() == 6);
    assert("shuffle"@.len() == 7);
    assert("source"@.len() == 6);
    assert("source_list"@.len() == 11);
    assert("sound_mode"@.len() == 10);
    assert("sound_mode_list"@.len() == 15);
    assert("state"@[0] == 's' && "muted"@[0] == 'm');
    assert("media_position"@[6] == 'p' && "media_duration"@[6] == 'd');
    assert("media_title"@[6] == 't' && "media_album"@[6] == 'a');
    assert("media_image_url_small"@[16] == 's' && "media_image_url_large"@[16] == 'l');
    assert("volume"@[0] == 'v' && "repeat"@[0] == 'r');
    assert("volume"@[0] == 'v' && "source"@[0] == 's');
    assert("repeat"@[0] == 'r' && "source"@[0] == 's');
    assert("media_title"@[0] == 'm' && "source_list"@[0] == 's');
    assert("media_album"@[0] == 'm' && "source_list"@[0] == 's');
    assert("media_type"@[0] == 'm' && "sound_mode"@[0] == 's');
    assert("media_image_url"@[0] == 'm' && "sound_mode_list"@[0] == 's');
}

/// Parsing the wire name of a variant yields the variant again: the
/// wire mapping loses nothing.
pub proof fn lemma_sensor_option_wire_round_trip(x: SensorOption)
    ensures
        SensorOption::spec_from_wire(x.wire_str()) == Some(x),
{
    reveal_strlit("custom_label");
    reveal_strlit("custom_unit");
    reveal_strlit("native_unit");
    reveal_strlit("decimals");
    assert("custom_label"@.len() == 12);
    assert("custom_unit"@.len() == 11);
    assert("native_unit"@.len() == 11);
    assert("decimals"@.len() == 8);
    assert("custom_unit"@[0] == 'c' && "native_unit"@[0] == 'n');
}

/// Parsing the wire name of a variant yields the variant again: the
/// wire mapping loses nothing.
pub proof fn lemma_sensor_device_class_wire_round_trip(x: SensorDeviceClass)
    ensures
        SensorDeviceClass::spec_from_wire(x.wire_str()) == Some(x),
{
    reveal_strlit("custom");
    reveal_strlit("battery");
    reveal_strlit("current");
    reveal_strlit("energy");
    reveal_strlit("humidity");
    reveal_strlit("power");
    reveal_strlit("temperature");
    reveal_strlit("voltage");
    assert("custom"@.len() == 6);
    assert("battery"@.len() == 7);
    assert("current"@.len() == 7);
    assert("energy"@.len() == 6);
    assert("humidity"@.len() == 8);
    assert("power"@.len() == 5);
    assert("temperature"@.len() == 11);
    assert("voltage"@.len() == 7);
    assert("battery"@[0] == 'b' && "current"@[0] == 'c');
    assert("custom"@[0] == 'c' && "energy"@[0] == 'e');
    assert("battery"@[0] == 'b' && "voltage"@[0] == 'v');
    assert("current"@[0] == 'c' && "voltage"@[0] == 'v');
}

/// Parsing the wire name of a variant yields the variant again: the
/// wire mapping loses nothing.
pub proof fn lemma_sensor_attribute_wire_round_trip(x: SensorAttribute)
    ensures
        SensorAttribute::spec_from_wire(x.wire_str()) == Some(x),
{
    reveal_strlit("state");
    reveal_strlit("value");
    reveal_strlit("unit");
    assert("state"@.len() == 5);
    assert("value"@.len() == 5);
    assert("unit"@.len() == 4);
    assert("state"@[0] == 's' && "value"@[0] == 'v');
}

/// Parsing the wire name of a variant yields the variant again: the
/// wire mapping loses nothing.
pub proof fn lemma_activity_feature_wire_round_trip(x: ActivityFeature)
    ensures
        ActivityFeature::spec_from_wire(x.wire_str()) == Some(x),
{
    reveal_strlit("on_off");
    reveal_strlit("start");
    assert("on_off"@.len() == 6);
    assert("start"@.len() == 5);
}

/// Parsing the wire name of a variant yields the variant again: the
/// wire mapping loses nothing.
pub proof fn lemma_activity_command_wire_round_trip(x: ActivityCommand)
    ensures
        ActivityCommand::spec_from_wire(x.wire_str()) == Some(x),
{
    reveal_strlit("on");
    reveal_strlit("off");
    reveal_strlit("start");
    assert("on"@.len() == 2);
    assert("off"@.len() == 3);
    assert("start"@.len() == 5);
}

/// Parsing the wire name of a variant yields the variant again: the
/// wire mapping loses nothing.
pub proof fn lemma_macro_feature_wire_round_trip(x: MacroFeature)
    ensures
        MacroFeature::spec_from_wire(x.wire_str()) == Some(x),
{
    reveal_strlit("run");
    assert("run"@.len() == 3);
}

/// Parsing the wire name of a variant yields the variant again: the
/// wire mapping loses nothing.
pub proof fn lemma_macro_command_wire_round_trip(x: MacroCommand)
    ensures
        MacroCommand::spec_from_wire(x.wire_str()) == Some(x),
{
    reveal_strlit("run");
    assert("run"@.len() == 3);
}

/// Parsing the wire name of a variant yields the variant again: the
/// wire mapping loses nothing.
pub proof fn lemma_remote_feature_wire_round_trip(x: RemoteFeature)
    ensures
        RemoteFeature::spec_from_wire(x.wire_str()) == Some(x),
{
    reveal_strlit("on_off");
    reveal_strlit("toggle");
    reveal_strlit("send");
    reveal_strlit("stop_send");
    assert("on_off"@.len() == 6);
    assert("toggle"@.len() == 6);
    assert("send"@.len() == 4);
    assert("stop_send"@.len() == 9);
    assert("on_off"@[0] == 'o' && "toggle"@[0] == 't');
}

/// Parsing the wire name of a variant yields the variant again: the
/// wire mapping loses nothing.
pub proof fn lemma_remote_command_wire_round_trip(x: RemoteCommand)
    ensures
        RemoteCommand::spec_from_wire(x.wire_str()) == Some(x),
{
    reveal_strlit("on");
    reveal_strlit("off");
    reveal_strlit("toggle");
    reveal_strlit("send");
    reveal_strlit("stop_send");
    reveal_strlit("send_sequence");
    assert("on"@.len() == 2);
    assert("off"@.len() == 3);
    assert("toggle"@.len() == 6);
    assert("send"@.len() == 4);
    assert("stop_send"@.len() == 9);
    assert("send_sequence"@.len() == 13);
}

/// Parsing the wire name of a variant yields the variant again: the
/// wire mapping loses nothing.
pub proof fn lemma_remote_attribute_wire_round_trip(x: RemoteAttribute)
    ensures
        RemoteAttribute::spec_from_wire(x.wire_str()) == Some(x),
{
    reveal_strlit("state");
    assert("state"@.len() == 5);
}

} // verus!
