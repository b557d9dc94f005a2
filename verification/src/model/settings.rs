//! Settings and confirmation page models for driver setup flows.
//!
//! Number-valued input fields, and the setting pages that embed them, carry
//! floating-point defaults and live with the callers instead.

use vstd::prelude::*;

verus! {

/// Confirmation screen, e.g. to agree with something when setting up an
/// integration driver.
#[derive(Debug, Clone)]
pub struct ConfirmationPage {
    /// Page title, as language texts.
    pub title: Vec<(String, String)>,
    /// Message to display between title and image (if supplied), as language
    /// texts. Supports Markdown formatting.
    pub message1: Option<Vec<(String, String)>>,
    /// Optional base64-encoded image (png or jpg).
    pub image: Option<String>,
    /// Message to display below `message1` or the image (if supplied), as
    /// language texts. Supports Markdown formatting.
    pub message2: Option<Vec<(String, String)>>,
}

/// Single line of text input.
#[derive(Debug, Clone)]
pub struct Text {
    /// Optional default value.
    pub value: Option<String>,
    /// Optional regex validation pattern for the input value.
    pub regex: Option<String>,
}

/// Multi-line text input, e.g. for providing a description.
#[derive(Debug, Clone)]
pub struct Textarea {
    /// Optional default value.
    pub value: Option<String>,
}

/// Password or pin entry field with the input text hidden from the user.
/// Otherwise the same as text input.
#[derive(Debug, Clone)]
pub struct Password {
    /// Optional default value.
    pub value: Option<String>,
    /// Optional regex validation pattern for the input value.
    pub regex: Option<String>,
}

/// Checkbox setting with `true` / `false` values.
#[derive(Debug, Clone)]
pub struct Checkbox {
    /// Initial setting.
    pub value: bool,
}

/// Dropdown setting to pick a single value from a list. All values are
/// strings.
#[derive(Debug, Clone)]
pub struct Dropdown {
    /// Pre-selected dropdown id.
    pub value: Option<String>,
    pub items: Vec<DropdownItem>,
}

/// A single selectable dropdown entry.
#[derive(Debug, Clone)]
pub struct DropdownItem {
    /// Selection identifier.
    pub id: String,
    /// Entry text, as language texts.
    pub label: Vec<(String, String)>,
}

/// Additional read-only text for information purpose between other settings.
/// Supports Markdown formatting.
#[derive(Debug, Clone)]
pub struct Label {
    /// Static text to display next to the label, as language texts.
    pub value: Vec<(String, String)>,
}

} // verus!
