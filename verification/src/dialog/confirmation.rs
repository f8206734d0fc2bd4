use vstd::prelude::*;
use vstd::string::StringExecFns;
use crate::app::message_handling::GuiMessage;
use crate::dialog::CardStyle;

verus! {

/// A question with two answers: "yes" sends the message that the dialog was
/// made with, "no" closes the dialog.
#[derive(Debug, Clone, PartialEq, Eq)]
pub struct ConfirmationDialog {
    pub message: String,
    pub on_confirm: GuiMessage,
}

impl ConfirmationDialog {
    pub fn new(message: String, on_confirm: GuiMessage) -> (dialog: Self)
        ensures
            dialog.message == message,
            dialog.on_confirm == on_confirm,
    {
        Self { message, on_confirm }
    }

    /// How the dialog is framed: as a warning.
    pub fn card_style(&self) -> (style: CardStyle)
        ensures
            style == CardStyle::Warning,
    {
        CardStyle::Warning
    }

    /// The title of the dialog.
    pub fn header(&self) -> (title: String)
        ensures
            title@ == "Confirmation"@,
    {
        String::from_str("Confirmation")
    }

    /// The message that the dialog sends when the user confirms.
    pub fn submit(self) -> (message: GuiMessage)
        ensures
            message == self.on_confirm,
    {
        self.on_confirm
    }
}

} // verus!
