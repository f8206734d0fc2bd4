use vstd::prelude::*;
use vstd::string::StringExecFns;
use crate::app::message_handling::GuiMessage;
use crate::dialog::CardStyle;
use crate::errors::LoreGuiError;

verus! {

/// The dialog that shows an error until the user dismisses it.
#[derive(Debug, Clone, PartialEq, Eq)]
pub struct ErrorDialog {
    pub error: LoreGuiError,
}

impl ErrorDialog {
    pub fn new(error: LoreGuiError) -> (dialog: Self)
        ensures
            dialog.error == error,
    {
        ErrorDialog { error }
    }

    /// How the dialog is framed: as an error.
    pub fn card_style(&self) -> (style: CardStyle)
        ensures
            style == CardStyle::Error,
    {
        CardStyle::Error
    }

    /// The title of the dialog.
    pub fn header(&self) -> (title: String)
        ensures
            title@ == "Error"@,
    {
        String::from_str("Error")
    }

    /// The text of the dialog: the error as it is shown.
    pub fn text(&self) -> (text: String)
        ensures
            text@ == self.error.heading() + self.error.detail(),
    {
        self.error.to_text()
    }

    /// The message that the dialog sends when it is dismissed.
    pub fn submit(self) -> (message: GuiMessage)
        ensures
            message == GuiMessage::DialogClosed,
    {
        GuiMessage::DialogClosed
    }
}

} // verus!
