use vstd::prelude::*;
use crate::app::message_handling::GuiMessage;
use crate::dialog::change_role::ChangeRoleDialog;
use crate::dialog::confirmation::ConfirmationDialog;
use crate::dialog::error::ErrorDialog;
use crate::dialog::new_descriptor::NewDescriptorDialog;
use crate::dialog::new_entity::NewEntityDialog;
use crate::dialog::new_history_item::NewHistoryDialog;
use crate::dialog::new_relationship::NewRelationshipDialog;
use crate::dialog::redate_history::RedateHistoryDialog;
use crate::dialog::relabel_entity::RelabelEntityDialog;
use crate::dialog::rename_descriptor::RenameDescriptorDialog;
use crate::errors::LoreGuiError;
use crate::history_view::day::Day;
use crate::number_text::decimal_text;

pub mod change_role;
pub mod confirmation;
pub mod error;
pub mod new_descriptor;
pub mod new_entity;
pub mod new_history_item;
pub mod new_relationship;
pub mod redate_history;
pub mod relabel_entity;
pub mod rename_descriptor;

verus! {

/// How a dialog is framed.
#[derive(Clone, Copy, Debug, PartialEq, Eq, Structural)]
pub enum CardStyle {
    Primary,
    Warning,
    Error,
}

/// A change to one field of the dialog that is open. A year or a day comes
/// as the user's text was read: as a value, or as the reason why it is none.
#[derive(Debug, PartialEq, Eq)]
pub enum DialogUpdate {
    Category(String),
    Child(String),
    Content(String),
    Day(Result<Day, LoreGuiError>),
    Description(String),
    Descriptor(String),
    Label(String),
    Name(String),
    Parent(String),
    Role(String),
    Year(Result<i32, LoreGuiError>),
}

impl Clone for DialogUpdate {
    fn clone(&self) -> (copy: Self)
        ensures
            copy == *self,
    {
        match self {
            DialogUpdate::Category(text) => DialogUpdate::Category(text.clone()),
            DialogUpdate::Child(text) => DialogUpdate::Child(text.clone()),
            DialogUpdate::Content(text) => DialogUpdate::Content(text.clone()),
            DialogUpdate::Day(Ok(day)) => DialogUpdate::Day(Ok(*day)),
            DialogUpdate::Day(Err(error)) => DialogUpdate::Day(Err(error.clone())),
            DialogUpdate::Description(text) => DialogUpdate::Description(text.clone()),
            DialogUpdate::Descriptor(text) => DialogUpdate::Descriptor(text.clone()),
            DialogUpdate::Label(text) => DialogUpdate::Label(text.clone()),
            DialogUpdate::Name(text) => DialogUpdate::Name(text.clone()),
            DialogUpdate::Parent(text) => DialogUpdate::Parent(text.clone()),
            DialogUpdate::Role(text) => DialogUpdate::Role(text.clone()),
            DialogUpdate::Year(Ok(year)) => DialogUpdate::Year(Ok(*year)),
            DialogUpdate::Year(Err(error)) => DialogUpdate::Year(Err(error.clone())),
        }
    }
}

/// The dialogs, each with the form it holds.
#[derive(Debug, Clone, PartialEq, Eq)]
pub enum Dialog {
    NewEntity(NewEntityDialog),
    RelabelEntity(RelabelEntityDialog),
    NewDescriptor(NewDescriptorDialog),
    RenameDescriptor(RenameDescriptorDialog),
    NewHistory(NewHistoryDialog),
    RedateHistory(RedateHistoryDialog),
    NewRelationship(NewRelationshipDialog),
    ChangeRole(ChangeRoleDialog),
    Confirmation(ConfirmationDialog),
    Error(ErrorDialog),
}

impl Dialog {
    /// The dialog after one field was changed. Dialogs without fields, and
    /// fields that the dialog does not have, take no change.
    pub open spec fn updated(self, update: DialogUpdate) -> Dialog {
        match self {
            Dialog::NewEntity(d) => Dialog::NewEntity(
                NewEntityDialog { data: d.data.updated(update) },
            ),
            Dialog::RelabelEntity(d) => Dialog::RelabelEntity(
                RelabelEntityDialog { data: d.data.updated(update) },
            ),
            Dialog::NewDescriptor(d) => Dialog::NewDescriptor(
                NewDescriptorDialog { data: d.data.updated(update) },
            ),
            Dialog::RenameDescriptor(d) => Dialog::RenameDescriptor(
                RenameDescriptorDialog { data: d.data.updated(update) },
            ),
            Dialog::NewHistory(d) => Dialog::NewHistory(
                NewHistoryDialog { data: d.data.updated(update) },
            ),
            Dialog::RedateHistory(d) => Dialog::RedateHistory(
                RedateHistoryDialog { data: d.data.updated(update) },
            ),
            Dialog::NewRelationship(d) => Dialog::NewRelationship(
                NewRelationshipDialog { data: d.data.updated(update), ..d },
            ),
            Dialog::ChangeRole(d) => Dialog::ChangeRole(
                ChangeRoleDialog { data: d.data.updated(update) },
            ),
            Dialog::Confirmation(d) => self,
            Dialog::Error(d) => self,
        }
    }

    /// What keeps the dialog from being submitted: a required field that is
    /// empty. Dialogs without required fields can always be submitted.
    pub open spec fn flaw(self) -> Option<Seq<char>> {
        match self {
            Dialog::NewEntity(d) => d.data.flaw(),
            Dialog::RelabelEntity(d) => d.data.flaw(),
            Dialog::NewDescriptor(d) => d.data.flaw(),
            Dialog::RenameDescriptor(d) => d.data.flaw(),
            Dialog::NewRelationship(d) => d.data.flaw(),
            _ => None,
        }
    }

    /// The message that the dialog sends when it is submitted.
    pub open spec fn message(self) -> GuiMessage {
        match self {
            Dialog::NewEntity(d) => GuiMessage::NewEntity(d.data),
            Dialog::RelabelEntity(d) => GuiMessage::RelabelEntity(d.data),
            Dialog::NewDescriptor(d) => GuiMessage::NewDescriptor(d.data),
            Dialog::RenameDescriptor(d) => GuiMessage::RenameDescriptor(d.data),
            Dialog::NewHistory(d) => GuiMessage::NewHistoryItem(d.data),
            Dialog::RedateHistory(d) => GuiMessage::RedateHistoryItem(d.data),
            Dialog::NewRelationship(d) => GuiMessage::NewRelationship(d.data),
            Dialog::ChangeRole(d) => GuiMessage::ChangeRole(d.data),
            Dialog::Confirmation(d) => d.on_confirm,
            Dialog::Error(d) => GuiMessage::DialogClosed,
        }
    }

    /// The title of the dialog. Dialogs that change a record name it.
    pub open spec fn title(self) -> Seq<char> {
        match self {
            Dialog::NewEntity(d) => "Create new entity"@,
            Dialog::RelabelEntity(d) => "Relabel entity: "@ + d.data.old_label@,
            Dialog::NewDescriptor(d) => "New Descriptor"@,
            Dialog::RenameDescriptor(d) => "Rename descriptor "@ + d.data.old_descriptor@
                + " of entity "@ + d.data.label@,
            Dialog::NewHistory(d) => "Create new history item"@,
            Dialog::RedateHistory(d) => "Redate history for entity: year "@ + decimal_text(
                d.data.old_year as int,
            ) + ", day "@ + d.data.old_day.text() + " ("@ + decimal_text(d.data.timestamp as int)
                + ")"@,
            Dialog::NewRelationship(d) => "New Relationship"@,
            Dialog::ChangeRole(d) => "Change role "@ + d.data.old_relationship.role@
                + " for relationship between "@ + d.data.old_relationship.parent@ + " and "@
                + d.data.old_relationship.child@,
            Dialog::Confirmation(d) => "Confirmation"@,
            Dialog::Error(d) => "Error"@,
        }
    }

    /// How the dialog is framed: confirmations as warnings, errors as errors.
    pub fn card_style(&self) -> (style: CardStyle)
        ensures
            style == (match *self {
                Dialog::Confirmation(_) => CardStyle::Warning,
                Dialog::Error(_) => CardStyle::Error,
                _ => CardStyle::Primary,
            }),
    {
        match self {
            Dialog::Confirmation(d) => d.card_style(),
            Dialog::Error(d) => d.card_style(),
            _ => CardStyle::Primary,
        }
    }

    /// The title of the dialog.
    pub fn header(&self) -> (title: String)
        ensures
            title@ == self.title(),
    {
        match self {
            Dialog::NewEntity(d) => d.header(),
            Dialog::RelabelEntity(d) => d.header(),
            Dialog::NewDescriptor(d) => d.header(),
            Dialog::RenameDescriptor(d) => d.header(),
            Dialog::NewHistory(d) => d.header(),
            Dialog::RedateHistory(d) => d.header(),
            Dialog::NewRelationship(d) => d.header(),
            Dialog::ChangeRole(d) => d.header(),
            Dialog::Confirmation(d) => d.header(),
            Dialog::Error(d) => d.header(),
        }
    }

    /// Takes a change to one field.
    pub fn update(&mut self, message: DialogUpdate)
        ensures
            *final(self) == old(self).updated(message),
    {
        match self {
            Dialog::NewEntity(d) => d.update(message),
            Dialog::RelabelEntity(d) => d.update(message),
            Dialog::NewDescriptor(d) => d.update(message),
            Dialog::RenameDescriptor(d) => d.update(message),
            Dialog::NewHistory(d) => d.update(message),
            Dialog::RedateHistory(d) => d.update(message),
            Dialog::NewRelationship(d) => d.update(message),
            Dialog::ChangeRole(d) => d.update(message),
            Dialog::Confirmation(_) => (),
            Dialog::Error(_) => (),
        }
    }

    /// Checks that the dialog can be submitted: that no required field is empty.
    pub fn validate(&self) -> (outcome: Result<(), LoreGuiError>)
        ensures
            outcome is Ok <==> self.flaw() is None,
            outcome matches Err(error) ==> error is InputError && Some(error.detail())
                == self.flaw(),
    {
        match self {
            Dialog::NewEntity(d) => d.data.validate(),
            Dialog::RelabelEntity(d) => d.data.validate(),
            Dialog::NewDescriptor(d) => d.data.validate(),
            Dialog::RenameDescriptor(d) => d.data.validate(),
            Dialog::NewRelationship(d) => d.data.validate(),
            _ => Ok(()),
        }
    }

    /// The message that the dialog sends when it is submitted.
    pub fn submit(self) -> (message: GuiMessage)
        ensures
            message == self.message(),
    {
        match self {
            Dialog::NewEntity(d) => d.submit(),
            Dialog::RelabelEntity(d) => d.submit(),
            Dialog::NewDescriptor(d) => d.submit(),
            Dialog::RenameDescriptor(d) => d.submit(),
            Dialog::NewHistory(d) => d.submit(),
            Dialog::RedateHistory(d) => d.submit(),
            Dialog::NewRelationship(d) => d.submit(),
            Dialog::ChangeRole(d) => d.submit(),
            Dialog::Confirmation(d) => d.submit(),
            Dialog::Error(d) => d.submit(),
        }
    }
}

} // verus!
