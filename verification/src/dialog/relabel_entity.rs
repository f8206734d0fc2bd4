use vstd::prelude::*;
use vstd::string::StringExecFns;
use crate::app::message_handling::GuiMessage;
use crate::collaborator::Mutation;
use crate::dialog::DialogUpdate;
use crate::errors::LoreGuiError;

verus! {

/// What the user enters to give an entity another label.
#[derive(Debug, Clone, PartialEq, Eq)]
pub struct RelabelEntityData {
    pub old_label: String,
    pub new_label: String,
}

impl RelabelEntityData {
    /// The form as it opens: the new label is the old one until it is changed.
    pub fn new(old_label: String) -> (data: Self)
        ensures
            data.old_label == old_label,
            data.new_label == old_label,
    {
        RelabelEntityData { new_label: old_label.clone(), old_label }
    }

    /// What keeps the entity from being relabelled: an empty old or new label.
    pub open spec fn flaw(&self) -> Option<Seq<char>> {
        if self.old_label@.len() == 0 {
            Some("Cannot relabel entity with empty label."@)
        } else if self.new_label@.len() == 0 {
            Some("Cannot relabel entity with empty new label."@)
        } else {
            None
        }
    }

    /// The data after one field was changed.
    pub open spec fn updated(self, update: DialogUpdate) -> RelabelEntityData {
        match update {
            DialogUpdate::Label(new_label) => RelabelEntityData { new_label, ..self },
            _ => self,
        }
    }

    /// Checks that neither label is empty.
    pub fn validate(&self) -> (outcome: Result<(), LoreGuiError>)
        ensures
            outcome is Ok <==> self.flaw() is None,
            outcome matches Err(error) ==> error is InputError && Some(error.detail())
                == self.flaw(),
    {
        if self.old_label.as_str().unicode_len() == 0 {
            return Err(LoreGuiError::input("Cannot relabel entity with empty label."));
        }
        if self.new_label.as_str().unicode_len() == 0 {
            return Err(LoreGuiError::input("Cannot relabel entity with empty new label."));
        }
        Ok(())
    }

    /// The change that relabels the entity, or the input error that says
    /// which label is empty.
    pub fn mutation(self) -> (outcome: Result<Mutation, LoreGuiError>)
        ensures
            outcome is Ok <==> self.flaw() is None,
            outcome matches Ok(mutation) ==> mutation == (Mutation::RelabelEntity {
                old_label: self.old_label,
                new_label: self.new_label,
            }),
            outcome matches Err(error) ==> error is InputError && Some(error.detail())
                == self.flaw(),
    {
        self.validate()?;
        Ok(Mutation::RelabelEntity { old_label: self.old_label, new_label: self.new_label })
    }

    pub fn new_label(&self) -> (label: &String)
        ensures
            label == self.new_label,
    {
        &self.new_label
    }

    pub fn old_label(&self) -> (label: &String)
        ensures
            label == self.old_label,
    {
        &self.old_label
    }
}

/// The dialog that gives an entity another label.
#[derive(Debug, Clone, PartialEq, Eq)]
pub struct RelabelEntityDialog {
    pub data: RelabelEntityData,
}

impl RelabelEntityDialog {
    pub fn new(data: RelabelEntityData) -> (dialog: Self)
        ensures
            dialog.data == data,
    {
        RelabelEntityDialog { data }
    }

    /// The title of the dialog, which names the entity by its old label.
    pub fn header(&self) -> (title: String)
        ensures
            title@ == "Relabel entity: "@ + self.data.old_label@,
    {
        String::from_str("Relabel entity: ").concat(self.data.old_label.as_str())
    }

    /// Takes a change to one field.
    pub fn update(&mut self, message: DialogUpdate)
        ensures
            final(self).data == old(self).data.updated(message),
    {
        match message {
            DialogUpdate::Label(new_label) => {
                self.data.new_label = new_label;
            },
            _ => (),
        }
    }

    /// The message that the dialog sends when it is submitted.
    pub fn submit(self) -> (message: GuiMessage)
        ensures
            message == GuiMessage::RelabelEntity(self.data),
    {
        GuiMessage::RelabelEntity(self.data)
    }
}

} // verus!
