use vstd::prelude::*;
use vstd::string::StringExecFns;
use crate::app::message_handling::GuiMessage;
use crate::collaborator::Mutation;
use crate::dialog::DialogUpdate;
use crate::errors::LoreGuiError;

verus! {

/// What the user enters to rename one descriptor of an entity.
#[derive(Debug, Clone, PartialEq, Eq)]
pub struct RenameDescriptorData {
    pub label: String,
    pub old_descriptor: String,
    pub new_descriptor: String,
}

impl RenameDescriptorData {
    /// The form as it opens: the new descriptor is the old one until it is changed.
    pub fn new(label: String, old_descriptor: String) -> (data: Self)
        ensures
            data.label == label,
            data.old_descriptor == old_descriptor,
            data.new_descriptor == old_descriptor,
    {
        RenameDescriptorData { label, new_descriptor: old_descriptor.clone(), old_descriptor }
    }

    /// What keeps the descriptor from being renamed: an empty old or new descriptor.
    pub open spec fn flaw(&self) -> Option<Seq<char>> {
        if self.old_descriptor@.len() == 0 {
            Some("Cannot rename descriptor with empty descriptor."@)
        } else if self.new_descriptor@.len() == 0 {
            Some("Cannot rename descriptor with empty new descriptor."@)
        } else {
            None
        }
    }

    /// The data after one field was changed.
    pub open spec fn updated(self, update: DialogUpdate) -> RenameDescriptorData {
        match update {
            DialogUpdate::Descriptor(new_descriptor) => RenameDescriptorData {
                new_descriptor,
                ..self
            },
            _ => self,
        }
    }

    /// Checks that neither descriptor is empty.
    pub fn validate(&self) -> (outcome: Result<(), LoreGuiError>)
        ensures
            outcome is Ok <==> self.flaw() is None,
            outcome matches Err(error) ==> error is InputError && Some(error.detail())
                == self.flaw(),
    {
        if self.old_descriptor.as_str().unicode_len() == 0 {
            return Err(LoreGuiError::input("Cannot rename descriptor with empty descriptor."));
        }
        if self.new_descriptor.as_str().unicode_len() == 0 {
            return Err(
                LoreGuiError::input("Cannot rename descriptor with empty new descriptor."),
            );
        }
        Ok(())
    }

    /// The change that renames the descriptor, or the input error that says
    /// which descriptor is empty.
    pub fn mutation(self) -> (outcome: Result<Mutation, LoreGuiError>)
        ensures
            outcome is Ok <==> self.flaw() is None,
            outcome matches Ok(mutation) ==> mutation == (Mutation::ChangeEntityDescriptor {
                label: self.label,
                old_descriptor: self.old_descriptor,
                new_descriptor: self.new_descriptor,
            }),
            outcome matches Err(error) ==> error is InputError && Some(error.detail())
                == self.flaw(),
    {
        self.validate()?;
        Ok(
            Mutation::ChangeEntityDescriptor {
                label: self.label,
                old_descriptor: self.old_descriptor,
                new_descriptor: self.new_descriptor,
            },
        )
    }

    pub fn get_label(&self) -> (label: &String)
        ensures
            label == self.label,
    {
        &self.label
    }

    pub fn get_old_descriptor(&self) -> (descriptor: &String)
        ensures
            descriptor == self.old_descriptor,
    {
        &self.old_descriptor
    }

    pub fn get_new_descriptor(&self) -> (descriptor: &String)
        ensures
            descriptor == self.new_descriptor,
    {
        &self.new_descriptor
    }
}

/// The dialog that renames one descriptor of an entity.
#[derive(Debug, Clone, PartialEq, Eq)]
pub struct RenameDescriptorDialog {
    pub data: RenameDescriptorData,
}

impl RenameDescriptorDialog {
    pub fn new(data: RenameDescriptorData) -> (dialog: Self)
        ensures
            dialog.data == data,
    {
        RenameDescriptorDialog { data }
    }

    /// The title of the dialog, which names the descriptor and the entity.
    pub fn header(&self) -> (title: String)
        ensures
            title@ == "Rename descriptor "@ + self.data.old_descriptor@ + " of entity "@
                + self.data.label@,
    {
        String::from_str("Rename descriptor ").concat(self.data.old_descriptor.as_str()).concat(
            " of entity ",
        ).concat(self.data.label.as_str())
    }

    /// Takes a change to one field.
    pub fn update(&mut self, message: DialogUpdate)
        ensures
            final(self).data == old(self).data.updated(message),
    {
        match message {
            DialogUpdate::Descriptor(new_descriptor) => {
                self.data.new_descriptor = new_descriptor;
            },
            _ => (),
        }
    }

    /// The message that the dialog sends when it is submitted.
    pub fn submit(self) -> (message: GuiMessage)
        ensures
            message == GuiMessage::RenameDescriptor(self.data),
    {
        GuiMessage::RenameDescriptor(self.data)
    }
}

} // verus!
