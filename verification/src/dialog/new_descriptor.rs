use vstd::prelude::*;
use vstd::string::StringExecFns;
use crate::app::message_handling::GuiMessage;
use crate::collaborator::{EntityColumn, Mutation};
use crate::dialog::DialogUpdate;
use crate::errors::LoreGuiError;

verus! {

/// What the user enters to describe one more property of an entity.
#[derive(Debug, Clone, PartialEq, Eq)]
pub struct NewDescriptorData {
    pub label: String,
    pub descriptor: String,
    pub description: String,
}

impl NewDescriptorData {
    /// The form as it opens for the entity `label`.
    pub fn new(label: String) -> (data: Self)
        ensures
            data.label == label,
            data.descriptor@.len() == 0,
            data.description@.len() == 0,
    {
        NewDescriptorData { label, descriptor: String::new(), description: String::new() }
    }

    /// What keeps the property from being written: an empty descriptor.
    pub open spec fn flaw(&self) -> Option<Seq<char>> {
        if self.descriptor@.len() == 0 {
            Some("Cannot create empty descriptor."@)
        } else {
            None
        }
    }

    /// The data after one field was changed.
    pub open spec fn updated(self, update: DialogUpdate) -> NewDescriptorData {
        match update {
            DialogUpdate::Descriptor(descriptor) => NewDescriptorData { descriptor, ..self },
            DialogUpdate::Description(description) => NewDescriptorData { description, ..self },
            _ => self,
        }
    }

    /// Whether `mutation` writes the property as it was entered.
    pub open spec fn creates(&self, mutation: Mutation) -> bool {
        &&& mutation matches Mutation::WriteEntityColumns(columns)
        &&& columns@.len() == 1
        &&& columns@[0].label == self.label
        &&& columns@[0].descriptor == self.descriptor
        &&& columns@[0].description == self.description
    }

    /// Checks that the descriptor is not empty.
    pub fn validate(&self) -> (outcome: Result<(), LoreGuiError>)
        ensures
            outcome is Ok <==> self.flaw() is None,
            outcome matches Err(error) ==> error is InputError && Some(error.detail())
                == self.flaw(),
    {
        if self.descriptor.as_str().unicode_len() == 0 {
            return Err(LoreGuiError::input("Cannot create empty descriptor."));
        }
        Ok(())
    }

    /// The change that writes the property, or the input error that says
    /// that the descriptor is empty.
    pub fn mutation(self) -> (outcome: Result<Mutation, LoreGuiError>)
        ensures
            outcome is Ok <==> self.flaw() is None,
            outcome matches Ok(mutation) ==> self.creates(mutation),
            outcome matches Err(error) ==> error is InputError && Some(error.detail())
                == self.flaw(),
    {
        self.validate()?;
        let mut columns: Vec<EntityColumn> = Vec::new();
        columns.push(
            EntityColumn {
                label: self.label,
                descriptor: self.descriptor,
                description: self.description,
            },
        );
        Ok(Mutation::WriteEntityColumns(columns))
    }

    pub fn label(&self) -> (label: &String)
        ensures
            label == self.label,
    {
        &self.label
    }

    pub fn descriptor(&self) -> (descriptor: &String)
        ensures
            descriptor == self.descriptor,
    {
        &self.descriptor
    }

    pub fn description(&self) -> (description: &String)
        ensures
            description == self.description,
    {
        &self.description
    }

    pub fn set_descriptor(&mut self, descriptor: String)
        ensures
            *final(self) == (NewDescriptorData { descriptor, ..*old(self) }),
    {
        self.descriptor = descriptor;
    }

    pub fn set_description(&mut self, description: String)
        ensures
            *final(self) == (NewDescriptorData { description, ..*old(self) }),
    {
        self.description = description;
    }
}

/// The dialog that describes one more property of an entity.
#[derive(Debug, Clone, PartialEq, Eq)]
pub struct NewDescriptorDialog {
    pub data: NewDescriptorData,
}

impl NewDescriptorDialog {
    /// The dialog as it opens for the entity `label`.
    pub fn new(label: String) -> (dialog: Self)
        ensures
            dialog.data.label == label,
            dialog.data.descriptor@.len() == 0,
            dialog.data.description@.len() == 0,
    {
        NewDescriptorDialog { data: NewDescriptorData::new(label) }
    }

    /// The title of the dialog.
    pub fn header(&self) -> (title: String)
        ensures
            title@ == "New Descriptor"@,
    {
        String::from_str("New Descriptor")
    }

    /// Takes a change to one field.
    pub fn update(&mut self, message: DialogUpdate)
        ensures
            final(self).data == old(self).data.updated(message),
    {
        match message {
            DialogUpdate::Descriptor(descriptor) => {
                self.data.descriptor = descriptor;
            },
            DialogUpdate::Description(description) => {
                self.data.description = description;
            },
            _ => (),
        }
    }

    /// The message that the dialog sends when it is submitted.
    pub fn submit(self) -> (message: GuiMessage)
        ensures
            message == GuiMessage::NewDescriptor(self.data),
    {
        GuiMessage::NewDescriptor(self.data)
    }
}

} // verus!
