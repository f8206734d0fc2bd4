use vstd::prelude::*;
use vstd::string::StringExecFns;
use crate::app::message_handling::GuiMessage;
use crate::collaborator::{EntityRelationship, Mutation};
use crate::dialog::DialogUpdate;
use crate::errors::LoreGuiError;

verus! {

/// What the user enters to relate two entities.
#[derive(Debug, Clone, PartialEq, Eq)]
pub struct NewRelationshipData {
    pub parent: String,
    pub child: String,
    pub role: String,
}

impl NewRelationshipData {
    /// The form as it opens: every field empty.
    pub fn new() -> (data: Self)
        ensures
            data.parent@.len() == 0,
            data.child@.len() == 0,
            data.role@.len() == 0,
    {
        NewRelationshipData { parent: String::new(), child: String::new(), role: String::new() }
    }

    /// What keeps the relationship from being written: an empty parent or child.
    pub open spec fn flaw(&self) -> Option<Seq<char>> {
        if self.parent@.len() == 0 || self.child@.len() == 0 {
            Some("Parent and child cannot be empty."@)
        } else {
            None
        }
    }

    /// The data after one field was changed.
    pub open spec fn updated(self, update: DialogUpdate) -> NewRelationshipData {
        match update {
            DialogUpdate::Parent(parent) => NewRelationshipData { parent, ..self },
            DialogUpdate::Child(child) => NewRelationshipData { child, ..self },
            DialogUpdate::Role(role) => NewRelationshipData { role, ..self },
            _ => self,
        }
    }

    /// The relationship as it is written.
    pub open spec fn relationship(self) -> EntityRelationship {
        EntityRelationship { parent: self.parent, child: self.child, role: self.role }
    }

    /// Checks that neither parent nor child is empty.
    pub fn validate(&self) -> (outcome: Result<(), LoreGuiError>)
        ensures
            outcome is Ok <==> self.flaw() is None,
            outcome matches Err(error) ==> error is InputError && Some(error.detail())
                == self.flaw(),
    {
        if self.parent.as_str().unicode_len() == 0 || self.child.as_str().unicode_len() == 0 {
            return Err(LoreGuiError::input("Parent and child cannot be empty."));
        }
        Ok(())
    }

    /// The change that writes the relationship, or the input error that says
    /// that parent or child is empty.
    pub fn mutation(self) -> (outcome: Result<Mutation, LoreGuiError>)
        ensures
            outcome is Ok <==> self.flaw() is None,
            outcome matches Ok(mutation) ==> mutation == Mutation::WriteRelationship(
                self.relationship(),
            ),
            outcome matches Err(error) ==> error is InputError && Some(error.detail())
                == self.flaw(),
    {
        self.validate()?;
        Ok(
            Mutation::WriteRelationship(
                EntityRelationship { parent: self.parent, child: self.child, role: self.role },
            ),
        )
    }

    pub fn parent(&self) -> (parent: &String)
        ensures
            parent == self.parent,
    {
        &self.parent
    }

    pub fn child(&self) -> (child: &String)
        ensures
            child == self.child,
    {
        &self.child
    }

    pub fn role(&self) -> (role: &String)
        ensures
            role == self.role,
    {
        &self.role
    }
}

/// The dialog that relates two entities. It offers the labels it was opened
/// with as parents and as children.
#[derive(Debug, Clone, PartialEq, Eq)]
pub struct NewRelationshipDialog {
    pub parent_labels: Vec<String>,
    pub child_labels: Vec<String>,
    pub data: NewRelationshipData,
}

impl NewRelationshipDialog {
    /// The dialog as it opens.
    pub fn new(parent_labels: Vec<String>, child_labels: Vec<String>) -> (dialog: Self)
        ensures
            dialog.parent_labels == parent_labels,
            dialog.child_labels == child_labels,
            dialog.data.parent@.len() == 0,
            dialog.data.child@.len() == 0,
            dialog.data.role@.len() == 0,
    {
        NewRelationshipDialog { parent_labels, child_labels, data: NewRelationshipData::new() }
    }

    /// The title of the dialog.
    pub fn header(&self) -> (title: String)
        ensures
            title@ == "New Relationship"@,
    {
        String::from_str("New Relationship")
    }

    /// The parent that the pick list shows as picked: none while the field is empty.
    pub fn selected_parent(&self) -> (parent: Option<&String>)
        ensures
            self.data.parent@.len() == 0 ==> parent is None,
            self.data.parent@.len() > 0 ==> parent == Some(&self.data.parent),
    {
        if self.data.parent.as_str().unicode_len() == 0 {
            None
        } else {
            Some(&self.data.parent)
        }
    }

    /// The child that the pick list shows as picked: none while the field is empty.
    pub fn selected_child(&self) -> (child: Option<&String>)
        ensures
            self.data.child@.len() == 0 ==> child is None,
            self.data.child@.len() > 0 ==> child == Some(&self.data.child),
    {
        if self.data.child.as_str().unicode_len() == 0 {
            None
        } else {
            Some(&self.data.child)
        }
    }

    /// Takes a change to one field.
    pub fn update(&mut self, message: DialogUpdate)
        ensures
            final(self).data == old(self).data.updated(message),
            final(self).parent_labels == old(self).parent_labels,
            final(self).child_labels == old(self).child_labels,
    {
        match message {
            DialogUpdate::Parent(parent) => {
                self.data.parent = parent;
            },
            DialogUpdate::Child(child) => {
                self.data.child = child;
            },
            DialogUpdate::Role(role) => {
                self.data.role = role;
            },
            _ => (),
        }
    }

    /// The message that the dialog sends when it is submitted.
    pub fn submit(self) -> (message: GuiMessage)
        ensures
            message == GuiMessage::NewRelationship(self.data),
    {
        GuiMessage::NewRelationship(self.data)
    }
}

} // verus!
