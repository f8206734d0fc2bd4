use vstd::prelude::*;
use vstd::string::StringExecFns;
use crate::app::message_handling::GuiMessage;
use crate::collaborator::{EntityRelationship, Mutation};
use crate::dialog::DialogUpdate;

verus! {

/// What the user enters to give a relationship another role.
#[derive(Debug, Clone, PartialEq, Eq)]
pub struct ChangeRoleData {
    pub old_relationship: EntityRelationship,
    pub new_role: String,
}

impl ChangeRoleData {
    /// The form as it opens: the new role is the old one until it is changed.
    pub fn new(old_relationship: EntityRelationship) -> (data: Self)
        ensures
            data.old_relationship == old_relationship,
            data.new_role == old_relationship.role,
    {
        ChangeRoleData { new_role: old_relationship.role.clone(), old_relationship }
    }

    /// The data after one field was changed.
    pub open spec fn updated(self, update: DialogUpdate) -> ChangeRoleData {
        match update {
            DialogUpdate::Role(new_role) => ChangeRoleData { new_role, ..self },
            _ => self,
        }
    }

    /// The change that gives the relationship its new role.
    pub fn mutation(self) -> (mutation: Mutation)
        ensures
            mutation == (Mutation::ChangeRelationshipRole {
                relationship: self.old_relationship,
                new_role: self.new_role,
            }),
    {
        Mutation::ChangeRelationshipRole {
            relationship: self.old_relationship,
            new_role: self.new_role,
        }
    }

    pub fn parent(&self) -> (parent: &String)
        ensures
            parent == self.old_relationship.parent,
    {
        &self.old_relationship.parent
    }

    pub fn child(&self) -> (child: &String)
        ensures
            child == self.old_relationship.child,
    {
        &self.old_relationship.child
    }

    pub fn new_role(&self) -> (role: &String)
        ensures
            role == self.new_role,
    {
        &self.new_role
    }

    pub fn set_new_role(&mut self, role: String)
        ensures
            *final(self) == (ChangeRoleData { new_role: role, ..*old(self) }),
    {
        self.new_role = role;
    }
}

/// The dialog that gives a relationship another role.
#[derive(Debug, Clone, PartialEq, Eq)]
pub struct ChangeRoleDialog {
    pub data: ChangeRoleData,
}

impl ChangeRoleDialog {
    pub fn new(data: ChangeRoleData) -> (dialog: Self)
        ensures
            dialog.data == data,
    {
        ChangeRoleDialog { data }
    }

    /// The title of the dialog, which names the relationship by role, parent and child.
    pub fn header(&self) -> (title: String)
        ensures
            title@ == "Change role "@ + self.data.old_relationship.role@
                + " for relationship between "@ + self.data.old_relationship.parent@ + " and "@
                + self.data.old_relationship.child@,
    {
        String::from_str("Change role ").concat(self.data.old_relationship.role.as_str()).concat(
            " for relationship between ",
        ).concat(self.data.old_relationship.parent.as_str()).concat(" and ").concat(
            self.data.old_relationship.child.as_str(),
        )
    }

    /// Takes a change to one field.
    pub fn update(&mut self, message: DialogUpdate)
        ensures
            final(self).data == old(self).data.updated(message),
    {
        match message {
            DialogUpdate::Role(new_role) => {
                self.data.new_role = new_role;
            },
            _ => (),
        }
    }

    /// The message that the dialog sends when it is submitted.
    pub fn submit(self) -> (message: GuiMessage)
        ensures
            message == GuiMessage::ChangeRole(self.data),
    {
        GuiMessage::ChangeRole(self.data)
    }
}

} // verus!
