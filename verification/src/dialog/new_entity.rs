use vstd::prelude::*;
use vstd::string::StringExecFns;
use crate::app::message_handling::GuiMessage;
use crate::collaborator::{EntityColumn, Mutation};
use crate::dialog::DialogUpdate;
use crate::errors::LoreGuiError;

verus! {

/// What the user enters to create an entity.
#[derive(Debug, Clone, PartialEq, Eq)]
pub struct NewEntityData {
    pub label: String,
    pub name: String,
    pub category: String,
}

impl NewEntityData {
    /// The form as it opens: every field empty.
    pub fn new() -> (data: Self)
        ensures
            data.label@.len() == 0,
            data.name@.len() == 0,
            data.category@.len() == 0,
    {
        NewEntityData { label: String::new(), name: String::new(), category: String::new() }
    }

    /// What keeps the entity from being created: the first of label, name
    /// and category that is empty.
    pub open spec fn flaw(&self) -> Option<Seq<char>> {
        if self.label@.len() == 0 {
            Some("Cannot create entity with empty label."@)
        } else if self.name@.len() == 0 {
            Some("Cannot create entity with empty name."@)
        } else if self.category@.len() == 0 {
            Some("Cannot create entity with empty category."@)
        } else {
            None
        }
    }

    /// Whether `mutation` creates the entity: it writes the name and the
    /// category of the label, in this order, as its first two properties.
    pub open spec fn creates(&self, mutation: Mutation) -> bool {
        &&& mutation matches Mutation::WriteEntityColumns(columns)
        &&& columns@.len() == 2
        &&& columns@[0].label@ == self.label@
        &&& columns@[0].descriptor@ == "_name"@
        &&& columns@[0].description@ == self.name@
        &&& columns@[1].label@ == self.label@
        &&& columns@[1].descriptor@ == "_category"@
        &&& columns@[1].description@ == self.category@
    }

    /// The data after one field was changed. Changes to fields that the form
    /// does not have are ignored.
    pub open spec fn updated(self, update: DialogUpdate) -> NewEntityData {
        match update {
            DialogUpdate::Label(label) => NewEntityData { label, ..self },
            DialogUpdate::Name(name) => NewEntityData { name, ..self },
            DialogUpdate::Category(category) => NewEntityData { category, ..self },
            _ => self,
        }
    }

    /// Checks that no required field is empty.
    pub fn validate(&self) -> (outcome: Result<(), LoreGuiError>)
        ensures
            outcome is Ok <==> self.flaw() is None,
            outcome matches Err(error) ==> error is InputError && Some(error.detail())
                == self.flaw(),
    {
        if self.label.as_str().unicode_len() == 0 {
            return Err(LoreGuiError::input("Cannot create entity with empty label."));
        }
        if self.name.as_str().unicode_len() == 0 {
            return Err(LoreGuiError::input("Cannot create entity with empty name."));
        }
        if self.category.as_str().unicode_len() == 0 {
            return Err(LoreGuiError::input("Cannot create entity with empty category."));
        }
        Ok(())
    }

    /// The change that creates the entity, or the input error that says
    /// which required field is empty.
    pub fn mutation(self) -> (outcome: Result<Mutation, LoreGuiError>)
        ensures
            outcome is Ok <==> self.flaw() is None,
            outcome matches Ok(mutation) ==> self.creates(mutation),
            outcome matches Err(error) ==> error is InputError && Some(error.detail())
                == self.flaw(),
    {
        self.validate()?;
        let name_col = EntityColumn {
            label: self.label.clone(),
            descriptor: String::from_str("_name"),
            description: self.name,
        };
        let category_col = EntityColumn {
            label: self.label,
            descriptor: String::from_str("_category"),
            description: self.category,
        };
        let mut columns: Vec<EntityColumn> = Vec::new();
        columns.push(name_col);
        columns.push(category_col);
        Ok(Mutation::WriteEntityColumns(columns))
    }

    /// The label of the entity.
    pub fn get_label(&self) -> (label: &String)
        ensures
            label == self.label,
    {
        &self.label
    }

    /// Sets the label of the entity.
    pub fn set_label(&mut self, label: String)
        ensures
            *final(self) == (NewEntityData { label, ..*old(self) }),
    {
        self.label = label;
    }
}

/// The dialog that creates an entity.
#[derive(Debug, Clone, PartialEq, Eq)]
pub struct NewEntityDialog {
    pub data: NewEntityData,
}

impl NewEntityDialog {
    /// The dialog as it opens.
    pub fn new() -> (dialog: Self)
        ensures
            dialog.data.label@.len() == 0,
            dialog.data.name@.len() == 0,
            dialog.data.category@.len() == 0,
    {
        NewEntityDialog { data: NewEntityData::new() }
    }

    /// The title of the dialog.
    pub fn header(&self) -> (title: String)
        ensures
            title@ == "Create new entity"@,
    {
        String::from_str("Create new entity")
    }

    /// Takes a change to one field.
    pub fn update(&mut self, message: DialogUpdate)
        ensures
            final(self).data == old(self).data.updated(message),
    {
        match message {
            DialogUpdate::Label(label) => {
                self.data.label = label;
            },
            DialogUpdate::Category(category) => {
                self.data.category = category;
            },
            DialogUpdate::Name(name) => {
                self.data.name = name;
            },
            _ => (),
        }
    }

    /// The message that the dialog sends when it is submitted.
    pub fn submit(self) -> (message: GuiMessage)
        ensures
            message == GuiMessage::NewEntity(self.data),
    {
        GuiMessage::NewEntity(self.data)
    }
}

} // verus!
