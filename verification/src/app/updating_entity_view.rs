use vstd::prelude::*;
use vstd::string::StringExecFns;
use crate::app::message_handling::GuiMessage;
use crate::app::state::{Followup, GuiModel, Outcome, SqlGui, Waiting, Round, ViewType};
use crate::collaborator::{Mutation, Request};
use crate::dialog::confirmation::ConfirmationDialog;
use crate::dialog::new_descriptor::NewDescriptorDialog;
use crate::dialog::new_entity::NewEntityDialog;
use crate::dialog::relabel_entity::RelabelEntityDialog;
use crate::dialog::rename_descriptor::RenameDescriptorDialog;
use crate::dialog::Dialog;
use crate::entity_view::{EntityViewMessage, EntityViewModel};
use crate::errors::LoreGuiError;

verus! {

impl GuiModel {
    /// Whether `after` is this state with one more dialog in front.
    pub open spec fn opens(self, after: GuiModel) -> bool {
        &&& after.dialogs.len() == self.dialogs.len() + 1
        &&& after == self.showing(after.dialogs.last())
    }

    /// The state in which the entity view is `entity`.
    pub open spec fn with_entity(self, entity: EntityViewModel) -> GuiModel {
        GuiModel { entity, ..self }
    }

    /// Whether `after` and `outcome` are what an event of the entity view leads
    /// to. The buttons open their dialogs, deletion asks first. What is done to
    /// a column has the entity view listed afresh, and nothing else: a search
    /// text from its own column on, a pick from the column after it on. The
    /// description is edited and discarded in place. Saving it while label or
    /// descriptor is not selected does nothing and succeeds; else it needs a
    /// database, and asks for the description to be written.
    pub open spec fn entity_event(
        self,
        event: EntityViewMessage,
        after: GuiModel,
        outcome: Outcome,
    ) -> bool {
        match event {
            EntityViewMessage::NewEntity => {
                &&& outcome == Ok::<Option<Request>, LoreGuiError>(None)
                &&& self.opens(after)
                &&& after.dialogs.last() matches Dialog::NewEntity(dialog)
                &&& dialog.data.label@.len() == 0
                &&& dialog.data.name@.len() == 0
                &&& dialog.data.category@.len() == 0
            },
            EntityViewMessage::RelabelEntity(data) => {
                &&& outcome == Ok::<Option<Request>, LoreGuiError>(None)
                &&& after == self.showing(Dialog::RelabelEntity(RelabelEntityDialog { data }))
            },
            EntityViewMessage::DeleteEntity(label) => {
                &&& outcome == Ok::<Option<Request>, LoreGuiError>(None)
                &&& self.opens(after)
                &&& after.dialogs.last() matches Dialog::Confirmation(dialog)
                &&& dialog.message@ == "Do you really want to delete "@ + label@ + "?"@
                &&& dialog.on_confirm == GuiMessage::DeleteEntity(label)
            },
            EntityViewMessage::NewDescriptor(label) => {
                &&& outcome == Ok::<Option<Request>, LoreGuiError>(None)
                &&& self.opens(after)
                &&& after.dialogs.last() matches Dialog::NewDescriptor(dialog)
                &&& dialog.data.label == label
                &&& dialog.data.descriptor@.len() == 0
                &&& dialog.data.description@.len() == 0
            },
            EntityViewMessage::RenameDescriptor(data) => {
                &&& outcome == Ok::<Option<Request>, LoreGuiError>(None)
                &&& after == self.showing(
                    Dialog::RenameDescriptor(RenameDescriptorDialog { data }),
                )
            },
            EntityViewMessage::DeleteDescriptor(label, descriptor) => {
                &&& outcome == Ok::<Option<Request>, LoreGuiError>(None)
                &&& self.opens(after)
                &&& after.dialogs.last() matches Dialog::Confirmation(dialog)
                &&& dialog.message@ == "Do you really want to delete "@ + label@
                    + "'s descriptor "@ + descriptor@ + "?"@
                &&& dialog.on_confirm == GuiMessage::DeleteDescriptor(label, descriptor)
            },
            EntityViewMessage::LabelViewUpdate(event) => {
                &&& after == self.with_entity(self.entity.label_event(event)).turning_to(ViewType::Entity).refreshed()
                &&& after.reports(outcome)
            },
            EntityViewMessage::DescriptorViewUpdate(event) => {
                &&& after == self.with_entity(self.entity.descriptor_event(event)).turning_to(ViewType::Entity).refreshed()
                &&& after.reports(outcome)
            },
            EntityViewMessage::DescriptionUpdate(text) => {
                &&& outcome == Ok::<Option<Request>, LoreGuiError>(None)
                &&& after == self.with_entity(
                    EntityViewModel {
                        description: self.entity.description.edited(text@),
                        ..self.entity
                    },
                )
            },
            EntityViewMessage::DescriptionDiscard => {
                &&& outcome == Ok::<Option<Request>, LoreGuiError>(None)
                &&& after == self.with_entity(
                    EntityViewModel {
                        description: self.entity.description.discarded(),
                        ..self.entity
                    },
                )
            },
            EntityViewMessage::DescriptionSave => {
                if self.entity.labels.selection is None
                    || self.entity.descriptors.selection is None {
                    after == self && outcome == Ok::<Option<Request>, LoreGuiError>(None)
                } else if !self.connected() {
                    after == self && outcome == Err::<Option<Request>, LoreGuiError>(
                        LoreGuiError::NoDatabase,
                    )
                } else {
                    &&& after == GuiModel {
                        waiting: Waiting::Changed(Followup::DescriptionSaved),
                        ..self
                    }
                    &&& outcome matches Ok(
                        Some(
                            Request::Write(
                                Mutation::ChangeEntityDescription { label, descriptor, description },
                            ),
                        ),
                    )
                    &&& Some(label@) == self.entity.labels.selection
                    &&& Some(descriptor@) == self.entity.descriptors.selection
                    &&& description@ == self.entity.description.buffer
                }
            },
        }
    }
}

impl SqlGui {
    /// Takes what the user did in the entity view.
    pub fn update_entity_view(&mut self, event: EntityViewMessage) -> (outcome: Outcome)
        ensures
            old(self)@.entity_event(event, final(self)@, outcome),
            old(self)@.wf() ==> final(self)@.wf(),
    {
        match event {
            EntityViewMessage::NewEntity => {
                self.dialogs.push(Dialog::NewEntity(NewEntityDialog::new()));
                assert(final(self)@.dialogs.drop_last() == old(self)@.dialogs);
                Ok(None)
            },
            EntityViewMessage::RelabelEntity(data) => {
                self.dialogs.push(Dialog::RelabelEntity(RelabelEntityDialog::new(data)));
                Ok(None)
            },
            EntityViewMessage::DeleteEntity(label) => {
                let message = String::from_str("Do you really want to delete ").concat(
                    label.as_str(),
                ).concat("?");
                let on_confirm = GuiMessage::DeleteEntity(label);
                self.dialogs.push(Dialog::Confirmation(ConfirmationDialog::new(message, on_confirm)));
                Ok(None)
            },
            EntityViewMessage::NewDescriptor(label) => {
                self.dialogs.push(Dialog::NewDescriptor(NewDescriptorDialog::new(label)));
                Ok(None)
            },
            EntityViewMessage::RenameDescriptor(data) => {
                self.dialogs.push(Dialog::RenameDescriptor(RenameDescriptorDialog::new(data)));
                Ok(None)
            },
            EntityViewMessage::DeleteDescriptor(label, descriptor) => {
                let message = String::from_str("Do you really want to delete ").concat(
                    label.as_str(),
                ).concat("'s descriptor ").concat(descriptor.as_str()).concat("?");
                let on_confirm = GuiMessage::DeleteDescriptor(label, descriptor);
                self.dialogs.push(Dialog::Confirmation(ConfirmationDialog::new(message, on_confirm)));
                Ok(None)
            },
            EntityViewMessage::LabelViewUpdate(event) => {
                self.entity_view_state.update_label_view(event);
                self.round = Round::through(ViewType::Entity);
                self.refresh()
            },
            EntityViewMessage::DescriptorViewUpdate(event) => {
                self.entity_view_state.update_descriptor_view(event);
                self.round = Round::through(ViewType::Entity);
                self.refresh()
            },
            EntityViewMessage::DescriptionUpdate(text) => {
                self.entity_view_state.edit_description(text);
                Ok(None)
            },
            EntityViewMessage::DescriptionDiscard => {
                self.entity_view_state.discard_description();
                Ok(None)
            },
            EntityViewMessage::DescriptionSave => {
                let label = match self.entity_view_state.get_selected_label() {
                    Some(label) => label,
                    None => {
                        return Ok(None);
                    },
                };
                let descriptor = match self.entity_view_state.get_selected_descriptor() {
                    Some(descriptor) => descriptor,
                    None => {
                        return Ok(None);
                    },
                };
                if self.lore_database.is_none() {
                    return Err(LoreGuiError::NoDatabase);
                }
                let description = self.entity_view_state.get_description_text();
                self.waiting = Waiting::Changed(Followup::DescriptionSaved);
                Ok(
                    Some(
                        Request::Write(
                            Mutation::ChangeEntityDescription { label, descriptor, description },
                        ),
                    ),
                )
            },
        }
    }
}

} // verus!
