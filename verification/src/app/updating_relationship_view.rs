use vstd::prelude::*;
use vstd::string::StringExecFns;
use crate::app::message_handling::GuiMessage;
use crate::app::state::{GuiModel, Outcome, SqlGui, Waiting, Round, ViewType};
use crate::collaborator::Request;
use crate::dialog::change_role::ChangeRoleDialog;
use crate::dialog::confirmation::ConfirmationDialog;
use crate::dialog::new_relationship::NewRelationshipDialog;
use crate::dialog::Dialog;
use crate::errors::LoreGuiError;
use crate::relationship_view::{RelationshipViewMessage, RelationshipViewModel};

verus! {

impl GuiModel {
    /// The state in which the relationship view is `relationship`.
    pub open spec fn with_relationship(self, relationship: RelationshipViewModel) -> GuiModel {
        GuiModel { relationship, ..self }
    }

    /// Whether `dialog` is the dialog that relates two entities as it opens
    /// with these labels on offer for both.
    pub open spec fn offers_labels(dialog: Dialog, labels: Seq<Seq<char>>) -> bool {
        &&& dialog matches Dialog::NewRelationship(dialog)
        &&& dialog.parent_labels.deep_view() == labels
        &&& dialog.child_labels.deep_view() == labels
        &&& dialog.data.parent@.len() == 0
        &&& dialog.data.child@.len() == 0
        &&& dialog.data.role@.len() == 0
    }

    /// Whether `after` and `outcome` are what an event of the relationship view
    /// leads to. A new relationship needs the labels first, which are asked for
    /// where a database is open. The other buttons open their dialogs, deletion
    /// asks first. What is done to a column has the relationship view listed
    /// afresh, and nothing else: a search text from its own column on, a pick
    /// from the column after it on, and the pick of a role the roles.
    pub open spec fn relationship_event(
        self,
        event: RelationshipViewMessage,
        after: GuiModel,
        outcome: Outcome,
    ) -> bool {
        match event {
            RelationshipViewMessage::NewRelationship => {
                if self.connected() {
                    &&& after == GuiModel { waiting: Waiting::AllLabels, ..self }
                    &&& outcome == Ok::<Option<Request>, LoreGuiError>(Some(Request::AllLabels))
                } else {
                    &&& outcome == Ok::<Option<Request>, LoreGuiError>(None)
                    &&& self.opens(after)
                    &&& GuiModel::offers_labels(after.dialogs.last(), Seq::empty())
                }
            },
            RelationshipViewMessage::ChangeRole(data) => {
                &&& outcome == Ok::<Option<Request>, LoreGuiError>(None)
                &&& after == self.showing(Dialog::ChangeRole(ChangeRoleDialog { data }))
            },
            RelationshipViewMessage::DeleteRelationship(relationship) => {
                &&& outcome == Ok::<Option<Request>, LoreGuiError>(None)
                &&& self.opens(after)
                &&& after.dialogs.last() matches Dialog::Confirmation(dialog)
                &&& dialog.message@ == "Do you really want to delete the "@ + relationship.role@
                    + " relationship between "@ + relationship.parent@ + " and "@
                    + relationship.child@ + "?"@
                &&& dialog.on_confirm == GuiMessage::DeleteRelationship(relationship)
            },
            RelationshipViewMessage::ParentViewUpdate(event) => {
                &&& after == self.with_relationship(
                    self.relationship.parent_event(event),
                ).turning_to(ViewType::Relationship).refreshed()
                &&& after.reports(outcome)
            },
            RelationshipViewMessage::ChildViewUpdate(event) => {
                &&& after == self.with_relationship(
                    self.relationship.child_event(event),
                ).turning_to(ViewType::Relationship).refreshed()
                &&& after.reports(outcome)
            },
            RelationshipViewMessage::RoleViewUpdate(event) => {
                &&& after == self.with_relationship(
                    self.relationship.role_event(event),
                ).turning_to(ViewType::Relationship).refreshed()
                &&& after.reports(outcome)
            },
        }
    }
}

impl SqlGui {
    /// Takes what the user did in the relationship view.
    pub fn update_relationship_view(&mut self, event: RelationshipViewMessage) -> (outcome: Outcome)
        ensures
            old(self)@.relationship_event(event, final(self)@, outcome),
            old(self)@.wf() ==> final(self)@.wf(),
    {
        match event {
            RelationshipViewMessage::NewRelationship => {
                if self.lore_database.is_some() {
                    self.waiting = Waiting::AllLabels;
                    Ok(Some(Request::AllLabels))
                } else {
                    let parents: Vec<String> = Vec::new();
                    let children: Vec<String> = Vec::new();
                    assert(parents.deep_view() =~= Seq::<Seq<char>>::empty());
                    assert(children.deep_view() =~= Seq::<Seq<char>>::empty());
                    self.dialogs.push(
                        Dialog::NewRelationship(NewRelationshipDialog::new(parents, children)),
                    );
                    Ok(None)
                }
            },
            RelationshipViewMessage::ChangeRole(data) => {
                self.dialogs.push(Dialog::ChangeRole(ChangeRoleDialog::new(data)));
                Ok(None)
            },
            RelationshipViewMessage::DeleteRelationship(relationship) => {
                let message = String::from_str("Do you really want to delete the ").concat(
                    relationship.role.as_str(),
                ).concat(" relationship between ").concat(relationship.parent.as_str()).concat(
                    " and ",
                ).concat(relationship.child.as_str()).concat("?");
                let on_confirm = GuiMessage::DeleteRelationship(relationship);
                self.dialogs.push(Dialog::Confirmation(ConfirmationDialog::new(message, on_confirm)));
                Ok(None)
            },
            RelationshipViewMessage::ParentViewUpdate(event) => {
                self.relationship_view_state.update_parent_view(event);
                self.round = Round::through(ViewType::Relationship);
                self.refresh()
            },
            RelationshipViewMessage::ChildViewUpdate(event) => {
                self.relationship_view_state.update_child_view(event);
                self.round = Round::through(ViewType::Relationship);
                self.refresh()
            },
            RelationshipViewMessage::RoleViewUpdate(event) => {
                self.relationship_view_state.update_role_view(event);
                self.round = Round::through(ViewType::Relationship);
                self.refresh()
            },
        }
    }
}

} // verus!
