use vstd::prelude::*;
use vstd::string::StringExecFns;
use crate::app::state::{Followup, GuiModel, Outcome, Round, SqlGui, ViewType, Waiting};
use crate::collaborator::{misfit_words, EntityRelationship, Mutation, Request, Response};
use crate::dialog::change_role::ChangeRoleData;
use crate::dialog::error::ErrorDialog;
use crate::dialog::new_descriptor::NewDescriptorData;
use crate::dialog::new_entity::NewEntityData;
use crate::dialog::new_history_item::{NewHistoryData, NewHistoryDialog};
use crate::dialog::new_relationship::{NewRelationshipData, NewRelationshipDialog};
use crate::dialog::redate_history::RedateHistoryData;
use crate::dialog::relabel_entity::RelabelEntityData;
use crate::dialog::rename_descriptor::RenameDescriptorData;
use crate::dialog::{Dialog, DialogUpdate};
use crate::entity_view::{misfit, EntityStage, EntityViewMessage, EntityViewModel};
use crate::errors::LoreGuiError;
use crate::history_view::HistoryViewMessage;
use crate::relationship_view::RelationshipViewMessage;

verus! {

/// Everything that can happen to the application.
#[derive(Debug, Clone, PartialEq, Eq)]
pub enum GuiMessage {
    ViewSelected(ViewType),
    NewDatabase,
    OpenDatabase,
    SetDisplayProtected(bool),
    EntityViewUpd(EntityViewMessage),
    HistoryViewUpd(HistoryViewMessage),
    RelationshipViewUpd(RelationshipViewMessage),
    DialogUpdate(DialogUpdate),
    DialogSubmit,
    DialogClosed,
    NewEntity(NewEntityData),
    RelabelEntity(RelabelEntityData),
    DeleteEntity(String),
    NewDescriptor(NewDescriptorData),
    RenameDescriptor(RenameDescriptorData),
    DeleteDescriptor(String, String),
    NewHistoryItem(NewHistoryData),
    RedateHistoryItem(RedateHistoryData),
    DeleteHistoryItem(i64),
    NewRelationship(NewRelationshipData),
    ChangeRole(ChangeRoleData),
    DeleteRelationship(EntityRelationship),
}

impl GuiMessage {
    /// What keeps the message from changing the database: a required field
    /// that is empty. Messages that change nothing have no flaw.
    pub open spec fn flaw(self) -> Option<Seq<char>> {
        match self {
            GuiMessage::NewEntity(data) => data.flaw(),
            GuiMessage::RelabelEntity(data) => data.flaw(),
            GuiMessage::NewDescriptor(data) => data.flaw(),
            GuiMessage::RenameDescriptor(data) => data.flaw(),
            GuiMessage::NewRelationship(data) => data.flaw(),
            _ => None,
        }
    }

    /// Whether `mutation` is the change that the message asks for.
    pub open spec fn writes(self, mutation: Mutation) -> bool {
        match self {
            GuiMessage::NewEntity(data) => data.creates(mutation),
            GuiMessage::RelabelEntity(data) => mutation == (Mutation::RelabelEntity {
                old_label: data.old_label,
                new_label: data.new_label,
            }),
            GuiMessage::DeleteEntity(label) => mutation == (Mutation::DeleteEntity { label }),
            GuiMessage::NewDescriptor(data) => data.creates(mutation),
            GuiMessage::RenameDescriptor(data) => mutation == (Mutation::ChangeEntityDescriptor {
                label: data.label,
                old_descriptor: data.old_descriptor,
                new_descriptor: data.new_descriptor,
            }),
            GuiMessage::DeleteDescriptor(label, descriptor) => mutation
                == (Mutation::DeleteEntityColumn { label, descriptor }),
            GuiMessage::NewHistoryItem(data) => mutation == Mutation::WriteHistoryItem(data.item()),
            GuiMessage::RedateHistoryItem(data) => mutation == (Mutation::RedateHistoryItem {
                timestamp: data.timestamp,
                year: data.new_year,
                day: data.new_day,
            }),
            GuiMessage::DeleteHistoryItem(timestamp) => mutation == (Mutation::DeleteHistoryItem {
                timestamp,
            }),
            GuiMessage::NewRelationship(data) => mutation == Mutation::WriteRelationship(
                data.relationship(),
            ),
            GuiMessage::ChangeRole(data) => mutation == (Mutation::ChangeRelationshipRole {
                relationship: data.old_relationship,
                new_role: data.new_role,
            }),
            GuiMessage::DeleteRelationship(relationship) => mutation
                == Mutation::DeleteRelationship(relationship),
            _ => false,
        }
    }

    /// What is selected once the change that the message asks for is done:
    /// what was created or changed, and nothing where something was deleted.
    pub open spec fn followup(self) -> Followup {
        match self {
            GuiMessage::NewEntity(data) => Followup::Label(Some(data.label)),
            GuiMessage::RelabelEntity(data) => Followup::Label(Some(data.new_label)),
            GuiMessage::DeleteEntity(label) => Followup::Label(None),
            GuiMessage::NewDescriptor(data) => Followup::Descriptor(
                data.label,
                Some(data.descriptor),
            ),
            GuiMessage::RenameDescriptor(data) => Followup::Descriptor(
                data.label,
                Some(data.new_descriptor),
            ),
            GuiMessage::DeleteDescriptor(label, descriptor) => Followup::Descriptor(label, None),
            GuiMessage::NewHistoryItem(data) => Followup::HistoryItem(
                data.year,
                data.day,
                data.timestamp,
            ),
            GuiMessage::RedateHistoryItem(data) => Followup::HistoryItem(
                data.new_year,
                data.new_day,
                data.timestamp,
            ),
            GuiMessage::DeleteHistoryItem(timestamp) => Followup::NoHistoryItem,
            GuiMessage::NewRelationship(data) => Followup::Relationship(
                Some(data.parent),
                Some(data.child),
                Some(data.role),
            ),
            GuiMessage::ChangeRole(data) => Followup::Relationship(
                Some(data.old_relationship.parent),
                Some(data.old_relationship.child),
                Some(data.new_role),
            ),
            _ => Followup::Relationship(None, None, None),
        }
    }
}

/// The words of the notice that a path could not be remembered.
pub open spec fn unstored_words(path: Seq<char>) -> Seq<char> {
    "The following database path could not be stored as user preference:\n"@ + path
}

/// Whether `outcome` is the error that reports an answer of the wrong kind.
pub open spec fn is_misfit(outcome: Outcome) -> bool {
    outcome matches Err(error) && error is LoreCoreError && error.detail() == misfit_words()
}

impl GuiModel {
    /// The state after the follow-up of a change was carried out.
    pub open spec fn followed(self, followup: Followup) -> GuiModel {
        match followup {
            Followup::Label(label) => self.with_entity(
                EntityViewModel {
                    labels: self.entity.labels.selecting(label.deep_view()),
                    due: EntityStage::Labels,
                    ..self.entity
                },
            ),
            Followup::Descriptor(label, descriptor) => self.with_entity(
                EntityViewModel {
                    labels: self.entity.labels.selecting(Some(label@)),
                    descriptors: self.entity.descriptors.selecting(descriptor.deep_view()),
                    due: EntityStage::Labels,
                    ..self.entity
                },
            ),
            Followup::DescriptionSaved => self.with_entity(self.entity.saved()),
            Followup::ContentSaved => self.with_history(self.history.saved()),
            Followup::HistoryItem(year, day, timestamp) => self.with_history(
                self.history.pointing_at(year, day, timestamp),
            ),
            Followup::NoHistoryItem => self.with_history(self.history.cleared()),
            Followup::Relationship(parent, child, role) => self.with_relationship(
                self.relationship.pointing_at(
                    parent.deep_view(),
                    child.deep_view(),
                    role.deep_view(),
                ),
            ),
        }
    }

    /// Whether `after` and `outcome` are what a message that changes the
    /// database leads to. A message with an empty required field is turned
    /// down with an input error, whether or not a database is open. Without
    /// a database the message is turned down too. In both cases nothing
    /// changes and nothing is asked. Else the change is asked for.
    pub open spec fn commanded(self, message: GuiMessage, after: GuiModel, outcome: Outcome) -> bool {
        match message.flaw() {
            Some(words) => after == self && (outcome matches Err(error) && error is InputError
                && error.detail() == words),
            None => if !self.connected() {
                after == self && outcome == Err::<Option<Request>, LoreGuiError>(
                    LoreGuiError::NoDatabase,
                )
            } else {
                &&& after == GuiModel { waiting: Waiting::Changed(message.followup()), ..self }
                &&& outcome matches Ok(Some(Request::Write(mutation)))
                &&& message.writes(mutation)
            },
        }
    }

    /// Whether `after` and `outcome` are what the message leads to from this
    /// state. Whatever request was out is given up first.
    pub open spec fn handles(self, message: GuiMessage, after: GuiModel, outcome: Outcome) -> bool
        decreases self.dialogs.len(),
    {
        let idle = self.idle();
        match message {
            GuiMessage::ViewSelected(view) => {
                &&& after == GuiModel { selected_view: view, ..idle }
                &&& outcome == Ok::<Option<Request>, LoreGuiError>(None)
            },
            GuiMessage::NewDatabase => {
                &&& after == GuiModel { waiting: Waiting::File, ..idle }
                &&& outcome == Ok::<Option<Request>, LoreGuiError>(Some(Request::PickNewFile))
            },
            GuiMessage::OpenDatabase => {
                &&& after == GuiModel { waiting: Waiting::File, ..idle }
                &&& outcome == Ok::<Option<Request>, LoreGuiError>(Some(Request::PickExistingFile))
            },
            GuiMessage::SetDisplayProtected(shown) => {
                &&& after == GuiModel {
                    display_protected: shown,
                    entity: EntityViewModel {
                        display_protected: shown,
                        due: EntityStage::Labels,
                        ..idle.entity
                    },
                    ..idle
                }.turning_to(ViewType::Entity).refreshed()
                &&& after.reports(outcome)
            },
            GuiMessage::EntityViewUpd(event) => idle.entity_event(event, after, outcome),
            GuiMessage::HistoryViewUpd(event) => idle.history_event(event, after, outcome),
            GuiMessage::RelationshipViewUpd(event) => idle.relationship_event(
                event,
                after,
                outcome,
            ),
            GuiMessage::DialogUpdate(update) => {
                &&& outcome == Ok::<Option<Request>, LoreGuiError>(None)
                &&& after == (if idle.dialogs.len() == 0 {
                    idle
                } else {
                    idle.closed().showing(idle.dialogs.last().updated(update))
                })
            },
            GuiMessage::DialogClosed => {
                &&& outcome == Ok::<Option<Request>, LoreGuiError>(None)
                &&& after == idle.closed()
            },
            GuiMessage::DialogSubmit => {
                if idle.dialogs.len() == 0 {
                    after == idle && outcome == Ok::<Option<Request>, LoreGuiError>(None)
                } else {
                    let front = idle.dialogs.last();
                    match front.flaw() {
                        Some(words) => after == idle && (outcome matches Err(error) && error
                            is InputError && error.detail() == words),
                        None => if front.message() is DialogClosed {
                            after == idle.closed() && outcome == Ok::<Option<Request>, LoreGuiError>(
                                None,
                            )
                        } else {
                            idle.closed().handles(front.message(), after, outcome)
                        },
                    }
                }
            },
            _ => idle.commanded(message, after, outcome),
        }
    }

    /// Whether `after` and `outcome` are what the answer leads to from this
    /// state. An answer that nobody waits for changes nothing. A failure is
    /// reported as it came, an answer of the wrong kind as such, and both end
    /// what was going on. Once a change is done its follow-up is carried out
    /// and the views are brought up to date. An answer to a view's question
    /// goes to that view, and the views are brought further up to date.
    pub open spec fn answers(self, response: Response, after: GuiModel, outcome: Outcome) -> bool {
        let idle = self.idle();
        match self.waiting {
            Waiting::Nothing => after == self && outcome == Ok::<Option<Request>, LoreGuiError>(
                None,
            ),
            Waiting::Changed(followup) => match response {
                Response::Done => if followup is DescriptionSaved || followup is ContentSaved {
                    after == idle.followed(followup) && outcome == Ok::<
                        Option<Request>,
                        LoreGuiError,
                    >(None)
                } else {
                    after == idle.followed(followup).stale().refreshed() && after.reports(outcome)
                },
                Response::Failed(words) => after == idle && outcome == Err::<
                    Option<Request>,
                    LoreGuiError,
                >(LoreGuiError::LoreCoreError(words)),
                _ => after == idle && is_misfit(outcome),
            },
            Waiting::Entity => if self.entity.refuses(response) {
                after == idle && (outcome matches Err(error) && self.entity.complaint(
                    response,
                    error,
                ))
            } else {
                after == idle.with_entity(self.entity.absorbed(response)).refreshed()
                    && after.reports(outcome)
            },
            Waiting::History => if self.history.refuses(response) {
                after == idle && (outcome matches Err(error) && self.history.complaint(
                    response,
                    error,
                ))
            } else {
                after == idle.with_history(self.history.absorbed(response)).refreshed()
                    && after.reports(outcome)
            },
            Waiting::Relationship => if self.relationship.refuses(response) {
                after == idle && (outcome matches Err(error) && self.relationship.complaint(
                    response,
                    error,
                ))
            } else {
                after == idle.with_relationship(
                    self.relationship.absorbed(response),
                ).refreshed() && after.reports(outcome)
            },
            Waiting::AllLabels => match response {
                Response::Texts(labels) => {
                    &&& outcome == Ok::<Option<Request>, LoreGuiError>(None)
                    &&& idle.opens(after)
                    &&& GuiModel::offers_labels(after.dialogs.last(), labels.deep_view())
                },
                Response::Failed(words) => after == idle && outcome == Err::<
                    Option<Request>,
                    LoreGuiError,
                >(LoreGuiError::LoreCoreError(words)),
                _ => after == idle && is_misfit(outcome),
            },
            Waiting::Timestamp => match response {
                Response::Timestamp(timestamp) => {
                    &&& outcome == Ok::<Option<Request>, LoreGuiError>(None)
                    &&& idle.opens(after)
                    &&& after.dialogs.last() matches Dialog::NewHistory(dialog)
                    &&& dialog.data.timestamp == timestamp
                    &&& dialog.data.year == 0
                    &&& dialog.data.day.0 is None
                    &&& dialog.data.content@.len() == 0
                    &&& dialog.data.properties@.len() == 0
                },
                Response::Failed(words) => after == idle && outcome == Err::<
                    Option<Request>,
                    LoreGuiError,
                >(LoreGuiError::LoreCoreError(words)),
                _ => after == idle && is_misfit(outcome),
            },
            Waiting::File => match response {
                Response::Path(None) => after == idle && outcome == Ok::<
                    Option<Request>,
                    LoreGuiError,
                >(None),
                Response::Path(Some(path)) => after == idle.opening(path, true) && outcome == Ok::<
                    Option<Request>,
                    LoreGuiError,
                >(Some(Request::OpenDatabase(path))),
                Response::Failed(words) => after == idle && outcome == Err::<
                    Option<Request>,
                    LoreGuiError,
                >(LoreGuiError::LoreCoreError(words)),
                _ => after == idle && is_misfit(outcome),
            },
            Waiting::Opened(path, remember) => match response {
                Response::Done => {
                    let open = GuiModel { database: Some(path@), ..idle }.reset();
                    if remember {
                        after == GuiModel { waiting: Waiting::Stored(path), ..open } && outcome
                            == Ok::<Option<Request>, LoreGuiError>(Some(Request::StorePath(path)))
                    } else {
                        after == open.refreshed() && after.reports(outcome)
                    }
                },
                Response::Failed(words) => after == idle && outcome == Err::<
                    Option<Request>,
                    LoreGuiError,
                >(LoreGuiError::LoreCoreError(words)),
                _ => after == idle && is_misfit(outcome),
            },
            Waiting::Stored(path) => match response {
                Response::Done => after == idle.refreshed() && after.reports(outcome),
                _ => {
                    &&& after == GuiModel { notice: after.notice, ..idle }.refreshed()
                    &&& after.notice matches Some(LoreGuiError::FileError(words))
                    &&& words@ == unstored_words(path@)
                    &&& after.reports(outcome)
                },
            },
        }
    }

    /// Whether `after` and `request` are what an event leads to where errors
    /// are shown: `past` says what the event leads to, and an error that
    /// stopped it stands in a dialog in front of everything.
    pub open spec fn shows(
        after: GuiModel,
        request: Option<Request>,
        past: spec_fn(GuiModel, Outcome) -> bool,
    ) -> bool {
        ||| past(after, Ok(request))
        ||| {
            &&& request is None
            &&& after.dialogs.len() > 0
            &&& after.dialogs.last() matches Dialog::Error(dialog)
            &&& past(after.closed(), Err(dialog.error))
        }
    }
}

/// The change that a message asks for and what follows it, or the input
/// error that says which required field is empty. Messages that ask for no
/// change give none.
fn command(message: GuiMessage) -> (outcome: Result<Option<(Mutation, Followup)>, LoreGuiError>)
    ensures
        outcome is Ok <==> message.flaw() is None,
        outcome matches Err(error) ==> error is InputError && Some(error.detail())
            == message.flaw(),
        outcome matches Ok(Some(change)) ==> message.writes(change.0) && change.1
            == message.followup(),
        outcome matches Ok(None) ==> !(message is NewEntity || message is RelabelEntity || message
            is DeleteEntity || message is NewDescriptor || message is RenameDescriptor || message
            is DeleteDescriptor || message is NewHistoryItem || message is RedateHistoryItem
            || message is DeleteHistoryItem || message is NewRelationship || message is ChangeRole
            || message is DeleteRelationship),
{
    match message {
        GuiMessage::NewEntity(data) => {
            let label = data.label.clone();
            let mutation = data.mutation()?;
            Ok(Some((mutation, Followup::Label(Some(label)))))
        },
        GuiMessage::RelabelEntity(data) => {
            let label = data.new_label.clone();
            let mutation = data.mutation()?;
            Ok(Some((mutation, Followup::Label(Some(label)))))
        },
        GuiMessage::DeleteEntity(label) => Ok(
            Some((Mutation::DeleteEntity { label }, Followup::Label(None))),
        ),
        GuiMessage::NewDescriptor(data) => {
            let label = data.label.clone();
            let descriptor = data.descriptor.clone();
            let mutation = data.mutation()?;
            Ok(Some((mutation, Followup::Descriptor(label, Some(descriptor)))))
        },
        GuiMessage::RenameDescriptor(data) => {
            let label = data.label.clone();
            let descriptor = data.new_descriptor.clone();
            let mutation = data.mutation()?;
            Ok(Some((mutation, Followup::Descriptor(label, Some(descriptor)))))
        },
        GuiMessage::DeleteDescriptor(label, descriptor) => {
            let kept = label.clone();
            Ok(
                Some(
                    (
                        Mutation::DeleteEntityColumn { label, descriptor },
                        Followup::Descriptor(kept, None),
                    ),
                ),
            )
        },
        GuiMessage::NewHistoryItem(data) => {
            let followup = Followup::HistoryItem(data.year, data.day, data.timestamp);
            Ok(Some((data.mutation(), followup)))
        },
        GuiMessage::RedateHistoryItem(data) => {
            let followup = Followup::HistoryItem(data.new_year, data.new_day, data.timestamp);
            Ok(Some((data.mutation(), followup)))
        },
        GuiMessage::DeleteHistoryItem(timestamp) => Ok(
            Some((Mutation::DeleteHistoryItem { timestamp }, Followup::NoHistoryItem)),
        ),
        GuiMessage::NewRelationship(data) => {
            let followup = Followup::Relationship(
                Some(data.parent.clone()),
                Some(data.child.clone()),
                Some(data.role.clone()),
            );
            let mutation = data.mutation()?;
            Ok(Some((mutation, followup)))
        },
        GuiMessage::ChangeRole(data) => {
            let followup = Followup::Relationship(
                Some(data.old_relationship.parent.clone()),
                Some(data.old_relationship.child.clone()),
                Some(data.new_role.clone()),
            );
            Ok(Some((data.mutation(), followup)))
        },
        GuiMessage::DeleteRelationship(relationship) => Ok(
            Some(
                (
                    Mutation::DeleteRelationship(relationship),
                    Followup::Relationship(None, None, None),
                ),
            ),
        ),
        _ => Ok(None),
    }
}

impl SqlGui {
    /// Carries out what follows a change that is done.
    fn follow(&mut self, followup: Followup)
        ensures
            final(self)@ == old(self)@.followed(followup),
            old(self)@.wf() ==> final(self)@.wf(),
    {
        match followup {
            Followup::Label(label) => {
                self.entity_view_state.set_selected_label(label);
            },
            Followup::Descriptor(label, descriptor) => {
                self.entity_view_state.set_selected_label(Some(label));
                self.entity_view_state.set_selected_descriptor(descriptor);
            },
            Followup::DescriptionSaved => {
                self.entity_view_state.description_saved();
            },
            Followup::ContentSaved => {
                self.history_view_state.content_saved();
            },
            Followup::HistoryItem(year, day, timestamp) => {
                self.history_view_state.point_at(year, day, timestamp);
            },
            Followup::NoHistoryItem => {
                self.history_view_state.reset_selections();
            },
            Followup::Relationship(parent, child, role) => {
                self.relationship_view_state.point_at(parent, child, role);
            },
        }
    }

    /// Marks every column of every view as out of date.
    fn mark_stale(&mut self)
        ensures
            final(self)@ == old(self)@.stale(),
            old(self)@.wf() ==> final(self)@.wf(),
    {
        self.entity_view_state.mark_stale();
        self.history_view_state.mark_stale();
        self.relationship_view_state.mark_stale();
        self.round = Round::through_all();
    }

    /// Takes one message and says what is to be asked next, or what went wrong.
    pub fn handle_message(&mut self, message: GuiMessage) -> (outcome: Outcome)
        ensures
            old(self)@.handles(message, final(self)@, outcome),
            old(self)@.wf() ==> final(self)@.wf(),
        decreases old(self)@.dialogs.len(),
    {
        self.waiting = Waiting::Nothing;
        match message {
            GuiMessage::ViewSelected(view) => {
                self.selected_view = view;
                Ok(None)
            },
            GuiMessage::NewDatabase => Ok(Some(self.new_database_from_dialog())),
            GuiMessage::OpenDatabase => Ok(Some(self.open_database_from_dialog())),
            GuiMessage::SetDisplayProtected(display_protected) => {
                self.display_protected = display_protected;
                self.entity_view_state.set_display_protected(display_protected);
                self.round = Round::through(ViewType::Entity);
                self.refresh()
            },
            GuiMessage::EntityViewUpd(event) => self.update_entity_view(event),
            GuiMessage::HistoryViewUpd(event) => self.update_history_view(event),
            GuiMessage::RelationshipViewUpd(event) => self.update_relationship_view(event),
            GuiMessage::DialogUpdate(update) => {
                self.update_dialog(update);
                Ok(None)
            },
            GuiMessage::DialogSubmit => self.dialog_submit(),
            GuiMessage::DialogClosed => {
                self.dialogs.pop();
                Ok(None)
            },
            _ => {
                match command(message)? {
                    Some((mutation, followup)) => {
                        if self.lore_database.is_none() {
                            return Err(LoreGuiError::NoDatabase);
                        }
                        self.waiting = Waiting::Changed(followup);
                        Ok(Some(Request::Write(mutation)))
                    },
                    None => Ok(None),
                }
            },
        }
    }

    /// Hands a change of one field to the dialog in front.
    fn update_dialog(&mut self, update: DialogUpdate)
        ensures
            final(self)@ == (if old(self)@.dialogs.len() == 0 {
                old(self)@
            } else {
                old(self)@.closed().showing(old(self)@.dialogs.last().updated(update))
            }),
    {
        match self.dialogs.pop() {
            Some(dialog) => {
                let mut dialog = dialog;
                dialog.update(update);
                self.dialogs.push(dialog);
            },
            None => {},
        }
    }

    /// Submits the dialog in front: where it can be submitted it is closed
    /// and its message is handled.
    fn dialog_submit(&mut self) -> (outcome: Outcome)
        requires
            old(self)@.waiting is Nothing,
        ensures
            old(self)@.handles(GuiMessage::DialogSubmit, final(self)@, outcome),
            old(self)@.wf() ==> final(self)@.wf(),
        decreases old(self)@.dialogs.len(), 0int,
    {
        if self.dialogs.len() == 0 {
            return Ok(None);
        }
        self.dialogs[self.dialogs.len() - 1].validate()?;
        match self.dialogs.pop() {
            Some(dialog) => {
                match dialog.submit() {
                    GuiMessage::DialogClosed => Ok(None),
                    message => self.handle_message(message),
                }
            },
            None => Ok(None),
        }
    }

    /// Takes one answer and says what is to be asked next, or what went wrong.
    pub fn handle_response(&mut self, response: Response) -> (outcome: Outcome)
        ensures
            old(self)@.answers(response, final(self)@, outcome),
            old(self)@.wf() ==> final(self)@.wf(),
    {
        let mut waiting = Waiting::Nothing;
        core::mem::swap(&mut self.waiting, &mut waiting);
        match waiting {
            Waiting::Nothing => Ok(None),
            Waiting::Changed(followup) => match response {
                Response::Done => {
                    let saved = match followup {
                        Followup::DescriptionSaved => true,
                        Followup::ContentSaved => true,
                        _ => false,
                    };
                    self.follow(followup);
                    if saved {
                        Ok(None)
                    } else {
                        self.mark_stale();
                        self.refresh()
                    }
                },
                Response::Failed(words) => Err(LoreGuiError::LoreCoreError(words)),
                _ => Err(misfit()),
            },
            Waiting::Entity => {
                self.entity_view_state.absorb(response)?;
                self.refresh()
            },
            Waiting::History => {
                self.history_view_state.absorb(response)?;
                self.refresh()
            },
            Waiting::Relationship => {
                self.relationship_view_state.absorb(response)?;
                self.refresh()
            },
            Waiting::AllLabels => match response {
                Response::Texts(labels) => {
                    let mut children: Vec<String> = Vec::new();
                    let mut i: usize = 0;
                    while i < labels.len()
                        invariant
                            i <= labels.len(),
                            children.deep_view() == labels.deep_view().take(i as int),
                        decreases labels.len() - i,
                    {
                        let ghost before = children.deep_view();
                        children.push(labels[i].clone());
                        assert(children.deep_view() =~= before.push(labels.deep_view()[i as int]));
                        assert(labels.deep_view().take(i + 1) =~= labels.deep_view().take(
                            i as int,
                        ).push(labels.deep_view()[i as int]));
                        i = i + 1;
                    }
                    assert(labels.deep_view().take(labels.len() as int) =~= labels.deep_view());
                    self.dialogs.push(
                        Dialog::NewRelationship(NewRelationshipDialog::new(labels, children)),
                    );
                    Ok(None)
                },
                Response::Failed(words) => Err(LoreGuiError::LoreCoreError(words)),
                _ => Err(misfit()),
            },
            Waiting::Timestamp => match response {
                Response::Timestamp(timestamp) => {
                    self.dialogs.push(Dialog::NewHistory(NewHistoryDialog::new(timestamp)));
                    Ok(None)
                },
                Response::Failed(words) => Err(LoreGuiError::LoreCoreError(words)),
                _ => Err(misfit()),
            },
            Waiting::File => match response {
                Response::Path(None) => Ok(None),
                Response::Path(Some(path)) => Ok(Some(self.open_database(path))),
                Response::Failed(words) => Err(LoreGuiError::LoreCoreError(words)),
                _ => Err(misfit()),
            },
            Waiting::Opened(path, remember) => match response {
                Response::Done => {
                    self.lore_database = Some(path.clone());
                    self.entity_view_state.reset_selections();
                    self.history_view_state.reset_selections();
                    self.relationship_view_state.reset_selections();
                    self.round = Round::through_all();
                    if remember {
                        self.waiting = Waiting::Stored(path.clone());
                        Ok(Some(Request::StorePath(path)))
                    } else {
                        self.refresh()
                    }
                },
                Response::Failed(words) => Err(LoreGuiError::LoreCoreError(words)),
                _ => Err(misfit()),
            },
            Waiting::Stored(path) => match response {
                Response::Done => self.refresh(),
                _ => {
                    let words = String::from_str(
                        "The following database path could not be stored as user preference:\n",
                    ).concat(path.as_str());
                    self.notice = Some(LoreGuiError::FileError(words));
                    self.refresh()
                },
            },
        }
    }

    /// Takes one message. An error that stops the handling is shown in a
    /// dialog in front of everything, and nothing more is asked.
    pub fn update(&mut self, message: GuiMessage) -> (request: Option<Request>)
        ensures
            GuiModel::shows(
                final(self)@,
                request,
                |after: GuiModel, outcome: Outcome| old(self)@.handles(message, after, outcome),
            ),
            old(self)@.wf() ==> final(self)@.wf(),
    {
        match self.handle_message(message) {
            Ok(request) => request,
            Err(error) => {
                let ghost stopped = self@;
                self.dialogs.push(Dialog::Error(ErrorDialog::new(error)));
                assert(self@.closed() == stopped) by {
                    assert(self@.dialogs.drop_last() =~= stopped.dialogs);
                }
                None
            },
        }
    }

    /// Takes one answer. An error that stops the handling is shown in a
    /// dialog in front of everything, and nothing more is asked.
    pub fn resume(&mut self, response: Response) -> (request: Option<Request>)
        ensures
            GuiModel::shows(
                final(self)@,
                request,
                |after: GuiModel, outcome: Outcome| old(self)@.answers(response, after, outcome),
            ),
            old(self)@.wf() ==> final(self)@.wf(),
    {
        match self.handle_response(response) {
            Ok(request) => request,
            Err(error) => {
                let ghost stopped = self@;
                self.dialogs.push(Dialog::Error(ErrorDialog::new(error)));
                assert(self@.closed() == stopped) by {
                    assert(self@.dialogs.drop_last() =~= stopped.dialogs);
                }
                None
            },
        }
    }
}

} // verus!
