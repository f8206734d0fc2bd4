use vstd::prelude::*;
use crate::collaborator::Request;
use crate::dialog::Dialog;
use crate::entity_view::{EntityStage, EntityViewModel, EntityViewState};
use crate::errors::LoreGuiError;
use crate::history_view::day::Day;
use crate::history_view::{HistoryStage, HistoryViewModel, HistoryViewState};
use crate::relationship_view::{RelationshipStage, RelationshipViewModel, RelationshipViewState};

verus! {

/// The three views of a database.
#[derive(Clone, Copy, Debug, PartialEq, Eq, Structural)]
pub enum ViewType {
    Entity,
    History,
    Relationship,
}

impl Default for ViewType {
    fn default() -> (view: Self)
        ensures
            view == ViewType::Entity,
    {
        ViewType::Entity
    }
}

/// What is to be done once a change to the database has been carried out.
#[derive(Debug, Clone, PartialEq, Eq)]
pub enum Followup {
    /// Select this label.
    Label(Option<String>),
    /// Select this label and this descriptor.
    Descriptor(String, Option<String>),
    /// Record that the description in the editor is the saved one.
    DescriptionSaved,
    /// Record that the content in the editor is the saved one.
    ContentSaved,
    /// Select the history item of this year, day and timestamp.
    HistoryItem(i32, Day, i64),
    /// Select no history item.
    NoHistoryItem,
    /// Select this parent, child and role.
    Relationship(Option<String>, Option<String>, Option<String>),
}

/// The views that one round of bringing up to date still has to go through.
/// A round goes through the entity view first, then the relationship view,
/// then the history view.
#[derive(Clone, Copy, Debug, PartialEq, Eq, Structural)]
pub struct Round {
    pub entity: bool,
    pub relationship: bool,
    pub history: bool,
}

impl Round {
    /// The round through every view.
    pub open spec fn all() -> Round {
        Round { entity: true, relationship: true, history: true }
    }

    /// The round through no view.
    pub open spec fn none() -> Round {
        Round { entity: false, relationship: false, history: false }
    }

    /// The round through one view.
    pub open spec fn only(view: ViewType) -> Round {
        Round {
            entity: view is Entity,
            relationship: view is Relationship,
            history: view is History,
        }
    }

    /// The round through every view.
    pub fn through_all() -> (round: Round)
        ensures
            round == Round::all(),
    {
        Round { entity: true, relationship: true, history: true }
    }

    /// The round through one view.
    pub fn through(view: ViewType) -> (round: Round)
        ensures
            round == Round::only(view),
    {
        match view {
            ViewType::Entity => Round { entity: true, relationship: false, history: false },
            ViewType::Relationship => Round { entity: false, relationship: true, history: false },
            ViewType::History => Round { entity: false, relationship: false, history: true },
        }
    }
}

/// The request that is out, by what its answer is for.
#[derive(Debug, Clone, PartialEq, Eq)]
pub enum Waiting {
    /// No request is out.
    Nothing,
    /// A change is out; the follow-up comes once it is done.
    Changed(Followup),
    /// A question of the entity view is out.
    Entity,
    /// A question of the history view is out.
    History,
    /// A question of the relationship view is out.
    Relationship,
    /// The labels for the dialog that relates two entities are asked for.
    AllLabels,
    /// The time for the dialog that adds a history item is asked for.
    Timestamp,
    /// The user is picking a file, new or existing.
    File,
    /// The database at this path is being opened; the flag says whether the
    /// path is to be remembered.
    Opened(String, bool),
    /// The path of the database is being remembered.
    Stored(String),
}

/// The whole state of the application.
#[derive(Debug)]
pub struct SqlGui {
    pub(crate) selected_view: ViewType,
    pub(crate) display_protected: bool,
    pub(crate) entity_view_state: EntityViewState,
    pub(crate) history_view_state: HistoryViewState,
    pub(crate) relationship_view_state: RelationshipViewState,
    pub(crate) lore_database: Option<String>,
    pub(crate) dialogs: Vec<Dialog>,
    pub(crate) waiting: Waiting,
    pub(crate) round: Round,
    pub(crate) notice: Option<LoreGuiError>,
}

/// The same state under the name that the entity view knows it by.
pub type GuiState = SqlGui;

/// What handling an event ends with: the request to carry out next, if there
/// is one, or the error that stopped it.
pub type Outcome = Result<Option<Request>, LoreGuiError>;

/// The state of the application as plain values.
pub struct GuiModel {
    pub selected_view: ViewType,
    pub display_protected: bool,
    pub entity: EntityViewModel,
    pub history: HistoryViewModel,
    pub relationship: RelationshipViewModel,
    /// The path of the database that is open.
    pub database: Option<Seq<char>>,
    /// The dialogs that are open, the one in front last.
    pub dialogs: Seq<Dialog>,
    pub waiting: Waiting,
    /// The views that the round under way still has to go through.
    pub round: Round,
    /// An error that was reported without a dialog.
    pub notice: Option<LoreGuiError>,
}

impl View for SqlGui {
    type V = GuiModel;

    open(crate) spec fn view(&self) -> GuiModel {
        GuiModel {
            selected_view: self.selected_view,
            display_protected: self.display_protected,
            entity: self.entity_view_state@,
            history: self.history_view_state@,
            relationship: self.relationship_view_state@,
            database: self.lore_database.deep_view(),
            dialogs: self.dialogs@,
            waiting: self.waiting,
            round: self.round,
            notice: self.notice,
        }
    }
}

impl GuiModel {
    /// The state is sound when its three views are.
    pub open spec fn wf(self) -> bool {
        &&& self.entity.wf()
        &&& self.history.wf()
        &&& self.relationship.wf()
    }

    /// The state as the application starts: the entity view in front, no
    /// database, no dialog.
    pub open spec fn initial() -> GuiModel {
        GuiModel {
            selected_view: ViewType::Entity,
            display_protected: false,
            entity: EntityViewModel::initial(false),
            history: HistoryViewModel::initial(),
            relationship: RelationshipViewModel::initial(),
            database: None,
            dialogs: Seq::empty(),
            waiting: Waiting::Nothing,
            round: Round::none(),
            notice: None,
        }
    }

    /// Whether a database is open.
    pub open spec fn connected(self) -> bool {
        self.database is Some
    }

    /// The state with no request out.
    pub open spec fn idle(self) -> GuiModel {
        GuiModel { waiting: Waiting::Nothing, ..self }
    }

    /// The state with every column of every view marked as out of date, and
    /// a round through every view before it.
    pub open spec fn stale(self) -> GuiModel {
        GuiModel {
            entity: EntityViewModel { due: EntityStage::Labels, ..self.entity },
            history: HistoryViewModel { due: HistoryStage::Years, ..self.history },
            relationship: RelationshipViewModel {
                due: RelationshipStage::Parents,
                ..self.relationship
            },
            round: Round::all(),
            ..self
        }
    }

    /// The state with a round through one view before it.
    pub open spec fn turning_to(self, view: ViewType) -> GuiModel {
        GuiModel { round: Round::only(view), ..self }
    }

    /// The state with one more dialog in front.
    pub open spec fn showing(self, dialog: Dialog) -> GuiModel {
        GuiModel { dialogs: self.dialogs.push(dialog), ..self }
    }

    /// The state without the dialog in front, if there is one.
    pub open spec fn closed(self) -> GuiModel {
        GuiModel {
            dialogs: if self.dialogs.len() == 0 {
                self.dialogs
            } else {
                self.dialogs.drop_last()
            },
            ..self
        }
    }

    /// The state after the round went on as far as that goes without an
    /// answer. The round goes through the views it still has before it, the
    /// entity view first, then the relationship view, then the history view,
    /// and leaves the other views as they are. It stops at the first view
    /// that has a question, and at a history view whose question cannot be
    /// put, which then stays before the round.
    pub open spec fn refreshed(self) -> GuiModel {
        let connected = self.connected();
        let entity = if self.round.entity {
            self.entity.advanced(connected)
        } else {
            self.entity
        };
        if self.round.entity && entity.asks(connected) {
            GuiModel { entity, waiting: Waiting::Entity, ..self }
        } else {
            let relationship = if self.round.relationship {
                self.relationship.advanced(connected)
            } else {
                self.relationship
            };
            if self.round.relationship && relationship.asks(connected) {
                GuiModel {
                    entity,
                    relationship,
                    round: Round { entity: false, ..self.round },
                    waiting: Waiting::Relationship,
                    ..self
                }
            } else {
                let history = if self.round.history {
                    self.history.advanced(connected)
                } else {
                    self.history
                };
                if self.round.history && history.asks(connected) {
                    GuiModel {
                        entity,
                        relationship,
                        history,
                        round: Round::only(ViewType::History),
                        waiting: if history.fault() is Some {
                            Waiting::Nothing
                        } else {
                            Waiting::History
                        },
                        ..self
                    }
                } else {
                    GuiModel {
                        entity,
                        relationship,
                        history,
                        round: Round::none(),
                        waiting: Waiting::Nothing,
                        ..self
                    }
                }
            }
        }
    }

    /// Whether `outcome` is what a state in which the round just went on ends
    /// with: the question of the view that waits, nothing where the round is
    /// through, and the input error of the history view where the round
    /// stopped because its question cannot be put.
    pub open spec fn reports(self, outcome: Outcome) -> bool {
        match self.waiting {
            Waiting::Entity => outcome matches Ok(Some(request)) && self.entity.wants(request),
            Waiting::History => outcome matches Ok(Some(request)) && self.history.wants(request),
            Waiting::Relationship => outcome matches Ok(Some(request))
                && self.relationship.wants(request),
            _ => if self.round.history {
                self.history.fault() matches Some(fault) && (outcome matches Err(error) && error
                    is InputError && error.detail() == fault.words())
            } else {
                outcome == Ok::<Option<Request>, LoreGuiError>(None)
            },
        }
    }
}

impl SqlGui {
    /// The application as it starts.
    pub fn new() -> (gui: Self)
        ensures
            gui@ == GuiModel::initial(),
            gui@.wf(),
    {
        SqlGui {
            selected_view: ViewType::Entity,
            display_protected: false,
            entity_view_state: EntityViewState::new(false),
            history_view_state: HistoryViewState::new(),
            relationship_view_state: RelationshipViewState::new(),
            lore_database: None,
            dialogs: Vec::new(),
            waiting: Waiting::Nothing,
            round: Round { entity: false, relationship: false, history: false },
            notice: None,
        }
    }

    /// The view in front.
    pub fn selected_view(&self) -> (view: ViewType)
        ensures
            view == self@.selected_view,
    {
        self.selected_view
    }

    /// Whether protected names are on display.
    pub fn display_protected(&self) -> (shown: bool)
        ensures
            shown == self@.display_protected,
    {
        self.display_protected
    }

    /// The state of the entity view.
    pub fn entity_view_state(&self) -> (view: &EntityViewState)
        ensures
            view@ == self@.entity,
    {
        &self.entity_view_state
    }

    /// The state of the history view.
    pub fn history_view_state(&self) -> (view: &HistoryViewState)
        ensures
            view@ == self@.history,
    {
        &self.history_view_state
    }

    /// The state of the relationship view.
    pub fn relationship_view_state(&self) -> (view: &RelationshipViewState)
        ensures
            view@ == self@.relationship,
    {
        &self.relationship_view_state
    }

    /// The path of the database that is open.
    pub fn lore_database(&self) -> (path: &Option<String>)
        ensures
            path.deep_view() == self@.database,
    {
        &self.lore_database
    }

    /// What the application shows in place of a path while no database is open.
    pub fn current_database_display(&self) -> (text: String)
        ensures
            text@ == (match self@.database {
                Some(path) => path,
                None => "[No database loaded]"@,
            }),
    {
        match &self.lore_database {
            Some(path) => path.clone(),
            None => "[No database loaded]".to_owned(),
        }
    }

    /// The dialog in front, if one is open.
    pub fn dialog(&self) -> (dialog: Option<&Dialog>)
        ensures
            self@.dialogs.len() == 0 ==> dialog is None,
            self@.dialogs.len() > 0 ==> dialog == Some(&self@.dialogs.last()),
    {
        if self.dialogs.len() == 0 {
            None
        } else {
            Some(&self.dialogs[self.dialogs.len() - 1])
        }
    }

    /// Puts a dialog in front of everything.
    pub fn show(&mut self, dialog: Dialog)
        ensures
            final(self)@ == old(self)@.showing(dialog),
    {
        self.dialogs.push(dialog);
    }

    /// The error that was last reported without a dialog.
    pub fn notice(&self) -> (notice: &Option<LoreGuiError>)
        ensures
            *notice == self@.notice,
    {
        &self.notice
    }

    /// Hands out the error that was reported without a dialog, and forgets it.
    pub fn take_notice(&mut self) -> (notice: Option<LoreGuiError>)
        ensures
            notice == old(self)@.notice,
            final(self)@ == (GuiModel { notice: None, ..old(self)@ }),
    {
        let mut notice = None;
        core::mem::swap(&mut self.notice, &mut notice);
        notice
    }

    /// The request that is out.
    pub fn waiting(&self) -> (waiting: &Waiting)
        ensures
            *waiting == self@.waiting,
    {
        &self.waiting
    }

    /// The label that is selected.
    pub fn get_selected_label(&self) -> (label: Option<String>)
        ensures
            label.deep_view() == self@.entity.labels.selection,
    {
        self.entity_view_state.get_selected_label()
    }

    /// Selects a label without bringing the views up to date.
    pub fn set_selected_label(&mut self, label: Option<String>)
        ensures
            final(self)@ == (GuiModel {
                entity: EntityViewModel {
                    labels: old(self)@.entity.labels.selecting(label.deep_view()),
                    due: EntityStage::Labels,
                    ..old(self)@.entity
                },
                ..old(self)@
            }),
            old(self)@.wf() ==> final(self)@.wf(),
    {
        self.entity_view_state.set_selected_label(label);
    }

    /// The descriptor that is selected.
    pub fn get_selected_descriptor(&self) -> (descriptor: Option<String>)
        ensures
            descriptor.deep_view() == self@.entity.descriptors.selection,
    {
        self.entity_view_state.get_selected_descriptor()
    }

    /// Selects a descriptor without bringing the views up to date.
    pub fn set_selected_descriptor(&mut self, descriptor: Option<String>)
        ensures
            final(self)@ == (GuiModel {
                entity: EntityViewModel {
                    descriptors: old(self)@.entity.descriptors.selecting(descriptor.deep_view()),
                    due: EntityStage::Labels,
                    ..old(self)@.entity
                },
                ..old(self)@
            }),
            old(self)@.wf() ==> final(self)@.wf(),
    {
        self.entity_view_state.set_selected_descriptor(descriptor);
    }

    /// The description as its editor shows it.
    pub fn get_description_text(&self) -> (text: String)
        ensures
            text@ == self@.entity.description.buffer,
    {
        self.entity_view_state.get_description_text()
    }

    /// Loads a description into its editor.
    pub fn set_description_text(&mut self, text: &str)
        ensures
            final(self)@ == (GuiModel {
                entity: EntityViewModel {
                    description: crate::editor::EditorModel::loaded(text@),
                    due: EntityStage::Labels,
                    ..old(self)@.entity
                },
                ..old(self)@
            }),
            old(self)@.wf() ==> final(self)@.wf(),
    {
        self.entity_view_state.set_description_text(text);
    }

    /// The year that is selected.
    pub fn get_selected_year(&self) -> (year: Option<i32>)
        ensures
            year == self@.history.years.selection,
    {
        self.history_view_state.get_selected_year()
    }

    /// Selects a year without bringing the views up to date.
    pub fn set_selected_year(&mut self, year: Option<i32>)
        ensures
            final(self)@ == (GuiModel {
                history: HistoryViewModel {
                    years: old(self)@.history.years.selecting(year),
                    due: HistoryStage::Years,
                    ..old(self)@.history
                },
                ..old(self)@
            }),
            old(self)@.wf() ==> final(self)@.wf(),
    {
        self.history_view_state.set_selected_year(year);
    }

    /// The day that is selected.
    pub fn get_selected_day(&self) -> (day: Option<Day>)
        ensures
            day.deep_view() == self@.history.days.selection,
    {
        self.history_view_state.get_selected_day()
    }

    /// Selects a day without bringing the views up to date.
    pub fn set_selected_day(&mut self, day: Option<Day>)
        ensures
            final(self)@ == (GuiModel {
                history: HistoryViewModel {
                    days: old(self)@.history.days.selecting(day.deep_view()),
                    due: HistoryStage::Years,
                    ..old(self)@.history
                },
                ..old(self)@
            }),
            old(self)@.wf() ==> final(self)@.wf(),
    {
        self.history_view_state.set_selected_day(day);
    }

    /// The history item that is selected.
    pub fn get_selected_timestamp(&self) -> (timestamp: Option<i64>)
        ensures
            timestamp == self@.history.timestamps.selection,
    {
        self.history_view_state.get_selected_timestamp()
    }

    /// Selects a history item without bringing the views up to date.
    pub fn set_selected_timestamp(&mut self, timestamp: Option<i64>)
        ensures
            final(self)@ == (GuiModel {
                history: HistoryViewModel {
                    timestamps: old(self)@.history.timestamps.selecting(timestamp),
                    due: HistoryStage::Years,
                    ..old(self)@.history
                },
                ..old(self)@
            }),
            old(self)@.wf() ==> final(self)@.wf(),
    {
        self.history_view_state.set_selected_timestamp(timestamp);
    }

    /// The content of the history item as its editor shows it.
    pub fn get_history_text(&self) -> (text: String)
        ensures
            text@ == self@.history.content.buffer,
    {
        self.history_view_state.get_content_text()
    }

    /// Loads the content of a history item into its editor.
    pub fn set_history_text(&mut self, text: &str)
        ensures
            final(self)@ == (GuiModel {
                history: HistoryViewModel {
                    content: crate::editor::EditorModel::loaded(text@),
                    due: HistoryStage::Years,
                    ..old(self)@.history
                },
                ..old(self)@
            }),
            old(self)@.wf() ==> final(self)@.wf(),
    {
        self.history_view_state.set_content_text(text);
    }

    /// The parent that is selected.
    pub fn get_selected_parent(&self) -> (parent: Option<String>)
        ensures
            parent.deep_view() == self@.relationship.parents.selection,
    {
        self.relationship_view_state.get_selected_parent()
    }

    /// Selects a parent without bringing the views up to date.
    pub fn set_selected_parent(&mut self, parent: Option<String>)
        ensures
            final(self)@ == (GuiModel {
                relationship: RelationshipViewModel {
                    parents: old(self)@.relationship.parents.selecting(parent.deep_view()),
                    due: RelationshipStage::Parents,
                    ..old(self)@.relationship
                },
                ..old(self)@
            }),
            old(self)@.wf() ==> final(self)@.wf(),
    {
        self.relationship_view_state.set_selected_parent(parent);
    }

    /// The child that is selected.
    pub fn get_selected_child(&self) -> (child: Option<String>)
        ensures
            child.deep_view() == self@.relationship.children.selection,
    {
        self.relationship_view_state.get_selected_child()
    }

    /// Selects a child without bringing the views up to date.
    pub fn set_selected_child(&mut self, child: Option<String>)
        ensures
            final(self)@ == (GuiModel {
                relationship: RelationshipViewModel {
                    children: old(self)@.relationship.children.selecting(child.deep_view()),
                    due: RelationshipStage::Parents,
                    ..old(self)@.relationship
                },
                ..old(self)@
            }),
            old(self)@.wf() ==> final(self)@.wf(),
    {
        self.relationship_view_state.set_selected_child(child);
    }

    /// The role that is selected.
    pub fn get_selected_role(&self) -> (role: Option<String>)
        ensures
            role.deep_view() == self@.relationship.roles.selection,
    {
        self.relationship_view_state.get_selected_role()
    }

    /// Selects a role without bringing the views up to date.
    pub fn set_selected_role(&mut self, role: Option<String>)
        ensures
            final(self)@ == (GuiModel {
                relationship: RelationshipViewModel {
                    roles: old(self)@.relationship.roles.selecting(role.deep_view()),
                    due: RelationshipStage::Parents,
                    ..old(self)@.relationship
                },
                ..old(self)@
            }),
            old(self)@.wf() ==> final(self)@.wf(),
    {
        self.relationship_view_state.set_selected_role(role);
    }

    /// Lets the round go on as far as that goes without an answer, and
    /// returns the question of the first view that has one.
    pub fn refresh(&mut self) -> (outcome: Outcome)
        ensures
            final(self)@ == old(self)@.refreshed(),
            old(self)@.wf() ==> final(self)@.wf(),
            final(self)@.reports(outcome),
    {
        let connected = self.lore_database.is_some();
        proof {
            crate::entity_view::lemma_advanced(old(self)@.entity, connected);
            crate::history_view::lemma_advanced(old(self)@.history, connected);
            crate::relationship_view::lemma_advanced(old(self)@.relationship, connected);
        }
        if self.round.entity {
            match self.entity_view_state.advance(connected) {
                Some(request) => {
                    self.waiting = Waiting::Entity;
                    return Ok(Some(request));
                },
                None => {},
            }
        }
        if self.round.relationship {
            match self.relationship_view_state.advance(connected) {
                Some(request) => {
                    self.round.entity = false;
                    self.waiting = Waiting::Relationship;
                    return Ok(Some(request));
                },
                None => {},
            }
        }
        if self.round.history {
            self.round = Round { entity: false, relationship: false, history: true };
            match self.history_view_state.advance(connected) {
                Ok(Some(request)) => {
                    self.waiting = Waiting::History;
                    return Ok(Some(request));
                },
                Ok(None) => {},
                Err(error) => {
                    self.waiting = Waiting::Nothing;
                    return Err(error);
                },
            }
        }
        self.round = Round { entity: false, relationship: false, history: false };
        self.waiting = Waiting::Nothing;
        Ok(None)
    }

    /// The views that the round under way still has to go through.
    pub fn round(&self) -> (round: Round)
        ensures
            round == self@.round,
    {
        self.round
    }
}

impl Default for SqlGui {
    fn default() -> (gui: Self)
        ensures
            gui@ == GuiModel::initial(),
            gui@.wf(),
    {
        Self::new()
    }
}

} // verus!
