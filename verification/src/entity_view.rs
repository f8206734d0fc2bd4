use vstd::prelude::*;
use vstd::string::StringExecFns;
use crate::collaborator::{misfit_words, names_to_show, shown_names, wanted_filter, Request, Response};
use crate::db_col_view::entry::DbColViewEntry;
use crate::db_col_view::state::{
    lemma_refreshed, lemma_refreshed_with_nothing, ColumnModel, DbColViewState,
};
use crate::db_col_view::ColViewMes;
use crate::dialog::relabel_entity::RelabelEntityData;
use crate::dialog::rename_descriptor::RenameDescriptorData;
use crate::editor::{EditorModel, EditorState};
use crate::errors::LoreGuiError;

verus! {

/// What the user did in the entity view.
#[derive(Debug, Clone, PartialEq, Eq)]
pub enum EntityViewMessage {
    NewEntity,
    RelabelEntity(RelabelEntityData),
    DeleteEntity(String),
    NewDescriptor(String),
    RenameDescriptor(RenameDescriptorData),
    DeleteDescriptor(String, String),
    LabelViewUpdate(ColViewMes<String>),
    DescriptorViewUpdate(ColViewMes<String>),
    /// The description as the user has changed it.
    DescriptionUpdate(String),
    DescriptionDiscard,
    DescriptionSave,
}

/// How far the columns of the entity view have been brought up to date. The
/// stage named is the next one to run.
#[derive(Clone, Copy, Debug, PartialEq, Eq, Structural)]
pub enum EntityStage {
    Labels,
    Descriptors,
    Description,
    Settled,
}

impl EntityStage {
    /// The number of stages that lie before this one.
    pub open spec fn rank(self) -> int {
        match self {
            EntityStage::Labels => 0,
            EntityStage::Descriptors => 1,
            EntityStage::Description => 2,
            EntityStage::Settled => 3,
        }
    }
}

/// The entity view as plain values: labels, the descriptors of the selected
/// label, and the description that the two select.
pub struct EntityViewModel {
    pub display_protected: bool,
    pub labels: ColumnModel<Seq<char>>,
    pub descriptors: ColumnModel<Seq<char>>,
    pub description: EditorModel,
    pub due: EntityStage,
}

impl EntityViewModel {
    /// The view is sound when its columns are, and when, with every stage
    /// run, there is no description without a label and a descriptor.
    pub open spec fn wf(self) -> bool {
        &&& self.labels.wf()
        &&& self.descriptors.wf()
        &&& self.due is Settled ==> (self.labels.selection is None
            || self.descriptors.selection is None ==> self.description.persisted
            == EditorModel::blank().persisted)
    }

    /// The view as it starts: nothing typed, nothing selected, nothing loaded.
    pub open spec fn initial(display_protected: bool) -> EntityViewModel {
        EntityViewModel {
            display_protected,
            labels: ColumnModel::empty(),
            descriptors: ColumnModel::empty(),
            description: EditorModel::blank(),
            due: EntityStage::Labels,
        }
    }

    /// The view after the user typed into the label column or picked a label.
    /// A search text has the labels listed again, and all that depends on
    /// them. Picking a label deselects the descriptor and has the descriptors
    /// listed again; the labels stay as they are listed, and the label stays
    /// picked whether or not it is among them.
    pub open spec fn label_event(self, event: ColViewMes<String>) -> EntityViewModel {
        match event {
            ColViewMes::SearchFieldUpd(text) => EntityViewModel {
                labels: self.labels.with_filter(text@),
                due: EntityStage::Labels,
                ..self
            },
            ColViewMes::Selected(_, row) => EntityViewModel {
                labels: self.labels.selecting(row.deep_view()),
                descriptors: self.descriptors.selecting(None),
                due: EntityStage::Descriptors,
                ..self
            },
        }
    }

    /// The view after the user typed into the descriptor column or picked a
    /// descriptor. A search text has the descriptors listed again. Picking a
    /// descriptor has the description looked up again; labels and
    /// descriptors stay as they are.
    pub open spec fn descriptor_event(self, event: ColViewMes<String>) -> EntityViewModel {
        match event {
            ColViewMes::SearchFieldUpd(text) => EntityViewModel {
                descriptors: self.descriptors.with_filter(text@),
                due: EntityStage::Descriptors,
                ..self
            },
            ColViewMes::Selected(_, row) => EntityViewModel {
                descriptors: self.descriptors.selecting(row.deep_view()),
                due: EntityStage::Description,
                ..self
            },
        }
    }

    /// The view after its description was saved: the editor holds nothing
    /// unsaved. Where label or descriptor is not selected nothing changes.
    pub open spec fn saved(self) -> EntityViewModel {
        if self.labels.selection is Some && self.descriptors.selection is Some {
            EntityViewModel { description: self.description.saved(), ..self }
        } else {
            self
        }
    }

    /// The view with every selection and the description cleared.
    pub open spec fn cleared(self) -> EntityViewModel {
        EntityViewModel {
            labels: self.labels.selecting(None),
            descriptors: self.descriptors.selecting(None),
            description: EditorModel::blank(),
            due: EntityStage::Labels,
            ..self
        }
    }

    /// Whether the stage that is due has the selections it depends on.
    pub open spec fn needs(self) -> bool {
        match self.due {
            EntityStage::Labels => true,
            EntityStage::Descriptors => self.labels.selection is Some,
            EntityStage::Description => self.labels.selection is Some
                && self.descriptors.selection is Some,
            EntityStage::Settled => false,
        }
    }

    /// Whether the stage that is due has a question for the database.
    pub open spec fn asks(self, connected: bool) -> bool {
        connected && self.needs()
    }

    /// Whether `request` is the question of the stage that is due.
    pub open spec fn wants(self, request: Request) -> bool {
        match self.due {
            EntityStage::Labels => request matches Request::Labels { filter }
                && filter.deep_view() == wanted_filter(self.labels.filter),
            EntityStage::Descriptors => request matches Request::Descriptors { label, filter }
                && Some(label@) == self.labels.selection && filter.deep_view() == wanted_filter(
                self.descriptors.filter,
            ),
            EntityStage::Description => request matches Request::Description { label, descriptor }
                && Some(label@) == self.labels.selection && Some(descriptor@)
                == self.descriptors.selection,
            EntityStage::Settled => false,
        }
    }

    /// The view after the stage that is due has run without the database:
    /// its column offers nothing, or the description is blank.
    pub open spec fn skipped(self) -> EntityViewModel {
        match self.due {
            EntityStage::Labels => EntityViewModel {
                labels: self.labels.refreshed(Seq::empty()),
                due: EntityStage::Descriptors,
                ..self
            },
            EntityStage::Descriptors => EntityViewModel {
                descriptors: self.descriptors.refreshed(Seq::empty()),
                due: EntityStage::Description,
                ..self
            },
            EntityStage::Description => EntityViewModel {
                description: EditorModel::blank(),
                due: EntityStage::Settled,
                ..self
            },
            EntityStage::Settled => self,
        }
    }

    /// The view after the stage that is due has run, if it has no question
    /// for the database; the view as it is, if the stage has one or every
    /// stage has run.
    pub open spec fn stepped(self, connected: bool) -> EntityViewModel {
        if self.due is Settled || self.asks(connected) {
            self
        } else {
            self.skipped()
        }
    }

    /// The view after every stage has run that has no question for the
    /// database: each stage in its turn, up to the first that has one.
    pub open spec fn advanced(self, connected: bool) -> EntityViewModel {
        self.stepped(connected).stepped(connected).stepped(connected)
    }

    /// Whether the answer is of the kind that the stage that is due reads.
    pub open spec fn fits(self, response: Response) -> bool {
        match self.due {
            EntityStage::Labels => response is Names,
            EntityStage::Descriptors => response is Names,
            EntityStage::Description => response matches Response::Texts(rows) && rows@.len() <= 1,
            EntityStage::Settled => true,
        }
    }

    /// Whether the answer is turned down: the stage that is due waits for an
    /// answer, and this is none that it can read.
    pub open spec fn refuses(self, response: Response) -> bool {
        self.needs() && !self.fits(response)
    }

    /// The view after the answer came in. An answer that is turned down, and
    /// one that comes when every stage has run, changes nothing. A stage that
    /// lacks the selections it depends on runs without the answer.
    pub open spec fn absorbed(self, response: Response) -> EntityViewModel {
        if self.due is Settled || self.refuses(response) {
            self
        } else if !self.needs() {
            self.skipped()
        } else {
            match (self.due, response) {
                (EntityStage::Labels, Response::Names(rows)) => EntityViewModel {
                    labels: self.labels.refreshed(shown_names(rows@, self.display_protected)),
                    due: EntityStage::Descriptors,
                    ..self
                },
                (EntityStage::Descriptors, Response::Names(rows)) => EntityViewModel {
                    descriptors: self.descriptors.refreshed(
                        shown_names(rows@, self.display_protected),
                    ),
                    due: EntityStage::Description,
                    ..self
                },
                (EntityStage::Description, Response::Texts(rows)) => EntityViewModel {
                    description: if rows@.len() == 1 {
                        EditorModel::loaded(rows@[0]@)
                    } else {
                        EditorModel::blank()
                    },
                    due: EntityStage::Settled,
                    ..self
                },
                _ => self,
            }
        }
    }

    /// The view after a round of bringing it up to date, in which these
    /// answers came in one after the other.
    pub open spec fn run(self, connected: bool, answers: Seq<Response>) -> EntityViewModel
        decreases answers.len(),
    {
        if answers.len() == 0 {
            self.advanced(connected)
        } else {
            self.advanced(connected).absorbed(answers[0]).run(connected, answers.skip(1))
        }
    }

    /// Whether `error` is what an answer that is turned down is reported with:
    /// the failure as it came, `MultipleResults` where a lookup matched more
    /// than one record, and else an error that says that the answer does not fit.
    pub open spec fn complaint(self, response: Response, error: LoreGuiError) -> bool {
        match response {
            Response::Failed(words) => error == LoreGuiError::LoreCoreError(words),
            Response::Texts(rows) if self.due is Description => error
                == LoreGuiError::MultipleResults,
            _ => error is LoreCoreError && error.detail() == misfit_words(),
        }
    }
}

/// A stage that runs leaves the view sound.
pub proof fn lemma_stage_keeps_sound(view: EntityViewModel, response: Response)
    requires
        view.wf(),
    ensures
        view.skipped().wf(),
        view.absorbed(response).wf(),
{
    lemma_refreshed(view.labels, Seq::empty());
    lemma_refreshed(view.descriptors, Seq::empty());
    match response {
        Response::Names(rows) => {
            lemma_refreshed(view.labels, shown_names(rows@, view.display_protected));
            lemma_refreshed(view.descriptors, shown_names(rows@, view.display_protected));
        },
        _ => {},
    }
    lemma_refreshed_with_nothing(view.descriptors);
}

/// Running the stages that have no question ends at a stage that has a
/// question or with nothing left to do, and leaves a sound view sound. A
/// view that has run them runs no further, and a view that has run one of
/// them ends where it would have ended.
pub proof fn lemma_advanced(view: EntityViewModel, connected: bool)
    ensures
        view.advanced(connected).due is Settled || view.advanced(connected).asks(connected),
        view.wf() ==> view.advanced(connected).wf(),
        view.advanced(connected).stepped(connected) == view.advanced(connected),
        view.stepped(connected).advanced(connected) == view.advanced(connected),
{
    if view.wf() {
        lemma_stage_keeps_sound(view, Response::Done);
    }
    if view.stepped(connected).wf() {
        lemma_stage_keeps_sound(view.stepped(connected), Response::Done);
    }
    if view.stepped(connected).stepped(connected).wf() {
        lemma_stage_keeps_sound(view.stepped(connected).stepped(connected), Response::Done);
    }
}

/// The state of the entity view.
#[derive(Debug)]
pub struct EntityViewState {
    display_protected: bool,
    label_view_state: DbColViewState<String>,
    descriptor_view_state: DbColViewState<String>,
    current_description: EditorState,
    due: EntityStage,
}

impl View for EntityViewState {
    type V = EntityViewModel;

    closed spec fn view(&self) -> EntityViewModel {
        EntityViewModel {
            display_protected: self.display_protected,
            labels: self.label_view_state@,
            descriptors: self.descriptor_view_state@,
            description: self.current_description@,
            due: self.due,
        }
    }
}

impl EntityViewState {
    /// The view as it starts.
    pub fn new(display_protected: bool) -> (state: Self)
        ensures
            state@ == EntityViewModel::initial(display_protected),
            state@.wf(),
    {
        Self {
            display_protected,
            label_view_state: DbColViewState::default(),
            descriptor_view_state: DbColViewState::default(),
            current_description: EditorState::default(),
            due: EntityStage::Labels,
        }
    }

    /// The column of labels.
    pub fn label_view_state(&self) -> (column: &DbColViewState<String>)
        ensures
            column@ == self@.labels,
    {
        &self.label_view_state
    }

    /// The column of descriptors.
    pub fn descriptor_view_state(&self) -> (column: &DbColViewState<String>)
        ensures
            column@ == self@.descriptors,
    {
        &self.descriptor_view_state
    }

    /// The editor of the description.
    pub fn current_description(&self) -> (editor: &EditorState)
        ensures
            editor@ == self@.description,
    {
        &self.current_description
    }

    /// Whether protected names are on display.
    pub fn display_protected(&self) -> (shown: bool)
        ensures
            shown == self@.display_protected,
    {
        self.display_protected
    }

    /// The stage that is due.
    pub fn due(&self) -> (stage: EntityStage)
        ensures
            stage == self@.due,
    {
        self.due
    }

    /// The selected label.
    pub fn get_selected_label(&self) -> (label: Option<String>)
        ensures
            label.deep_view() == self@.labels.selection,
    {
        match &self.label_view_state.get_selected().0 {
            Some(label) => Some(label.clone()),
            None => None,
        }
    }

    /// Selects a label and nothing else; the columns are brought up to date
    /// by the stages that follow.
    pub fn set_selected_label(&mut self, label: Option<String>)
        ensures
            final(self)@ == (EntityViewModel {
                labels: old(self)@.labels.selecting(label.deep_view()),
                due: EntityStage::Labels,
                ..old(self)@
            }),
            old(self)@.wf() ==> final(self)@.wf(),
    {
        self.label_view_state.set_selected(DbColViewEntry(label));
        self.due = EntityStage::Labels;
    }

    /// The selected descriptor.
    pub fn get_selected_descriptor(&self) -> (descriptor: Option<String>)
        ensures
            descriptor.deep_view() == self@.descriptors.selection,
    {
        match &self.descriptor_view_state.get_selected().0 {
            Some(descriptor) => Some(descriptor.clone()),
            None => None,
        }
    }

    /// Selects a descriptor and nothing else.
    pub fn set_selected_descriptor(&mut self, descriptor: Option<String>)
        ensures
            final(self)@ == (EntityViewModel {
                descriptors: old(self)@.descriptors.selecting(descriptor.deep_view()),
                due: EntityStage::Labels,
                ..old(self)@
            }),
            old(self)@.wf() ==> final(self)@.wf(),
    {
        self.descriptor_view_state.set_selected(DbColViewEntry(descriptor));
        self.due = EntityStage::Labels;
    }

    /// The description as the editor shows it.
    pub fn get_description_text(&self) -> (text: String)
        ensures
            text@ == self@.description.buffer,
    {
        self.current_description.get_text()
    }

    /// Loads a description into the editor.
    pub fn set_description_text(&mut self, text: &str)
        ensures
            final(self)@ == (EntityViewModel {
                description: EditorModel::loaded(text@),
                due: EntityStage::Labels,
                ..old(self)@
            }),
            old(self)@.wf() ==> final(self)@.wf(),
    {
        self.current_description = EditorState::new(text);
        self.due = EntityStage::Labels;
    }

    /// Puts protected names on display, or takes them off.
    pub fn set_display_protected(&mut self, display_protected: bool)
        ensures
            final(self)@ == (EntityViewModel {
                display_protected,
                due: EntityStage::Labels,
                ..old(self)@
            }),
            old(self)@.wf() ==> final(self)@.wf(),
    {
        self.display_protected = display_protected;
        self.due = EntityStage::Labels;
    }

    /// Clears every selection and the description.
    pub fn reset_selections(&mut self)
        ensures
            final(self)@ == old(self)@.cleared(),
            old(self)@.wf() ==> final(self)@.wf(),
    {
        self.label_view_state.set_selected(DbColViewEntry(None));
        self.descriptor_view_state.set_selected(DbColViewEntry(None));
        self.current_description = EditorState::default();
        self.due = EntityStage::Labels;
    }

    /// Marks every column as out of date.
    pub fn mark_stale(&mut self)
        ensures
            final(self)@ == (EntityViewModel { due: EntityStage::Labels, ..old(self)@ }),
            old(self)@.wf() ==> final(self)@.wf(),
    {
        self.due = EntityStage::Labels;
    }

    /// Takes what the user did to the label column.
    pub fn update_label_view(&mut self, event: ColViewMes<String>)
        ensures
            final(self)@ == old(self)@.label_event(event),
            old(self)@.wf() ==> final(self)@.wf(),
    {
        match event {
            ColViewMes::SearchFieldUpd(text) => {
                self.label_view_state.set_search_text(text);
                self.due = EntityStage::Labels;
            },
            ColViewMes::Selected(_index, label) => {
                self.label_view_state.set_selected(label);
                self.descriptor_view_state.set_selected(DbColViewEntry(None));
                self.due = EntityStage::Descriptors;
            },
        }
    }

    /// Takes what the user did to the descriptor column.
    pub fn update_descriptor_view(&mut self, event: ColViewMes<String>)
        ensures
            final(self)@ == old(self)@.descriptor_event(event),
            old(self)@.wf() ==> final(self)@.wf(),
    {
        match event {
            ColViewMes::SearchFieldUpd(text) => {
                self.descriptor_view_state.set_search_text(text);
                self.due = EntityStage::Descriptors;
            },
            ColViewMes::Selected(_index, descriptor) => {
                self.descriptor_view_state.set_selected(descriptor);
                self.due = EntityStage::Description;
            },
        }
    }

    /// Takes the description as the user has changed it.
    pub fn edit_description(&mut self, text: String)
        ensures
            final(self)@ == (EntityViewModel {
                description: old(self)@.description.edited(text@),
                ..old(self)@
            }),
            old(self)@.wf() ==> final(self)@.wf(),
    {
        self.current_description.edit(text);
    }

    /// Discards the changes to the description.
    pub fn discard_description(&mut self)
        ensures
            final(self)@ == (EntityViewModel {
                description: old(self)@.description.discarded(),
                ..old(self)@
            }),
            old(self)@.wf() ==> final(self)@.wf(),
    {
        self.current_description.reset();
    }

    /// Records that the description was saved. Where label or descriptor is
    /// not selected there is nothing that could have been saved, and nothing
    /// changes.
    pub fn description_saved(&mut self)
        ensures
            final(self)@ == old(self)@.saved(),
            old(self)@.wf() ==> final(self)@.wf(),
    {
        if self.label_view_state.get_selected().0.is_some()
            && self.descriptor_view_state.get_selected().0.is_some() {
            self.current_description.saved();
        }
    }

    /// What the button that relabels an entity sends: nothing while no
    /// label is selected, else the form for the selected label.
    pub fn relabel_entity_message(&self) -> (message: Option<EntityViewMessage>)
        ensures
            self@.labels.selection is None ==> message is None,
            self@.labels.selection matches Some(label) ==> (message matches Some(
                EntityViewMessage::RelabelEntity(data),
            ) && data.old_label@ == label && data.new_label@ == label),
    {
        match self.get_selected_label() {
            Some(label) => Some(EntityViewMessage::RelabelEntity(RelabelEntityData::new(label))),
            None => None,
        }
    }

    /// What the button that deletes an entity sends: nothing while no label
    /// is selected.
    pub fn delete_entity_message(&self) -> (message: Option<EntityViewMessage>)
        ensures
            self@.labels.selection is None ==> message is None,
            self@.labels.selection matches Some(selected) ==> (message matches Some(
                EntityViewMessage::DeleteEntity(label),
            ) && label@ == selected),
    {
        match self.get_selected_label() {
            Some(label) => Some(EntityViewMessage::DeleteEntity(label)),
            None => None,
        }
    }

    /// What the button that adds a descriptor sends: nothing while no label
    /// is selected.
    pub fn new_descriptor_message(&self) -> (message: Option<EntityViewMessage>)
        ensures
            self@.labels.selection is None ==> message is None,
            self@.labels.selection matches Some(selected) ==> (message matches Some(
                EntityViewMessage::NewDescriptor(label),
            ) && label@ == selected),
    {
        match self.get_selected_label() {
            Some(label) => Some(EntityViewMessage::NewDescriptor(label)),
            None => None,
        }
    }

    /// What the button that renames a descriptor sends: nothing unless a
    /// label and a descriptor are selected.
    pub fn rename_descriptor_message(&self) -> (message: Option<EntityViewMessage>)
        ensures
            self@.labels.selection is None || self@.descriptors.selection is None ==> message
                is None,
            self@.labels.selection is Some && self@.descriptors.selection is Some ==> (
            message matches Some(EntityViewMessage::RenameDescriptor(data)) && Some(data.label@)
                == self@.labels.selection && Some(data.old_descriptor@)
                == self@.descriptors.selection && data.new_descriptor@ == data.old_descriptor@),
    {
        match (self.get_selected_label(), self.get_selected_descriptor()) {
            (Some(label), Some(descriptor)) => Some(
                EntityViewMessage::RenameDescriptor(RenameDescriptorData::new(label, descriptor)),
            ),
            _ => None,
        }
    }

    /// What the button that deletes a descriptor sends: nothing unless a
    /// label and a descriptor are selected.
    pub fn delete_descriptor_message(&self) -> (message: Option<EntityViewMessage>)
        ensures
            self@.labels.selection is None || self@.descriptors.selection is None ==> message
                is None,
            self@.labels.selection is Some && self@.descriptors.selection is Some ==> (
            message matches Some(EntityViewMessage::DeleteDescriptor(label, descriptor)) && Some(
                label@,
            ) == self@.labels.selection && Some(descriptor@) == self@.descriptors.selection),
    {
        match (self.get_selected_label(), self.get_selected_descriptor()) {
            (Some(label), Some(descriptor)) => Some(
                EntityViewMessage::DeleteDescriptor(label, descriptor),
            ),
            _ => None,
        }
    }

    /// Whether the stage that is due has the selections it depends on.
    fn needs(&self) -> (needed: bool)
        ensures
            needed == self@.needs(),
    {
        match self.due {
            EntityStage::Labels => true,
            EntityStage::Descriptors => self.label_view_state.get_selected().0.is_some(),
            EntityStage::Description => self.label_view_state.get_selected().0.is_some()
                && self.descriptor_view_state.get_selected().0.is_some(),
            EntityStage::Settled => false,
        }
    }

    /// The question of the stage that is due.
    fn question(&self) -> (request: Request)
        requires
            self@.needs(),
        ensures
            self@.wants(request),
    {
        match self.due {
            EntityStage::Labels => Request::Labels {
                filter: filter_of(&self.label_view_state),
            },
            EntityStage::Descriptors => {
                let label = match &self.label_view_state.get_selected().0 {
                    Some(label) => label.clone(),
                    None => String::new(),
                };
                Request::Descriptors { label, filter: filter_of(&self.descriptor_view_state) }
            },
            _ => {
                let label = match &self.label_view_state.get_selected().0 {
                    Some(label) => label.clone(),
                    None => String::new(),
                };
                let descriptor = match &self.descriptor_view_state.get_selected().0 {
                    Some(descriptor) => descriptor.clone(),
                    None => String::new(),
                };
                Request::Description { label, descriptor }
            },
        }
    }

    /// Runs the stage that is due without the database.
    fn skip(&mut self)
        ensures
            final(self)@ == old(self)@.skipped(),
            old(self)@.wf() ==> final(self)@.wf(),
    {
        proof {
            if old(self)@.wf() {
                lemma_stage_keeps_sound(old(self)@, Response::Done);
            }
        }
        let nothing: Vec<String> = Vec::new();
        assert(nothing.deep_view() == Seq::<Seq<char>>::empty());
        match self.due {
            EntityStage::Labels => {
                self.label_view_state.refresh(&nothing);
                self.due = EntityStage::Descriptors;
            },
            EntityStage::Descriptors => {
                self.descriptor_view_state.refresh(&nothing);
                self.due = EntityStage::Description;
            },
            EntityStage::Description => {
                self.current_description = EditorState::default();
                self.due = EntityStage::Settled;
            },
            EntityStage::Settled => {},
        }
    }

    /// Runs every stage that has no question for the database, and returns
    /// the question of the stage at which it stops, if it stops at one.
    /// `connected` says whether a database is open; without one no stage has
    /// a question.
    pub fn advance(&mut self, connected: bool) -> (request: Option<Request>)
        ensures
            final(self)@ == old(self)@.advanced(connected),
            old(self)@.wf() ==> final(self)@.wf(),
            match request {
                Some(request) => final(self)@.asks(connected) && final(self)@.wants(request),
                None => final(self)@.due is Settled,
            },
    {
        proof {
            lemma_advanced(old(self)@, connected);
        }
        while !(self.due == EntityStage::Settled || (connected && self.needs()))
            invariant
                self@.advanced(connected) == old(self)@.advanced(connected),
            decreases 3 - self@.due.rank(),
        {
            proof {
                lemma_advanced(self@, connected);
            }
            self.skip();
        }
        proof {
            lemma_advanced(self@, connected);
        }
        if self.due == EntityStage::Settled {
            None
        } else {
            Some(self.question())
        }
    }

    /// Takes the answer to the question of the stage that is due.
    pub fn absorb(&mut self, response: Response) -> (outcome: Result<(), LoreGuiError>)
        ensures
            final(self)@ == old(self)@.absorbed(response),
            old(self)@.wf() ==> final(self)@.wf(),
            outcome is Err <==> old(self)@.refuses(response),
            outcome matches Err(error) ==> old(self)@.complaint(response, error),
    {
        proof {
            if old(self)@.wf() {
                lemma_stage_keeps_sound(old(self)@, response);
            }
        }
        if self.due == EntityStage::Settled {
            return Ok(());
        }
        if !self.needs() {
            self.skip();
            return Ok(());
        }
        match response {
            Response::Names(rows) => {
                let names = names_to_show(&rows, self.display_protected);
                match self.due {
                    EntityStage::Labels => {
                        self.label_view_state.refresh(&names);
                        self.due = EntityStage::Descriptors;
                        Ok(())
                    },
                    EntityStage::Descriptors => {
                        self.descriptor_view_state.refresh(&names);
                        self.due = EntityStage::Description;
                        Ok(())
                    },
                    _ => Err(misfit()),
                }
            },
            Response::Texts(rows) => {
                match self.due {
                    EntityStage::Description => {
                        if rows.len() > 1 {
                            Err(LoreGuiError::MultipleResults)
                        } else {
                            if rows.len() == 1 {
                                self.current_description = EditorState::new(rows[0].as_str());
                            } else {
                                self.current_description = EditorState::default();
                            }
                            self.due = EntityStage::Settled;
                            Ok(())
                        }
                    },
                    _ => Err(misfit()),
                }
            },
            Response::Failed(words) => Err(LoreGuiError::LoreCoreError(words)),
            _ => Err(misfit()),
        }
    }
}

impl Default for EntityViewState {
    fn default() -> (state: Self)
        ensures
            state@ == EntityViewModel::initial(false),
            state@.wf(),
    {
        Self::new(false)
    }
}

/// The search text of a column as a request carries it.
pub fn filter_of(column: &DbColViewState<String>) -> (filter: Option<String>)
    ensures
        filter.deep_view() == wanted_filter(column@.filter),
{
    match column.get_search_text() {
        Some(text) => Some(String::from_str(text)),
        None => None,
    }
}

/// The error that reports an answer of the wrong kind.
pub fn misfit() -> (error: LoreGuiError)
    ensures
        error is LoreCoreError,
        error.detail() == misfit_words(),
{
    LoreGuiError::LoreCoreError(
        String::from_str("The answer does not fit the question that was asked."),
    )
}

} // verus!
