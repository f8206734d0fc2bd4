use vstd::prelude::*;
use crate::collaborator::{
    misfit_words, pick_texts, texts_with, wanted_filter, Request, Response,
};
use crate::db_col_view::entry::DbColViewEntry;
use crate::db_col_view::state::{
    lemma_refreshed, lemma_refreshed_with_nothing, ColumnModel, DbColViewState,
};
use crate::collaborator::EntityRelationship;
use crate::db_col_view::ColViewMes;
use crate::dialog::change_role::ChangeRoleData;
use crate::entity_view::{filter_of, misfit};
use crate::errors::LoreGuiError;

verus! {

/// What the user did in the relationship view.
#[derive(Debug, Clone, PartialEq, Eq)]
pub enum RelationshipViewMessage {
    NewRelationship,
    ChangeRole(ChangeRoleData),
    DeleteRelationship(EntityRelationship),
    ParentViewUpdate(ColViewMes<String>),
    ChildViewUpdate(ColViewMes<String>),
    RoleViewUpdate(ColViewMes<String>),
}

/// How far the columns of the relationship view have been brought up to
/// date. The stage named is the next one to run.
#[derive(Clone, Copy, Debug, PartialEq, Eq, Structural)]
pub enum RelationshipStage {
    Parents,
    Children,
    Roles,
    Settled,
}

impl RelationshipStage {
    /// The number of stages that lie before this one.
    pub open spec fn rank(self) -> int {
        match self {
            RelationshipStage::Parents => 0,
            RelationshipStage::Children => 1,
            RelationshipStage::Roles => 2,
            RelationshipStage::Settled => 3,
        }
    }
}

/// The relationship view as plain values: parents, the children of the
/// selected parent, and the roles that the two are related by.
pub struct RelationshipViewModel {
    pub parents: ColumnModel<Seq<char>>,
    pub children: ColumnModel<Seq<char>>,
    pub roles: ColumnModel<Seq<char>>,
    pub due: RelationshipStage,
}

impl RelationshipViewModel {
    /// The view is sound when its columns are, and when, with every stage
    /// run, the selected role is on offer, and none is selected without a
    /// parent and a child.
    pub open spec fn wf(self) -> bool {
        &&& self.parents.wf()
        &&& self.children.wf()
        &&& self.roles.wf()
        &&& self.due is Settled ==> self.roles.settled() && (self.parents.selection is None
            || self.children.selection is None ==> self.roles.selection is None)
    }

    /// The view as it starts: nothing typed, nothing selected.
    pub open spec fn initial() -> RelationshipViewModel {
        RelationshipViewModel {
            parents: ColumnModel::empty(),
            children: ColumnModel::empty(),
            roles: ColumnModel::empty(),
            due: RelationshipStage::Parents,
        }
    }

    /// The view after the user typed into the parent column or picked a
    /// parent. A search text has the parents listed again, and all that
    /// depends on them. Parent and child decide the role together: picking a
    /// parent deselects the role and has the children listed again, and the
    /// child stays picked while the new parent has it.
    pub open spec fn parent_event(self, event: ColViewMes<String>) -> RelationshipViewModel {
        match event {
            ColViewMes::SearchFieldUpd(text) => RelationshipViewModel {
                parents: self.parents.with_filter(text@),
                due: RelationshipStage::Parents,
                ..self
            },
            ColViewMes::Selected(_, row) => RelationshipViewModel {
                parents: self.parents.selecting(row.deep_view()),
                roles: self.roles.selecting(None),
                due: RelationshipStage::Children,
                ..self
            },
        }
    }

    /// The view after the user typed into the child column or picked a child.
    /// A search text has the children listed again. Picking a child
    /// deselects the role and has the roles listed again.
    pub open spec fn child_event(self, event: ColViewMes<String>) -> RelationshipViewModel {
        match event {
            ColViewMes::SearchFieldUpd(text) => RelationshipViewModel {
                children: self.children.with_filter(text@),
                due: RelationshipStage::Children,
                ..self
            },
            ColViewMes::Selected(_, row) => RelationshipViewModel {
                children: self.children.selecting(row.deep_view()),
                roles: self.roles.selecting(None),
                due: RelationshipStage::Roles,
                ..self
            },
        }
    }

    /// The view after the user typed into the role column or picked a role.
    /// Both have the roles listed again, so that a role stays picked only
    /// while parent and child have it.
    pub open spec fn role_event(self, event: ColViewMes<String>) -> RelationshipViewModel {
        match event {
            ColViewMes::SearchFieldUpd(text) => RelationshipViewModel {
                roles: self.roles.with_filter(text@),
                due: RelationshipStage::Roles,
                ..self
            },
            ColViewMes::Selected(_, row) => RelationshipViewModel {
                roles: self.roles.selecting(row.deep_view()),
                due: RelationshipStage::Roles,
                ..self
            },
        }
    }

    /// The view with every selection cleared.
    pub open spec fn cleared(self) -> RelationshipViewModel {
        self.pointing_at(None, None, None)
    }

    /// The view with the given parent, child and role selected.
    pub open spec fn pointing_at(
        self,
        parent: Option<Seq<char>>,
        child: Option<Seq<char>>,
        role: Option<Seq<char>>,
    ) -> RelationshipViewModel {
        RelationshipViewModel {
            parents: self.parents.selecting(parent),
            children: self.children.selecting(child),
            roles: self.roles.selecting(role),
            due: RelationshipStage::Parents,
        }
    }

    /// Whether the stage that is due has the selections it depends on.
    /// Children are listed for every parent where none is selected.
    pub open spec fn needs(self) -> bool {
        match self.due {
            RelationshipStage::Parents => true,
            RelationshipStage::Children => true,
            RelationshipStage::Roles => self.parents.selection is Some
                && self.children.selection is Some,
            RelationshipStage::Settled => false,
        }
    }

    /// Whether the stage that is due has a question for the database.
    pub open spec fn asks(self, connected: bool) -> bool {
        connected && self.needs()
    }

    /// Whether `request` is the question of the stage that is due.
    pub open spec fn wants(self, request: Request) -> bool {
        match self.due {
            RelationshipStage::Parents => request matches Request::Parents { filter }
                && filter.deep_view() == wanted_filter(self.parents.filter),
            RelationshipStage::Children => request matches Request::Children { parent, filter }
                && parent.deep_view() == self.parents.selection && filter.deep_view()
                == wanted_filter(self.children.filter),
            RelationshipStage::Roles => request matches Request::Roles { parent, child } && Some(
                parent@,
            ) == self.parents.selection && Some(child@) == self.children.selection,
            RelationshipStage::Settled => false,
        }
    }

    /// The view after the stage that is due has run without the database:
    /// its column offers nothing.
    pub open spec fn skipped(self) -> RelationshipViewModel {
        match self.due {
            RelationshipStage::Parents => RelationshipViewModel {
                parents: self.parents.refreshed(Seq::empty()),
                due: RelationshipStage::Children,
                ..self
            },
            RelationshipStage::Children => RelationshipViewModel {
                children: self.children.refreshed(Seq::empty()),
                due: RelationshipStage::Roles,
                ..self
            },
            RelationshipStage::Roles => RelationshipViewModel {
                roles: self.roles.refreshed(Seq::empty()),
                due: RelationshipStage::Settled,
                ..self
            },
            RelationshipStage::Settled => self,
        }
    }

    /// The view after the stage that is due has run, if it has no question
    /// for the database; the view as it is, if the stage has one or every
    /// stage has run.
    pub open spec fn stepped(self, connected: bool) -> RelationshipViewModel {
        if self.due is Settled || self.asks(connected) {
            self
        } else {
            self.skipped()
        }
    }

    /// The view after every stage has run that has no question for the
    /// database: each stage in its turn, up to the first that has one.
    pub open spec fn advanced(self, connected: bool) -> RelationshipViewModel {
        self.stepped(connected).stepped(connected).stepped(connected)
    }

    /// Whether the answer is of the kind that the stage that is due reads.
    pub open spec fn fits(self, response: Response) -> bool {
        self.due is Settled || response is Texts
    }

    /// Whether the answer is turned down: the stage that is due waits for an
    /// answer, and this is none that it can read.
    pub open spec fn refuses(self, response: Response) -> bool {
        self.needs() && !self.fits(response)
    }

    /// The view after the answer came in. An answer that is turned down, and
    /// one that comes when every stage has run, changes nothing. A stage that
    /// lacks the selections it depends on runs without the answer.
    pub open spec fn absorbed(self, response: Response) -> RelationshipViewModel {
        if self.due is Settled || self.refuses(response) {
            self
        } else if !self.needs() {
            self.skipped()
        } else {
            match (self.due, response) {
                (RelationshipStage::Parents, Response::Texts(rows)) => RelationshipViewModel {
                    parents: self.parents.refreshed(rows.deep_view()),
                    due: RelationshipStage::Children,
                    ..self
                },
                (RelationshipStage::Children, Response::Texts(rows)) => RelationshipViewModel {
                    children: self.children.refreshed(rows.deep_view()),
                    due: RelationshipStage::Roles,
                    ..self
                },
                (RelationshipStage::Roles, Response::Texts(rows)) => RelationshipViewModel {
                    roles: self.roles.refreshed(texts_with(rows.deep_view(), self.roles.filter)),
                    due: RelationshipStage::Settled,
                    ..self
                },
                _ => self,
            }
        }
    }

    /// The view after a round of bringing it up to date, in which these
    /// answers came in one after the other.
    pub open spec fn run(self, connected: bool, answers: Seq<Response>) -> RelationshipViewModel
        decreases answers.len(),
    {
        if answers.len() == 0 {
            self.advanced(connected)
        } else {
            self.advanced(connected).absorbed(answers[0]).run(connected, answers.skip(1))
        }
    }

    /// Whether `error` is what an answer that is turned down is reported with:
    /// the failure as it came, and else an error that says that the answer
    /// does not fit.
    pub open spec fn complaint(self, response: Response, error: LoreGuiError) -> bool {
        match response {
            Response::Failed(words) => error == LoreGuiError::LoreCoreError(words),
            _ => error is LoreCoreError && error.detail() == misfit_words(),
        }
    }
}

/// A stage that runs leaves the view sound.
pub proof fn lemma_stage_keeps_sound(view: RelationshipViewModel, response: Response)
    requires
        view.wf(),
    ensures
        view.skipped().wf(),
        view.absorbed(response).wf(),
{
    lemma_refreshed(view.parents, Seq::empty());
    lemma_refreshed(view.children, Seq::empty());
    lemma_refreshed(view.roles, Seq::empty());
    lemma_refreshed_with_nothing(view.roles);
    match response {
        Response::Texts(rows) => {
            lemma_refreshed(view.parents, rows.deep_view());
            lemma_refreshed(view.children, rows.deep_view());
            lemma_refreshed(view.roles, texts_with(rows.deep_view(), view.roles.filter));
        },
        _ => {},
    }
}

/// Running the stages that have no question ends at a stage that has a
/// question or with nothing left to do, and leaves a sound view sound. A
/// view that has run them runs no further, and a view that has run one of
/// them ends where it would have ended.
pub proof fn lemma_advanced(view: RelationshipViewModel, connected: bool)
    ensures
        view.advanced(connected).due is Settled || view.advanced(connected).asks(connected),
        view.wf() ==> view.advanced(connected).wf(),
        view.advanced(connected).stepped(connected) == view.advanced(connected),
        view.stepped(connected).advanced(connected) == view.advanced(connected),
{
    if view.wf() {
        lemma_stage_keeps_sound(view, Response::Done);
    }
    if view.stepped(connected).wf() {
        lemma_stage_keeps_sound(view.stepped(connected), Response::Done);
    }
    if view.stepped(connected).stepped(connected).wf() {
        lemma_stage_keeps_sound(view.stepped(connected).stepped(connected), Response::Done);
    }
}

/// The state of the relationship view.
#[derive(Debug)]
pub struct RelationshipViewState {
    parent_view_state: DbColViewState<String>,
    child_view_state: DbColViewState<String>,
    role_view_state: DbColViewState<String>,
    due: RelationshipStage,
}

impl View for RelationshipViewState {
    type V = RelationshipViewModel;

    closed spec fn view(&self) -> RelationshipViewModel {
        RelationshipViewModel {
            parents: self.parent_view_state@,
            children: self.child_view_state@,
            roles: self.role_view_state@,
            due: self.due,
        }
    }
}

/// The text of a selected row, if a row with a text is selected.
fn selected_text(column: &DbColViewState<String>) -> (text: Option<String>)
    ensures
        text.deep_view() == column@.selection,
{
    match &column.get_selected().0 {
        Some(text) => Some(text.clone()),
        None => None,
    }
}

impl RelationshipViewState {
    /// The view as it starts.
    pub fn new() -> (state: Self)
        ensures
            state@ == RelationshipViewModel::initial(),
            state@.wf(),
    {
        Self {
            parent_view_state: DbColViewState::default(),
            child_view_state: DbColViewState::default(),
            role_view_state: DbColViewState::default(),
            due: RelationshipStage::Parents,
        }
    }

    /// The column of parents.
    pub fn parent_view_state(&self) -> (column: &DbColViewState<String>)
        ensures
            column@ == self@.parents,
    {
        &self.parent_view_state
    }

    /// The column of children.
    pub fn child_view_state(&self) -> (column: &DbColViewState<String>)
        ensures
            column@ == self@.children,
    {
        &self.child_view_state
    }

    /// The column of roles.
    pub fn role_view_state(&self) -> (column: &DbColViewState<String>)
        ensures
            column@ == self@.roles,
    {
        &self.role_view_state
    }

    /// The stage that is due.
    pub fn due(&self) -> (stage: RelationshipStage)
        ensures
            stage == self@.due,
    {
        self.due
    }

    /// The selected parent.
    pub fn get_selected_parent(&self) -> (parent: Option<String>)
        ensures
            parent.deep_view() == self@.parents.selection,
    {
        selected_text(&self.parent_view_state)
    }

    /// Selects a parent and nothing else; the columns are brought up to date
    /// by the stages that follow.
    pub fn set_selected_parent(&mut self, parent: Option<String>)
        ensures
            final(self)@ == (RelationshipViewModel {
                parents: old(self)@.parents.selecting(parent.deep_view()),
                due: RelationshipStage::Parents,
                ..old(self)@
            }),
            old(self)@.wf() ==> final(self)@.wf(),
    {
        self.parent_view_state.set_selected(DbColViewEntry(parent));
        self.due = RelationshipStage::Parents;
    }

    /// The selected child.
    pub fn get_selected_child(&self) -> (child: Option<String>)
        ensures
            child.deep_view() == self@.children.selection,
    {
        selected_text(&self.child_view_state)
    }

    /// Selects a child and nothing else.
    pub fn set_selected_child(&mut self, child: Option<String>)
        ensures
            final(self)@ == (RelationshipViewModel {
                children: old(self)@.children.selecting(child.deep_view()),
                due: RelationshipStage::Parents,
                ..old(self)@
            }),
            old(self)@.wf() ==> final(self)@.wf(),
    {
        self.child_view_state.set_selected(DbColViewEntry(child));
        self.due = RelationshipStage::Parents;
    }

    /// The selected role.
    pub fn get_selected_role(&self) -> (role: Option<String>)
        ensures
            role.deep_view() == self@.roles.selection,
    {
        selected_text(&self.role_view_state)
    }

    /// Selects a role and nothing else.
    pub fn set_selected_role(&mut self, role: Option<String>)
        ensures
            final(self)@ == (RelationshipViewModel {
                roles: old(self)@.roles.selecting(role.deep_view()),
                due: RelationshipStage::Parents,
                ..old(self)@
            }),
            old(self)@.wf() ==> final(self)@.wf(),
    {
        self.role_view_state.set_selected(DbColViewEntry(role));
        self.due = RelationshipStage::Parents;
    }

    /// Clears every selection.
    pub fn reset_selections(&mut self)
        ensures
            final(self)@ == old(self)@.cleared(),
            old(self)@.wf() ==> final(self)@.wf(),
    {
        self.point_at(None, None, None);
    }

    /// Selects parent, child and role at once.
    pub fn point_at(&mut self, parent: Option<String>, child: Option<String>, role: Option<String>)
        ensures
            final(self)@ == old(self)@.pointing_at(
                parent.deep_view(),
                child.deep_view(),
                role.deep_view(),
            ),
            old(self)@.wf() ==> final(self)@.wf(),
    {
        self.parent_view_state.set_selected(DbColViewEntry(parent));
        self.child_view_state.set_selected(DbColViewEntry(child));
        self.role_view_state.set_selected(DbColViewEntry(role));
        self.due = RelationshipStage::Parents;
    }

    /// Marks every column as out of date.
    pub fn mark_stale(&mut self)
        ensures
            final(self)@ == (RelationshipViewModel {
                due: RelationshipStage::Parents,
                ..old(self)@
            }),
            old(self)@.wf() ==> final(self)@.wf(),
    {
        self.due = RelationshipStage::Parents;
    }

    /// Takes what the user did to the parent column.
    pub fn update_parent_view(&mut self, event: ColViewMes<String>)
        ensures
            final(self)@ == old(self)@.parent_event(event),
            old(self)@.wf() ==> final(self)@.wf(),
    {
        match event {
            ColViewMes::SearchFieldUpd(text) => {
                self.parent_view_state.set_search_text(text);
                self.due = RelationshipStage::Parents;
            },
            ColViewMes::Selected(_index, parent) => {
                self.parent_view_state.set_selected(parent);
                self.role_view_state.set_selected(DbColViewEntry(None));
                self.due = RelationshipStage::Children;
            },
        }
    }

    /// Takes what the user did to the child column.
    pub fn update_child_view(&mut self, event: ColViewMes<String>)
        ensures
            final(self)@ == old(self)@.child_event(event),
            old(self)@.wf() ==> final(self)@.wf(),
    {
        match event {
            ColViewMes::SearchFieldUpd(text) => {
                self.child_view_state.set_search_text(text);
                self.due = RelationshipStage::Children;
            },
            ColViewMes::Selected(_index, child) => {
                self.child_view_state.set_selected(child);
                self.role_view_state.set_selected(DbColViewEntry(None));
                self.due = RelationshipStage::Roles;
            },
        }
    }

    /// Takes what the user did to the role column.
    pub fn update_role_view(&mut self, event: ColViewMes<String>)
        ensures
            final(self)@ == old(self)@.role_event(event),
            old(self)@.wf() ==> final(self)@.wf(),
    {
        match event {
            ColViewMes::SearchFieldUpd(text) => {
                self.role_view_state.set_search_text(text);
                self.due = RelationshipStage::Roles;
            },
            ColViewMes::Selected(_index, role) => {
                self.role_view_state.set_selected(role);
                self.due = RelationshipStage::Roles;
            },
        }
    }

    /// The relationship that the buttons act on: none unless a parent and a
    /// child are selected, else the one between them with the selected role,
    /// or with an empty role while none is selected.
    pub fn selected_relationship(&self) -> (relationship: Option<EntityRelationship>)
        ensures
            self@.parents.selection is None || self@.children.selection is None ==> relationship
                is None,
            self@.parents.selection is Some && self@.children.selection is Some ==> (
            relationship matches Some(r) && Some(r.parent@) == self@.parents.selection && Some(
                r.child@,
            ) == self@.children.selection && r.role@ == (match self@.roles.selection {
                Some(role) => role,
                None => Seq::empty(),
            })),
    {
        match (self.get_selected_parent(), self.get_selected_child()) {
            (Some(parent), Some(child)) => {
                let role = match self.get_selected_role() {
                    Some(role) => role,
                    None => String::new(),
                };
                Some(EntityRelationship { parent, child, role })
            },
            _ => None,
        }
    }

    /// What the button that changes a role sends: nothing unless a parent and
    /// a child are selected.
    pub fn change_role_message(&self) -> (message: Option<RelationshipViewMessage>)
        ensures
            self@.parents.selection is None || self@.children.selection is None ==> message
                is None,
            self@.parents.selection is Some && self@.children.selection is Some ==> (
            message matches Some(RelationshipViewMessage::ChangeRole(data)) && Some(
                data.old_relationship.parent@,
            ) == self@.parents.selection && Some(data.old_relationship.child@)
                == self@.children.selection && data.new_role@ == data.old_relationship.role@),
    {
        match self.selected_relationship() {
            Some(relationship) => Some(
                RelationshipViewMessage::ChangeRole(ChangeRoleData::new(relationship)),
            ),
            None => None,
        }
    }

    /// What the button that deletes a relationship sends: nothing unless a
    /// parent and a child are selected.
    pub fn delete_relationship_message(&self) -> (message: Option<RelationshipViewMessage>)
        ensures
            self@.parents.selection is None || self@.children.selection is None ==> message
                is None,
            self@.parents.selection is Some && self@.children.selection is Some ==> (
            message matches Some(RelationshipViewMessage::DeleteRelationship(r)) && Some(r.parent@)
                == self@.parents.selection && Some(r.child@) == self@.children.selection),
    {
        match self.selected_relationship() {
            Some(relationship) => Some(RelationshipViewMessage::DeleteRelationship(relationship)),
            None => None,
        }
    }

    /// Whether the stage that is due has the selections it depends on.
    fn needs(&self) -> (needed: bool)
        ensures
            needed == self@.needs(),
    {
        match self.due {
            RelationshipStage::Parents => true,
            RelationshipStage::Children => true,
            RelationshipStage::Roles => self.parent_view_state.get_selected().0.is_some()
                && self.child_view_state.get_selected().0.is_some(),
            RelationshipStage::Settled => false,
        }
    }

    /// The question of the stage that is due.
    fn question(&self) -> (request: Request)
        requires
            self@.needs(),
        ensures
            self@.wants(request),
    {
        match self.due {
            RelationshipStage::Parents => Request::Parents {
                filter: filter_of(&self.parent_view_state),
            },
            RelationshipStage::Children => Request::Children {
                parent: selected_text(&self.parent_view_state),
                filter: filter_of(&self.child_view_state),
            },
            _ => {
                let parent = match selected_text(&self.parent_view_state) {
                    Some(parent) => parent,
                    None => String::new(),
                };
                let child = match selected_text(&self.child_view_state) {
                    Some(child) => child,
                    None => String::new(),
                };
                Request::Roles { parent, child }
            },
        }
    }

    /// Runs the stage that is due without the database.
    fn skip(&mut self)
        ensures
            final(self)@ == old(self)@.skipped(),
            old(self)@.wf() ==> final(self)@.wf(),
    {
        proof {
            if old(self)@.wf() {
                lemma_stage_keeps_sound(old(self)@, Response::Done);
            }
        }
        let nothing: Vec<String> = Vec::new();
        assert(nothing.deep_view() == Seq::<Seq<char>>::empty());
        match self.due {
            RelationshipStage::Parents => {
                self.parent_view_state.refresh(&nothing);
                self.due = RelationshipStage::Children;
            },
            RelationshipStage::Children => {
                self.child_view_state.refresh(&nothing);
                self.due = RelationshipStage::Roles;
            },
            RelationshipStage::Roles => {
                self.role_view_state.refresh(&nothing);
                self.due = RelationshipStage::Settled;
            },
            RelationshipStage::Settled => {},
        }
    }

    /// Runs every stage that has no question for the database, and returns
    /// the question of the stage at which it stops, if it stops at one.
    /// `connected` says whether a database is open; without one no stage has
    /// a question.
    pub fn advance(&mut self, connected: bool) -> (request: Option<Request>)
        ensures
            final(self)@ == old(self)@.advanced(connected),
            old(self)@.wf() ==> final(self)@.wf(),
            match request {
                Some(request) => final(self)@.asks(connected) && final(self)@.wants(request),
                None => final(self)@.due is Settled,
            },
    {
        proof {
            lemma_advanced(old(self)@, connected);
        }
        while !(self.due == RelationshipStage::Settled || (connected && self.needs()))
            invariant
                self@.advanced(connected) == old(self)@.advanced(connected),
            decreases 3 - self@.due.rank(),
        {
            proof {
                lemma_advanced(self@, connected);
            }
            self.skip();
        }
        proof {
            lemma_advanced(self@, connected);
        }
        if self.due == RelationshipStage::Settled {
            None
        } else {
            Some(self.question())
        }
    }

    /// Takes the answer to the question of the stage that is due.
    pub fn absorb(&mut self, response: Response) -> (outcome: Result<(), LoreGuiError>)
        ensures
            final(self)@ == old(self)@.absorbed(response),
            old(self)@.wf() ==> final(self)@.wf(),
            outcome is Err <==> old(self)@.refuses(response),
            outcome matches Err(error) ==> old(self)@.complaint(response, error),
    {
        proof {
            if old(self)@.wf() {
                lemma_stage_keeps_sound(old(self)@, response);
            }
        }
        if self.due == RelationshipStage::Settled {
            return Ok(());
        }
        if !self.needs() {
            self.skip();
            return Ok(());
        }
        match response {
            Response::Texts(rows) => {
                match self.due {
                    RelationshipStage::Parents => {
                        self.parent_view_state.refresh(&rows);
                        self.due = RelationshipStage::Children;
                    },
                    RelationshipStage::Children => {
                        self.child_view_state.refresh(&rows);
                        self.due = RelationshipStage::Roles;
                    },
                    _ => {
                        let ghost typed = self.role_view_state@.filter;
                        let kept = match self.role_view_state.get_search_text() {
                            Some(part) => pick_texts(&rows, part),
                            None => {
                                proof {
                                    reveal_strlit("");
                                    assert(""@ =~= typed);
                                }
                                pick_texts(&rows, "")
                            },
                        };
                        self.role_view_state.refresh(&kept);
                        self.due = RelationshipStage::Settled;
                    },
                }
                Ok(())
            },
            Response::Failed(words) => Err(LoreGuiError::LoreCoreError(words)),
            _ => Err(misfit()),
        }
    }
}

impl Default for RelationshipViewState {
    fn default() -> (state: Self)
        ensures
            state@ == RelationshipViewModel::initial(),
            state@.wf(),
    {
        Self::new()
    }
}

} // verus!
