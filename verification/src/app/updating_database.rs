use vstd::prelude::*;
use crate::app::state::{GuiModel, Outcome, Round, SqlGui, Waiting};
use crate::collaborator::Request;

verus! {

impl GuiModel {
    /// The state with every selection of every view cleared, and a round
    /// through every view before it.
    pub open spec fn reset(self) -> GuiModel {
        GuiModel {
            entity: self.entity.cleared(),
            history: self.history.cleared(),
            relationship: self.relationship.cleared(),
            round: Round::all(),
            ..self
        }
    }

    /// The state while the database at `path` is being opened.
    pub open spec fn opening(self, path: String, remember: bool) -> GuiModel {
        GuiModel { waiting: Waiting::Opened(path, remember), ..self }
    }
}

impl SqlGui {
    /// Clears every selection, since what was selected belongs to another
    /// database, and brings the views up to date.
    pub fn update_database_derived_data(&mut self) -> (outcome: Outcome)
        ensures
            final(self)@ == old(self)@.reset().refreshed(),
            final(self)@.reports(outcome),
            old(self)@.wf() ==> final(self)@.wf(),
    {
        self.entity_view_state.reset_selections();
        self.history_view_state.reset_selections();
        self.relationship_view_state.reset_selections();
        self.round = Round::through_all();
        self.refresh()
    }

    /// Starts the making of a new database: the user is asked where it is to be.
    pub fn new_database_from_dialog(&mut self) -> (request: Request)
        ensures
            final(self)@ == (GuiModel { waiting: Waiting::File, ..old(self)@ }),
            request == Request::PickNewFile,
    {
        self.waiting = Waiting::File;
        Request::PickNewFile
    }

    /// Starts the opening of a database: the user is asked which one.
    pub fn open_database_from_dialog(&mut self) -> (request: Request)
        ensures
            final(self)@ == (GuiModel { waiting: Waiting::File, ..old(self)@ }),
            request == Request::PickExistingFile,
    {
        self.waiting = Waiting::File;
        Request::PickExistingFile
    }

    /// Asks for the database at `path` to be made and opened. Its path is
    /// remembered once it is open.
    pub fn new_database(&mut self, path: String) -> (request: Request)
        ensures
            final(self)@ == old(self)@.opening(path, true),
            request == Request::OpenDatabase(path),
    {
        self.waiting = Waiting::Opened(path.clone(), true);
        Request::OpenDatabase(path)
    }

    /// Asks for the database at `path` to be opened. Its path is remembered
    /// once it is open.
    pub fn open_database(&mut self, path: String) -> (request: Request)
        ensures
            final(self)@ == old(self)@.opening(path, true),
            request == Request::OpenDatabase(path),
    {
        self.waiting = Waiting::Opened(path.clone(), true);
        Request::OpenDatabase(path)
    }

    /// Asks for the database that was open last time to be opened again.
    pub fn initialise(&mut self, path: String) -> (request: Request)
        ensures
            final(self)@ == old(self)@.opening(path, false),
            request == Request::OpenDatabase(path),
    {
        self.waiting = Waiting::Opened(path.clone(), false);
        Request::OpenDatabase(path)
    }
}

} // verus!
