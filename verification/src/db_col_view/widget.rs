use vstd::prelude::*;
use vstd::string::StringExecFns;
use crate::app::message_handling::GuiMessage;
use crate::db_col_view::entry::DbColViewEntry;
use crate::db_col_view::state::{is_listing, DbColViewState};
use crate::db_col_view::value::ColumnValue;
use crate::db_col_view::ColViewMes;

verus! {

/// One column as it is put on the screen: its title, its state, and the way
/// from what the user does to it to a message for the application.
pub struct DbColView<'a, M, E: ColumnValue> {
    title: &'a str,
    gui_message: M,
    state: &'a DbColViewState<E>,
}

impl<'a, M, E: ColumnValue> DbColView<'a, M, E> {
    /// The title that the column is shown with.
    pub closed spec fn shown_title(&self) -> Seq<char> {
        self.title@
    }

    /// The state that the column shows.
    pub closed spec fn shown_state(&self) -> DbColViewState<E> {
        *self.state
    }

    /// The way from what the user does to the column to a message.
    pub closed spec fn route(&self) -> M {
        self.gui_message
    }

    /// A column on the screen.
    pub fn new(title: &'a str, gui_message: M, state: &'a DbColViewState<E>) -> (view: Self)
        ensures
            view.shown_title() == title@,
            view.shown_state() == *state,
            view.route() == gui_message,
    {
        Self { title, gui_message, state }
    }

    /// The title above the column.
    pub fn title(&self) -> (title: &'a str)
        ensures
            title@ == self.shown_title(),
    {
        self.title
    }

    /// The line that names the selected row.
    pub fn selected(&self) -> (line: String)
        ensures
            line@ == "Selected: "@ + self.shown_state().selected_row().written(),
    {
        let row = self.state.get_selected();
        String::from_str("Selected: ").concat(row.to_text().as_str())
    }

    /// What the search field shows: the search text, which may be empty.
    pub fn search_field(&self) -> (text: &'a str)
        ensures
            text@ == self.shown_state()@.filter,
    {
        match self.state.get_search_text() {
            Some(text) => text,
            None => {
                proof {
                    reveal_strlit("");
                }
                assert(""@ =~= self.shown_state()@.filter);
                ""
            },
        }
    }

    /// The rows of the selection list.
    pub fn selection_list(&self) -> (rows: &'a Vec<DbColViewEntry<E>>)
        ensures
            rows.deep_view() == self.shown_state()@.candidates,
            is_listing(rows.deep_view()),
    {
        self.state.get_entries()
    }
}

impl<'a, M: Fn(ColViewMes<E>) -> GuiMessage, E: ColumnValue> DbColView<'a, M, E> {
    /// The message that tells the application what the user did to the column.
    pub fn update(&self, event: ColViewMes<E>) -> (message: GuiMessage)
        requires
            call_requires(self.route(), (event,)),
        ensures
            call_ensures(self.route(), (event,), message),
    {
        (self.gui_message)(event)
    }
}

} // verus!
