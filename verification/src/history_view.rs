use vstd::prelude::*;
use crate::collaborator::{misfit_words, numbers_with, pick_numbers, Request, Response};
use crate::db_col_view::entry::DbColViewEntry;
use crate::db_col_view::state::{
    lemma_refreshed, lemma_refreshed_with_nothing, search_number, ColumnModel, DbColViewState,
};
use crate::db_col_view::ColViewMes;
use crate::dialog::redate_history::RedateHistoryData;
use crate::editor::{EditorModel, EditorState};
use crate::entity_view::misfit;
use crate::errors::LoreGuiError;
use crate::history_view::day::Day;
use crate::number_text::NumberFault;

pub mod day;

verus! {

/// What the user did in the history view.
#[derive(Debug, Clone, PartialEq, Eq)]
pub enum HistoryViewMessage {
    NewHistoryItem,
    RedateHistoryItem(RedateHistoryData),
    DeleteHistoryItem(i64),
    YearViewUpdate(ColViewMes<i32>),
    DayViewUpdate(ColViewMes<Day>),
    HistoryTimestampViewUpdate(ColViewMes<i64>),
    /// The content as the user has changed it.
    ContentUpdate(String),
    ContentDiscard,
    ContentSave,
}

/// How far the columns of the history view have been brought up to date. The
/// stage named is the next one to run.
#[derive(Clone, Copy, Debug, PartialEq, Eq, Structural)]
pub enum HistoryStage {
    Years,
    Days,
    Timestamps,
    Content,
    Settled,
}

impl HistoryStage {
    /// The number of stages that lie before this one.
    pub open spec fn rank(self) -> int {
        match self {
            HistoryStage::Years => 0,
            HistoryStage::Days => 1,
            HistoryStage::Timestamps => 2,
            HistoryStage::Content => 3,
            HistoryStage::Settled => 4,
        }
    }
}

/// The day that a search number stands for.
pub open spec fn day_wanted(number: Option<i32>) -> Option<Option<i32>> {
    match number {
        Some(n) => Some(Some(n)),
        None => None,
    }
}

/// The history view as plain values: years, the days of the selected year,
/// the items of that year and day, and the content of the selected item.
pub struct HistoryViewModel {
    pub years: ColumnModel<i32>,
    pub days: ColumnModel<Option<i32>>,
    pub timestamps: ColumnModel<i64>,
    pub content: EditorModel,
    pub due: HistoryStage,
}

impl HistoryViewModel {
    /// The view is sound when its columns are, and when, with every stage
    /// run, there is no content without an item.
    pub open spec fn wf(self) -> bool {
        &&& self.years.wf()
        &&& self.days.wf()
        &&& self.timestamps.wf()
        &&& self.due is Settled ==> (self.timestamps.selection is None ==> self.content.persisted
            == EditorModel::blank().persisted)
    }

    /// The view as it starts: nothing typed, nothing selected, nothing loaded.
    pub open spec fn initial() -> HistoryViewModel {
        HistoryViewModel {
            years: ColumnModel::empty(),
            days: ColumnModel::empty(),
            timestamps: ColumnModel::empty(),
            content: EditorModel::blank(),
            due: HistoryStage::Years,
        }
    }

    /// The view after the user typed into the year column or picked a year.
    /// A search text has the years listed again, and all that depends on
    /// them. Picking a year deselects day and item and has the days listed
    /// again; the years stay as they are listed, and their search text is
    /// not read.
    pub open spec fn year_event(self, event: ColViewMes<i32>) -> HistoryViewModel {
        match event {
            ColViewMes::SearchFieldUpd(text) => HistoryViewModel {
                years: self.years.with_filter(text@),
                due: HistoryStage::Years,
                ..self
            },
            ColViewMes::Selected(_, row) => HistoryViewModel {
                years: self.years.selecting(row.deep_view()),
                days: self.days.selecting(None),
                timestamps: self.timestamps.selecting(None),
                due: HistoryStage::Days,
                ..self
            },
        }
    }

    /// The view after the user typed into the day column or picked a day. A
    /// search text has the days listed again. Picking a day deselects the
    /// item and has the items listed again; years and days stay as they are,
    /// and their search texts are not read.
    pub open spec fn day_event(self, event: ColViewMes<Day>) -> HistoryViewModel {
        match event {
            ColViewMes::SearchFieldUpd(text) => HistoryViewModel {
                days: self.days.with_filter(text@),
                due: HistoryStage::Days,
                ..self
            },
            ColViewMes::Selected(_, row) => HistoryViewModel {
                days: self.days.selecting(row.deep_view()),
                timestamps: self.timestamps.selecting(None),
                due: HistoryStage::Timestamps,
                ..self
            },
        }
    }

    /// The view after the user typed into the item column or picked an item.
    /// A search text has the items listed again. Picking an item has its
    /// content looked up.
    pub open spec fn timestamp_event(self, event: ColViewMes<i64>) -> HistoryViewModel {
        match event {
            ColViewMes::SearchFieldUpd(text) => HistoryViewModel {
                timestamps: self.timestamps.with_filter(text@),
                due: HistoryStage::Timestamps,
                ..self
            },
            ColViewMes::Selected(_, row) => HistoryViewModel {
                timestamps: self.timestamps.selecting(row.deep_view()),
                due: HistoryStage::Content,
                ..self
            },
        }
    }

    /// The view after its content was saved: the editor holds nothing
    /// unsaved. Where no item is selected nothing changes.
    pub open spec fn saved(self) -> HistoryViewModel {
        if self.timestamps.selection is Some {
            HistoryViewModel { content: self.content.saved(), ..self }
        } else {
            self
        }
    }

    /// The view with every selection and the content cleared.
    pub open spec fn cleared(self) -> HistoryViewModel {
        HistoryViewModel {
            years: self.years.selecting(None),
            days: self.days.selecting(None),
            timestamps: self.timestamps.selecting(None),
            content: EditorModel::blank(),
            due: HistoryStage::Years,
        }
    }

    /// The view with the date and item of one history item selected, and the
    /// search fields of year and day emptied so that the item is on offer.
    pub open spec fn pointing_at(self, year: i32, day: Day, timestamp: i64) -> HistoryViewModel {
        HistoryViewModel {
            years: self.years.with_filter(Seq::empty()).selecting(Some(year)),
            days: self.days.with_filter(Seq::empty()).selecting(Some(day.deep_view())),
            timestamps: self.timestamps.selecting(Some(timestamp)),
            due: HistoryStage::Years,
            ..self
        }
    }

    /// Whether the stage that is due has the selections it depends on.
    pub open spec fn needs(self) -> bool {
        match self.due {
            HistoryStage::Years => true,
            HistoryStage::Days => self.years.selection is Some,
            HistoryStage::Timestamps => self.years.selection is Some,
            HistoryStage::Content => self.timestamps.selection is Some,
            HistoryStage::Settled => false,
        }
    }

    /// Whether the stage that is due has a question for the database.
    pub open spec fn asks(self, connected: bool) -> bool {
        connected && self.needs()
    }

    /// Why the question of the stage that is due cannot be put: the search
    /// field of the year or of the day holds a text that is no number.
    pub open spec fn fault(self) -> Option<NumberFault> {
        match self.due {
            HistoryStage::Years => match search_number(self.years.filter) {
                Err(fault) => Some(fault),
                Ok(_) => None,
            },
            HistoryStage::Days => match search_number(self.days.filter) {
                Err(fault) => Some(fault),
                Ok(_) => None,
            },
            _ => None,
        }
    }

    /// Whether `request` is the question of the stage that is due.
    pub open spec fn wants(self, request: Request) -> bool {
        match self.due {
            HistoryStage::Years => request matches Request::Years { year } && search_number(
                self.years.filter,
            ) == Ok::<Option<i32>, NumberFault>(year),
            HistoryStage::Days => request matches Request::Days { year, day } && Some(year)
                == self.years.selection && (search_number(self.days.filter) matches Ok(number)
                && day.deep_view() == day_wanted(number)),
            HistoryStage::Timestamps => request matches Request::Timestamps { year, day } && Some(
                year,
            ) == self.years.selection && day.deep_view() == self.days.selection,
            HistoryStage::Content => request matches Request::Content { timestamp } && Some(
                timestamp,
            ) == self.timestamps.selection,
            HistoryStage::Settled => false,
        }
    }

    /// The view after the stage that is due has run without the database:
    /// its column offers nothing, or the content is blank.
    pub open spec fn skipped(self) -> HistoryViewModel {
        match self.due {
            HistoryStage::Years => HistoryViewModel {
                years: self.years.refreshed(Seq::empty()),
                due: HistoryStage::Days,
                ..self
            },
            HistoryStage::Days => HistoryViewModel {
                days: self.days.refreshed(Seq::empty()),
                due: HistoryStage::Timestamps,
                ..self
            },
            HistoryStage::Timestamps => HistoryViewModel {
                timestamps: self.timestamps.refreshed(Seq::empty()),
                due: HistoryStage::Content,
                ..self
            },
            HistoryStage::Content => HistoryViewModel {
                content: EditorModel::blank(),
                due: HistoryStage::Settled,
                ..self
            },
            HistoryStage::Settled => self,
        }
    }

    /// The view after the stage that is due has run, if it has no question
    /// for the database; the view as it is, if the stage has one or every
    /// stage has run.
    pub open spec fn stepped(self, connected: bool) -> HistoryViewModel {
        if self.due is Settled || self.asks(connected) {
            self
        } else {
            self.skipped()
        }
    }

    /// The view after every stage has run that has no question for the
    /// database: each stage in its turn, up to the first that has one.
    pub open spec fn advanced(self, connected: bool) -> HistoryViewModel {
        self.stepped(connected).stepped(connected).stepped(connected).stepped(connected)
    }

    /// Whether the answer is of the kind that the stage that is due reads.
    pub open spec fn fits(self, response: Response) -> bool {
        match self.due {
            HistoryStage::Years => response is Years,
            HistoryStage::Days => response is Days,
            HistoryStage::Timestamps => response is Timestamps,
            HistoryStage::Content => response matches Response::Texts(rows) && rows@.len() <= 1,
            HistoryStage::Settled => true,
        }
    }

    /// Whether the answer is turned down: the stage that is due waits for an
    /// answer, and this is none that it can read.
    pub open spec fn refuses(self, response: Response) -> bool {
        self.needs() && !self.fits(response)
    }

    /// The view after the answer came in. An answer that is turned down, and
    /// one that comes when every stage has run, changes nothing. A stage that
    /// lacks the selections it depends on runs without the answer.
    pub open spec fn absorbed(self, response: Response) -> HistoryViewModel {
        if self.due is Settled || self.refuses(response) {
            self
        } else if !self.needs() {
            self.skipped()
        } else {
            match (self.due, response) {
                (HistoryStage::Years, Response::Years(rows)) => HistoryViewModel {
                    years: self.years.refreshed(rows.deep_view()),
                    due: HistoryStage::Days,
                    ..self
                },
                (HistoryStage::Days, Response::Days(rows)) => HistoryViewModel {
                    days: self.days.refreshed(rows.deep_view()),
                    due: HistoryStage::Timestamps,
                    ..self
                },
                (HistoryStage::Timestamps, Response::Timestamps(rows)) => HistoryViewModel {
                    timestamps: self.timestamps.refreshed(
                        numbers_with(rows.deep_view(), self.timestamps.filter),
                    ),
                    due: HistoryStage::Content,
                    ..self
                },
                (HistoryStage::Content, Response::Texts(rows)) => HistoryViewModel {
                    content: if rows@.len() == 1 {
                        EditorModel::loaded(rows@[0]@)
                    } else {
                        EditorModel::blank()
                    },
                    due: HistoryStage::Settled,
                    ..self
                },
                _ => self,
            }
        }
    }

    /// The view after a round of bringing it up to date, in which these
    /// answers came in one after the other.
    pub open spec fn run(self, connected: bool, answers: Seq<Response>) -> HistoryViewModel
        decreases answers.len(),
    {
        if answers.len() == 0 {
            self.advanced(connected)
        } else {
            self.advanced(connected).absorbed(answers[0]).run(connected, answers.skip(1))
        }
    }

    /// Whether `error` is what an answer that is turned down is reported with:
    /// the failure as it came, `MultipleResults` where a lookup matched more
    /// than one record, and else an error that says that the answer does not fit.
    pub open spec fn complaint(self, response: Response, error: LoreGuiError) -> bool {
        match response {
            Response::Failed(words) => error == LoreGuiError::LoreCoreError(words),
            Response::Texts(rows) if self.due is Content => error == LoreGuiError::MultipleResults,
            _ => error is LoreCoreError && error.detail() == misfit_words(),
        }
    }
}

/// A stage that runs leaves the view sound.
pub proof fn lemma_stage_keeps_sound(view: HistoryViewModel, response: Response)
    requires
        view.wf(),
    ensures
        view.skipped().wf(),
        view.absorbed(response).wf(),
{
    lemma_refreshed(view.years, Seq::empty());
    lemma_refreshed(view.days, Seq::empty());
    lemma_refreshed(view.timestamps, Seq::empty());
    lemma_refreshed_with_nothing(view.days);
    lemma_refreshed_with_nothing(view.timestamps);
    match response {
        Response::Years(rows) => {
            lemma_refreshed(view.years, rows.deep_view());
        },
        Response::Days(rows) => {
            lemma_refreshed(view.days, rows.deep_view());
        },
        Response::Timestamps(rows) => {
            lemma_refreshed(
                view.timestamps,
                numbers_with(rows.deep_view(), view.timestamps.filter),
            );
        },
        _ => {},
    }
}

/// Running the stages that have no question ends at a stage that has a
/// question or with nothing left to do, and leaves a sound view sound. A
/// view that has run them runs no further, and a view that has run one of
/// them ends where it would have ended.
pub proof fn lemma_advanced(view: HistoryViewModel, connected: bool)
    ensures
        view.advanced(connected).due is Settled || view.advanced(connected).asks(connected),
        view.wf() ==> view.advanced(connected).wf(),
        view.advanced(connected).stepped(connected) == view.advanced(connected),
        view.stepped(connected).advanced(connected) == view.advanced(connected),
{
    if view.wf() {
        lemma_stage_keeps_sound(view, Response::Done);
    }
    if view.stepped(connected).wf() {
        lemma_stage_keeps_sound(view.stepped(connected), Response::Done);
    }
    if view.stepped(connected).stepped(connected).wf() {
        lemma_stage_keeps_sound(view.stepped(connected).stepped(connected), Response::Done);
    }
    if view.stepped(connected).stepped(connected).stepped(connected).wf() {
        lemma_stage_keeps_sound(view.stepped(connected).stepped(connected).stepped(connected), Response::Done);
    }
}

/// The state of the history view.
#[derive(Debug)]
pub struct HistoryViewState {
    year_view_state: DbColViewState<i32>,
    day_view_state: DbColViewState<Day>,
    timestamp_view_state: DbColViewState<i64>,
    current_content: EditorState,
    due: HistoryStage,
}

impl View for HistoryViewState {
    type V = HistoryViewModel;

    closed spec fn view(&self) -> HistoryViewModel {
        HistoryViewModel {
            years: self.year_view_state@,
            days: self.day_view_state@,
            timestamps: self.timestamp_view_state@,
            content: self.current_content@,
            due: self.due,
        }
    }
}

impl HistoryViewState {
    /// The view as it starts.
    pub fn new() -> (state: Self)
        ensures
            state@ == HistoryViewModel::initial(),
            state@.wf(),
    {
        Self {
            year_view_state: DbColViewState::default(),
            day_view_state: DbColViewState::default(),
            timestamp_view_state: DbColViewState::default(),
            current_content: EditorState::default(),
            due: HistoryStage::Years,
        }
    }

    /// The column of years.
    pub fn year_view_state(&self) -> (column: &DbColViewState<i32>)
        ensures
            column@ == self@.years,
    {
        &self.year_view_state
    }

    /// The column of days.
    pub fn day_view_state(&self) -> (column: &DbColViewState<Day>)
        ensures
            column@ == self@.days,
    {
        &self.day_view_state
    }

    /// The column of items.
    pub fn timestamp_view_state(&self) -> (column: &DbColViewState<i64>)
        ensures
            column@ == self@.timestamps,
    {
        &self.timestamp_view_state
    }

    /// The editor of the content.
    pub fn current_content(&self) -> (editor: &EditorState)
        ensures
            editor@ == self@.content,
    {
        &self.current_content
    }

    /// The stage that is due.
    pub fn due(&self) -> (stage: HistoryStage)
        ensures
            stage == self@.due,
    {
        self.due
    }

    /// The selected year.
    pub fn get_selected_year(&self) -> (year: Option<i32>)
        ensures
            year == self@.years.selection,
    {
        self.year_view_state.get_selected().0
    }

    /// Selects a year and nothing else; the columns are brought up to date
    /// by the stages that follow.
    pub fn set_selected_year(&mut self, year: Option<i32>)
        ensures
            final(self)@ == (HistoryViewModel {
                years: old(self)@.years.selecting(year),
                due: HistoryStage::Years,
                ..old(self)@
            }),
            old(self)@.wf() ==> final(self)@.wf(),
    {
        self.year_view_state.set_selected(DbColViewEntry(year));
        self.due = HistoryStage::Years;
    }

    /// The selected day.
    pub fn get_selected_day(&self) -> (day: Option<Day>)
        ensures
            day.deep_view() == self@.days.selection,
    {
        self.day_view_state.get_selected().0
    }

    /// Selects a day and nothing else.
    pub fn set_selected_day(&mut self, day: Option<Day>)
        ensures
            final(self)@ == (HistoryViewModel {
                days: old(self)@.days.selecting(day.deep_view()),
                due: HistoryStage::Years,
                ..old(self)@
            }),
            old(self)@.wf() ==> final(self)@.wf(),
    {
        self.day_view_state.set_selected(DbColViewEntry(day));
        self.due = HistoryStage::Years;
    }

    /// The selected item.
    pub fn get_selected_timestamp(&self) -> (timestamp: Option<i64>)
        ensures
            timestamp == self@.timestamps.selection,
    {
        self.timestamp_view_state.get_selected().0
    }

    /// Selects an item and nothing else.
    pub fn set_selected_timestamp(&mut self, timestamp: Option<i64>)
        ensures
            final(self)@ == (HistoryViewModel {
                timestamps: old(self)@.timestamps.selecting(timestamp),
                due: HistoryStage::Years,
                ..old(self)@
            }),
            old(self)@.wf() ==> final(self)@.wf(),
    {
        self.timestamp_view_state.set_selected(DbColViewEntry(timestamp));
        self.due = HistoryStage::Years;
    }

    /// The content as the editor shows it.
    pub fn get_content_text(&self) -> (text: String)
        ensures
            text@ == self@.content.buffer,
    {
        self.current_content.get_text()
    }

    /// Loads a content into the editor.
    pub fn set_content_text(&mut self, text: &str)
        ensures
            final(self)@ == (HistoryViewModel {
                content: EditorModel::loaded(text@),
                due: HistoryStage::Years,
                ..old(self)@
            }),
            old(self)@.wf() ==> final(self)@.wf(),
    {
        self.current_content = EditorState::new(text);
        self.due = HistoryStage::Years;
    }

    /// Clears every selection and the content.
    pub fn reset_selections(&mut self)
        ensures
            final(self)@ == old(self)@.cleared(),
            old(self)@.wf() ==> final(self)@.wf(),
    {
        self.year_view_state.set_selected(DbColViewEntry(None));
        self.day_view_state.set_selected(DbColViewEntry(None));
        self.timestamp_view_state.set_selected(DbColViewEntry(None));
        self.current_content = EditorState::default();
        self.due = HistoryStage::Years;
    }

    /// Selects the date and the item of one history item, and empties the
    /// search fields of year and day so that the item is on offer.
    pub fn point_at(&mut self, year: i32, day: Day, timestamp: i64)
        ensures
            final(self)@ == old(self)@.pointing_at(year, day, timestamp),
            old(self)@.wf() ==> final(self)@.wf(),
    {
        self.year_view_state.set_search_text(String::new());
        self.year_view_state.set_selected(DbColViewEntry(Some(year)));
        self.day_view_state.set_search_text(String::new());
        self.day_view_state.set_selected(DbColViewEntry(Some(day)));
        self.timestamp_view_state.set_selected(DbColViewEntry(Some(timestamp)));
        self.due = HistoryStage::Years;
    }

    /// Marks every column as out of date.
    pub fn mark_stale(&mut self)
        ensures
            final(self)@ == (HistoryViewModel { due: HistoryStage::Years, ..old(self)@ }),
            old(self)@.wf() ==> final(self)@.wf(),
    {
        self.due = HistoryStage::Years;
    }

    /// Takes what the user did to the year column.
    pub fn update_year_view(&mut self, event: ColViewMes<i32>)
        ensures
            final(self)@ == old(self)@.year_event(event),
            old(self)@.wf() ==> final(self)@.wf(),
    {
        match event {
            ColViewMes::SearchFieldUpd(text) => {
                self.year_view_state.set_search_text(text);
                self.due = HistoryStage::Years;
            },
            ColViewMes::Selected(_index, year) => {
                self.year_view_state.set_selected(year);
                self.day_view_state.set_selected(DbColViewEntry(None));
                self.timestamp_view_state.set_selected(DbColViewEntry(None));
                self.due = HistoryStage::Days;
            },
        }
    }

    /// Takes what the user did to the day column.
    pub fn update_day_view(&mut self, event: ColViewMes<Day>)
        ensures
            final(self)@ == old(self)@.day_event(event),
            old(self)@.wf() ==> final(self)@.wf(),
    {
        match event {
            ColViewMes::SearchFieldUpd(text) => {
                self.day_view_state.set_search_text(text);
                self.due = HistoryStage::Days;
            },
            ColViewMes::Selected(_index, day) => {
                self.day_view_state.set_selected(day);
                self.timestamp_view_state.set_selected(DbColViewEntry(None));
                self.due = HistoryStage::Timestamps;
            },
        }
    }

    /// Takes what the user did to the item column.
    pub fn update_timestamp_view(&mut self, event: ColViewMes<i64>)
        ensures
            final(self)@ == old(self)@.timestamp_event(event),
            old(self)@.wf() ==> final(self)@.wf(),
    {
        match event {
            ColViewMes::SearchFieldUpd(text) => {
                self.timestamp_view_state.set_search_text(text);
                self.due = HistoryStage::Timestamps;
            },
            ColViewMes::Selected(_index, timestamp) => {
                self.timestamp_view_state.set_selected(timestamp);
                self.due = HistoryStage::Content;
            },
        }
    }

    /// Takes the content as the user has changed it.
    pub fn edit_content(&mut self, text: String)
        ensures
            final(self)@ == (HistoryViewModel {
                content: old(self)@.content.edited(text@),
                ..old(self)@
            }),
            old(self)@.wf() ==> final(self)@.wf(),
    {
        self.current_content.edit(text);
    }

    /// Discards the changes to the content.
    pub fn discard_content(&mut self)
        ensures
            final(self)@ == (HistoryViewModel {
                content: old(self)@.content.discarded(),
                ..old(self)@
            }),
            old(self)@.wf() ==> final(self)@.wf(),
    {
        self.current_content.reset();
    }

    /// Records that the content was saved. Where no item is selected there is
    /// nothing that could have been saved, and nothing changes.
    pub fn content_saved(&mut self)
        ensures
            final(self)@ == old(self)@.saved(),
            old(self)@.wf() ==> final(self)@.wf(),
    {
        if self.timestamp_view_state.get_selected().0.is_some() {
            self.current_content.saved();
        }
    }

    /// What the button that redates an item sends: nothing unless a year and
    /// an item are selected, else the form for the selected item, whose day
    /// is "no day" where none is selected.
    pub fn redate_message(&self) -> (message: Option<HistoryViewMessage>)
        ensures
            self@.timestamps.selection is None || self@.years.selection is None ==> message
                is None,
            self@.timestamps.selection is Some && self@.years.selection is Some ==> (
            message matches Some(HistoryViewMessage::RedateHistoryItem(data)) && Some(
                data.timestamp,
            ) == self@.timestamps.selection && Some(data.old_year) == self@.years.selection
                && data.old_day.0 == (match self@.days.selection {
                Some(day) => day,
                None => None,
            }) && data.new_year == data.old_year && data.new_day == data.old_day),
    {
        match (self.get_selected_timestamp(), self.get_selected_year()) {
            (Some(timestamp), Some(year)) => {
                let day = DbColViewEntry(self.get_selected_day()).flatten();
                Some(
                    HistoryViewMessage::RedateHistoryItem(
                        RedateHistoryData::new(timestamp, year, day),
                    ),
                )
            },
            _ => None,
        }
    }

    /// What the button that deletes an item sends: nothing unless a year and
    /// an item are selected.
    pub fn delete_item_message(&self) -> (message: Option<HistoryViewMessage>)
        ensures
            self@.timestamps.selection is None || self@.years.selection is None ==> message
                is None,
            self@.timestamps.selection is Some && self@.years.selection is Some ==> (
            message matches Some(HistoryViewMessage::DeleteHistoryItem(timestamp)) && Some(
                timestamp,
            ) == self@.timestamps.selection),
    {
        match (self.get_selected_timestamp(), self.get_selected_year()) {
            (Some(timestamp), Some(_)) => Some(HistoryViewMessage::DeleteHistoryItem(timestamp)),
            _ => None,
        }
    }

    /// Whether the stage that is due has the selections it depends on.
    fn needs(&self) -> (needed: bool)
        ensures
            needed == self@.needs(),
    {
        match self.due {
            HistoryStage::Years => true,
            HistoryStage::Days => self.year_view_state.get_selected().0.is_some(),
            HistoryStage::Timestamps => self.year_view_state.get_selected().0.is_some(),
            HistoryStage::Content => self.timestamp_view_state.get_selected().0.is_some(),
            HistoryStage::Settled => false,
        }
    }

    /// The question of the stage that is due, or why it cannot be put.
    fn question(&self) -> (request: Result<Request, LoreGuiError>)
        requires
            self@.needs(),
        ensures
            match request {
                Ok(request) => self@.fault() is None && self@.wants(request),
                Err(error) => (self@.fault() matches Some(fault) && error is InputError
                    && error.detail() == fault.words()),
            },
    {
        match self.due {
            HistoryStage::Years => {
                let year = self.year_view_state.get_search_int()?;
                Ok(Request::Years { year })
            },
            HistoryStage::Days => {
                let year = match self.year_view_state.get_selected().0 {
                    Some(year) => year,
                    None => 0,
                };
                let day = match self.day_view_state.get_search_int()? {
                    Some(number) => Some(Day(Some(number))),
                    None => None,
                };
                Ok(Request::Days { year, day })
            },
            HistoryStage::Timestamps => {
                let year = match self.year_view_state.get_selected().0 {
                    Some(year) => year,
                    None => 0,
                };
                Ok(Request::Timestamps { year, day: self.day_view_state.get_selected().0 })
            },
            _ => {
                let timestamp = match self.timestamp_view_state.get_selected().0 {
                    Some(timestamp) => timestamp,
                    None => 0,
                };
                Ok(Request::Content { timestamp })
            },
        }
    }

    /// Runs the stage that is due without the database.
    fn skip(&mut self)
        ensures
            final(self)@ == old(self)@.skipped(),
            old(self)@.wf() ==> final(self)@.wf(),
    {
        proof {
            if old(self)@.wf() {
                lemma_stage_keeps_sound(old(self)@, Response::Done);
            }
        }
        match self.due {
            HistoryStage::Years => {
                let nothing: Vec<i32> = Vec::new();
                assert(nothing.deep_view() == Seq::<i32>::empty());
                self.year_view_state.refresh(&nothing);
                self.due = HistoryStage::Days;
            },
            HistoryStage::Days => {
                let nothing: Vec<Day> = Vec::new();
                assert(nothing.deep_view() == Seq::<Option<i32>>::empty());
                self.day_view_state.refresh(&nothing);
                self.due = HistoryStage::Timestamps;
            },
            HistoryStage::Timestamps => {
                let nothing: Vec<i64> = Vec::new();
                assert(nothing.deep_view() == Seq::<i64>::empty());
                self.timestamp_view_state.refresh(&nothing);
                self.due = HistoryStage::Content;
            },
            HistoryStage::Content => {
                self.current_content = EditorState::default();
                self.due = HistoryStage::Settled;
            },
            HistoryStage::Settled => {},
        }
    }

    /// Runs every stage that has no question for the database, and returns
    /// the question of the stage at which it stops, if it stops at one.
    /// `connected` says whether a database is open; without one no stage has
    /// a question. Where the search field of the stage holds a text that is
    /// no number the question cannot be put, and the input error says why.
    pub fn advance(&mut self, connected: bool) -> (request: Result<Option<Request>, LoreGuiError>)
        ensures
            final(self)@ == old(self)@.advanced(connected),
            old(self)@.wf() ==> final(self)@.wf(),
            match request {
                Ok(Some(request)) => final(self)@.asks(connected) && final(self)@.fault() is None
                    && final(self)@.wants(request),
                Ok(None) => final(self)@.due is Settled,
                Err(error) => final(self)@.asks(connected) && (final(self)@.fault() matches Some(
                    fault,
                ) && error is InputError && error.detail() == fault.words()),
            },
    {
        proof {
            lemma_advanced(old(self)@, connected);
        }
        while !(self.due == HistoryStage::Settled || (connected && self.needs()))
            invariant
                self@.advanced(connected) == old(self)@.advanced(connected),
            decreases 4 - self@.due.rank(),
        {
            proof {
                lemma_advanced(self@, connected);
            }
            self.skip();
        }
        proof {
            lemma_advanced(self@, connected);
        }
        if self.due == HistoryStage::Settled {
            Ok(None)
        } else {
            match self.question() {
                Ok(request) => Ok(Some(request)),
                Err(error) => Err(error),
            }
        }
    }

    /// Takes the answer to the question of the stage that is due.
    pub fn absorb(&mut self, response: Response) -> (outcome: Result<(), LoreGuiError>)
        ensures
            final(self)@ == old(self)@.absorbed(response),
            old(self)@.wf() ==> final(self)@.wf(),
            outcome is Err <==> old(self)@.refuses(response),
            outcome matches Err(error) ==> old(self)@.complaint(response, error),
    {
        proof {
            if old(self)@.wf() {
                lemma_stage_keeps_sound(old(self)@, response);
            }
        }
        if self.due == HistoryStage::Settled {
            return Ok(());
        }
        if !self.needs() {
            self.skip();
            return Ok(());
        }
        match response {
            Response::Years(rows) => {
                match self.due {
                    HistoryStage::Years => {
                        self.year_view_state.refresh(&rows);
                        self.due = HistoryStage::Days;
                        Ok(())
                    },
                    _ => Err(misfit()),
                }
            },
            Response::Days(rows) => {
                match self.due {
                    HistoryStage::Days => {
                        self.day_view_state.refresh(&rows);
                        self.due = HistoryStage::Timestamps;
                        Ok(())
                    },
                    _ => Err(misfit()),
                }
            },
            Response::Timestamps(rows) => {
                match self.due {
                    HistoryStage::Timestamps => {
                        let ghost typed = self.timestamp_view_state@.filter;
                        let kept = match self.timestamp_view_state.get_search_text() {
                            Some(part) => pick_numbers(&rows, part),
                            None => {
                                proof {
                                    reveal_strlit("");
                                    assert(""@ =~= typed);
                                }
                                pick_numbers(&rows, "")
                            },
                        };
                        self.timestamp_view_state.refresh(&kept);
                        self.due = HistoryStage::Content;
                        Ok(())
                    },
                    _ => Err(misfit()),
                }
            },
            Response::Texts(rows) => {
                match self.due {
                    HistoryStage::Content => {
                        if rows.len() > 1 {
                            Err(LoreGuiError::MultipleResults)
                        } else {
                            if rows.len() == 1 {
                                self.current_content = EditorState::new(rows[0].as_str());
                            } else {
                                self.current_content = EditorState::default();
                            }
                            self.due = HistoryStage::Settled;
                            Ok(())
                        }
                    },
                    _ => Err(misfit()),
                }
            },
            Response::Failed(words) => Err(LoreGuiError::LoreCoreError(words)),
            _ => Err(misfit()),
        }
    }
}

impl Default for HistoryViewState {
    fn default() -> (state: Self)
        ensures
            state@ == HistoryViewModel::initial(),
            state@.wf(),
    {
        Self::new()
    }
}

} // verus!
