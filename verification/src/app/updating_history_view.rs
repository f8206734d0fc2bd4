use vstd::prelude::*;
use vstd::string::StringExecFns;
use crate::app::message_handling::GuiMessage;
use crate::app::state::{Followup, GuiModel, Outcome, SqlGui, Waiting, Round, ViewType};
use crate::collaborator::{Mutation, Request};
use crate::dialog::confirmation::ConfirmationDialog;
use crate::dialog::redate_history::RedateHistoryDialog;
use crate::dialog::Dialog;
use crate::errors::LoreGuiError;
use crate::history_view::{HistoryViewMessage, HistoryViewModel};
use crate::number_text::{decimal_text, number_to_text};

verus! {

impl GuiModel {
    /// The state in which the history view is `history`.
    pub open spec fn with_history(self, history: HistoryViewModel) -> GuiModel {
        GuiModel { history, ..self }
    }

    /// Whether `after` and `outcome` are what an event of the history view
    /// leads to. A new item needs the time first, which is asked for. The other
    /// buttons open their dialogs, deletion asks first. What is done to a
    /// column has the history view listed afresh, and nothing else: a search
    /// text from its own column on, a pick from the column after it on. The
    /// content is edited and discarded in place. Saving it while no item is
    /// selected does nothing and succeeds; else it needs a database, and asks
    /// for the content to be written.
    pub open spec fn history_event(
        self,
        event: HistoryViewMessage,
        after: GuiModel,
        outcome: Outcome,
    ) -> bool {
        match event {
            HistoryViewMessage::NewHistoryItem => {
                &&& after == GuiModel { waiting: Waiting::Timestamp, ..self }
                &&& outcome == Ok::<Option<Request>, LoreGuiError>(Some(Request::CurrentTimestamp))
            },
            HistoryViewMessage::RedateHistoryItem(data) => {
                &&& outcome == Ok::<Option<Request>, LoreGuiError>(None)
                &&& after == self.showing(Dialog::RedateHistory(RedateHistoryDialog { data }))
            },
            HistoryViewMessage::DeleteHistoryItem(timestamp) => {
                &&& outcome == Ok::<Option<Request>, LoreGuiError>(None)
                &&& self.opens(after)
                &&& after.dialogs.last() matches Dialog::Confirmation(dialog)
                &&& dialog.message@ == "Do you really want to delete "@ + decimal_text(
                    timestamp as int,
                ) + "?"@
                &&& dialog.on_confirm == GuiMessage::DeleteHistoryItem(timestamp)
            },
            HistoryViewMessage::YearViewUpdate(event) => {
                &&& after == self.with_history(self.history.year_event(event)).turning_to(ViewType::History).refreshed()
                &&& after.reports(outcome)
            },
            HistoryViewMessage::DayViewUpdate(event) => {
                &&& after == self.with_history(self.history.day_event(event)).turning_to(ViewType::History).refreshed()
                &&& after.reports(outcome)
            },
            HistoryViewMessage::HistoryTimestampViewUpdate(event) => {
                &&& after == self.with_history(self.history.timestamp_event(event)).turning_to(ViewType::History).refreshed()
                &&& after.reports(outcome)
            },
            HistoryViewMessage::ContentUpdate(text) => {
                &&& outcome == Ok::<Option<Request>, LoreGuiError>(None)
                &&& after == self.with_history(
                    HistoryViewModel {
                        content: self.history.content.edited(text@),
                        ..self.history
                    },
                )
            },
            HistoryViewMessage::ContentDiscard => {
                &&& outcome == Ok::<Option<Request>, LoreGuiError>(None)
                &&& after == self.with_history(
                    HistoryViewModel { content: self.history.content.discarded(), ..self.history },
                )
            },
            HistoryViewMessage::ContentSave => {
                if self.history.timestamps.selection is None {
                    after == self && outcome == Ok::<Option<Request>, LoreGuiError>(None)
                } else if !self.connected() {
                    after == self && outcome == Err::<Option<Request>, LoreGuiError>(
                        LoreGuiError::NoDatabase,
                    )
                } else {
                    &&& after == GuiModel {
                        waiting: Waiting::Changed(Followup::ContentSaved),
                        ..self
                    }
                    &&& outcome matches Ok(
                        Some(Request::Write(Mutation::ChangeHistoryItemContent { timestamp, content })),
                    )
                    &&& Some(timestamp) == self.history.timestamps.selection
                    &&& content@ == self.history.content.buffer
                }
            },
        }
    }
}

impl SqlGui {
    /// Takes what the user did in the history view.
    pub fn update_history_view(&mut self, event: HistoryViewMessage) -> (outcome: Outcome)
        ensures
            old(self)@.history_event(event, final(self)@, outcome),
            old(self)@.wf() ==> final(self)@.wf(),
    {
        match event {
            HistoryViewMessage::NewHistoryItem => {
                self.waiting = Waiting::Timestamp;
                Ok(Some(Request::CurrentTimestamp))
            },
            HistoryViewMessage::RedateHistoryItem(data) => {
                self.dialogs.push(Dialog::RedateHistory(RedateHistoryDialog::new(data)));
                Ok(None)
            },
            HistoryViewMessage::DeleteHistoryItem(timestamp) => {
                let message = String::from_str("Do you really want to delete ").concat(
                    number_to_text(timestamp).as_str(),
                ).concat("?");
                let on_confirm = GuiMessage::DeleteHistoryItem(timestamp);
                self.dialogs.push(Dialog::Confirmation(ConfirmationDialog::new(message, on_confirm)));
                Ok(None)
            },
            HistoryViewMessage::YearViewUpdate(event) => {
                self.history_view_state.update_year_view(event);
                self.round = Round::through(ViewType::History);
                self.refresh()
            },
            HistoryViewMessage::DayViewUpdate(event) => {
                self.history_view_state.update_day_view(event);
                self.round = Round::through(ViewType::History);
                self.refresh()
            },
            HistoryViewMessage::HistoryTimestampViewUpdate(event) => {
                self.history_view_state.update_timestamp_view(event);
                self.round = Round::through(ViewType::History);
                self.refresh()
            },
            HistoryViewMessage::ContentUpdate(text) => {
                self.history_view_state.edit_content(text);
                Ok(None)
            },
            HistoryViewMessage::ContentDiscard => {
                self.history_view_state.discard_content();
                Ok(None)
            },
            HistoryViewMessage::ContentSave => {
                let timestamp = match self.history_view_state.get_selected_timestamp() {
                    Some(timestamp) => timestamp,
                    None => {
                        return Ok(None);
                    },
                };
                if self.lore_database.is_none() {
                    return Err(LoreGuiError::NoDatabase);
                }
                let content = self.history_view_state.get_content_text();
                self.waiting = Waiting::Changed(Followup::ContentSaved);
                Ok(Some(Request::Write(Mutation::ChangeHistoryItemContent { timestamp, content })))
            },
        }
    }
}

} // verus!
