use vstd::prelude::*;
use vstd::string::StringExecFns;
use crate::app::message_handling::GuiMessage;
use crate::collaborator::Mutation;
use crate::dialog::DialogUpdate;
use crate::history_view::day::Day;
use crate::number_text::{decimal_text, number_to_text};

verus! {

/// What the user enters to move a history item to another date.
#[derive(Debug, Clone, PartialEq, Eq)]
pub struct RedateHistoryData {
    pub timestamp: i64,
    pub old_year: i32,
    pub old_day: Day,
    pub new_year: i32,
    pub new_day: Day,
}

impl RedateHistoryData {
    /// The form as it opens: the new date is the old one until it is changed.
    pub fn new(timestamp: i64, old_year: i32, old_day: Day) -> (data: Self)
        ensures
            data == (RedateHistoryData {
                timestamp,
                old_year,
                old_day,
                new_year: old_year,
                new_day: old_day,
            }),
    {
        RedateHistoryData { timestamp, new_year: old_year, new_day: old_day, old_year, old_day }
    }

    /// The data after one field was changed. A year or a day that could not
    /// be read leaves the field as it is.
    pub open spec fn updated(self, update: DialogUpdate) -> RedateHistoryData {
        match update {
            DialogUpdate::Year(Ok(new_year)) => RedateHistoryData { new_year, ..self },
            DialogUpdate::Day(Ok(new_day)) => RedateHistoryData { new_day, ..self },
            _ => self,
        }
    }

    /// The change that moves the item to its new date.
    pub fn mutation(self) -> (mutation: Mutation)
        ensures
            mutation == (Mutation::RedateHistoryItem {
                timestamp: self.timestamp,
                year: self.new_year,
                day: self.new_day,
            }),
    {
        Mutation::RedateHistoryItem {
            timestamp: self.timestamp,
            year: self.new_year,
            day: self.new_day,
        }
    }

    pub fn set_new_year(&mut self, year: i32)
        ensures
            *final(self) == (RedateHistoryData { new_year: year, ..*old(self) }),
    {
        self.new_year = year;
    }

    pub fn set_new_day(&mut self, day: Day)
        ensures
            *final(self) == (RedateHistoryData { new_day: day, ..*old(self) }),
    {
        self.new_day = day;
    }
}

/// The dialog that moves a history item to another date.
#[derive(Debug, Clone, PartialEq, Eq)]
pub struct RedateHistoryDialog {
    pub data: RedateHistoryData,
}

impl RedateHistoryDialog {
    pub fn new(data: RedateHistoryData) -> (dialog: Self)
        ensures
            dialog.data == data,
    {
        RedateHistoryDialog { data }
    }

    /// The title of the dialog, which names the item by its old date and its timestamp.
    pub fn header(&self) -> (title: String)
        ensures
            title@ == "Redate history for entity: year "@ + decimal_text(
                self.data.old_year as int,
            ) + ", day "@ + self.data.old_day.text() + " ("@ + decimal_text(
                self.data.timestamp as int,
            ) + ")"@,
    {
        String::from_str("Redate history for entity: year ").concat(
            number_to_text(self.data.old_year as i64).as_str(),
        ).concat(", day ").concat(self.data.old_day.write().as_str()).concat(" (").concat(
            number_to_text(self.data.timestamp).as_str(),
        ).concat(")")
    }

    /// Takes a change to one field.
    pub fn update(&mut self, message: DialogUpdate)
        ensures
            final(self).data == old(self).data.updated(message),
    {
        match message {
            DialogUpdate::Year(Ok(year)) => {
                self.data.new_year = year;
            },
            DialogUpdate::Day(Ok(day)) => {
                self.data.new_day = day;
            },
            _ => (),
        }
    }

    /// The message that the dialog sends when it is submitted.
    pub fn submit(self) -> (message: GuiMessage)
        ensures
            message == GuiMessage::RedateHistoryItem(self.data),
    {
        GuiMessage::RedateHistoryItem(self.data)
    }
}

} // verus!
