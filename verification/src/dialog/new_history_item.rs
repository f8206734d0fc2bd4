use vstd::prelude::*;
use vstd::string::StringExecFns;
use crate::app::message_handling::GuiMessage;
use crate::collaborator::{HistoryItem, Mutation};
use crate::dialog::DialogUpdate;
use crate::history_view::day::Day;

verus! {

/// What the user enters to add an item to the history.
#[derive(Debug, Clone, PartialEq, Eq)]
pub struct NewHistoryData {
    pub timestamp: i64,
    pub year: i32,
    pub day: Day,
    pub content: String,
    /// Further properties of the item, in the form the database stores them.
    pub properties: String,
}

impl NewHistoryData {
    /// The form as it opens: year 0, no day, no content, stamped with `timestamp`.
    pub fn new(timestamp: i64) -> (data: Self)
        ensures
            data.timestamp == timestamp,
            data.year == 0,
            data.day.0 is None,
            data.content@.len() == 0,
            data.properties@.len() == 0,
    {
        NewHistoryData {
            timestamp,
            year: 0,
            day: Day(None),
            content: String::new(),
            properties: String::new(),
        }
    }

    /// The data after one field was changed. A year or a day that could not
    /// be read leaves the field as it is.
    pub open spec fn updated(self, update: DialogUpdate) -> NewHistoryData {
        match update {
            DialogUpdate::Year(Ok(year)) => NewHistoryData { year, ..self },
            DialogUpdate::Day(Ok(day)) => NewHistoryData { day, ..self },
            DialogUpdate::Content(content) => NewHistoryData { content, ..self },
            _ => self,
        }
    }

    /// The item as it is written.
    pub open spec fn item(self) -> HistoryItem {
        HistoryItem {
            timestamp: self.timestamp,
            year: self.year,
            day: self.day,
            content: self.content,
            properties: self.properties,
        }
    }

    /// The change that writes the item.
    pub fn mutation(self) -> (mutation: Mutation)
        ensures
            mutation == Mutation::WriteHistoryItem(self.item()),
    {
        Mutation::WriteHistoryItem(
            HistoryItem {
                timestamp: self.timestamp,
                year: self.year,
                day: self.day,
                content: self.content,
                properties: self.properties,
            },
        )
    }

    pub fn year(&self) -> (year: i32)
        ensures
            year == self.year,
    {
        self.year
    }

    pub fn day(&self) -> (day: Day)
        ensures
            day == self.day,
    {
        self.day
    }

    pub fn content(&self) -> (content: &String)
        ensures
            content == self.content,
    {
        &self.content
    }

    pub fn timestamp(&self) -> (timestamp: i64)
        ensures
            timestamp == self.timestamp,
    {
        self.timestamp
    }
}

/// The dialog that adds an item to the history.
#[derive(Debug, Clone, PartialEq, Eq)]
pub struct NewHistoryDialog {
    pub data: NewHistoryData,
}

impl NewHistoryDialog {
    /// The dialog as it opens at the time `timestamp`.
    pub fn new(timestamp: i64) -> (dialog: Self)
        ensures
            dialog.data.timestamp == timestamp,
            dialog.data.year == 0,
            dialog.data.day.0 is None,
            dialog.data.content@.len() == 0,
            dialog.data.properties@.len() == 0,
    {
        NewHistoryDialog { data: NewHistoryData::new(timestamp) }
    }

    /// The title of the dialog.
    pub fn header(&self) -> (title: String)
        ensures
            title@ == "Create new history item"@,
    {
        String::from_str("Create new history item")
    }

    /// Takes a change to one field.
    pub fn update(&mut self, message: DialogUpdate)
        ensures
            final(self).data == old(self).data.updated(message),
    {
        match message {
            DialogUpdate::Year(Ok(year)) => {
                self.data.year = year;
            },
            DialogUpdate::Day(Ok(day)) => {
                self.data.day = day;
            },
            DialogUpdate::Content(content) => {
                self.data.content = content;
            },
            _ => (),
        }
    }

    /// The message that the dialog sends when it is submitted.
    pub fn submit(self) -> (message: GuiMessage)
        ensures
            message == GuiMessage::NewHistoryItem(self.data),
    {
        GuiMessage::NewHistoryItem(self.data)
    }
}

} // verus!
