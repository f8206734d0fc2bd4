use vstd::prelude::*;
use crate::number_text::{decimal_text, number_to_text};

verus! {

/// The day of a history item within its year; many items have none.
#[derive(Clone, Copy, Debug, PartialEq, Eq, Hash)]
pub struct Day(pub Option<i32>);

impl DeepView for Day {
    type V = Option<i32>;

    open spec fn deep_view(&self) -> Option<i32> {
        self.0
    }
}

impl Day {
    /// The day of an item that has no day.
    pub fn none() -> (day: Day)
        ensures
            day.0 is None,
    {
        Day(None)
    }

    /// The day with the given number.
    pub fn of(number: i32) -> (day: Day)
        ensures
            day.0 == Some(number),
    {
        Day(Some(number))
    }

    /// The number of the day, if it has one.
    pub fn number(&self) -> (number: Option<i32>)
        ensures
            number == self.0,
    {
        self.0
    }

    /// The day as it is written: its number, or nothing.
    pub open spec fn text(self) -> Seq<char> {
        match self.0 {
            Some(number) => decimal_text(number as int),
            None => Seq::empty(),
        }
    }

    /// Writes the day: its number, or nothing where it has none.
    pub fn write(&self) -> (text: String)
        ensures
            text@ == self.text(),
    {
        match self.0 {
            Some(number) => number_to_text(number as i64),
            None => String::new(),
        }
    }
}

} // verus!
