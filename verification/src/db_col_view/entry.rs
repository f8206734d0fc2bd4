use vstd::prelude::*;
use vstd::string::StringExecFns;
use crate::db_col_view::value::ColumnValue;
use crate::history_view::day::Day;

verus! {

/// One row of a selection list: a value, or the row that stands for "nothing selected".
#[derive(Clone, Debug, PartialEq, Eq, Hash)]
pub struct DbColViewEntry<T>(pub Option<T>);

impl<T: DeepView> DeepView for DbColViewEntry<T> {
    type V = Option<T::V>;

    open spec fn deep_view(&self) -> Option<T::V> {
        self.0.deep_view()
    }
}

impl<T> DbColViewEntry<T> {
    /// The row that deselects.
    pub fn none() -> (entry: Self)
        ensures
            entry.0 is None,
    {
        DbColViewEntry(None)
    }
}

impl<T: ColumnValue> DbColViewEntry<T> {
    /// The row as the list writes it: its value, or `[none]` for the row that deselects.
    pub open spec fn written(&self) -> Seq<char> {
        match self.0 {
            Some(value) => value.written(),
            None => "[none]"@,
        }
    }

    /// Writes the row.
    pub fn to_text(&self) -> (text: String)
        ensures
            text@ == self.written(),
    {
        match &self.0 {
            Some(value) => value.to_text(),
            None => String::from_str("[none]"),
        }
    }

    /// Whether two rows show the same value, or both show none.
    pub fn same(&self, other: &Self) -> (alike: bool)
        ensures
            alike == (self.deep_view() == other.deep_view()),
    {
        match (&self.0, &other.0) {
            (Some(a), Some(b)) => a.same(b),
            (None, None) => true,
            _ => false,
        }
    }

    /// A second row that shows the same value.
    pub fn duplicate(&self) -> (copy: Self)
        ensures
            copy.deep_view() == self.deep_view(),
    {
        match &self.0 {
            Some(value) => DbColViewEntry(Some(value.duplicate())),
            None => DbColViewEntry(None),
        }
    }
}

impl DbColViewEntry<Day> {
    /// The day that a row of the day column stands for: "no day" where nothing is selected.
    pub fn flatten(self) -> (day: Day)
        ensures
            day == (match self.0 {
                Some(d) => d,
                None => Day(None),
            }),
    {
        match self.0 {
            Some(d) => d,
            None => Day(None),
        }
    }
}

} // verus!
