use vstd::prelude::*;
use crate::history_view::day::Day;
use crate::number_text::{decimal_text, number_to_text};

verus! {

/// What a column can list: values that can be compared and copied, and whose
/// mathematical value is their deep view.
pub trait ColumnValue: DeepView + Sized {
    /// The value as a column writes it.
    spec fn written(&self) -> Seq<char>;

    /// Writes the value.
    fn to_text(&self) -> (text: String)
        ensures
            text@ == self.written(),
    ;

    /// Whether two values are the same value.
    fn same(&self, other: &Self) -> (alike: bool)
        ensures
            alike == (self.deep_view() == other.deep_view()),
    ;

    /// A second value that is the same value.
    fn duplicate(&self) -> (copy: Self)
        ensures
            copy.deep_view() == self.deep_view(),
    ;
}

impl ColumnValue for String {
    open spec fn written(&self) -> Seq<char> {
        self@
    }

    fn to_text(&self) -> (text: String) {
        self.clone()
    }

    fn same(&self, other: &Self) -> (alike: bool) {
        *self == *other
    }

    fn duplicate(&self) -> (copy: Self) {
        self.clone()
    }
}

impl ColumnValue for i32 {
    open spec fn written(&self) -> Seq<char> {
        decimal_text(*self as int)
    }

    fn to_text(&self) -> (text: String) {
        number_to_text(*self as i64)
    }

    fn same(&self, other: &Self) -> (alike: bool) {
        *self == *other
    }

    fn duplicate(&self) -> (copy: Self) {
        *self
    }
}

impl ColumnValue for i64 {
    open spec fn written(&self) -> Seq<char> {
        decimal_text(*self as int)
    }

    fn to_text(&self) -> (text: String) {
        number_to_text(*self)
    }

    fn same(&self, other: &Self) -> (alike: bool) {
        *self == *other
    }

    fn duplicate(&self) -> (copy: Self) {
        *self
    }
}

impl ColumnValue for Day {
    open spec fn written(&self) -> Seq<char> {
        self.text()
    }

    fn to_text(&self) -> (text: String) {
        self.write()
    }

    fn same(&self, other: &Self) -> (alike: bool) {
        match (self.0, other.0) {
            (Some(a), Some(b)) => a == b,
            (None, None) => true,
            _ => false,
        }
    }

    fn duplicate(&self) -> (copy: Self) {
        Day(self.0)
    }
}

} // verus!
