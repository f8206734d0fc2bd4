use vstd::prelude::*;
use crate::db_col_view::entry::DbColViewEntry;

pub mod entry;
pub mod state;
pub mod value;
pub mod widget;

verus! {

/// What the user did to one column.
#[derive(Debug, Clone, PartialEq, Eq)]
pub enum ColViewMes<E> {
    /// The search field now holds this text.
    SearchFieldUpd(String),
    /// The row at this position of the list was picked.
    Selected(usize, DbColViewEntry<E>),
}

} // verus!
