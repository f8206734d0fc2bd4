use vstd::prelude::*;
use crate::db_col_view::entry::DbColViewEntry;
use crate::db_col_view::value::ColumnValue;
use crate::errors::LoreGuiError;
use crate::number_text::{parse_i32, read_i32, NumberFault};

verus! {

/// The items in their order, each kept where it first occurs.
pub open spec fn without_repeats<V>(items: Seq<V>) -> Seq<V>
    decreases items.len(),
{
    if items.len() == 0 {
        items
    } else {
        let before = without_repeats(items.drop_last());
        if before.contains(items.last()) {
            before
        } else {
            before.push(items.last())
        }
    }
}

/// What a column lists when it is given these rows: the deselecting row
/// first, then each value once, in the order given.
pub open spec fn listing<V>(given: Seq<Option<V>>) -> Seq<Option<V>> {
    without_repeats(seq![None::<V>] + given)
}

/// The rows that stand for the given values.
pub open spec fn rows_of<V>(values: Seq<V>) -> Seq<Option<V>> {
    values.map_values(|v: V| Some(v))
}

/// A list as a column shows it: it starts with the deselecting row and
/// repeats nothing.
pub open spec fn is_listing<V>(rows: Seq<Option<V>>) -> bool {
    &&& rows.len() > 0
    &&& rows[0] is None
    &&& rows.no_duplicates()
}

/// What the search text of a column means as a number: nothing where the
/// field is empty, else the number that the text writes.
pub open spec fn search_number(filter: Seq<char>) -> Result<Option<i32>, NumberFault> {
    if filter.len() == 0 {
        Ok(None)
    } else {
        match read_i32(filter) {
            Ok(number) => Ok(Some(number)),
            Err(fault) => Err(fault),
        }
    }
}

/// Dropping repeats loses no item, adds none, and leaves no repeat.
pub proof fn lemma_without_repeats<V>(items: Seq<V>)
    ensures
        without_repeats(items).no_duplicates(),
        forall|v: V| without_repeats(items).contains(v) <==> items.contains(v),
        without_repeats(items).len() <= items.len(),
        items.len() > 0 ==> without_repeats(items).len() > 0 && without_repeats(items)[0]
            == items[0],
    decreases items.len(),
{
    if items.len() > 0 {
        let shorter = items.drop_last();
        let before = without_repeats(shorter);
        lemma_without_repeats(shorter);
        let result = without_repeats(items);
        assert forall|v: V| result.contains(v) <==> items.contains(v) by {
            if items.contains(v) {
                let i = choose|i: int| 0 <= i < items.len() && items[i] == v;
                if i < shorter.len() {
                    assert(shorter[i] == v);
                    assert(shorter.contains(v));
                    assert(before.contains(v));
                    let j = choose|j: int| 0 <= j < before.len() && before[j] == v;
                    assert(result[j] == v);
                } else {
                    assert(v == items.last());
                    if !before.contains(items.last()) {
                        assert(result[before.len() as int] == v);
                    }
                }
                assert(result.contains(v));
            }
            if result.contains(v) {
                let j = choose|j: int| 0 <= j < result.len() && result[j] == v;
                if j < before.len() {
                    assert(before[j] == v);
                    assert(before.contains(v));
                    assert(shorter.contains(v));
                    let i = choose|i: int| 0 <= i < shorter.len() && shorter[i] == v;
                    assert(items[i] == v);
                } else {
                    assert(v == items.last());
                    assert(items[items.len() - 1] == v);
                }
                assert(items.contains(v));
            }
        }
        if shorter.len() == 0 {
            assert(before.len() == 0);
            assert(!before.contains(items.last()));
        }
    }
}

/// A listing starts with the deselecting row, repeats nothing, and holds
/// exactly the given rows beside it.
pub proof fn lemma_listing<V>(given: Seq<Option<V>>)
    ensures
        is_listing(listing(given)),
        forall|row: Option<V>|
            listing(given).contains(row) <==> (row is None || given.contains(row)),
{
    let all = seq![None::<V>] + given;
    lemma_without_repeats(all);
    assert(all[0] is None);
    assert forall|row: Option<V>|
        listing(given).contains(row) <==> (row is None || given.contains(row)) by {
        if row is None {
            assert(all[0] == row);
            assert(all.contains(row));
        }
        if given.contains(row) {
            let i = choose|i: int| 0 <= i < given.len() && given[i] == row;
            assert(all[i + 1] == row);
            assert(all.contains(row));
        }
        if all.contains(row) && !(row is None) {
            let i = choose|i: int| 0 <= i < all.len() && all[i] == row;
            assert(i > 0);
            assert(given[i - 1] == row);
        }
    }
}

/// Whether a list of rows holds a row that shows the same value.
fn holds<E: ColumnValue>(rows: &Vec<DbColViewEntry<E>>, row: &DbColViewEntry<E>) -> (found: bool)
    ensures
        found == rows.deep_view().contains(row.deep_view()),
{
    let mut i: usize = 0;
    while i < rows.len()
        invariant
            i <= rows.len(),
            forall|j: int| 0 <= j < i ==> rows.deep_view()[j] != row.deep_view(),
        decreases rows.len() - i,
    {
        if rows[i].same(row) {
            assert(rows.deep_view()[i as int] == row.deep_view());
            return true;
        }
        i = i + 1;
    }
    false
}

/// The rows of a column that is given these rows.
fn listed<E: ColumnValue>(given: &Vec<DbColViewEntry<E>>) -> (rows: Vec<DbColViewEntry<E>>)
    ensures
        rows.deep_view() == listing(given.deep_view()),
{
    let ghost all = seq![None::<E::V>] + given.deep_view();
    let mut rows: Vec<DbColViewEntry<E>> = Vec::new();
    rows.push(DbColViewEntry(None));
    proof {
        assert(all.take(1) == seq![None::<E::V>]);
        assert(all.take(1).drop_last() == Seq::<Option<E::V>>::empty());
        assert(without_repeats(all.take(1).drop_last()) == Seq::<Option<E::V>>::empty());
        assert(rows.deep_view() == without_repeats(all.take(1)));
    }
    let mut i: usize = 0;
    while i < given.len()
        invariant
            i <= given.len(),
            all == seq![None::<E::V>] + given.deep_view(),
            rows.deep_view() == without_repeats(all.take(i + 1)),
        decreases given.len() - i,
    {
        let ghost before = rows.deep_view();
        proof {
            assert(all.take(i + 2).drop_last() == all.take(i + 1));
            assert(all.take(i + 2).last() == given.deep_view()[i as int]);
        }
        if !holds(&rows, &given[i]) {
            let copy = given[i].duplicate();
            rows.push(copy);
            assert(rows.deep_view() == before.push(given.deep_view()[i as int]));
        }
        i = i + 1;
    }
    proof {
        assert(all.take(given.len() + 1) == all);
    }
    rows
}

/// What a column holds, as plain values.
pub struct ColumnModel<V> {
    /// The text of the search field.
    pub filter: Seq<char>,
    /// The rows on offer, the deselecting row among them.
    pub candidates: Seq<Option<V>>,
    /// The selected value, if one is selected.
    pub selection: Option<V>,
}

impl<V> ColumnModel<V> {
    /// A column is sound when it offers the deselecting row first and no row twice.
    pub open spec fn wf(self) -> bool {
        is_listing(self.candidates)
    }

    /// The selection is one of the rows on offer. Nothing selected is always on offer.
    pub open spec fn settled(self) -> bool {
        self.candidates.contains(self.selection)
    }

    /// A column with an empty search field, nothing selected and nothing on
    /// offer but the deselecting row.
    pub open spec fn empty() -> ColumnModel<V> {
        ColumnModel {
            filter: Seq::empty(),
            candidates: listing(Seq::<Option<V>>::empty()),
            selection: None,
        }
    }

    /// The column after the search text was replaced.
    pub open spec fn with_filter(self, text: Seq<char>) -> ColumnModel<V> {
        ColumnModel { filter: text, ..self }
    }

    /// The column after a row was picked.
    pub open spec fn selecting(self, row: Option<V>) -> ColumnModel<V> {
        ColumnModel { selection: row, ..self }
    }

    /// The column after it was given new rows.
    pub open spec fn offering(self, given: Seq<Option<V>>) -> ColumnModel<V> {
        ColumnModel { candidates: listing(given), ..self }
    }

    /// The column after a fresh list of values came in: it offers exactly
    /// these, and keeps its selection only if that is still on offer.
    pub open spec fn refreshed(self, values: Seq<V>) -> ColumnModel<V> {
        let candidates = listing(rows_of(values));
        ColumnModel {
            filter: self.filter,
            candidates,
            selection: if candidates.contains(self.selection) {
                self.selection
            } else {
                None
            },
        }
    }
}

/// A refreshed column is sound, its selection is on offer, and the selection
/// is the one it had or none.
pub proof fn lemma_refreshed<V>(column: ColumnModel<V>, values: Seq<V>)
    ensures
        column.refreshed(values).wf(),
        column.refreshed(values).settled(),
        column.refreshed(values).selection == column.selection || column.refreshed(
            values,
        ).selection is None,
        column.selection is None ==> column.refreshed(values).selection is None,
        forall|v: V| #[trigger]
            column.refreshed(values).candidates.contains(Some(v)) <==> values.contains(v),
{
    let rows = rows_of(values);
    lemma_listing(rows);
    let candidates = listing(rows);
    assert(candidates[0] == None::<V>);
    assert(candidates.contains(None::<V>));
    assert forall|v: V| #[trigger] candidates.contains(Some(v)) <==> values.contains(v) by {
        if values.contains(v) {
            let i = choose|i: int| 0 <= i < values.len() && values[i] == v;
            assert(rows[i] == Some(v));
            assert(rows.contains(Some(v)));
        }
        if rows.contains(Some(v)) {
            let i = choose|i: int| 0 <= i < rows.len() && rows[i] == Some(v);
            assert(values[i] == v);
        }
    }
}

/// A column that is refreshed with no values has nothing selected.
pub proof fn lemma_refreshed_with_nothing<V>(column: ColumnModel<V>)
    ensures
        column.refreshed(Seq::empty()).selection is None,
        column.refreshed(Seq::empty()).candidates == seq![None::<V>],
{
    let given = Seq::<Option<V>>::empty();
    let all = seq![None::<V>] + given;
    lemma_listing(given);
    lemma_without_repeats(all);
    let fresh = column.refreshed(Seq::empty());
    assert(rows_of(Seq::<V>::empty()) =~= given);
    assert(fresh.candidates.len() == 1);
    assert(fresh.candidates =~= seq![None::<V>]);
    if fresh.selection is Some {
        let i = choose|i: int| 0 <= i < fresh.candidates.len() && fresh.candidates[i]
            == column.selection;
        assert(i == 0);
    }
}

/// One column of a view: what the user typed into its search field, the rows
/// it offers, and the row that is selected.
#[derive(Debug)]
pub struct DbColViewState<E: ColumnValue> {
    search_text: String,
    entries: Vec<DbColViewEntry<E>>,
    selected_entry: DbColViewEntry<E>,
}

impl<E: ColumnValue> View for DbColViewState<E> {
    type V = ColumnModel<E::V>;

    closed spec fn view(&self) -> ColumnModel<E::V> {
        ColumnModel {
            filter: self.search_text@,
            candidates: self.entries.deep_view(),
            selection: self.selected_entry.deep_view(),
        }
    }
}

impl<E: ColumnValue> DbColViewState<E> {
    /// Every column offers the deselecting row first and no row twice.
    #[verifier::type_invariant]
    spec fn listed_once(&self) -> bool {
        is_listing(self.entries.deep_view())
    }

    /// The selected row as it is held.
    pub closed spec fn selected_row(&self) -> DbColViewEntry<E> {
        self.selected_entry
    }

    /// A column that offers the given rows, with an empty search field and nothing selected.
    pub fn new(entries: Vec<DbColViewEntry<E>>) -> (state: Self)
        ensures
            state@.wf(),
            state@ == ColumnModel::<E::V>::empty().offering(entries.deep_view()),
    {
        proof {
            lemma_listing(entries.deep_view());
        }
        DbColViewState {
            search_text: String::new(),
            entries: listed(&entries),
            selected_entry: DbColViewEntry(None),
        }
    }

    /// Replaces the rows on offer. The deselecting row comes first whether or
    /// not it was given, and a value given twice is offered once.
    pub fn set_entries(&mut self, entries: Vec<DbColViewEntry<E>>)
        ensures
            final(self)@.wf(),
            final(self)@ == old(self)@.offering(entries.deep_view()),
    {
        proof {
            lemma_listing(entries.deep_view());
        }
        self.entries = listed(&entries);
    }

    /// The rows on offer: the deselecting row first, and no row twice.
    pub fn get_entries(&self) -> (entries: &Vec<DbColViewEntry<E>>)
        ensures
            entries.deep_view() == self@.candidates,
            is_listing(entries.deep_view()),
    {
        proof {
            use_type_invariant(self);
        }
        &self.entries
    }

    /// Selects a row, whether or not it is on offer.
    pub fn set_selected(&mut self, entry: DbColViewEntry<E>)
        ensures
            final(self)@ == old(self)@.selecting(entry.deep_view()),
    {
        proof {
            use_type_invariant(&*self);
        }
        self.selected_entry = entry;
    }

    /// The selected row.
    pub fn get_selected(&self) -> (entry: &DbColViewEntry<E>)
        ensures
            *entry == self.selected_row(),
            entry.deep_view() == self@.selection,
    {
        &self.selected_entry
    }

    /// Replaces the search text. Rows and selection stay as they are.
    pub fn set_search_text(&mut self, text: String)
        ensures
            final(self)@ == old(self)@.with_filter(text@),
    {
        proof {
            use_type_invariant(&*self);
        }
        self.search_text = text;
    }

    /// The search text, or nothing where the field is empty.
    pub fn get_search_text(&self) -> (text: Option<&str>)
        ensures
            self@.filter.len() == 0 ==> text is None,
            self@.filter.len() > 0 ==> (text matches Some(t) && t@ == self@.filter),
    {
        if self.search_text.as_str().unicode_len() == 0 {
            None
        } else {
            Some(self.search_text.as_str())
        }
    }

    /// The search text as a number, nothing where the field is empty, and an
    /// input error that says why where the text is no number.
    pub fn get_search_int(&self) -> (number: Result<Option<i32>, LoreGuiError>)
        ensures
            match number {
                Ok(found) => search_number(self@.filter) == Ok::<Option<i32>, NumberFault>(found),
                Err(error) => (search_number(self@.filter) matches Err(fault) && error
                    is InputError && error.detail() == fault.words()),
            },
    {
        match self.get_search_text() {
            None => Ok(None),
            Some(text) => match parse_i32(text) {
                Ok(number) => Ok(Some(number)),
                Err(fault) => Err(LoreGuiError::InputError(fault.message())),
            },
        }
    }

    /// Whether the selection is one of the rows on offer.
    pub fn is_settled(&self) -> (settled: bool)
        ensures
            settled == self@.settled(),
    {
        holds(&self.entries, &self.selected_entry)
    }

    /// Takes a fresh list of values: offers exactly these, and keeps the
    /// selection only if it is still on offer.
    pub fn refresh(&mut self, values: &Vec<E>)
        ensures
            final(self)@ == old(self)@.refreshed(values.deep_view()),
            final(self)@.wf(),
            final(self)@.settled(),
    {
        let mut given: Vec<DbColViewEntry<E>> = Vec::new();
        let mut i: usize = 0;
        while i < values.len()
            invariant
                i <= values.len(),
                given.deep_view() == rows_of(values.deep_view().take(i as int)),
            decreases values.len() - i,
        {
            let ghost before = given.deep_view();
            let copy = values[i].duplicate();
            given.push(DbColViewEntry(Some(copy)));
            proof {
                assert(given.deep_view() == before.push(Some(values.deep_view()[i as int])));
                assert(rows_of(values.deep_view().take(i + 1)) == rows_of(
                    values.deep_view().take(i as int),
                ).push(Some(values.deep_view()[i as int])));
            }
            i = i + 1;
        }
        proof {
            assert(values.deep_view().take(values.len() as int) == values.deep_view());
            lemma_refreshed(old(self)@, values.deep_view());
        }
        proof {
            lemma_listing(given.deep_view());
        }
        self.entries = listed(&given);
        if !holds(&self.entries, &self.selected_entry) {
            self.selected_entry = DbColViewEntry(None);
        }
    }
}

impl<E: ColumnValue> Default for DbColViewState<E> {
    fn default() -> (state: Self)
        ensures
            state@.wf(),
            state@ == ColumnModel::<E::V>::empty(),
    {
        let entries: Vec<DbColViewEntry<E>> = Vec::new();
        assert(entries.deep_view() == Seq::<Option<E::V>>::empty());
        Self::new(entries)
    }
}

} // verus!
