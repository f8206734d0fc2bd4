use vstd::prelude::*;
use crate::history_view::day::Day;
use crate::number_text::{decimal_text, number_to_text};

verus! {

/// A label or a descriptor as the database lists it. Protected names are
/// those the database keeps for its own bookkeeping.
#[derive(Debug, Clone, PartialEq, Eq)]
pub struct Listed {
    pub name: String,
    pub protected: bool,
}

/// One described property of an entity.
#[derive(Debug, Clone, PartialEq, Eq)]
pub struct EntityColumn {
    pub label: String,
    pub descriptor: String,
    pub description: String,
}

/// One dated entry of the history.
#[derive(Debug, Clone, PartialEq, Eq)]
pub struct HistoryItem {
    pub timestamp: i64,
    pub year: i32,
    pub day: Day,
    pub content: String,
    /// Further properties of the item, in the form the database stores them.
    pub properties: String,
}

/// One labelled edge from a parent entity to a child entity.
#[derive(Debug, Clone, PartialEq, Eq)]
pub struct EntityRelationship {
    pub parent: String,
    pub child: String,
    pub role: String,
}

/// One change to the database.
#[allow(inconsistent_fields)]
#[derive(Debug, Clone, PartialEq, Eq)]
pub enum Mutation {
    WriteEntityColumns(Vec<EntityColumn>),
    RelabelEntity { old_label: String, new_label: String },
    DeleteEntity { label: String },
    ChangeEntityDescriptor { label: String, old_descriptor: String, new_descriptor: String },
    DeleteEntityColumn { label: String, descriptor: String },
    ChangeEntityDescription { label: String, descriptor: String, description: String },
    WriteHistoryItem(HistoryItem),
    RedateHistoryItem { timestamp: i64, year: i32, day: Day },
    DeleteHistoryItem { timestamp: i64 },
    ChangeHistoryItemContent { timestamp: i64, content: String },
    WriteRelationship(EntityRelationship),
    ChangeRelationshipRole { relationship: EntityRelationship, new_role: String },
    DeleteRelationship(EntityRelationship),
}

/// What the library asks of the outside world. Each request is answered by
/// one `Response`.
#[allow(inconsistent_fields)]
#[derive(Debug, Clone, PartialEq, Eq)]
pub enum Request {
    /// The labels that contain `filter`, each once.
    Labels { filter: Option<String> },
    /// The descriptors of the entity `label` that contain `filter`, each once.
    Descriptors { label: String, filter: Option<String> },
    /// The description of every record with exactly this label and descriptor.
    Description { label: String, descriptor: String },
    /// The years that have history items, each once; only `year` where one is given.
    Years { year: Option<i32> },
    /// The days of the items of `year`, each once; only `day` where one is given.
    Days { year: i32, day: Option<Day> },
    /// The timestamps of the items of `year`; only those of `day` where one
    /// is given. The search text of the items is applied to the answer.
    Timestamps { year: i32, day: Option<Day> },
    /// The content of every item with exactly this timestamp.
    Content { timestamp: i64 },
    /// The parents that contain `filter`, each once.
    Parents { filter: Option<String> },
    /// The children that contain `filter`, each once; only those of `parent` where one is given.
    Children { parent: Option<String>, filter: Option<String> },
    /// The roles of the relationships between exactly this parent and child,
    /// each once. The search text of the roles is applied to the answer.
    Roles { parent: String, child: String },
    /// Every label, each once.
    AllLabels,
    /// Carry out this change.
    Write(Mutation),
    /// The time now, as the database stamps it.
    CurrentTimestamp,
    /// Let the user pick where a new database is to be.
    PickNewFile,
    /// Let the user pick an existing database.
    PickExistingFile,
    /// Open, or create, the database at this path.
    OpenDatabase(String),
    /// Remember this path for the next start.
    StorePath(String),
}

/// What the outside world answers.
#[derive(Debug, Clone, PartialEq, Eq)]
pub enum Response {
    Names(Vec<Listed>),
    Texts(Vec<String>),
    Years(Vec<i32>),
    Days(Vec<Day>),
    Timestamps(Vec<i64>),
    Timestamp(i64),
    /// The path the user picked, or none where the user picked none.
    Path(Option<String>),
    /// The request was carried out and has nothing to report.
    Done,
    /// The request failed, for this reason.
    Failed(String),
}

/// The search text as a request carries it: none where the field is empty.
pub open spec fn wanted_filter(text: Seq<char>) -> Option<Seq<char>> {
    if text.len() == 0 {
        None
    } else {
        Some(text)
    }
}

/// The names that a column shows of those listed: all of them where
/// protected names are on display, else those that are not protected.
pub open spec fn shown_names(rows: Seq<Listed>, display_protected: bool) -> Seq<Seq<char>>
    decreases rows.len(),
{
    if rows.len() == 0 {
        Seq::empty()
    } else {
        let before = shown_names(rows.drop_last(), display_protected);
        if display_protected || !rows.last().protected {
            before.push(rows.last().name@)
        } else {
            before
        }
    }
}

/// Picks the names to show, as `shown_names` defines them.
pub fn names_to_show(rows: &Vec<Listed>, display_protected: bool) -> (names: Vec<String>)
    ensures
        names.deep_view() == shown_names(rows@, display_protected),
{
    let mut names: Vec<String> = Vec::new();
    let mut i: usize = 0;
    assert(rows@.take(0) == Seq::<Listed>::empty());
    while i < rows.len()
        invariant
            i <= rows.len(),
            names.deep_view() == shown_names(rows@.take(i as int), display_protected),
        decreases rows.len() - i,
    {
        let ghost before = names.deep_view();
        proof {
            assert(rows@.take(i + 1).drop_last() == rows@.take(i as int));
            assert(rows@.take(i + 1).last() == rows@[i as int]);
        }
        if display_protected || !rows[i].protected {
            names.push(rows[i].name.clone());
            assert(names.deep_view() == before.push(rows@[i as int].name@));
        }
        i = i + 1;
    }
    assert(rows@.take(rows.len() as int) == rows@);
    names
}

/// The words of the error that reports an answer of the wrong kind.
pub open spec fn misfit_words() -> Seq<char> {
    "The answer does not fit the question that was asked."@
}

/// Whether `part` stands somewhere in `text`, character for character. The
/// empty text stands in every text.
pub open spec fn has_part(text: Seq<char>, part: Seq<char>) -> bool {
    exists|i: int|
        0 <= i && i + part.len() <= text.len() && #[trigger] text.subrange(i, i + part.len())
            == part
}

/// Whether `part` stands in `text` at place `i`.
fn stands_at(text: &str, part: &str, i: usize) -> (found: bool)
    requires
        i + part@.len() <= text@.len() <= usize::MAX,
    ensures
        found == (text@.subrange(i as int, i + part@.len()) == part@),
{
    let m = part.unicode_len();
    let ghost cut = text@.subrange(i as int, i + part@.len());
    let mut j: usize = 0;
    while j < m
        invariant
            j <= m,
            m == part@.len(),
            i + m <= text@.len() <= usize::MAX,
            cut == text@.subrange(i as int, i + part@.len()),
            forall|k: int| 0 <= k < j ==> cut[k] == part@[k],
        decreases m - j,
    {
        if text.get_char(i + j) != part.get_char(j) {
            assert(cut[j as int] != part@[j as int]);
            return false;
        }
        j = j + 1;
    }
    assert(cut =~= part@);
    true
}

/// Whether `part` stands somewhere in `text`.
pub fn contains_part(text: &str, part: &str) -> (found: bool)
    ensures
        found == has_part(text@, part@),
{
    let n = text.unicode_len();
    let m = part.unicode_len();
    if m > n {
        return false;
    }
    let mut i: usize = 0;
    while i <= n - m
        invariant
            i <= n - m,
            m <= n,
            n == text@.len(),
            m == part@.len(),
            forall|k: int| 0 <= k < i ==> #[trigger] text@.subrange(k, k + part@.len()) != part@,
        decreases n - m - i,
    {
        if stands_at(text, part, i) {
            return true;
        }
        if i == n - m {
            return false;
        }
        i = i + 1;
    }
    false
}

/// The texts that a search text leaves on offer: those it stands in, in the
/// order given.
pub open spec fn texts_with(values: Seq<Seq<char>>, part: Seq<char>) -> Seq<Seq<char>>
    decreases values.len(),
{
    if values.len() == 0 {
        Seq::empty()
    } else {
        let before = texts_with(values.drop_last(), part);
        if has_part(values.last(), part) {
            before.push(values.last())
        } else {
            before
        }
    }
}

/// The numbers that a search text leaves on offer: those in whose decimal
/// digits it stands, in the order given.
pub open spec fn numbers_with(values: Seq<i64>, part: Seq<char>) -> Seq<i64>
    decreases values.len(),
{
    if values.len() == 0 {
        Seq::empty()
    } else {
        let before = numbers_with(values.drop_last(), part);
        if has_part(decimal_text(values.last() as int), part) {
            before.push(values.last())
        } else {
            before
        }
    }
}

/// Picks the texts that the search text stands in.
pub fn pick_texts(values: &Vec<String>, part: &str) -> (kept: Vec<String>)
    ensures
        kept.deep_view() == texts_with(values.deep_view(), part@),
{
    let mut kept: Vec<String> = Vec::new();
    let mut i: usize = 0;
    let ghost all = values.deep_view();
    assert(all.take(0) =~= Seq::<Seq<char>>::empty());
    while i < values.len()
        invariant
            i <= values.len(),
            all == values.deep_view(),
            kept.deep_view() == texts_with(all.take(i as int), part@),
        decreases values.len() - i,
    {
        let ghost before = kept.deep_view();
        proof {
            assert(all.take(i + 1).drop_last() =~= all.take(i as int));
            assert(all.take(i + 1).last() == values[i as int]@);
        }
        if contains_part(values[i].as_str(), part) {
            kept.push(values[i].clone());
            assert(kept.deep_view() =~= before.push(values[i as int]@));
        }
        i = i + 1;
    }
    assert(all.take(values.len() as int) =~= all);
    kept
}

/// Picks the numbers in whose decimal digits the search text stands.
pub fn pick_numbers(values: &Vec<i64>, part: &str) -> (kept: Vec<i64>)
    ensures
        kept.deep_view() == numbers_with(values.deep_view(), part@),
{
    let mut kept: Vec<i64> = Vec::new();
    let mut i: usize = 0;
    let ghost all = values.deep_view();
    assert(all.take(0) =~= Seq::<i64>::empty());
    while i < values.len()
        invariant
            i <= values.len(),
            all == values.deep_view(),
            kept.deep_view() == numbers_with(all.take(i as int), part@),
        decreases values.len() - i,
    {
        let ghost before = kept.deep_view();
        proof {
            assert(all.take(i + 1).drop_last() =~= all.take(i as int));
            assert(all.take(i + 1).last() == values[i as int]);
        }
        if contains_part(number_to_text(values[i]).as_str(), part) {
            kept.push(values[i]);
            assert(kept.deep_view() =~= before.push(values[i as int]));
        }
        i = i + 1;
    }
    assert(all.take(values.len() as int) =~= all);
    kept
}

} // verus!
