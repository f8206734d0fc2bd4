use vstd::prelude::*;
use crate::app::message_handling::GuiMessage;
use crate::app::state::{GuiModel, Outcome, Round};
use crate::collaborator::{shown_names, texts_with, wanted_filter, Request, Response};
use crate::db_col_view::entry::DbColViewEntry;
use crate::db_col_view::state::{lemma_refreshed, listing, rows_of, search_number, ColumnModel};
use crate::db_col_view::ColViewMes;
use crate::editor::EditorModel;
use crate::entity_view::{EntityViewMessage, EntityViewModel};
use crate::errors::LoreGuiError;
use crate::history_view::day::Day;
use crate::history_view::{day_wanted, HistoryViewModel};
use crate::number_text::NumberFault;
use crate::relationship_view::RelationshipViewModel;

verus! {

/// Whether a column has the selection it had, or none.
pub open spec fn kept_or_dropped<V>(before: ColumnModel<V>, after: ColumnModel<V>) -> bool {
    after.selection == before.selection || after.selection is None
}

/// Whether the description is blank, with nothing unsaved, wherever label or
/// descriptor is missing.
pub open spec fn description_follows(view: EntityViewModel) -> bool {
    view.labels.selection is None || view.descriptors.selection is None ==> view.description
        == EditorModel::blank()
}

/// Whether the content is blank, with nothing unsaved, wherever no item is selected.
pub open spec fn content_follows(view: HistoryViewModel) -> bool {
    view.timestamps.selection is None ==> view.content == EditorModel::blank()
}

/// Whether `now` is a state of the round that started with the entity view
/// `first`: the columns before the first stage are as they were, no column
/// has a selection it did not have, and every stage that has run left its
/// column with a selection that is on offer, and the description in line
/// with the selections.
pub open spec fn entity_round_so_far(first: EntityViewModel, now: EntityViewModel) -> bool {
    &&& now.wf()
    &&& now.due.rank() >= first.due.rank()
    &&& now.display_protected == first.display_protected
    &&& first.due.rank() > 0 ==> now.labels == first.labels
    &&& first.due.rank() > 1 ==> now.descriptors == first.descriptors
    &&& first.due.rank() > 2 ==> now.description == first.description
    &&& now.labels.filter == first.labels.filter
    &&& now.descriptors.filter == first.descriptors.filter
    &&& kept_or_dropped(first.labels, now.labels)
    &&& kept_or_dropped(first.descriptors, now.descriptors)
    &&& first.due.rank() <= 0 && now.due.rank() > 0 ==> now.labels.settled()
    &&& first.due.rank() <= 1 && now.due.rank() > 1 ==> now.descriptors.settled()
    &&& first.due.rank() <= 2 && now.due.rank() > 2 ==> description_follows(now)
}

/// The same for the history view.
pub open spec fn history_round_so_far(first: HistoryViewModel, now: HistoryViewModel) -> bool {
    &&& now.wf()
    &&& now.due.rank() >= first.due.rank()
    &&& first.due.rank() > 0 ==> now.years == first.years
    &&& first.due.rank() > 1 ==> now.days == first.days
    &&& first.due.rank() > 2 ==> now.timestamps == first.timestamps
    &&& first.due.rank() > 3 ==> now.content == first.content
    &&& now.years.filter == first.years.filter
    &&& now.days.filter == first.days.filter
    &&& now.timestamps.filter == first.timestamps.filter
    &&& kept_or_dropped(first.years, now.years)
    &&& kept_or_dropped(first.days, now.days)
    &&& kept_or_dropped(first.timestamps, now.timestamps)
    &&& first.due.rank() <= 0 && now.due.rank() > 0 ==> now.years.settled()
    &&& first.due.rank() <= 1 && now.due.rank() > 1 ==> now.days.settled()
    &&& first.due.rank() <= 2 && now.due.rank() > 2 ==> now.timestamps.settled()
    &&& first.due.rank() <= 3 && now.due.rank() > 3 ==> content_follows(now)
}

/// The same for the relationship view, whose last stage leaves no role
/// selected without a parent and a child.
pub open spec fn relationship_round_so_far(
    first: RelationshipViewModel,
    now: RelationshipViewModel,
) -> bool {
    &&& now.wf()
    &&& now.due.rank() >= first.due.rank()
    &&& first.due.rank() > 0 ==> now.parents == first.parents
    &&& first.due.rank() > 1 ==> now.children == first.children
    &&& first.due.rank() > 2 ==> now.roles == first.roles
    &&& now.parents.filter == first.parents.filter
    &&& now.children.filter == first.children.filter
    &&& now.roles.filter == first.roles.filter
    &&& kept_or_dropped(first.parents, now.parents)
    &&& kept_or_dropped(first.children, now.children)
    &&& kept_or_dropped(first.roles, now.roles)
    &&& first.due.rank() <= 0 && now.due.rank() > 0 ==> now.parents.settled()
    &&& first.due.rank() <= 1 && now.due.rank() > 1 ==> now.children.settled()
    &&& first.due.rank() <= 2 && now.due.rank() > 2 ==> now.roles.settled() && (
    now.parents.selection is None || now.children.selection is None
        ==> now.roles.selection is None)
}

proof fn lemma_entity_stage(first: EntityViewModel, now: EntityViewModel, response: Response)
    requires
        entity_round_so_far(first, now),
    ensures
        entity_round_so_far(first, now.skipped()),
        entity_round_so_far(first, now.absorbed(response)),
{
    crate::entity_view::lemma_stage_keeps_sound(now, response);
    lemma_refreshed(now.labels, Seq::empty());
    lemma_refreshed(now.descriptors, Seq::empty());
    match response {
        Response::Names(rows) => {
            lemma_refreshed(now.labels, shown_names(rows@, now.display_protected));
            lemma_refreshed(now.descriptors, shown_names(rows@, now.display_protected));
        },
        _ => {},
    }
}

proof fn lemma_entity_advanced(first: EntityViewModel, now: EntityViewModel, connected: bool)
    requires
        entity_round_so_far(first, now),
    ensures
        entity_round_so_far(first, now.advanced(connected)),
{
    lemma_entity_stage(first, now, Response::Done);
    lemma_entity_stage(first, now.stepped(connected), Response::Done);
    lemma_entity_stage(first, now.stepped(connected).stepped(connected), Response::Done);
}

proof fn lemma_entity_run(
    first: EntityViewModel,
    now: EntityViewModel,
    connected: bool,
    answers: Seq<Response>,
)
    requires
        entity_round_so_far(first, now),
    ensures
        entity_round_so_far(first, now.run(connected, answers)),
    decreases answers.len(),
{
    lemma_entity_advanced(first, now, connected);
    if answers.len() > 0 {
        let reached = now.advanced(connected);
        lemma_entity_stage(first, reached, answers[0]);
        lemma_entity_run(first, reached.absorbed(answers[0]), connected, answers.skip(1));
    }
}

/// A round of bringing the entity view up to date, whatever the database
/// answers, leaves the columns before its first stage as they are and
/// selects nothing: each column ends with the selection it had, or with
/// none. Where the round ends with every stage run, every column from its
/// first stage on has its selection on offer, and the description is blank,
/// with nothing unsaved, unless label and descriptor are both selected.
pub proof fn lemma_entity_round(view: EntityViewModel, connected: bool, answers: Seq<Response>)
    requires
        view.wf(),
    ensures
        entity_round_so_far(view, view.run(connected, answers)),
{
    lemma_entity_run(view, view, connected, answers);
}

/// Picking a label leaves no descriptor selected, whatever the database
/// answers afterwards. The label stays as it was picked and the labels as
/// they were listed. Where every stage has run, the selected descriptor is
/// on offer and the description is blank unless both are selected.
pub proof fn lemma_picking_a_label(
    view: EntityViewModel,
    index: usize,
    row: DbColViewEntry<String>,
    connected: bool,
    answers: Seq<Response>,
)
    requires
        view.wf(),
    ensures
        ({
            let after = view.label_event(ColViewMes::Selected(index, row)).run(connected, answers);
            &&& after.descriptors.selection is None
            &&& after.labels == view.labels.selecting(row.deep_view())
            &&& after.due is Settled ==> after.descriptors.settled() && after.description
                == EditorModel::blank()
        }),
{
    lemma_entity_round(view.label_event(ColViewMes::Selected(index, row)), connected, answers);
}

/// A picked label has its descriptors asked for, by the descriptor search
/// text, and the column then offers the deselecting row and what was
/// answered of the names to show, each once in the order of the answer,
/// with none selected.
pub proof fn lemma_picked_label_lists_its_descriptors(
    view: EntityViewModel,
    index: usize,
    row: DbColViewEntry<String>,
    request: Request,
    rows: Vec<crate::collaborator::Listed>,
)
    requires
        row.deep_view() is Some,
    ensures
        ({
            let asking = view.label_event(ColViewMes::Selected(index, row)).advanced(true);
            let after = asking.absorbed(Response::Names(rows));
            &&& asking.due is Descriptors
            &&& asking.asks(true)
            &&& asking.wants(request) <==> (request matches Request::Descriptors { label, filter }
                && Some(label@) == row.deep_view() && filter.deep_view() == wanted_filter(
                view.descriptors.filter,
            ))
            &&& after.descriptors.candidates == listing(
                rows_of(shown_names(rows@, view.display_protected)),
            )
            &&& after.descriptors.selection is None
            &&& after.labels == view.labels.selecting(row.deep_view())
        }),
{
    let picked = view.label_event(ColViewMes::Selected(index, row));
    assert(picked.asks(true));
    assert(picked.advanced(true) == picked);
    lemma_refreshed(picked.descriptors, shown_names(rows@, view.display_protected));
}

/// Picking or deselecting a descriptor leaves label and descriptor as they
/// are, whatever the database answers afterwards, and has the description
/// looked up again: where the stage has run, the description is blank, with
/// nothing unsaved, unless label and descriptor are both selected.
pub proof fn lemma_picking_a_descriptor(
    view: EntityViewModel,
    index: usize,
    row: DbColViewEntry<String>,
    connected: bool,
    answers: Seq<Response>,
)
    requires
        view.wf(),
    ensures
        ({
            let after = view.descriptor_event(ColViewMes::Selected(index, row)).run(
                connected,
                answers,
            );
            &&& after.labels == view.labels
            &&& after.descriptors == view.descriptors.selecting(row.deep_view())
            &&& after.due is Settled ==> description_follows(after)
        }),
{
    lemma_entity_round(view.descriptor_event(ColViewMes::Selected(index, row)), connected, answers);
}

/// After any change to the entity view, a round that runs every stage ends
/// with a blank description, and nothing unsaved, unless label and
/// descriptor are both selected.
pub proof fn lemma_description_needs_both(
    view: EntityViewModel,
    connected: bool,
    answers: Seq<Response>,
)
    requires
        view.wf(),
        !(view.due is Settled),
        view.run(connected, answers).due is Settled,
    ensures
        description_follows(view.run(connected, answers)),
        view.run(connected, answers).labels.selection is None || view.run(
            connected,
            answers,
        ).descriptors.selection is None ==> !view.run(connected, answers).description.is_dirty(),
{
    lemma_entity_round(view, connected, answers);
}

/// A lookup of the description that matches two or more records is turned
/// down with `MultipleResults`, and shows none of them.
pub proof fn lemma_several_descriptions(
    view: EntityViewModel,
    response: Response,
    error: LoreGuiError,
)
    requires
        view.due is Description,
        view.needs(),
        response matches Response::Texts(rows) && rows@.len() >= 2,
    ensures
        view.refuses(response),
        view.absorbed(response) == view,
        view.complaint(response, error) <==> error == LoreGuiError::MultipleResults,
{
}

/// A picked descriptor of a selected label has the description looked up
/// for exactly the two, and a lookup that matches two or more records is
/// turned down with `MultipleResults` and leaves the editor as it was.
pub proof fn lemma_picked_descriptor_is_looked_up(
    view: EntityViewModel,
    index: usize,
    row: DbColViewEntry<String>,
    request: Request,
    response: Response,
    error: LoreGuiError,
)
    requires
        view.labels.selection is Some,
        row.deep_view() is Some,
        response matches Response::Texts(rows) && rows@.len() >= 2,
    ensures
        ({
            let asking = view.descriptor_event(ColViewMes::Selected(index, row)).advanced(true);
            &&& asking.due is Description
            &&& asking.asks(true)
            &&& asking.wants(request) <==> (request matches Request::Description {
                label,
                descriptor,
            } && Some(label@) == view.labels.selection && Some(descriptor@) == row.deep_view())
            &&& asking.refuses(response)
            &&& asking.complaint(response, error) <==> error == LoreGuiError::MultipleResults
            &&& asking.absorbed(response).description == view.description
        }),
{
    let picked = view.descriptor_event(ColViewMes::Selected(index, row));
    assert(picked.asks(true));
    assert(picked.advanced(true) == picked);
}

proof fn lemma_history_stage(first: HistoryViewModel, now: HistoryViewModel, response: Response)
    requires
        history_round_so_far(first, now),
    ensures
        history_round_so_far(first, now.skipped()),
        history_round_so_far(first, now.absorbed(response)),
{
    crate::history_view::lemma_stage_keeps_sound(now, response);
    lemma_refreshed(now.years, Seq::empty());
    lemma_refreshed(now.days, Seq::empty());
    lemma_refreshed(now.timestamps, Seq::empty());
    match response {
        Response::Years(rows) => {
            lemma_refreshed(now.years, rows.deep_view());
        },
        Response::Days(rows) => {
            lemma_refreshed(now.days, rows.deep_view());
        },
        Response::Timestamps(rows) => {
            lemma_refreshed(
                now.timestamps,
                crate::collaborator::numbers_with(rows.deep_view(), now.timestamps.filter),
            );
        },
        _ => {},
    }
}

proof fn lemma_history_advanced(first: HistoryViewModel, now: HistoryViewModel, connected: bool)
    requires
        history_round_so_far(first, now),
    ensures
        history_round_so_far(first, now.advanced(connected)),
{
    lemma_history_stage(first, now, Response::Done);
    lemma_history_stage(first, now.stepped(connected), Response::Done);
    lemma_history_stage(first, now.stepped(connected).stepped(connected), Response::Done);
    lemma_history_stage(first, now.stepped(connected).stepped(connected).stepped(connected), Response::Done);
}

proof fn lemma_history_run(
    first: HistoryViewModel,
    now: HistoryViewModel,
    connected: bool,
    answers: Seq<Response>,
)
    requires
        history_round_so_far(first, now),
    ensures
        history_round_so_far(first, now.run(connected, answers)),
    decreases answers.len(),
{
    lemma_history_advanced(first, now, connected);
    if answers.len() > 0 {
        let reached = now.advanced(connected);
        lemma_history_stage(first, reached, answers[0]);
        lemma_history_run(first, reached.absorbed(answers[0]), connected, answers.skip(1));
    }
}

/// A round of bringing the history view up to date, whatever the database
/// answers, leaves the columns before its first stage as they are and
/// selects nothing. Where the round ends with every stage run, every column
/// from its first stage on has its selection on offer, and the content is
/// blank, with nothing unsaved, unless an item is selected.
pub proof fn lemma_history_round(view: HistoryViewModel, connected: bool, answers: Seq<Response>)
    requires
        view.wf(),
    ensures
        history_round_so_far(view, view.run(connected, answers)),
{
    lemma_history_run(view, view, connected, answers);
}

/// Picking a year leaves no day and no item selected, and picking a day
/// leaves no item selected, whatever the database answers afterwards. What
/// was picked stays picked, and the columns before stay as they are. Where
/// every stage has run, the selections after the picked one are on offer
/// and the content is blank.
pub proof fn lemma_picking_a_date(
    view: HistoryViewModel,
    index: usize,
    year: DbColViewEntry<i32>,
    day: DbColViewEntry<Day>,
    connected: bool,
    answers: Seq<Response>,
)
    requires
        view.wf(),
    ensures
        ({
            let after = view.year_event(ColViewMes::Selected(index, year)).run(connected, answers);
            &&& after.years == view.years.selecting(year.deep_view())
            &&& after.days.selection is None
            &&& after.timestamps.selection is None
            &&& after.due is Settled ==> after.days.settled() && after.timestamps.settled()
                && after.content == EditorModel::blank()
        }),
        ({
            let after = view.day_event(ColViewMes::Selected(index, day)).run(connected, answers);
            &&& after.years == view.years
            &&& after.days == view.days.selecting(day.deep_view())
            &&& after.timestamps.selection is None
            &&& after.due is Settled ==> after.timestamps.settled() && after.content
                == EditorModel::blank()
        }),
{
    lemma_history_round(view.year_event(ColViewMes::Selected(index, year)), connected, answers);
    lemma_history_round(view.day_event(ColViewMes::Selected(index, day)), connected, answers);
}

/// A picked year has its days asked for without the search text of the
/// years being read: the question can be put whenever the search text of
/// the days is empty or a number, and names the picked year and that number.
/// The column then offers the deselecting row and the days that were
/// answered, each once.
pub proof fn lemma_picked_year_lists_its_days(
    view: HistoryViewModel,
    index: usize,
    year: i32,
    number: Option<i32>,
    request: Request,
    rows: Vec<Day>,
)
    requires
        search_number(view.days.filter) == Ok::<Option<i32>, NumberFault>(number),
    ensures
        ({
            let asking = view.year_event(
                ColViewMes::Selected(index, DbColViewEntry(Some(year))),
            ).advanced(true);
            let after = asking.absorbed(Response::Days(rows));
            &&& asking.due is Days
            &&& asking.asks(true)
            &&& asking.fault() is None
            &&& asking.wants(request) <==> (request matches Request::Days { year: asked, day }
                && asked == year && day.deep_view() == day_wanted(number))
            &&& after.days.candidates == listing(rows_of(rows.deep_view()))
            &&& after.days.selection is None
            &&& after.years.selection == Some(year)
        }),
{
    let picked = view.year_event(ColViewMes::Selected(index, DbColViewEntry(Some(year))));
    assert(picked.asks(true));
    assert(picked.advanced(true) == picked);
    lemma_refreshed(picked.days, rows.deep_view());
}

/// A picked day of a selected year has the items asked for without any
/// search text of year or day being read: the question names the year and
/// the picked day, which may be the day of the items that have none. The
/// column then offers the deselecting row and those of the answered items
/// that the search text of the items leaves, each once, with none selected.
pub proof fn lemma_picked_day_lists_its_items(
    view: HistoryViewModel,
    index: usize,
    day: DbColViewEntry<Day>,
    request: Request,
    rows: Vec<i64>,
)
    requires
        view.years.selection is Some,
    ensures
        ({
            let asking = view.day_event(ColViewMes::Selected(index, day)).advanced(true);
            let after = asking.absorbed(Response::Timestamps(rows));
            &&& asking.due is Timestamps
            &&& asking.asks(true)
            &&& asking.fault() is None
            &&& asking.wants(request) <==> (request matches Request::Timestamps { year, day: asked }
                && Some(year) == view.years.selection && asked.deep_view() == day.deep_view())
            &&& after.timestamps.candidates == listing(
                rows_of(
                    crate::collaborator::numbers_with(rows.deep_view(), view.timestamps.filter),
                ),
            )
            &&& after.timestamps.selection is None
            &&& after.years == view.years
            &&& after.days.selection == day.deep_view()
        }),
{
    let picked = view.day_event(ColViewMes::Selected(index, day));
    assert(picked.asks(true));
    assert(picked.advanced(true) == picked);
    lemma_refreshed(
        picked.timestamps,
        crate::collaborator::numbers_with(rows.deep_view(), view.timestamps.filter),
    );
}

/// After any change to the history view, a round that runs every stage ends
/// with a blank content, and nothing unsaved, unless an item is selected.
pub proof fn lemma_content_needs_an_item(
    view: HistoryViewModel,
    connected: bool,
    answers: Seq<Response>,
)
    requires
        view.wf(),
        !(view.due is Settled),
        view.run(connected, answers).due is Settled,
    ensures
        content_follows(view.run(connected, answers)),
        view.run(connected, answers).timestamps.selection is None ==> !view.run(
            connected,
            answers,
        ).content.is_dirty(),
{
    lemma_history_round(view, connected, answers);
}

/// A lookup of the content that matches two or more records is turned down
/// with `MultipleResults`, and shows none of them.
pub proof fn lemma_several_contents(view: HistoryViewModel, response: Response, error: LoreGuiError)
    requires
        view.due is Content,
        view.needs(),
        response matches Response::Texts(rows) && rows@.len() >= 2,
    ensures
        view.refuses(response),
        view.absorbed(response) == view,
        view.complaint(response, error) <==> error == LoreGuiError::MultipleResults,
{
}

proof fn lemma_relationship_stage(
    first: RelationshipViewModel,
    now: RelationshipViewModel,
    response: Response,
)
    requires
        relationship_round_so_far(first, now),
    ensures
        relationship_round_so_far(first, now.skipped()),
        relationship_round_so_far(first, now.absorbed(response)),
{
    crate::relationship_view::lemma_stage_keeps_sound(now, response);
    lemma_refreshed(now.parents, Seq::empty());
    lemma_refreshed(now.children, Seq::empty());
    lemma_refreshed(now.roles, Seq::empty());
    crate::db_col_view::state::lemma_refreshed_with_nothing(now.roles);
    match response {
        Response::Texts(rows) => {
            lemma_refreshed(now.parents, rows.deep_view());
            lemma_refreshed(now.children, rows.deep_view());
            lemma_refreshed(now.roles, texts_with(rows.deep_view(), now.roles.filter));
        },
        _ => {},
    }
}

proof fn lemma_relationship_advanced(
    first: RelationshipViewModel,
    now: RelationshipViewModel,
    connected: bool,
)
    requires
        relationship_round_so_far(first, now),
    ensures
        relationship_round_so_far(first, now.advanced(connected)),
{
    lemma_relationship_stage(first, now, Response::Done);
    lemma_relationship_stage(first, now.stepped(connected), Response::Done);
    lemma_relationship_stage(first, now.stepped(connected).stepped(connected), Response::Done);
}

proof fn lemma_relationship_run(
    first: RelationshipViewModel,
    now: RelationshipViewModel,
    connected: bool,
    answers: Seq<Response>,
)
    requires
        relationship_round_so_far(first, now),
    ensures
        relationship_round_so_far(first, now.run(connected, answers)),
    decreases answers.len(),
{
    lemma_relationship_advanced(first, now, connected);
    if answers.len() > 0 {
        let reached = now.advanced(connected);
        lemma_relationship_stage(first, reached, answers[0]);
        lemma_relationship_run(first, reached.absorbed(answers[0]), connected, answers.skip(1));
    }
}

/// A round of bringing the relationship view up to date, whatever the
/// database answers, leaves the columns before its first stage as they are
/// and selects nothing. Where the round ends with every stage run, every
/// column from its first stage on has its selection on offer, and no role
/// is selected without a parent and a child.
pub proof fn lemma_relationship_round(
    view: RelationshipViewModel,
    connected: bool,
    answers: Seq<Response>,
)
    requires
        view.wf(),
    ensures
        relationship_round_so_far(view, view.run(connected, answers)),
{
    lemma_relationship_run(view, view, connected, answers);
}

/// Picking a parent or a child leaves no role selected, whatever the
/// database answers afterwards. What was picked stays picked. A child stays
/// selected over the pick of a parent, unless the children that are listed
/// afterwards lack it. Where every stage has run, a selected role is on
/// offer, and none is selected without a parent and a child.
pub proof fn lemma_picking_a_relative(
    view: RelationshipViewModel,
    index: usize,
    row: DbColViewEntry<String>,
    connected: bool,
    answers: Seq<Response>,
)
    requires
        view.wf(),
    ensures
        ({
            let after = view.parent_event(ColViewMes::Selected(index, row)).run(connected, answers);
            &&& after.parents == view.parents.selecting(row.deep_view())
            &&& kept_or_dropped(view.children, after.children)
            &&& after.roles.selection is None
            &&& after.due is Settled ==> after.children.settled()
        }),
        ({
            let after = view.child_event(ColViewMes::Selected(index, row)).run(connected, answers);
            &&& after.parents == view.parents
            &&& after.children == view.children.selecting(row.deep_view())
            &&& after.roles.selection is None
        }),
        ({
            let after = view.role_event(ColViewMes::Selected(index, row)).run(connected, answers);
            &&& after.parents == view.parents
            &&& after.children == view.children
            &&& kept_or_dropped(view.roles.selecting(row.deep_view()), after.roles)
            &&& after.due is Settled ==> after.roles.settled() && (after.roles.selection is Some
                ==> after.parents.selection is Some && after.children.selection is Some)
        }),
{
    lemma_relationship_round(view.parent_event(ColViewMes::Selected(index, row)), connected, answers);
    lemma_relationship_round(view.child_event(ColViewMes::Selected(index, row)), connected, answers);
    lemma_relationship_round(view.role_event(ColViewMes::Selected(index, row)), connected, answers);
}

/// A picked child of a selected parent has the roles asked for exactly the
/// two, and the column then offers the deselecting row and those of the
/// answered roles that the search text of the roles leaves, each once, with
/// none selected.
pub proof fn lemma_picked_child_lists_the_roles(
    view: RelationshipViewModel,
    index: usize,
    row: DbColViewEntry<String>,
    request: Request,
    rows: Vec<String>,
)
    requires
        view.parents.selection is Some,
        row.deep_view() is Some,
    ensures
        ({
            let asking = view.child_event(ColViewMes::Selected(index, row)).advanced(true);
            let after = asking.absorbed(Response::Texts(rows));
            &&& asking.due is Roles
            &&& asking.asks(true)
            &&& asking.wants(request) <==> (request matches Request::Roles { parent, child }
                && Some(parent@) == view.parents.selection && Some(child@) == row.deep_view())
            &&& after.roles.candidates == listing(
                rows_of(texts_with(rows.deep_view(), view.roles.filter)),
            )
            &&& after.roles.selection is None
            &&& after.parents == view.parents
            &&& after.children.selection == row.deep_view()
        }),
{
    let picked = view.child_event(ColViewMes::Selected(index, row));
    assert(picked.asks(true));
    assert(picked.advanced(true) == picked);
    lemma_refreshed(picked.roles, texts_with(rows.deep_view(), view.roles.filter));
}

/// When a round ends with nothing left to ask, it is through: no view is
/// before it any more, and every view that was before it has run every stage.
pub proof fn lemma_nothing_left_to_ask(before: GuiModel, outcome: Outcome)
    requires
        before.refreshed().reports(outcome),
        outcome == Ok::<Option<Request>, LoreGuiError>(None),
    ensures
        before.refreshed().waiting is Nothing,
        before.refreshed().round == Round::none(),
        before.round.entity ==> before.refreshed().entity.due is Settled,
        before.round.relationship ==> before.refreshed().relationship.due is Settled,
        before.round.history ==> before.refreshed().history.due is Settled,
{
    let connected = before.connected();
    crate::entity_view::lemma_advanced(before.entity, connected);
    crate::history_view::lemma_advanced(before.history, connected);
    crate::relationship_view::lemma_advanced(before.relationship, connected);
}

/// What is done to a column of one view leaves the other two views as they
/// are: no search text of theirs is read, and nothing of theirs is asked.
pub proof fn lemma_other_views_stay(
    gui: GuiModel,
    message: GuiMessage,
    after: GuiModel,
    outcome: Outcome,
)
    requires
        gui.handles(message, after, outcome),
    ensures
        message matches GuiMessage::EntityViewUpd(event) && (event is LabelViewUpdate || event
            is DescriptorViewUpdate) ==> after.history == gui.history && after.relationship
            == gui.relationship && !(after.waiting is History) && !(after.waiting
            is Relationship) && !(outcome is Err),
        message matches GuiMessage::HistoryViewUpd(event) && (event is YearViewUpdate || event
            is DayViewUpdate || event is HistoryTimestampViewUpdate) ==> after.entity == gui.entity
            && after.relationship == gui.relationship && !(after.waiting is Entity) && !(
        after.waiting is Relationship),
        message matches GuiMessage::RelationshipViewUpd(event) && (event is ParentViewUpdate
            || event is ChildViewUpdate || event is RoleViewUpdate) ==> after.entity == gui.entity
            && after.history == gui.history && !(after.waiting is Entity) && !(after.waiting
            is History) && !(outcome is Err),
{
    let connected = gui.connected();
    match message {
        GuiMessage::EntityViewUpd(event) => {
            match event {
                EntityViewMessage::LabelViewUpdate(e) => {
                    crate::entity_view::lemma_advanced(gui.entity.label_event(e), connected);
                },
                EntityViewMessage::DescriptorViewUpdate(e) => {
                    crate::entity_view::lemma_advanced(gui.entity.descriptor_event(e), connected);
                },
                _ => {},
            }
        },
        _ => {},
    }
}

/// Saving a description while label or descriptor is not selected, or a
/// content while no item is selected, does nothing and succeeds, whether or
/// not a database is open: nothing is asked and nothing changes but that no
/// request is out any more.
pub proof fn lemma_saving_nothing(
    gui: GuiModel,
    message: GuiMessage,
    after: GuiModel,
    outcome: Outcome,
)
    requires
        gui.handles(message, after, outcome),
        (message matches GuiMessage::EntityViewUpd(event) && event is DescriptionSave && (
        gui.entity.labels.selection is None || gui.entity.descriptors.selection is None)) || (
        message matches GuiMessage::HistoryViewUpd(event) && event is ContentSave
            && gui.history.timestamps.selection is None),
    ensures
        outcome == Ok::<Option<Request>, LoreGuiError>(None),
        after == gui.idle(),
{
}

/// A message that asks for a change while a required field is empty is
/// turned down with an input error: nothing is asked of the database, and
/// nothing changes but that no request is out any more.
pub proof fn lemma_empty_field_stops_the_change(
    gui: GuiModel,
    message: GuiMessage,
    after: GuiModel,
    outcome: Outcome,
    words: Seq<char>,
)
    requires
        message.flaw() == Some(words),
        gui.handles(message, after, outcome),
    ensures
        outcome matches Err(error) && error is InputError && error.detail() == words,
        after == gui.idle(),
{
}

/// A dialog that is submitted while a required field is empty stays open:
/// the input error is reported, nothing is asked of the database, and
/// nothing changes but that no request is out any more.
pub proof fn lemma_empty_field_keeps_the_dialog(
    gui: GuiModel,
    after: GuiModel,
    outcome: Outcome,
    words: Seq<char>,
)
    requires
        gui.dialogs.len() > 0,
        gui.dialogs.last().flaw() == Some(words),
        gui.handles(GuiMessage::DialogSubmit, after, outcome),
    ensures
        outcome matches Err(error) && error is InputError && error.detail() == words,
        after == gui.idle(),
        after.dialogs == gui.dialogs,
{
}

} // verus!
