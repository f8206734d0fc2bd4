use loregui::collaborator::{
    contains_part, names_to_show, pick_numbers, pick_texts, EntityRelationship, Listed, Request,
    Response,
};
use loregui::db_col_view::entry::DbColViewEntry;
use loregui::db_col_view::ColViewMes;
use loregui::dialog::redate_history::RedateHistoryData;
use loregui::dialog::relabel_entity::RelabelEntityData;
use loregui::dialog::rename_descriptor::RenameDescriptorData;
use loregui::dialog::change_role::ChangeRoleData;
use loregui::entity_view::{EntityStage, EntityViewMessage, EntityViewState};
use loregui::errors::LoreGuiError;
use loregui::history_view::day::Day;
use loregui::history_view::{HistoryStage, HistoryViewMessage, HistoryViewState};
use loregui::relationship_view::{
    RelationshipStage, RelationshipViewMessage, RelationshipViewState,
};

fn s(text: &str) -> String {
    String::from(text)
}

fn listed(names: &[&str]) -> Response {
    Response::Names(
        names.iter().map(|n| Listed { name: s(n), protected: n.starts_with('_') }).collect(),
    )
}

fn texts(rows: &[&str]) -> Response {
    Response::Texts(rows.iter().map(|r| s(r)).collect())
}

fn shown(rows: &Vec<DbColViewEntry<String>>) -> Vec<Option<&str>> {
    rows.iter().map(|row| row.0.as_deref()).collect()
}

#[test]
fn protected_names_are_shown_only_on_demand() {
    let rows = vec![
        Listed { name: s("a"), protected: false },
        Listed { name: s("_b"), protected: true },
        Listed { name: s("c"), protected: false },
    ];
    assert_eq!(names_to_show(&rows, false), vec!["a", "c"]);
    assert_eq!(names_to_show(&rows, true), vec!["a", "_b", "c"]);
    assert_eq!(names_to_show(&vec![], true), Vec::<String>::new());
}

#[test]
fn the_entity_view_asks_column_by_column() {
    let mut view = EntityViewState::new(false);
    assert_eq!(view.due(), EntityStage::Labels);
    assert_eq!(view.advance(true), Some(Request::Labels { filter: None }));
    assert_eq!(view.absorb(listed(&["alice", "_meta", "bob", "alice"])), Ok(()));
    assert_eq!(shown(view.label_view_state().get_entries()), vec![None, Some("alice"), Some("bob")]);
    assert_eq!(view.advance(true), None);
    assert_eq!(view.due(), EntityStage::Settled);
    assert_eq!(shown(view.descriptor_view_state().get_entries()), vec![None]);

    view.update_descriptor_view(ColViewMes::SearchFieldUpd(s("o")));
    assert_eq!(view.due(), EntityStage::Descriptors);
    view.update_label_view(ColViewMes::Selected(1, DbColViewEntry(Some(s("alice")))));
    assert_eq!(view.due(), EntityStage::Descriptors);
    assert_eq!(
        view.advance(true),
        Some(Request::Descriptors { label: s("alice"), filter: Some(s("o")) })
    );
    view.absorb(listed(&["bio", "notes"])).unwrap();
    assert_eq!(view.advance(true), None);
    assert_eq!(view.get_description_text(), "\n");

    view.update_descriptor_view(ColViewMes::Selected(2, DbColViewEntry(Some(s("notes")))));
    assert_eq!(view.due(), EntityStage::Description);
    assert_eq!(
        view.advance(true),
        Some(Request::Description { label: s("alice"), descriptor: s("notes") })
    );
    assert_eq!(view.absorb(texts(&["some notes"])), Ok(()));
    assert_eq!(view.get_description_text(), "some notes\n");
    assert_eq!(view.due(), EntityStage::Settled);
    assert_eq!(view.absorb(texts(&["late"])), Ok(()));
    assert_eq!(view.get_description_text(), "some notes\n");

    view.update_label_view(ColViewMes::SearchFieldUpd(s("bo")));
    assert_eq!(view.advance(true), Some(Request::Labels { filter: Some(s("bo")) }));
    view.absorb(listed(&["bob"])).unwrap();
    assert_eq!(view.get_selected_label(), None);
    assert_eq!(view.advance(true), None);
    assert_eq!(view.get_selected_descriptor(), None);
    assert_eq!(view.get_description_text(), "\n");
}

#[test]
fn a_pick_is_kept_whether_or_not_it_is_listed() {
    let mut view = EntityViewState::new(false);
    view.update_label_view(ColViewMes::Selected(5, DbColViewEntry(Some(s("nobody")))));
    assert_eq!(
        view.advance(true),
        Some(Request::Descriptors { label: s("nobody"), filter: None })
    );
    view.absorb(listed(&[])).unwrap();
    assert_eq!(view.advance(true), None);
    assert_eq!(view.get_selected_label(), Some(s("nobody")));
    assert!(!view.label_view_state().is_settled());

    view.update_descriptor_view(ColViewMes::Selected(1, DbColViewEntry(None)));
    assert_eq!(view.advance(true), None);
    assert_eq!(view.get_selected_label(), Some(s("nobody")));
    assert_eq!(view.get_selected_descriptor(), None);
}

#[test]
fn the_entity_view_turns_down_what_it_cannot_read() {
    let mut view = EntityViewState::new(true);
    view.set_selected_label(Some(s("x")));
    view.set_selected_descriptor(Some(s("y")));
    view.set_description_text("before");
    view.advance(true);
    let misfit =
        Err(LoreGuiError::LoreCoreError(s("The answer does not fit the question that was asked.")));
    assert_eq!(view.absorb(texts(&["x"])), misfit);
    assert_eq!(view.absorb(Response::Done), misfit);
    assert_eq!(
        view.absorb(Response::Failed(s("locked"))),
        Err(LoreGuiError::LoreCoreError(s("locked")))
    );
    assert_eq!(view.due(), EntityStage::Labels);
    view.absorb(listed(&["x", "_x"])).unwrap();
    assert_eq!(shown(view.label_view_state().get_entries()), vec![None, Some("x"), Some("_x")]);
    view.advance(true);
    view.absorb(listed(&["y"])).unwrap();
    view.advance(true);
    assert_eq!(view.absorb(texts(&["one", "two"])), Err(LoreGuiError::MultipleResults));
    assert_eq!(view.due(), EntityStage::Description);
    assert_eq!(view.get_description_text(), "before\n");
    assert_eq!(view.absorb(texts(&[])), Ok(()));
    assert_eq!(view.get_description_text(), "\n");
    assert_eq!(view.get_selected_descriptor(), Some(s("y")));
}

#[test]
fn without_a_database_every_column_is_empty() {
    let mut view = EntityViewState::default();
    view.set_selected_label(Some(s("alice")));
    view.set_description_text("old");
    assert_eq!(view.advance(false), None);
    assert_eq!(view.get_selected_label(), None);
    assert_eq!(view.get_description_text(), "\n");
    let mut view = HistoryViewState::default();
    view.update_year_view(ColViewMes::SearchFieldUpd(s("no number")));
    view.set_selected_year(Some(3));
    assert_eq!(view.advance(false), Ok(None));
    assert_eq!(view.get_selected_year(), None);
    let mut view = RelationshipViewState::default();
    view.point_at(Some(s("a")), Some(s("b")), Some(s("r")));
    assert_eq!(view.advance(false), None);
    assert_eq!(view.get_selected_role(), None);
    assert_eq!(view.due(), RelationshipStage::Settled);
}

#[test]
fn the_buttons_of_the_entity_view_need_their_selections() {
    let mut view = EntityViewState::default();
    assert_eq!(view.relabel_entity_message(), None);
    assert_eq!(view.delete_entity_message(), None);
    assert_eq!(view.new_descriptor_message(), None);
    assert_eq!(view.rename_descriptor_message(), None);
    assert_eq!(view.delete_descriptor_message(), None);
    view.set_selected_label(Some(s("alice")));
    assert_eq!(
        view.relabel_entity_message(),
        Some(EntityViewMessage::RelabelEntity(RelabelEntityData {
            old_label: s("alice"),
            new_label: s("alice")
        }))
    );
    assert_eq!(view.delete_entity_message(), Some(EntityViewMessage::DeleteEntity(s("alice"))));
    assert_eq!(view.new_descriptor_message(), Some(EntityViewMessage::NewDescriptor(s("alice"))));
    assert_eq!(view.rename_descriptor_message(), None);
    view.set_selected_descriptor(Some(s("bio")));
    assert_eq!(
        view.rename_descriptor_message(),
        Some(EntityViewMessage::RenameDescriptor(RenameDescriptorData {
            label: s("alice"),
            old_descriptor: s("bio"),
            new_descriptor: s("bio")
        }))
    );
    assert_eq!(
        view.delete_descriptor_message(),
        Some(EntityViewMessage::DeleteDescriptor(s("alice"), s("bio")))
    );
}

#[test]
fn the_history_view_asks_column_by_column() {
    let mut view = HistoryViewState::new();
    assert_eq!(view.advance(true), Ok(Some(Request::Years { year: None })));
    view.absorb(Response::Years(vec![2021, 2020, 2021])).unwrap();
    assert_eq!(view.advance(true), Ok(None));
    assert_eq!(view.redate_message(), None);

    view.update_day_view(ColViewMes::SearchFieldUpd(s("3")));
    assert_eq!(view.due(), HistoryStage::Days);
    view.update_year_view(ColViewMes::Selected(1, DbColViewEntry(Some(2021))));
    assert_eq!(view.due(), HistoryStage::Days);
    assert_eq!(
        view.advance(true),
        Ok(Some(Request::Days { year: 2021, day: Some(Day(Some(3))) }))
    );
    view.absorb(Response::Days(vec![Day(Some(3))])).unwrap();
    assert_eq!(view.advance(true), Ok(Some(Request::Timestamps { year: 2021, day: None })));
    view.absorb(Response::Timestamps(vec![10, 12])).unwrap();
    assert_eq!(view.advance(true), Ok(None));
    assert_eq!(view.due(), HistoryStage::Settled);

    view.update_timestamp_view(ColViewMes::SearchFieldUpd(s("2")));
    assert_eq!(view.due(), HistoryStage::Timestamps);
    view.update_day_view(ColViewMes::Selected(1, DbColViewEntry(Some(Day(Some(3))))));
    assert_eq!(view.due(), HistoryStage::Timestamps);
    assert_eq!(
        view.advance(true),
        Ok(Some(Request::Timestamps { year: 2021, day: Some(Day(Some(3))) }))
    );
    view.absorb(Response::Timestamps(vec![10, 12, 21, 30])).unwrap();
    let items: Vec<Option<i64>> =
        view.timestamp_view_state().get_entries().iter().map(|row| row.0).collect();
    assert_eq!(items, vec![None, Some(12), Some(21)]);
    assert_eq!(view.advance(true), Ok(None));

    view.update_timestamp_view(ColViewMes::Selected(1, DbColViewEntry(Some(12))));
    assert_eq!(view.due(), HistoryStage::Content);
    assert_eq!(view.advance(true), Ok(Some(Request::Content { timestamp: 12 })));
    assert_eq!(view.absorb(texts(&["a", "b"])), Err(LoreGuiError::MultipleResults));
    view.absorb(texts(&["what happened"])).unwrap();
    assert_eq!(view.get_content_text(), "what happened\n");
    assert_eq!(
        view.redate_message(),
        Some(HistoryViewMessage::RedateHistoryItem(RedateHistoryData::new(12, 2021, Day(Some(3)))))
    );
    assert_eq!(view.delete_item_message(), Some(HistoryViewMessage::DeleteHistoryItem(12)));

    view.edit_content(s("what did not happen\n"));
    assert!(view.current_content().is_changed());
    view.content_saved();
    assert!(!view.current_content().is_changed());
    view.edit_content(s("x"));
    view.discard_content();
    assert_eq!(view.get_content_text(), "what did not happen\n");
}

#[test]
fn a_search_text_that_is_no_number_stops_only_its_own_column() {
    let mut view = HistoryViewState::new();
    view.update_year_view(ColViewMes::SearchFieldUpd(s("20x1")));
    assert_eq!(
        view.advance(true),
        Err(LoreGuiError::InputError(s("invalid digit found in string")))
    );
    assert_eq!(view.due(), HistoryStage::Years);

    view.update_year_view(ColViewMes::Selected(1, DbColViewEntry(Some(2021))));
    assert_eq!(view.advance(true), Ok(Some(Request::Days { year: 2021, day: None })));
    view.absorb(Response::Days(vec![Day(None), Day(Some(3))])).unwrap();
    assert_eq!(view.advance(true), Ok(Some(Request::Timestamps { year: 2021, day: None })));
    view.absorb(Response::Timestamps(vec![7])).unwrap();
    assert_eq!(view.advance(true), Ok(None));
    assert_eq!(view.get_selected_year(), Some(2021));

    view.update_day_view(ColViewMes::SearchFieldUpd(s("99999999999")));
    assert_eq!(
        view.advance(true),
        Err(LoreGuiError::InputError(s("number too large to fit in target type")))
    );
    assert_eq!(view.due(), HistoryStage::Days);
    view.update_day_view(ColViewMes::Selected(1, DbColViewEntry(Some(Day(None)))));
    assert_eq!(
        view.advance(true),
        Ok(Some(Request::Timestamps { year: 2021, day: Some(Day(None)) }))
    );
    view.absorb(Response::Timestamps(vec![7])).unwrap();
    assert_eq!(view.advance(true), Ok(None));
    assert_eq!(view.get_selected_day(), Some(Day(None)));
    assert_eq!(view.get_selected_timestamp(), None);
}

#[test]
fn the_relationship_view_asks_column_by_column() {
    let mut view = RelationshipViewState::new();
    view.update_parent_view(ColViewMes::SearchFieldUpd(s("a")));
    assert_eq!(view.advance(true), Some(Request::Parents { filter: Some(s("a")) }));
    view.absorb(texts(&["alice", "anna"])).unwrap();
    assert_eq!(view.advance(true), Some(Request::Children { parent: None, filter: None }));
    view.absorb(texts(&["bob", "carol"])).unwrap();
    assert_eq!(view.advance(true), None);
    assert_eq!(view.selected_relationship(), None);

    view.update_child_view(ColViewMes::Selected(1, DbColViewEntry(Some(s("bob")))));
    assert_eq!(view.due(), RelationshipStage::Roles);
    assert_eq!(view.advance(true), None);
    view.update_parent_view(ColViewMes::Selected(1, DbColViewEntry(Some(s("alice")))));
    assert_eq!(view.due(), RelationshipStage::Children);
    assert_eq!(
        view.advance(true),
        Some(Request::Children { parent: Some(s("alice")), filter: None })
    );
    view.absorb(texts(&["bob"])).unwrap();
    assert_eq!(view.get_selected_child(), Some(s("bob")));
    assert_eq!(view.advance(true), Some(Request::Roles { parent: s("alice"), child: s("bob") }));
    assert_eq!(
        view.absorb(Response::Years(vec![])),
        Err(LoreGuiError::LoreCoreError(s("The answer does not fit the question that was asked.")))
    );
    view.absorb(texts(&["mother", "teacher"])).unwrap();
    assert_eq!(view.get_selected_role(), None);
    assert_eq!(
        shown(view.role_view_state().get_entries()),
        vec![None, Some("mother"), Some("teacher")]
    );

    view.update_role_view(ColViewMes::Selected(9, DbColViewEntry(Some(s("aunt")))));
    assert_eq!(view.advance(true), Some(Request::Roles { parent: s("alice"), child: s("bob") }));
    view.absorb(texts(&["mother", "teacher"])).unwrap();
    assert_eq!(view.get_selected_role(), None);
    view.update_role_view(ColViewMes::Selected(2, DbColViewEntry(Some(s("teacher")))));
    view.update_role_view(ColViewMes::SearchFieldUpd(s("each")));
    assert_eq!(view.advance(true), Some(Request::Roles { parent: s("alice"), child: s("bob") }));
    view.absorb(texts(&["mother", "teacher"])).unwrap();
    assert_eq!(shown(view.role_view_state().get_entries()), vec![None, Some("teacher")]);
    assert_eq!(view.get_selected_role(), Some(s("teacher")));

    let relationship =
        EntityRelationship { parent: s("alice"), child: s("bob"), role: s("teacher") };
    assert_eq!(
        view.delete_relationship_message(),
        Some(RelationshipViewMessage::DeleteRelationship(EntityRelationship {
            parent: s("alice"),
            child: s("bob"),
            role: s("teacher")
        }))
    );
    assert_eq!(
        view.change_role_message(),
        Some(RelationshipViewMessage::ChangeRole(ChangeRoleData::new(relationship)))
    );

    view.update_parent_view(ColViewMes::Selected(2, DbColViewEntry(Some(s("anna")))));
    assert_eq!(view.get_selected_role(), None);
    view.advance(true);
    view.absorb(texts(&["carol"])).unwrap();
    assert_eq!(view.get_selected_child(), None);
    assert_eq!(view.advance(true), None);
    view.reset_selections();
    assert_eq!(view.get_selected_parent(), None);
    assert_eq!(view.due(), RelationshipStage::Parents);
}

#[test]
fn a_search_text_keeps_what_it_stands_in() {
    assert!(contains_part("teacher", "each"));
    assert!(contains_part("teacher", ""));
    assert!(contains_part("", ""));
    assert!(contains_part("teacher", "teacher"));
    assert!(contains_part("käse", "äs"));
    assert!(!contains_part("teacher", "teachers"));
    assert!(!contains_part("teacher", "Each"));
    assert!(!contains_part("", "a"));
    assert_eq!(pick_texts(&vec![s("aunt"), s("mother"), s("teacher")], "t"), vec!["aunt", "mother", "teacher"]);
    assert_eq!(pick_texts(&vec![s("aunt"), s("mother"), s("teacher")], "th"), vec!["mother"]);
    assert_eq!(pick_numbers(&vec![10, -12, 21, 30], "2"), vec![-12, 21]);
    assert_eq!(pick_numbers(&vec![10, -12, 21, 30], "-"), vec![-12]);
    assert_eq!(pick_numbers(&vec![10, -12], ""), vec![10, -12]);
}
