use loregui::app::message_handling::GuiMessage;
use loregui::app::state::{Round, SqlGui, ViewType, Waiting};
use loregui::collaborator::{
    EntityColumn, EntityRelationship, HistoryItem, Listed, Mutation, Request, Response,
};
use loregui::db_col_view::entry::DbColViewEntry;
use loregui::db_col_view::ColViewMes;
use loregui::dialog::change_role::ChangeRoleData;
use loregui::dialog::error::ErrorDialog;
use loregui::dialog::new_descriptor::NewDescriptorData;
use loregui::dialog::new_entity::{NewEntityData, NewEntityDialog};
use loregui::dialog::new_history_item::NewHistoryData;
use loregui::dialog::new_relationship::NewRelationshipData;
use loregui::dialog::redate_history::RedateHistoryData;
use loregui::dialog::relabel_entity::RelabelEntityData;
use loregui::dialog::rename_descriptor::RenameDescriptorData;
use loregui::dialog::{Dialog, DialogUpdate};
use loregui::entity_view::EntityViewMessage;
use loregui::errors::LoreGuiError;
use loregui::history_view::day::Day;
use loregui::history_view::HistoryViewMessage;
use loregui::relationship_view::RelationshipViewMessage;

const UNIQUIFIER: &str = "please_avoid_any_accidental_collisions";

/// A database that lives in memory and answers as the real one does.
struct Database {
    entities: Vec<EntityColumn>,
    history: Vec<HistoryItem>,
    relationships: Vec<EntityRelationship>,
    clock: i64,
    asked: Vec<String>,
}

fn push_once<T: PartialEq>(list: &mut Vec<T>, item: T) {
    if !list.contains(&item) {
        list.push(item);
    }
}

fn contains(text: &str, filter: &Option<String>) -> bool {
    match filter {
        Some(filter) => text.contains(filter.as_str()),
        None => true,
    }
}

fn listed(names: Vec<String>) -> Response {
    Response::Names(
        names
            .into_iter()
            .map(|name| Listed { protected: name.starts_with('_'), name })
            .collect(),
    )
}

impl Database {
    fn empty() -> Self {
        Database {
            entities: vec![],
            history: vec![],
            relationships: vec![],
            clock: 1_000,
            asked: vec![],
        }
    }

    fn now(&mut self) -> i64 {
        self.clock += 1;
        self.clock
    }

    fn write(&mut self, mutation: Mutation) -> Result<(), String> {
        match mutation {
            Mutation::WriteEntityColumns(columns) => {
                for column in columns.iter() {
                    if self
                        .entities
                        .iter()
                        .any(|e| e.label == column.label && e.descriptor == column.descriptor)
                    {
                        return Err(format!("{} already has {}", column.label, column.descriptor));
                    }
                }
                self.entities.extend(columns);
            }
            Mutation::RelabelEntity { old_label, new_label } => {
                for e in self.entities.iter_mut().filter(|e| e.label == old_label) {
                    e.label = new_label.clone();
                }
            }
            Mutation::DeleteEntity { label } => self.entities.retain(|e| e.label != label),
            Mutation::ChangeEntityDescriptor { label, old_descriptor, new_descriptor } => {
                for e in self
                    .entities
                    .iter_mut()
                    .filter(|e| e.label == label && e.descriptor == old_descriptor)
                {
                    e.descriptor = new_descriptor.clone();
                }
            }
            Mutation::DeleteEntityColumn { label, descriptor } => {
                self.entities.retain(|e| !(e.label == label && e.descriptor == descriptor))
            }
            Mutation::ChangeEntityDescription { label, descriptor, description } => {
                for e in self
                    .entities
                    .iter_mut()
                    .filter(|e| e.label == label && e.descriptor == descriptor)
                {
                    e.description = description.clone();
                }
            }
            Mutation::WriteHistoryItem(item) => {
                if self.history.iter().any(|h| h.timestamp == item.timestamp) {
                    return Err(format!("{} is taken", item.timestamp));
                }
                self.history.push(item);
            }
            Mutation::RedateHistoryItem { timestamp, year, day } => {
                for h in self.history.iter_mut().filter(|h| h.timestamp == timestamp) {
                    h.year = year;
                    h.day = day;
                }
            }
            Mutation::DeleteHistoryItem { timestamp } => {
                self.history.retain(|h| h.timestamp != timestamp)
            }
            Mutation::ChangeHistoryItemContent { timestamp, content } => {
                for h in self.history.iter_mut().filter(|h| h.timestamp == timestamp) {
                    h.content = content.clone();
                }
            }
            Mutation::WriteRelationship(relationship) => {
                if self.relationships.contains(&relationship) {
                    return Err(String::from("the relationship exists"));
                }
                self.relationships.push(relationship);
            }
            Mutation::ChangeRelationshipRole { relationship, new_role } => {
                for r in self.relationships.iter_mut().filter(|r| **r == relationship) {
                    r.role = new_role.clone();
                }
            }
            Mutation::DeleteRelationship(relationship) => {
                self.relationships.retain(|r| *r != relationship)
            }
        }
        Ok(())
    }

    fn perform(&mut self, request: Request) -> Response {
        self.asked.push(format!("{:?}", request));
        match request {
            Request::Labels { filter } => {
                let mut names = vec![];
                for e in self.entities.iter().filter(|e| contains(&e.label, &filter)) {
                    push_once(&mut names, e.label.clone());
                }
                listed(names)
            }
            Request::Descriptors { label, filter } => {
                let mut names = vec![];
                for e in self
                    .entities
                    .iter()
                    .filter(|e| e.label == label && contains(&e.descriptor, &filter))
                {
                    push_once(&mut names, e.descriptor.clone());
                }
                listed(names)
            }
            Request::Description { label, descriptor } => Response::Texts(
                self.entities
                    .iter()
                    .filter(|e| e.label == label && e.descriptor == descriptor)
                    .map(|e| e.description.clone())
                    .collect(),
            ),
            Request::Years { year } => {
                let mut years = vec![];
                for h in self.history.iter().filter(|h| year.map_or(true, |y| y == h.year)) {
                    push_once(&mut years, h.year);
                }
                Response::Years(years)
            }
            Request::Days { year, day } => {
                let mut days = vec![];
                for h in self
                    .history
                    .iter()
                    .filter(|h| h.year == year && day.map_or(true, |d| d == h.day))
                {
                    push_once(&mut days, h.day);
                }
                Response::Days(days)
            }
            Request::Timestamps { year, day } => Response::Timestamps(
                self.history
                    .iter()
                    .filter(|h| h.year == year && day.map_or(true, |d| d == h.day))
                    .map(|h| h.timestamp)
                    .collect(),
            ),
            Request::Content { timestamp } => Response::Texts(
                self.history
                    .iter()
                    .filter(|h| h.timestamp == timestamp)
                    .map(|h| h.content.clone())
                    .collect(),
            ),
            Request::Parents { filter } => {
                let mut parents = vec![];
                for r in self.relationships.iter().filter(|r| contains(&r.parent, &filter)) {
                    push_once(&mut parents, r.parent.clone());
                }
                Response::Texts(parents)
            }
            Request::Children { parent, filter } => {
                let mut children = vec![];
                for r in self.relationships.iter().filter(|r| {
                    parent.as_ref().map_or(true, |p| *p == r.parent) && contains(&r.child, &filter)
                }) {
                    push_once(&mut children, r.child.clone());
                }
                Response::Texts(children)
            }
            Request::Roles { parent, child } => {
                let mut roles = vec![];
                for r in
                    self.relationships.iter().filter(|r| r.parent == parent && r.child == child)
                {
                    push_once(&mut roles, r.role.clone());
                }
                Response::Texts(roles)
            }
            Request::AllLabels => {
                let mut labels = vec![];
                for e in self.entities.iter() {
                    push_once(&mut labels, e.label.clone());
                }
                Response::Texts(labels)
            }
            Request::Write(mutation) => match self.write(mutation) {
                Ok(()) => Response::Done,
                Err(words) => Response::Failed(words),
            },
            Request::CurrentTimestamp => Response::Timestamp(self.now()),
            Request::PickNewFile => Response::Path(Some(String::from("new_lore_database.db"))),
            Request::PickExistingFile => Response::Path(None),
            Request::OpenDatabase(_) => Response::Done,
            Request::StorePath(_) => Response::Done,
        }
    }
}

fn example_labels() -> Vec<String> {
    vec![
        format!("{}_{}", "label_1", UNIQUIFIER),
        format!("{}_{}", "label_2", UNIQUIFIER),
        format!("{}_{}", "label_3", UNIQUIFIER),
    ]
}

fn example_descriptors() -> Vec<(String, String)> {
    vec![
        (
            format!("{} {}", "Descriptor 1", UNIQUIFIER),
            format!("{} {}\n", "Description 1", UNIQUIFIER),
        ),
        (
            format!("{} {}", "Descriptor 2", UNIQUIFIER),
            format!("{} {}\n", "Description 2", UNIQUIFIER),
        ),
        (
            format!("{} {}", "Descriptor 3", UNIQUIFIER),
            format!("{} {}\n", "Description 3", UNIQUIFIER),
        ),
    ]
}

fn example_years() -> Vec<i32> {
    vec![0, -22, 333]
}

fn example_days() -> Vec<Day> {
    vec![Day(None), Day(Some(11)), Day(Some(222))]
}

fn example_history_content(year: i32, day: Day) -> String {
    format!("{}-{}\n", year, day.write())
}

fn example_role(parent: &str, child: &str) -> String {
    format!("{}-{}", parent, child)
}

fn example_database() -> Database {
    let mut db = Database::empty();
    for label in example_labels() {
        for descriptor in example_descriptors() {
            db.entities.push(EntityColumn {
                label: label.clone(),
                descriptor: descriptor.0,
                description: descriptor.1,
            });
        }
    }
    for year in example_years() {
        for day in example_days() {
            let timestamp = db.now();
            db.history.push(HistoryItem {
                timestamp,
                year,
                day,
                content: example_history_content(year, day),
                properties: String::new(),
            });
        }
    }
    for parent in example_labels() {
        for child in example_labels() {
            if parent == child {
                continue;
            }
            let role = example_role(&parent, &child);
            db.relationships.push(EntityRelationship { parent: parent.clone(), child, role });
        }
    }
    db
}

fn example_new_entity_data() -> NewEntityData {
    NewEntityData {
        label: String::from("new_entity"),
        name: String::from("New Entity"),
        category: String::from("Some Category"),
    }
}

fn example_new_descriptor_data() -> NewDescriptorData {
    NewDescriptorData {
        label: String::from("test"),
        descriptor: String::from("test_descriptor"),
        description: String::from("test_description"),
    }
}

fn example_relabel_entity_data() -> RelabelEntityData {
    RelabelEntityData { old_label: String::from("old_entity"), new_label: String::from("new_entity") }
}

fn example_rename_descriptor_data() -> RenameDescriptorData {
    RenameDescriptorData {
        label: String::from("example_label"),
        old_descriptor: String::from("Old Descriptor"),
        new_descriptor: String::from("New Descriptor"),
    }
}

fn example_new_history_data(db: &mut Database) -> NewHistoryData {
    NewHistoryData {
        year: 2021,
        day: Day(Some(11)),
        content: String::from("Example content"),
        properties: String::from(
            "{\"key1\":\"value1\",\"key2\":42,\"key3\":{\"nested_key\":\"nested_value\"}}",
        ),
        timestamp: db.now(),
    }
}

fn example_new_relationship_data() -> NewRelationshipData {
    NewRelationshipData {
        parent: String::from("parent"),
        child: String::from("child"),
        role: String::from("role"),
    }
}

/// Carries out what the application asks for until it asks for nothing more.
fn carry_out(
    gui: &mut SqlGui,
    db: &mut Database,
    first: Result<Option<Request>, LoreGuiError>,
) -> Result<(), LoreGuiError> {
    let mut next = first?;
    while let Some(request) = next {
        next = gui.handle_response(db.perform(request))?;
    }
    Ok(())
}

fn handle(gui: &mut SqlGui, db: &mut Database, message: GuiMessage) -> Result<(), LoreGuiError> {
    let first = gui.handle_message(message);
    carry_out(gui, db, first)
}

/// Handles a message as the window does: an error ends in a dialog.
fn update(gui: &mut SqlGui, db: &mut Database, message: GuiMessage) {
    let mut next = gui.update(message);
    while let Some(request) = next {
        next = gui.resume(db.perform(request));
    }
}

fn gui_with(db: &mut Database) -> SqlGui {
    let mut gui = SqlGui::default();
    let request = gui.initialise(String::from("lore.db"));
    carry_out(&mut gui, db, Ok(Some(request))).unwrap();
    gui
}

#[test]
fn view_selected_message_selects_a_view() {
    let mut gui = SqlGui::default();
    let mut db = Database::empty();
    assert_eq!(gui.selected_view(), ViewType::Entity);
    let message = GuiMessage::ViewSelected(ViewType::History);
    handle(&mut gui, &mut db, message).unwrap();
    assert_eq!(gui.selected_view(), ViewType::History);
}

#[test]
fn dialog_submit_closes_dialog() {
    let mut gui = SqlGui::default();
    let mut db = Database::empty();
    gui.show(Dialog::Error(ErrorDialog::new(LoreGuiError::NoDatabase)));
    let message = GuiMessage::DialogSubmit;
    handle(&mut gui, &mut db, message).unwrap();
    assert!(gui.dialog().is_none());
}

#[test]
fn dialog_closed_closes_dialog() {
    let mut gui = SqlGui::default();
    let mut db = Database::empty();
    gui.show(Dialog::NewEntity(NewEntityDialog::new()));
    let message = GuiMessage::DialogClosed;
    handle(&mut gui, &mut db, message).unwrap();
    assert!(gui.dialog().is_none());
}

#[test]
fn new_entity_sets_it_selected() {
    let mut db = example_database();
    let mut gui = gui_with(&mut db);
    let data = example_new_entity_data();
    let label = data.get_label().to_owned();
    let message = GuiMessage::NewEntity(data);
    handle(&mut gui, &mut db, message).unwrap();
    assert_eq!(gui.get_selected_label(), Some(label));
}

#[test]
fn creating_entity_that_already_exists_produces_error() {
    let mut db = example_database();
    let mut gui = gui_with(&mut db);
    let message = GuiMessage::NewEntity(example_new_entity_data());
    handle(&mut gui, &mut db, message).unwrap();
    let message = GuiMessage::NewEntity(example_new_entity_data());
    let result = handle(&mut gui, &mut db, message);
    assert!(result.is_err());
    assert!(matches!(result, Err(LoreGuiError::LoreCoreError(_))));
}

#[test]
fn relabel_entity_sets_it_selected() {
    let mut db = example_database();
    let mut gui = gui_with(&mut db);
    let relabel_data = example_relabel_entity_data();
    let mut create_data = NewEntityData::new();
    let old_label = relabel_data.old_label().clone();
    let new_label = relabel_data.new_label().clone();
    create_data.set_label(old_label);
    let relabel_message = GuiMessage::RelabelEntity(relabel_data);
    handle(&mut gui, &mut db, relabel_message).unwrap();
    // No entity has the old label, so none has the new one afterwards. The
    // new label is selected, and deselected again as the labels are listed:
    // a selection has to be on offer once its column is listed afresh.
    assert!(!db.entities.iter().any(|e| e.label == new_label));
    assert_eq!(gui.get_selected_label(), None);
}

#[test]
fn relabelling_an_entity_selects_its_new_label() {
    let mut db = example_database();
    let mut gui = gui_with(&mut db);
    let relabel_data = example_relabel_entity_data();
    let mut create_data = example_new_entity_data();
    let new_label = relabel_data.new_label().clone();
    create_data.set_label(relabel_data.old_label().clone());
    handle(&mut gui, &mut db, GuiMessage::NewEntity(create_data)).unwrap();
    handle(&mut gui, &mut db, GuiMessage::RelabelEntity(relabel_data)).unwrap();
    assert_eq!(gui.get_selected_label(), Some(new_label));
}

#[test]
fn delete_entity_deselects_it() {
    let mut db = example_database();
    let mut gui = gui_with(&mut db);
    let new_entity_data = example_new_entity_data();
    let label = new_entity_data.get_label().to_owned();
    let create_message = GuiMessage::NewEntity(new_entity_data);
    handle(&mut gui, &mut db, create_message).unwrap();
    let delete_message = GuiMessage::DeleteEntity(label);
    handle(&mut gui, &mut db, delete_message).unwrap();

    assert_eq!(gui.get_selected_label(), None);
    assert_eq!(gui.get_selected_descriptor(), None);
    assert_eq!(gui.get_description_text(), "\n");
}

#[test]
fn new_descriptor_sets_it_selected() {
    let mut db = example_database();
    let mut gui = gui_with(&mut db);
    let data = example_new_descriptor_data();
    let label = data.label().clone();
    let descriptor = data.descriptor().clone();
    let description = data.description().to_string();
    let message = GuiMessage::NewDescriptor(data);
    handle(&mut gui, &mut db, message).unwrap();

    assert_eq!(gui.get_selected_label(), Some(label));
    assert_eq!(gui.get_selected_descriptor(), Some(descriptor));
    assert_eq!(gui.get_description_text(), format!("{}\n", description));
}

#[test]
fn creating_descriptor_that_already_exists_produces_error() {
    let mut db = example_database();
    let mut gui = gui_with(&mut db);
    let message = GuiMessage::NewDescriptor(example_new_descriptor_data());
    handle(&mut gui, &mut db, message).unwrap();
    let message = GuiMessage::NewDescriptor(example_new_descriptor_data());
    let result = handle(&mut gui, &mut db, message);
    assert!(result.is_err());
}

#[test]
fn rename_descriptor_selects_descriptor() {
    let mut db = example_database();
    let mut gui = gui_with(&mut db);
    let rename_data = example_rename_descriptor_data();
    let label = rename_data.get_label().clone();
    let old_descriptor = rename_data.get_old_descriptor().clone();
    let new_descriptor = rename_data.get_new_descriptor().clone();
    let mut create_data = NewDescriptorData::new(label.clone());
    let description = String::from("Some new description\n");
    create_data.set_descriptor(old_descriptor.clone());
    create_data.set_description(description.clone());
    let create_message = GuiMessage::NewDescriptor(create_data);
    handle(&mut gui, &mut db, create_message).unwrap();

    let rename_message = GuiMessage::RenameDescriptor(rename_data);
    handle(&mut gui, &mut db, rename_message).unwrap();

    assert_eq!(gui.get_selected_label(), Some(label));
    assert_eq!(gui.get_selected_descriptor(), Some(new_descriptor));
    assert_eq!(gui.get_description_text(), description);
}

#[test]
fn delete_descriptor_deselects_it() {
    let mut db = example_database();
    let mut gui = gui_with(&mut db);
    let new_descriptor_data = example_new_descriptor_data();
    let label = new_descriptor_data.label().clone();
    let descriptor = new_descriptor_data.descriptor().to_owned();
    let create_message = GuiMessage::NewDescriptor(new_descriptor_data);
    handle(&mut gui, &mut db, create_message).unwrap();

    let delete_message = GuiMessage::DeleteDescriptor(label.clone(), descriptor);
    handle(&mut gui, &mut db, delete_message).unwrap();

    // The deleted descriptor was the only one of its label, so the label is
    // listed no more and is deselected with it: a selection has to be on
    // offer once its column is listed afresh.
    assert!(!db.entities.iter().any(|e| e.label == label));
    assert_eq!(gui.get_selected_label(), None);
    assert_eq!(gui.get_selected_descriptor(), None);
    assert_eq!(gui.get_description_text(), "\n");
}

#[test]
fn deleting_one_of_two_descriptors_keeps_the_label() {
    let mut db = example_database();
    let mut gui = gui_with(&mut db);
    let new_descriptor_data = example_new_descriptor_data();
    let label = new_descriptor_data.label().clone();
    let descriptor = new_descriptor_data.descriptor().to_owned();
    handle(&mut gui, &mut db, GuiMessage::NewDescriptor(new_descriptor_data)).unwrap();
    let another = NewDescriptorData {
        label: label.clone(),
        descriptor: String::from("another"),
        description: String::new(),
    };
    handle(&mut gui, &mut db, GuiMessage::NewDescriptor(another)).unwrap();

    handle(&mut gui, &mut db, GuiMessage::DeleteDescriptor(label.clone(), descriptor)).unwrap();

    assert_eq!(gui.get_selected_label(), Some(label));
    assert_eq!(gui.get_selected_descriptor(), None);
    assert_eq!(gui.get_description_text(), "\n");
}

#[test]
fn new_history_item_sets_it_selected() {
    let mut db = example_database();
    let mut gui = gui_with(&mut db);
    let data = example_new_history_data(&mut db);
    let (year, day, content) = (data.year(), data.day(), data.content().clone());
    let message = GuiMessage::NewHistoryItem(data);
    handle(&mut gui, &mut db, message).unwrap();

    assert_eq!(gui.get_selected_year(), Some(year));
    assert_eq!(gui.get_selected_day(), Some(day));
    assert!(gui.get_selected_timestamp().is_some());
    assert_eq!(gui.get_history_text(), format!("{}\n", content));
}

#[test]
fn redate_history_item_sets_it_selected() {
    let mut db = example_database();
    let mut gui = gui_with(&mut db);
    let new_history_data = example_new_history_data(&mut db);
    let old_year = new_history_data.year();
    let old_day = new_history_data.day();
    let content = new_history_data.content().clone();
    let create_message = GuiMessage::NewHistoryItem(new_history_data);
    handle(&mut gui, &mut db, create_message).unwrap();

    let timestamp = gui.get_selected_timestamp().unwrap();

    let mut redate_data = RedateHistoryData::new(timestamp, old_year, old_day);
    let new_year = old_year + 1;
    let new_day = Day(Some(old_day.0.unwrap() + 1));
    redate_data.set_new_year(new_year);
    redate_data.set_new_day(new_day);
    let redate_message = GuiMessage::RedateHistoryItem(redate_data);
    handle(&mut gui, &mut db, redate_message).unwrap();

    assert_eq!(gui.get_selected_year(), Some(new_year));
    assert_eq!(gui.get_selected_day(), Some(new_day));
    assert_eq!(gui.get_selected_timestamp(), Some(timestamp));
    assert_eq!(gui.get_history_text(), format!("{}\n", content));
}

#[test]
fn delete_history_item_deselects_all() {
    let mut db = example_database();
    let mut gui = gui_with(&mut db);
    let new_history_data = example_new_history_data(&mut db);
    let create_message = GuiMessage::NewHistoryItem(new_history_data);
    handle(&mut gui, &mut db, create_message).unwrap();

    let timestamp = gui.get_selected_timestamp().unwrap();

    let delete_message = GuiMessage::DeleteHistoryItem(timestamp);
    handle(&mut gui, &mut db, delete_message).unwrap();

    assert_eq!(gui.get_selected_year(), None);
    assert_eq!(gui.get_selected_day(), None);
    assert_eq!(gui.get_selected_timestamp(), None);
    assert_eq!(gui.get_history_text(), "\n");
}

#[test]
fn new_relationship_sets_it_selected() {
    let mut db = example_database();
    let mut gui = gui_with(&mut db);
    let data = example_new_relationship_data();
    let (parent, child, role) = (data.parent().clone(), data.child().clone(), data.role().clone());
    let message = GuiMessage::NewRelationship(data);
    handle(&mut gui, &mut db, message).unwrap();

    assert_eq!(gui.get_selected_parent(), Some(parent));
    assert_eq!(gui.get_selected_child(), Some(child));
    assert_eq!(gui.get_selected_role(), Some(role));
}

#[test]
fn creating_relationship_that_already_exists_produces_error() {
    let mut db = example_database();
    let mut gui = gui_with(&mut db);
    let message = GuiMessage::NewRelationship(example_new_relationship_data());
    handle(&mut gui, &mut db, message).unwrap();
    let message = GuiMessage::NewRelationship(example_new_relationship_data());
    let result = handle(&mut gui, &mut db, message);
    assert!(result.is_err());
}

#[test]
fn changing_role_selects_relationship() {
    let mut db = example_database();
    let mut gui = gui_with(&mut db);
    let create_data = example_new_relationship_data();
    let parent = create_data.parent().clone();
    let child = create_data.child().clone();
    let role = create_data.role().clone();
    let create_message = GuiMessage::NewRelationship(create_data);
    handle(&mut gui, &mut db, create_message).unwrap();

    let relationship =
        EntityRelationship { parent: parent.clone(), child: child.clone(), role: role.clone() };

    let new_role = String::from("New Role");
    let mut change_data = ChangeRoleData::new(relationship);
    change_data.set_new_role(new_role.clone());
    let change_message = GuiMessage::ChangeRole(change_data);
    handle(&mut gui, &mut db, change_message).unwrap();

    assert_eq!(gui.get_selected_parent(), Some(parent.clone()));
    assert_eq!(gui.get_selected_child(), Some(child.clone()));
    assert_eq!(gui.get_selected_role(), Some(new_role));
}

#[test]
fn deleting_relationships_deselects_all() {
    let mut db = example_database();
    let mut gui = gui_with(&mut db);
    let create_data = example_new_relationship_data();
    let parent = create_data.parent().clone();
    let child = create_data.child().clone();
    let role = create_data.role().clone();
    let create_message = GuiMessage::NewRelationship(create_data);
    handle(&mut gui, &mut db, create_message).unwrap();

    let relationship = EntityRelationship { parent, child, role };

    let delete_message = GuiMessage::DeleteRelationship(relationship);
    handle(&mut gui, &mut db, delete_message).unwrap();

    assert_eq!(gui.get_selected_parent(), None);
    assert_eq!(gui.get_selected_child(), None);
    assert_eq!(gui.get_selected_role(), None);
}

#[test]
fn selecting_label_deselects_descriptor() {
    let mut db = example_database();
    let mut gui = gui_with(&mut db);
    let labels = example_labels();
    let descriptors = example_descriptors();
    gui.set_selected_label(Some(labels[0].clone()));
    gui.set_selected_descriptor(Some(descriptors[0].0.clone()));
    gui.set_description_text(&descriptors[0].1);

    let new_label = labels[1].clone();
    let event = ColViewMes::Selected(1, DbColViewEntry(Some(new_label.clone())));
    let first = gui.update_entity_view(EntityViewMessage::LabelViewUpdate(event));
    carry_out(&mut gui, &mut db, first).unwrap();

    assert_eq!(gui.get_selected_label(), Some(new_label),);
    assert_eq!(gui.get_selected_descriptor(), None);
    assert_eq!(gui.get_description_text(), "\n");
}

#[test]
fn selecting_descriptor_updates_description() {
    let mut db = example_database();
    let mut gui = gui_with(&mut db);
    let labels = example_labels();
    let descriptors = example_descriptors();
    gui.set_selected_label(Some(labels[0].clone()));
    gui.set_selected_descriptor(Some(descriptors[0].0.clone()));
    gui.set_description_text(&descriptors[0].1);

    let new_descriptor = descriptors[1].0.clone();
    let event = ColViewMes::Selected(1, DbColViewEntry(Some(new_descriptor.clone())));
    let first = gui.update_entity_view(EntityViewMessage::DescriptorViewUpdate(event));
    carry_out(&mut gui, &mut db, first).unwrap();

    assert_eq!(gui.get_selected_label(), Some(labels[0].clone()));
    assert_eq!(gui.get_selected_descriptor(), Some(new_descriptor));
    assert_eq!(gui.get_description_text(), descriptors[1].1);
}

#[test]
fn selecting_year_deselects_day_and_timestamp() {
    let mut db = example_database();
    let mut gui = gui_with(&mut db);
    let years = example_years();
    let days = example_days();
    gui.set_selected_year(Some(years[0]));
    gui.set_selected_day(Some(days[0]));
    let stamp = db.now();
    gui.set_selected_timestamp(Some(stamp));
    let content = example_history_content(years[0], days[0]);
    gui.set_history_text(&content);

    let new_year = years[1];
    let event = ColViewMes::Selected(1, DbColViewEntry(Some(new_year)));
    let first = gui.update_history_view(HistoryViewMessage::YearViewUpdate(event));
    carry_out(&mut gui, &mut db, first).unwrap();

    assert_eq!(gui.get_selected_year(), Some(new_year));
    assert_eq!(gui.get_selected_day(), None);
    assert_eq!(gui.get_selected_timestamp(), None);
    assert_eq!(gui.get_history_text(), "\n");
}

#[test]
fn selecting_parent_deselects_role() {
    let mut db = example_database();
    let mut gui = gui_with(&mut db);
    let parents = example_labels();
    let role = example_role(&parents[0], &parents[1]);
    gui.set_selected_parent(Some(parents[0].clone()));
    gui.set_selected_role(Some(role.clone()));

    let new_parent = parents[2].clone();
    let event = ColViewMes::Selected(1, DbColViewEntry(Some(new_parent.clone())));
    let first = gui.update_relationship_view(RelationshipViewMessage::ParentViewUpdate(event));
    carry_out(&mut gui, &mut db, first).unwrap();

    assert_eq!(gui.get_selected_parent(), Some(new_parent));
    assert_eq!(gui.get_selected_role(), None);
}

#[test]
fn selecting_child_deselects_role() {
    let mut db = example_database();
    let mut gui = gui_with(&mut db);
    let children = example_labels();
    let role = example_role(&children[0], &children[1]);
    gui.set_selected_child(Some(children[0].clone()));
    gui.set_selected_role(Some(role.clone()));

    let new_child = children[2].clone();
    let event = ColViewMes::Selected(1, DbColViewEntry(Some(new_child.clone())));
    let first = gui.update_relationship_view(RelationshipViewMessage::ChildViewUpdate(event));
    carry_out(&mut gui, &mut db, first).unwrap();

    assert_eq!(gui.get_selected_child(), Some(new_child));
    assert_eq!(gui.get_selected_role(), None);
}

fn pick(text: &str) -> DbColViewEntry<String> {
    DbColViewEntry(Some(String::from(text)))
}

fn names(rows: &Vec<DbColViewEntry<String>>) -> Vec<Option<&str>> {
    rows.iter().map(|row| row.0.as_deref()).collect()
}

fn alice_and_bob() -> Database {
    let mut db = Database::empty();
    for (label, descriptor, description) in
        [("alice", "bio", "Alice was here.\n"), ("alice", "notes", "n"), ("bob", "bio", "")]
    {
        db.entities.push(EntityColumn {
            label: String::from(label),
            descriptor: String::from(descriptor),
            description: String::from(description),
        });
    }
    for (year, day, content) in
        [(2021, Some(3), "a"), (2021, None, "b"), (2021, Some(3), "c"), (2020, Some(7), "d")]
    {
        let timestamp = db.now();
        db.history.push(HistoryItem {
            timestamp,
            year,
            day: Day(day),
            content: String::from(content),
            properties: String::new(),
        });
    }
    for (parent, child, role) in
        [("alice", "bob", "mother"), ("alice", "bob", "teacher"), ("alice", "carol", "aunt")]
    {
        db.relationships.push(EntityRelationship {
            parent: String::from(parent),
            child: String::from(child),
            role: String::from(role),
        });
    }
    db
}

#[test]
fn picking_a_label_lists_its_descriptors_and_picking_one_shows_the_description() {
    let mut db = alice_and_bob();
    let mut gui = gui_with(&mut db);
    let label = EntityViewMessage::LabelViewUpdate(ColViewMes::Selected(1, pick("alice")));
    handle(&mut gui, &mut db, GuiMessage::EntityViewUpd(label)).unwrap();
    assert_eq!(
        names(gui.entity_view_state().descriptor_view_state().get_entries()),
        vec![None, Some("bio"), Some("notes")]
    );
    let descriptor = EntityViewMessage::DescriptorViewUpdate(ColViewMes::Selected(1, pick("bio")));
    handle(&mut gui, &mut db, GuiMessage::EntityViewUpd(descriptor)).unwrap();
    assert_eq!(gui.get_description_text(), "Alice was here.\n");
    assert!(!gui.entity_view_state().current_description().is_changed());
}

#[test]
fn picking_another_label_discards_the_unsaved_description() {
    let mut db = alice_and_bob();
    let mut gui = gui_with(&mut db);
    let label = EntityViewMessage::LabelViewUpdate(ColViewMes::Selected(1, pick("alice")));
    handle(&mut gui, &mut db, GuiMessage::EntityViewUpd(label)).unwrap();
    let descriptor = EntityViewMessage::DescriptorViewUpdate(ColViewMes::Selected(1, pick("bio")));
    handle(&mut gui, &mut db, GuiMessage::EntityViewUpd(descriptor)).unwrap();
    let edit = EntityViewMessage::DescriptionUpdate(String::from("Alice was there.\n"));
    handle(&mut gui, &mut db, GuiMessage::EntityViewUpd(edit)).unwrap();
    assert!(gui.entity_view_state().current_description().is_changed());

    let label = EntityViewMessage::LabelViewUpdate(ColViewMes::Selected(2, pick("bob")));
    handle(&mut gui, &mut db, GuiMessage::EntityViewUpd(label)).unwrap();
    assert_eq!(gui.get_selected_label(), Some(String::from("bob")));
    assert_eq!(gui.get_selected_descriptor(), None);
    assert_eq!(gui.get_description_text(), "\n");
    assert!(!gui.entity_view_state().current_description().is_changed());
    assert_eq!(db.entities[0].description, "Alice was here.\n");
}

#[test]
fn picking_a_year_lists_its_days_and_picking_no_day_lists_the_items_without_one() {
    let mut db = alice_and_bob();
    let mut gui = gui_with(&mut db);
    gui.set_selected_day(Some(Day(Some(7))));
    let year = HistoryViewMessage::YearViewUpdate(ColViewMes::Selected(1, DbColViewEntry(Some(2021))));
    handle(&mut gui, &mut db, GuiMessage::HistoryViewUpd(year)).unwrap();
    assert_eq!(gui.get_selected_day(), None);
    let days: Vec<Option<Day>> =
        gui.history_view_state().day_view_state().get_entries().iter().map(|row| row.0).collect();
    assert_eq!(days, vec![None, Some(Day(Some(3))), Some(Day(None))]);
    let all: Vec<Option<i64>> = gui
        .history_view_state()
        .timestamp_view_state()
        .get_entries()
        .iter()
        .map(|row| row.0)
        .collect();
    assert_eq!(all, vec![None, Some(1001), Some(1002), Some(1003)]);

    let day =
        HistoryViewMessage::DayViewUpdate(ColViewMes::Selected(2, DbColViewEntry(Some(Day(None)))));
    handle(&mut gui, &mut db, GuiMessage::HistoryViewUpd(day)).unwrap();
    let without_day: Vec<Option<i64>> = gui
        .history_view_state()
        .timestamp_view_state()
        .get_entries()
        .iter()
        .map(|row| row.0)
        .collect();
    assert_eq!(without_day, vec![None, Some(1002)]);
}

#[test]
fn picking_parent_and_child_lists_their_roles() {
    let mut db = alice_and_bob();
    let mut gui = gui_with(&mut db);
    let parent = RelationshipViewMessage::ParentViewUpdate(ColViewMes::Selected(1, pick("alice")));
    handle(&mut gui, &mut db, GuiMessage::RelationshipViewUpd(parent)).unwrap();
    assert_eq!(
        names(gui.relationship_view_state().role_view_state().get_entries()),
        vec![None]
    );
    assert_eq!(
        names(gui.relationship_view_state().child_view_state().get_entries()),
        vec![None, Some("bob"), Some("carol")]
    );
    let child = RelationshipViewMessage::ChildViewUpdate(ColViewMes::Selected(1, pick("bob")));
    handle(&mut gui, &mut db, GuiMessage::RelationshipViewUpd(child)).unwrap();
    assert_eq!(
        names(gui.relationship_view_state().role_view_state().get_entries()),
        vec![None, Some("mother"), Some("teacher")]
    );
    assert_eq!(gui.get_selected_role(), None);

    let search =
        RelationshipViewMessage::RoleViewUpdate(ColViewMes::SearchFieldUpd(String::from("each")));
    handle(&mut gui, &mut db, GuiMessage::RelationshipViewUpd(search)).unwrap();
    assert_eq!(
        names(gui.relationship_view_state().role_view_state().get_entries()),
        vec![None, Some("teacher")]
    );

    let child = RelationshipViewMessage::ChildViewUpdate(ColViewMes::Selected(1, pick("dave")));
    handle(&mut gui, &mut db, GuiMessage::RelationshipViewUpd(child)).unwrap();
    assert_eq!(gui.get_selected_parent(), Some(String::from("alice")));
    assert_eq!(gui.get_selected_child(), Some(String::from("dave")));
    assert_eq!(gui.get_selected_role(), None);
    assert_eq!(
        names(gui.relationship_view_state().role_view_state().get_entries()),
        vec![None]
    );
}

#[test]
fn picking_a_parent_keeps_the_child_that_it_has() {
    let mut db = alice_and_bob();
    db.relationships.push(EntityRelationship {
        parent: String::from("dora"),
        child: String::from("carol"),
        role: String::from("friend"),
    });
    let mut gui = gui_with(&mut db);
    let child = RelationshipViewMessage::ChildViewUpdate(ColViewMes::Selected(1, pick("bob")));
    handle(&mut gui, &mut db, GuiMessage::RelationshipViewUpd(child)).unwrap();
    let parent = RelationshipViewMessage::ParentViewUpdate(ColViewMes::Selected(1, pick("alice")));
    handle(&mut gui, &mut db, GuiMessage::RelationshipViewUpd(parent)).unwrap();
    assert_eq!(gui.get_selected_parent(), Some(String::from("alice")));
    assert_eq!(gui.get_selected_child(), Some(String::from("bob")));
    assert_eq!(
        names(gui.relationship_view_state().role_view_state().get_entries()),
        vec![None, Some("mother"), Some("teacher")]
    );
    let role = RelationshipViewMessage::RoleViewUpdate(ColViewMes::Selected(1, pick("mother")));
    handle(&mut gui, &mut db, GuiMessage::RelationshipViewUpd(role)).unwrap();
    assert_eq!(gui.get_selected_role(), Some(String::from("mother")));

    let parent = RelationshipViewMessage::ParentViewUpdate(ColViewMes::Selected(2, pick("dora")));
    handle(&mut gui, &mut db, GuiMessage::RelationshipViewUpd(parent)).unwrap();
    assert_eq!(gui.get_selected_parent(), Some(String::from("dora")));
    assert_eq!(gui.get_selected_child(), None);
    assert_eq!(gui.get_selected_role(), None);
}

#[test]
fn submitting_a_new_entity_without_label_keeps_the_dialog_and_asks_nothing() {
    let mut db = alice_and_bob();
    let mut gui = gui_with(&mut db);
    handle(&mut gui, &mut db, GuiMessage::EntityViewUpd(EntityViewMessage::NewEntity)).unwrap();
    let name = DialogUpdate::Name(String::from("Carol"));
    handle(&mut gui, &mut db, GuiMessage::DialogUpdate(name)).unwrap();
    let asked = db.asked.len();
    let entities = db.entities.len();

    let result = handle(&mut gui, &mut db, GuiMessage::DialogSubmit);
    assert_eq!(
        result,
        Err(LoreGuiError::InputError(String::from("Cannot create entity with empty label.")))
    );
    assert_eq!(db.asked.len(), asked);
    assert_eq!(db.entities.len(), entities);
    assert!(matches!(gui.dialog(), Some(Dialog::NewEntity(dialog)) if dialog.data.name == "Carol"));
    assert_eq!(*gui.waiting(), Waiting::Nothing);
}

#[test]
fn an_error_is_shown_in_front_of_the_dialog_that_caused_it() {
    let mut db = alice_and_bob();
    let mut gui = gui_with(&mut db);
    update(&mut gui, &mut db, GuiMessage::EntityViewUpd(EntityViewMessage::NewEntity));
    update(&mut gui, &mut db, GuiMessage::DialogSubmit);
    match gui.dialog() {
        Some(Dialog::Error(dialog)) => {
            assert_eq!(dialog.text(), "Input error: Cannot create entity with empty label.")
        }
        other => panic!("no error is shown: {:?}", other),
    }
    update(&mut gui, &mut db, GuiMessage::DialogSubmit);
    assert!(matches!(gui.dialog(), Some(Dialog::NewEntity(_))));
    update(&mut gui, &mut db, GuiMessage::DialogClosed);
    assert!(gui.dialog().is_none());
}

#[test]
fn a_filled_dialog_is_closed_and_its_entity_written_and_selected() {
    let mut db = alice_and_bob();
    let mut gui = gui_with(&mut db);
    update(&mut gui, &mut db, GuiMessage::EntityViewUpd(EntityViewMessage::NewEntity));
    update(&mut gui, &mut db, GuiMessage::DialogUpdate(DialogUpdate::Label(String::from("carol"))));
    update(&mut gui, &mut db, GuiMessage::DialogUpdate(DialogUpdate::Name(String::from("Carol"))));
    update(&mut gui, &mut db, GuiMessage::DialogUpdate(DialogUpdate::Category(String::from("person"))));
    update(&mut gui, &mut db, GuiMessage::DialogUpdate(DialogUpdate::Role(String::from("ignored"))));
    update(&mut gui, &mut db, GuiMessage::DialogSubmit);
    assert!(gui.dialog().is_none());
    assert_eq!(gui.get_selected_label(), Some(String::from("carol")));
    let written: Vec<(&str, &str)> = db
        .entities
        .iter()
        .filter(|e| e.label == "carol")
        .map(|e| (e.descriptor.as_str(), e.description.as_str()))
        .collect();
    assert_eq!(written, vec![("_name", "Carol"), ("_category", "person")]);
    assert_eq!(
        names(gui.entity_view_state().descriptor_view_state().get_entries()),
        vec![None]
    );
    update(&mut gui, &mut db, GuiMessage::SetDisplayProtected(true));
    assert!(gui.display_protected());
    assert_eq!(
        names(gui.entity_view_state().descriptor_view_state().get_entries()),
        vec![None, Some("_name"), Some("_category")]
    );
}

#[test]
fn two_records_for_one_key_are_reported_and_none_is_shown() {
    let mut db = alice_and_bob();
    db.entities.push(EntityColumn {
        label: String::from("x"),
        descriptor: String::from("y"),
        description: String::from("first"),
    });
    db.entities.push(EntityColumn {
        label: String::from("x"),
        descriptor: String::from("y"),
        description: String::from("second"),
    });
    let mut gui = gui_with(&mut db);
    let label = EntityViewMessage::LabelViewUpdate(ColViewMes::Selected(3, pick("x")));
    handle(&mut gui, &mut db, GuiMessage::EntityViewUpd(label)).unwrap();
    let descriptor = EntityViewMessage::DescriptorViewUpdate(ColViewMes::Selected(1, pick("y")));
    let result = handle(&mut gui, &mut db, GuiMessage::EntityViewUpd(descriptor));
    assert_eq!(result, Err(LoreGuiError::MultipleResults));
    assert_eq!(gui.get_description_text(), "\n");
    assert_eq!(LoreGuiError::MultipleResults.to_text(), "Multiple results");
}

#[test]
fn changes_need_a_database() {
    let mut gui = SqlGui::default();
    let mut db = Database::empty();
    let result = handle(&mut gui, &mut db, GuiMessage::NewEntity(example_new_entity_data()));
    assert_eq!(result, Err(LoreGuiError::NoDatabase));
    assert_eq!(LoreGuiError::NoDatabase.to_text(), "No database");
    let result = handle(&mut gui, &mut db, GuiMessage::NewEntity(NewEntityData::new()));
    assert!(matches!(result, Err(LoreGuiError::InputError(_))));
    let save = || GuiMessage::EntityViewUpd(EntityViewMessage::DescriptionSave);
    assert_eq!(handle(&mut gui, &mut db, save()), Ok(()));
    let save_content = || GuiMessage::HistoryViewUpd(HistoryViewMessage::ContentSave);
    assert_eq!(handle(&mut gui, &mut db, save_content()), Ok(()));
    gui.set_selected_label(Some(String::from("alice")));
    assert_eq!(handle(&mut gui, &mut db, save()), Ok(()));
    gui.set_selected_descriptor(Some(String::from("bio")));
    assert_eq!(handle(&mut gui, &mut db, save()), Err(LoreGuiError::NoDatabase));
    gui.set_selected_timestamp(Some(1));
    assert_eq!(handle(&mut gui, &mut db, save_content()), Err(LoreGuiError::NoDatabase));
    assert!(db.asked.is_empty());
    assert_eq!(gui.current_database_display(), "[No database loaded]");
}

#[test]
fn saving_writes_the_text_and_leaves_nothing_unsaved() {
    let mut db = alice_and_bob();
    let mut gui = gui_with(&mut db);
    let save = || GuiMessage::EntityViewUpd(EntityViewMessage::DescriptionSave);
    let edit = EntityViewMessage::DescriptionUpdate(String::from("lost\n"));
    handle(&mut gui, &mut db, GuiMessage::EntityViewUpd(edit)).unwrap();
    let asked = db.asked.len();
    handle(&mut gui, &mut db, save()).unwrap();
    assert_eq!(db.asked.len(), asked);

    let label = EntityViewMessage::LabelViewUpdate(ColViewMes::Selected(1, pick("alice")));
    handle(&mut gui, &mut db, GuiMessage::EntityViewUpd(label)).unwrap();
    let descriptor = EntityViewMessage::DescriptorViewUpdate(ColViewMes::Selected(2, pick("notes")));
    handle(&mut gui, &mut db, GuiMessage::EntityViewUpd(descriptor)).unwrap();
    let edit = EntityViewMessage::DescriptionUpdate(String::from("more notes\n"));
    handle(&mut gui, &mut db, GuiMessage::EntityViewUpd(edit)).unwrap();
    assert!(gui.entity_view_state().current_description().is_changed());
    handle(&mut gui, &mut db, save()).unwrap();
    assert!(!gui.entity_view_state().current_description().is_changed());
    assert_eq!(db.entities[1].description, "more notes\n");
    assert_eq!(gui.get_description_text(), "more notes\n");

    let edit = EntityViewMessage::DescriptionUpdate(String::from("typo\n"));
    handle(&mut gui, &mut db, GuiMessage::EntityViewUpd(edit)).unwrap();
    handle(&mut gui, &mut db, GuiMessage::EntityViewUpd(EntityViewMessage::DescriptionDiscard))
        .unwrap();
    assert_eq!(gui.get_description_text(), "more notes\n");
}

#[test]
fn a_search_text_that_hides_the_selection_deselects_it() {
    let mut db = alice_and_bob();
    let mut gui = gui_with(&mut db);
    let label = EntityViewMessage::LabelViewUpdate(ColViewMes::Selected(1, pick("alice")));
    handle(&mut gui, &mut db, GuiMessage::EntityViewUpd(label)).unwrap();
    let search = EntityViewMessage::LabelViewUpdate(ColViewMes::SearchFieldUpd(String::from("bo")));
    handle(&mut gui, &mut db, GuiMessage::EntityViewUpd(search)).unwrap();
    assert_eq!(
        names(gui.entity_view_state().label_view_state().get_entries()),
        vec![None, Some("bob")]
    );
    assert_eq!(gui.get_selected_label(), None);
    assert_eq!(
        names(gui.entity_view_state().descriptor_view_state().get_entries()),
        vec![None]
    );
}

#[test]
fn a_year_search_that_is_no_number_is_an_input_error() {
    let mut db = alice_and_bob();
    let mut gui = gui_with(&mut db);
    let search = || {
        GuiMessage::HistoryViewUpd(HistoryViewMessage::YearViewUpdate(ColViewMes::SearchFieldUpd(
            String::from("20x1"),
        )))
    };
    assert_eq!(
        handle(&mut gui, &mut db, search()),
        Err(LoreGuiError::InputError(String::from("invalid digit found in string")))
    );
    let search = GuiMessage::HistoryViewUpd(HistoryViewMessage::YearViewUpdate(
        ColViewMes::SearchFieldUpd(String::from("2020")),
    ));
    handle(&mut gui, &mut db, search).unwrap();
    let years: Vec<Option<i32>> =
        gui.history_view_state().year_view_state().get_entries().iter().map(|row| row.0).collect();
    assert_eq!(years, vec![None, Some(2020)]);
}

#[test]
fn a_year_search_that_is_no_number_stops_no_pick_and_no_other_view() {
    let mut db = alice_and_bob();
    let mut gui = gui_with(&mut db);
    update(
        &mut gui,
        &mut db,
        GuiMessage::HistoryViewUpd(HistoryViewMessage::YearViewUpdate(ColViewMes::SearchFieldUpd(
            String::from("abc"),
        ))),
    );
    assert!(matches!(gui.dialog(), Some(Dialog::Error(_))));
    update(&mut gui, &mut db, GuiMessage::DialogSubmit);
    assert!(gui.dialog().is_none());

    let year = HistoryViewMessage::YearViewUpdate(ColViewMes::Selected(1, DbColViewEntry(Some(2021))));
    assert_eq!(handle(&mut gui, &mut db, GuiMessage::HistoryViewUpd(year)), Ok(()));
    assert_eq!(gui.get_selected_year(), Some(2021));
    let days: Vec<Option<Day>> =
        gui.history_view_state().day_view_state().get_entries().iter().map(|row| row.0).collect();
    assert_eq!(days, vec![None, Some(Day(Some(3))), Some(Day(None))]);

    let day =
        HistoryViewMessage::DayViewUpdate(ColViewMes::Selected(2, DbColViewEntry(Some(Day(None)))));
    assert_eq!(handle(&mut gui, &mut db, GuiMessage::HistoryViewUpd(day)), Ok(()));
    let items: Vec<Option<i64>> = gui
        .history_view_state()
        .timestamp_view_state()
        .get_entries()
        .iter()
        .map(|row| row.0)
        .collect();
    assert_eq!(items, vec![None, Some(1002)]);
    assert_eq!(gui.get_selected_timestamp(), None);

    let parent = RelationshipViewMessage::ParentViewUpdate(ColViewMes::Selected(1, pick("alice")));
    assert_eq!(handle(&mut gui, &mut db, GuiMessage::RelationshipViewUpd(parent)), Ok(()));
    let label = EntityViewMessage::LabelViewUpdate(ColViewMes::Selected(1, pick("alice")));
    assert_eq!(handle(&mut gui, &mut db, GuiMessage::EntityViewUpd(label)), Ok(()));

    // A change to the database has every column listed afresh, the years among them.
    let relationship = GuiMessage::NewRelationship(example_new_relationship_data());
    assert_eq!(
        handle(&mut gui, &mut db, relationship),
        Err(LoreGuiError::InputError(String::from("invalid digit found in string")))
    );
    assert_eq!(gui.get_selected_parent(), Some(String::from("parent")));
    assert_eq!(gui.get_selected_role(), Some(String::from("role")));
}

#[test]
fn an_item_search_keeps_the_items_it_stands_in() {
    let mut db = alice_and_bob();
    let mut gui = gui_with(&mut db);
    let year = HistoryViewMessage::YearViewUpdate(ColViewMes::Selected(1, DbColViewEntry(Some(2021))));
    handle(&mut gui, &mut db, GuiMessage::HistoryViewUpd(year)).unwrap();
    let search = HistoryViewMessage::HistoryTimestampViewUpdate(ColViewMes::SearchFieldUpd(
        String::from("003"),
    ));
    handle(&mut gui, &mut db, GuiMessage::HistoryViewUpd(search)).unwrap();
    let items: Vec<Option<i64>> = gui
        .history_view_state()
        .timestamp_view_state()
        .get_entries()
        .iter()
        .map(|row| row.0)
        .collect();
    assert_eq!(items, vec![None, Some(1003)]);
}

#[test]
fn a_failure_of_the_database_ends_the_round_and_is_reported_as_it_came() {
    let mut gui = SqlGui::default();
    let request = gui.initialise(String::from("lore.db"));
    assert_eq!(request, Request::OpenDatabase(String::from("lore.db")));
    assert_eq!(gui.handle_response(Response::Done), Ok(Some(Request::Labels { filter: None })));
    assert_eq!(
        gui.handle_response(Response::Failed(String::from("disk on fire"))),
        Err(LoreGuiError::LoreCoreError(String::from("disk on fire")))
    );
    assert_eq!(*gui.waiting(), Waiting::Nothing);
    assert_eq!(gui.handle_response(Response::Names(vec![])), Ok(None));
    assert_eq!(
        LoreGuiError::LoreCoreError(String::from("disk on fire")).to_text(),
        "Lore core error: disk on fire"
    );
    assert_eq!(gui.current_database_display(), "lore.db");
}

#[test]
fn a_new_database_is_picked_opened_and_remembered() {
    let mut gui = SqlGui::default();
    assert_eq!(gui.update(GuiMessage::NewDatabase), Some(Request::PickNewFile));
    assert_eq!(
        gui.resume(Response::Path(Some(String::from("a.db")))),
        Some(Request::OpenDatabase(String::from("a.db")))
    );
    assert_eq!(gui.resume(Response::Done), Some(Request::StorePath(String::from("a.db"))));
    assert_eq!(
        gui.resume(Response::Failed(String::from("read-only"))),
        Some(Request::Labels { filter: None })
    );
    assert_eq!(
        *gui.notice(),
        Some(LoreGuiError::FileError(String::from(
            "The following database path could not be stored as user preference:\na.db"
        )))
    );
    assert!(gui.dialog().is_none());
    assert_eq!(gui.lore_database().as_deref(), Some("a.db"));
    assert!(matches!(gui.take_notice(), Some(LoreGuiError::FileError(_))));
    assert_eq!(*gui.notice(), None);

    let mut gui = SqlGui::default();
    assert_eq!(gui.update(GuiMessage::OpenDatabase), Some(Request::PickExistingFile));
    assert_eq!(gui.resume(Response::Path(None)), None);
    assert!(gui.lore_database().is_none());
}

#[test]
fn an_answer_of_the_wrong_kind_is_turned_down() {
    let mut gui = SqlGui::default();
    gui.initialise(String::from("lore.db"));
    gui.handle_response(Response::Done).unwrap();
    let outcome = gui.handle_response(Response::Years(vec![1]));
    assert_eq!(
        outcome,
        Err(LoreGuiError::LoreCoreError(String::from(
            "The answer does not fit the question that was asked."
        )))
    );
}

#[test]
fn the_buttons_open_their_dialogs() {
    let mut db = alice_and_bob();
    let mut gui = gui_with(&mut db);
    let delete = EntityViewMessage::DeleteDescriptor(String::from("alice"), String::from("bio"));
    update(&mut gui, &mut db, GuiMessage::EntityViewUpd(delete));
    match gui.dialog() {
        Some(Dialog::Confirmation(dialog)) => {
            assert_eq!(dialog.message, "Do you really want to delete alice's descriptor bio?");
            assert_eq!(dialog.header(), "Confirmation");
        }
        other => panic!("no confirmation is shown: {:?}", other),
    }
    update(&mut gui, &mut db, GuiMessage::DialogSubmit);
    assert!(gui.dialog().is_none());
    assert_eq!(gui.get_selected_label(), Some(String::from("alice")));
    assert!(!db.entities.iter().any(|e| e.label == "alice" && e.descriptor == "bio"));

    update(&mut gui, &mut db, GuiMessage::HistoryViewUpd(HistoryViewMessage::NewHistoryItem));
    match gui.dialog() {
        Some(Dialog::NewHistory(dialog)) => assert_eq!(dialog.data.timestamp(), 1005),
        other => panic!("no dialog is shown: {:?}", other),
    }
    update(&mut gui, &mut db, GuiMessage::DialogUpdate(DialogUpdate::Year(Ok(1999))));
    update(
        &mut gui,
        &mut db,
        GuiMessage::DialogUpdate(DialogUpdate::Year(Err(LoreGuiError::input("no year")))),
    );
    update(&mut gui, &mut db, GuiMessage::DialogUpdate(DialogUpdate::Content(String::from("e"))));
    update(&mut gui, &mut db, GuiMessage::DialogSubmit);
    assert_eq!(gui.get_selected_year(), Some(1999));
    assert_eq!(gui.get_selected_day(), Some(Day(None)));
    assert_eq!(gui.get_selected_timestamp(), Some(1005));
    assert_eq!(gui.get_history_text(), "e\n");

    update(
        &mut gui,
        &mut db,
        GuiMessage::RelationshipViewUpd(RelationshipViewMessage::NewRelationship),
    );
    match gui.dialog() {
        Some(Dialog::NewRelationship(dialog)) => {
            assert_eq!(dialog.parent_labels, vec!["alice", "bob"]);
            assert_eq!(dialog.child_labels, vec!["alice", "bob"]);
            assert_eq!(dialog.selected_parent(), None);
        }
        other => panic!("no dialog is shown: {:?}", other),
    }
    update(&mut gui, &mut db, GuiMessage::DialogUpdate(DialogUpdate::Parent(String::from("bob"))));
    update(&mut gui, &mut db, GuiMessage::DialogSubmit);
    match gui.dialog() {
        Some(Dialog::Error(dialog)) => {
            assert_eq!(dialog.text(), "Input error: Parent and child cannot be empty.")
        }
        other => panic!("no error is shown: {:?}", other),
    }
}

#[test]
fn deselecting_the_descriptor_keeps_the_label_and_drops_the_unsaved_edit() {
    let mut db = alice_and_bob();
    let mut gui = gui_with(&mut db);
    let label = EntityViewMessage::LabelViewUpdate(ColViewMes::Selected(1, pick("alice")));
    handle(&mut gui, &mut db, GuiMessage::EntityViewUpd(label)).unwrap();
    let descriptor = EntityViewMessage::DescriptorViewUpdate(ColViewMes::Selected(1, pick("bio")));
    handle(&mut gui, &mut db, GuiMessage::EntityViewUpd(descriptor)).unwrap();
    let edit = EntityViewMessage::DescriptionUpdate(String::from("unsaved\n"));
    handle(&mut gui, &mut db, GuiMessage::EntityViewUpd(edit)).unwrap();
    db.entities.retain(|e| e.label != "alice");
    let asked = db.asked.len();

    let none = EntityViewMessage::DescriptorViewUpdate(ColViewMes::Selected(0, DbColViewEntry(None)));
    handle(&mut gui, &mut db, GuiMessage::EntityViewUpd(none)).unwrap();
    assert_eq!(gui.get_selected_label(), Some(String::from("alice")));
    assert_eq!(gui.get_selected_descriptor(), None);
    assert_eq!(gui.get_description_text(), "\n");
    assert!(!gui.entity_view_state().current_description().is_changed());
    assert_eq!(db.asked.len(), asked);
}

#[test]
fn a_pick_has_only_the_columns_after_it_listed_afresh() {
    let mut db = alice_and_bob();
    let mut gui = gui_with(&mut db);
    let asked = db.asked.len();
    let label = EntityViewMessage::LabelViewUpdate(ColViewMes::Selected(1, pick("alice")));
    handle(&mut gui, &mut db, GuiMessage::EntityViewUpd(label)).unwrap();
    assert_eq!(
        db.asked[asked..],
        [format!("{:?}", Request::Descriptors { label: String::from("alice"), filter: None })]
    );
    let asked = db.asked.len();
    let year = HistoryViewMessage::YearViewUpdate(ColViewMes::Selected(1, DbColViewEntry(Some(2021))));
    handle(&mut gui, &mut db, GuiMessage::HistoryViewUpd(year)).unwrap();
    assert_eq!(
        db.asked[asked..],
        [
            format!("{:?}", Request::Days { year: 2021, day: None }),
            format!("{:?}", Request::Timestamps { year: 2021, day: None }),
        ]
    );
    let asked = db.asked.len();
    let search = GuiMessage::EntityViewUpd(EntityViewMessage::LabelViewUpdate(
        ColViewMes::SearchFieldUpd(String::from("al")),
    ));
    handle(&mut gui, &mut db, search).unwrap();
    assert_eq!(
        db.asked[asked..],
        [
            format!("{:?}", Request::Labels { filter: Some(String::from("al")) }),
            format!("{:?}", Request::Descriptors { label: String::from("alice"), filter: None }),
        ]
    );
    assert_eq!(gui.round(), Round { entity: false, relationship: false, history: false });
}
