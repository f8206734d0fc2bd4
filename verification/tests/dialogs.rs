use loregui::app::message_handling::GuiMessage;
use loregui::collaborator::{EntityColumn, EntityRelationship, HistoryItem, Mutation};
use loregui::dialog::change_role::{ChangeRoleData, ChangeRoleDialog};
use loregui::dialog::confirmation::ConfirmationDialog;
use loregui::dialog::error::ErrorDialog;
use loregui::dialog::new_descriptor::{NewDescriptorData, NewDescriptorDialog};
use loregui::dialog::new_entity::{NewEntityData, NewEntityDialog};
use loregui::dialog::new_history_item::{NewHistoryData, NewHistoryDialog};
use loregui::dialog::new_relationship::{NewRelationshipData, NewRelationshipDialog};
use loregui::dialog::redate_history::{RedateHistoryData, RedateHistoryDialog};
use loregui::dialog::relabel_entity::{RelabelEntityData, RelabelEntityDialog};
use loregui::dialog::rename_descriptor::{RenameDescriptorData, RenameDescriptorDialog};
use loregui::dialog::{CardStyle, Dialog, DialogUpdate};
use loregui::errors::LoreGuiError;
use loregui::history_view::day::Day;

fn input(words: &str) -> LoreGuiError {
    LoreGuiError::InputError(String::from(words))
}

fn s(text: &str) -> String {
    String::from(text)
}

#[test]
fn a_new_entity_needs_label_name_and_category() {
    let mut data = NewEntityData::new();
    assert_eq!(data.validate(), Err(input("Cannot create entity with empty label.")));
    data.label = s("carol");
    assert_eq!(data.validate(), Err(input("Cannot create entity with empty name.")));
    data.name = s("Carol");
    let missing = NewEntityData { label: s("carol"), name: s("Carol"), category: s("") };
    assert_eq!(missing.mutation(), Err(input("Cannot create entity with empty category.")));
    data.category = s("person");
    assert_eq!(data.validate(), Ok(()));
    assert_eq!(
        data.mutation(),
        Ok(Mutation::WriteEntityColumns(vec![
            EntityColumn { label: s("carol"), descriptor: s("_name"), description: s("Carol") },
            EntityColumn {
                label: s("carol"),
                descriptor: s("_category"),
                description: s("person")
            },
        ]))
    );
}

#[test]
fn a_new_descriptor_needs_a_descriptor() {
    let mut data = NewDescriptorData::new(s("alice"));
    assert_eq!(data.validate(), Err(input("Cannot create empty descriptor.")));
    data.set_descriptor(s("bio"));
    assert_eq!(
        data.mutation(),
        Ok(Mutation::WriteEntityColumns(vec![EntityColumn {
            label: s("alice"),
            descriptor: s("bio"),
            description: s("")
        }]))
    );
}

#[test]
fn relabelling_needs_both_labels() {
    let data = RelabelEntityData::new(s(""));
    assert_eq!(data.validate(), Err(input("Cannot relabel entity with empty label.")));
    let data = RelabelEntityData { old_label: s("a"), new_label: s("") };
    assert_eq!(data.mutation(), Err(input("Cannot relabel entity with empty new label.")));
    let data = RelabelEntityData::new(s("a"));
    assert_eq!(data.new_label(), "a");
    assert_eq!(
        data.mutation(),
        Ok(Mutation::RelabelEntity { old_label: s("a"), new_label: s("a") })
    );
}

#[test]
fn renaming_needs_both_descriptors() {
    let data = RenameDescriptorData::new(s("a"), s(""));
    assert_eq!(
        data.validate(),
        Err(input("Cannot rename descriptor with empty descriptor."))
    );
    let data =
        RenameDescriptorData { label: s("a"), old_descriptor: s("x"), new_descriptor: s("") };
    assert_eq!(
        data.mutation(),
        Err(input("Cannot rename descriptor with empty new descriptor."))
    );
    let data = RenameDescriptorData { label: s(""), old_descriptor: s("x"), new_descriptor: s("y") };
    assert_eq!(
        data.mutation(),
        Ok(Mutation::ChangeEntityDescriptor {
            label: s(""),
            old_descriptor: s("x"),
            new_descriptor: s("y")
        })
    );
}

#[test]
fn a_new_relationship_needs_parent_and_child_but_no_role() {
    let data = NewRelationshipData { parent: s("a"), child: s(""), role: s("r") };
    assert_eq!(data.validate(), Err(input("Parent and child cannot be empty.")));
    let data = NewRelationshipData { parent: s(""), child: s("b"), role: s("r") };
    assert_eq!(data.mutation(), Err(input("Parent and child cannot be empty.")));
    let data = NewRelationshipData { parent: s("a"), child: s("b"), role: s("") };
    assert_eq!(
        data.mutation(),
        Ok(Mutation::WriteRelationship(EntityRelationship {
            parent: s("a"),
            child: s("b"),
            role: s("")
        }))
    );
}

#[test]
fn history_items_and_roles_are_written_as_entered() {
    let data = NewHistoryData::new(17);
    assert_eq!(
        data.mutation(),
        Mutation::WriteHistoryItem(HistoryItem {
            timestamp: 17,
            year: 0,
            day: Day(None),
            content: s(""),
            properties: s("")
        })
    );
    let mut data = RedateHistoryData::new(17, 2020, Day(Some(4)));
    data.set_new_day(Day(None));
    data.set_new_year(2021);
    assert_eq!(
        data.mutation(),
        Mutation::RedateHistoryItem { timestamp: 17, year: 2021, day: Day(None) }
    );
    let relationship = EntityRelationship { parent: s("a"), child: s("b"), role: s("r") };
    let mut data = ChangeRoleData::new(EntityRelationship {
        parent: s("a"),
        child: s("b"),
        role: s("r"),
    });
    assert_eq!(data.new_role(), "r");
    data.set_new_role(s("q"));
    assert_eq!((data.parent().as_str(), data.child().as_str()), ("a", "b"));
    assert_eq!(
        data.mutation(),
        Mutation::ChangeRelationshipRole { relationship, new_role: s("q") }
    );
}

#[test]
fn dialogs_have_titles_and_frames() {
    let relationship = EntityRelationship { parent: s("a"), child: s("b"), role: s("r") };
    let dialogs = vec![
        (Dialog::NewEntity(NewEntityDialog::new()), "Create new entity", CardStyle::Primary),
        (
            Dialog::RelabelEntity(RelabelEntityDialog::new(RelabelEntityData::new(s("alice")))),
            "Relabel entity: alice",
            CardStyle::Primary,
        ),
        (
            Dialog::NewDescriptor(NewDescriptorDialog::new(s("alice"))),
            "New Descriptor",
            CardStyle::Primary,
        ),
        (
            Dialog::RenameDescriptor(RenameDescriptorDialog::new(RenameDescriptorData::new(
                s("alice"),
                s("bio"),
            ))),
            "Rename descriptor bio of entity alice",
            CardStyle::Primary,
        ),
        (
            Dialog::NewHistory(NewHistoryDialog::new(5)),
            "Create new history item",
            CardStyle::Primary,
        ),
        (
            Dialog::RedateHistory(RedateHistoryDialog::new(RedateHistoryData::new(
                1700,
                -22,
                Day(Some(11)),
            ))),
            "Redate history for entity: year -22, day 11 (1700)",
            CardStyle::Primary,
        ),
        (
            Dialog::RedateHistory(RedateHistoryDialog::new(RedateHistoryData::new(
                1700,
                0,
                Day(None),
            ))),
            "Redate history for entity: year 0, day  (1700)",
            CardStyle::Primary,
        ),
        (
            Dialog::NewRelationship(NewRelationshipDialog::new(vec![], vec![])),
            "New Relationship",
            CardStyle::Primary,
        ),
        (
            Dialog::ChangeRole(ChangeRoleDialog::new(ChangeRoleData::new(relationship))),
            "Change role r for relationship between a and b",
            CardStyle::Primary,
        ),
        (
            Dialog::Confirmation(ConfirmationDialog::new(s("Sure?"), GuiMessage::DialogClosed)),
            "Confirmation",
            CardStyle::Warning,
        ),
        (Dialog::Error(ErrorDialog::new(LoreGuiError::NoDatabase)), "Error", CardStyle::Error),
    ];
    for (dialog, title, style) in dialogs {
        assert_eq!(dialog.header(), title);
        assert_eq!(dialog.card_style(), style);
    }
}

#[test]
fn a_dialog_takes_the_changes_to_its_own_fields_only() {
    let mut dialog = Dialog::NewDescriptor(NewDescriptorDialog::new(s("alice")));
    dialog.update(DialogUpdate::Descriptor(s("bio")));
    dialog.update(DialogUpdate::Description(s("text")));
    dialog.update(DialogUpdate::Label(s("mallory")));
    assert_eq!(dialog.validate(), Ok(()));
    assert_eq!(
        dialog.submit(),
        GuiMessage::NewDescriptor(NewDescriptorData {
            label: s("alice"),
            descriptor: s("bio"),
            description: s("text")
        })
    );

    let mut dialog = Dialog::RedateHistory(RedateHistoryDialog::new(RedateHistoryData::new(
        1,
        2000,
        Day(Some(1)),
    )));
    dialog.update(DialogUpdate::Day(Ok(Day(None))));
    dialog.update(DialogUpdate::Day(Err(LoreGuiError::input("no day"))));
    dialog.update(DialogUpdate::Year(Ok(2001)));
    dialog.update(DialogUpdate::Content(s("ignored")));
    assert_eq!(
        dialog.submit(),
        GuiMessage::RedateHistoryItem(RedateHistoryData {
            timestamp: 1,
            old_year: 2000,
            old_day: Day(Some(1)),
            new_year: 2001,
            new_day: Day(None)
        })
    );

    let mut dialog = Dialog::Error(ErrorDialog::new(LoreGuiError::MultipleResults));
    dialog.update(DialogUpdate::Name(s("ignored")));
    assert_eq!(dialog, Dialog::Error(ErrorDialog::new(LoreGuiError::MultipleResults)));
    assert_eq!(dialog.submit(), GuiMessage::DialogClosed);
}

#[test]
fn a_confirmation_sends_what_it_was_made_with() {
    let dialog = ConfirmationDialog::new(s("Sure?"), GuiMessage::DeleteEntity(s("alice")));
    assert_eq!(dialog.message, "Sure?");
    assert_eq!(dialog.card_style(), CardStyle::Warning);
    assert_eq!(dialog.submit(), GuiMessage::DeleteEntity(s("alice")));
}

#[test]
fn errors_are_shown_with_their_kind() {
    assert_eq!(LoreGuiError::FileError(s("gone")).to_text(), "File error: gone");
    assert_eq!(LoreGuiError::input("bad").to_text(), "Input error: bad");
    assert_eq!(LoreGuiError::input("bad").clone(), LoreGuiError::InputError(s("bad")));
    assert_eq!(ErrorDialog::new(LoreGuiError::NoDatabase).text(), "No database");
}
