use loregui::app::message_handling::GuiMessage;
use loregui::db_col_view::entry::DbColViewEntry;
use loregui::db_col_view::state::DbColViewState;
use loregui::db_col_view::value::ColumnValue;
use loregui::db_col_view::widget::DbColView;
use loregui::db_col_view::ColViewMes;
use loregui::entity_view::EntityViewMessage;
use loregui::errors::LoreGuiError;
use loregui::history_view::day::Day;
use loregui::number_text::{number_to_text, parse_i32, NumberFault};

fn row(text: &str) -> DbColViewEntry<String> {
    DbColViewEntry(Some(String::from(text)))
}

#[test]
fn a_new_column_offers_the_deselecting_row_first_and_each_value_once() {
    let state = DbColViewState::new(vec![row("b"), DbColViewEntry(None), row("a"), row("b")]);
    assert_eq!(*state.get_entries(), vec![DbColViewEntry(None), row("b"), row("a")]);
    assert_eq!(*state.get_selected(), DbColViewEntry(None));
    assert_eq!(state.get_search_text(), None);
    let empty: DbColViewState<i32> = DbColViewState::default();
    assert_eq!(*empty.get_entries(), vec![DbColViewEntry(None)]);
    assert!(empty.is_settled());
}

#[test]
fn setting_entries_keeps_search_text_and_selection() {
    let mut state = DbColViewState::new(vec![row("a")]);
    state.set_search_text(String::from("x"));
    state.set_selected(row("gone"));
    state.set_entries(vec![row("c"), row("c"), row("d")]);
    assert_eq!(*state.get_entries(), vec![DbColViewEntry(None), row("c"), row("d")]);
    assert_eq!(state.get_search_text(), Some("x"));
    assert_eq!(*state.get_selected(), row("gone"));
    assert!(!state.is_settled());
}

#[test]
fn a_refresh_keeps_the_selection_only_while_it_is_on_offer() {
    let mut state: DbColViewState<i32> = DbColViewState::default();
    state.set_selected(DbColViewEntry(Some(7)));
    state.refresh(&vec![5, 7, 5]);
    assert_eq!(
        *state.get_entries(),
        vec![DbColViewEntry(None), DbColViewEntry(Some(5)), DbColViewEntry(Some(7))]
    );
    assert_eq!(*state.get_selected(), DbColViewEntry(Some(7)));
    state.refresh(&vec![5]);
    assert_eq!(*state.get_selected(), DbColViewEntry(None));
    assert!(state.is_settled());
    state.refresh(&vec![]);
    assert_eq!(*state.get_entries(), vec![DbColViewEntry(None)]);
}

#[test]
fn the_search_text_is_read_as_a_number() {
    let mut state: DbColViewState<i32> = DbColViewState::default();
    assert_eq!(state.get_search_int(), Ok(None));
    for (text, number) in [
        ("42", 42),
        ("-7", -7),
        ("+5", 5),
        ("007", 7),
        ("-0", 0),
        ("2147483647", i32::MAX),
        ("-2147483648", i32::MIN),
    ] {
        state.set_search_text(String::from(text));
        assert_eq!(state.get_search_int(), Ok(Some(number)));
    }
    for (text, words) in [
        ("abc", "invalid digit found in string"),
        ("-", "invalid digit found in string"),
        ("+", "invalid digit found in string"),
        ("1 ", "invalid digit found in string"),
        ("1_000", "invalid digit found in string"),
        ("٣", "invalid digit found in string"),
        ("2147483648", "number too large to fit in target type"),
        ("99999999999999999999999999", "number too large to fit in target type"),
        ("-2147483649", "number too small to fit in target type"),
    ] {
        state.set_search_text(String::from(text));
        assert_eq!(state.get_search_int(), Err(LoreGuiError::InputError(String::from(words))));
    }
}

#[test]
fn numbers_are_parsed_as_the_standard_library_parses_them() {
    assert_eq!(parse_i32(""), Err(NumberFault::Empty));
    assert_eq!(NumberFault::Empty.message(), "cannot parse integer from empty string");
    for text in ["0", "12", "-12", "+12", "x", "-", "--1", "4294967296", "-4294967296", " 1", "1.0"]
    {
        assert_eq!(parse_i32(text).ok(), text.parse::<i32>().ok());
        if let (Err(ours), Err(theirs)) = (parse_i32(text), text.parse::<i32>()) {
            assert_eq!(ours.message(), theirs.to_string());
        }
    }
}

#[test]
fn the_first_fault_from_the_left_is_reported() {
    assert_eq!(parse_i32("99999999999x"), Err(NumberFault::TooLarge));
    assert_eq!(parse_i32("-99999999999x"), Err(NumberFault::TooSmall));
    assert_eq!(parse_i32("9x9999999999"), Err(NumberFault::InvalidDigit));
    assert_eq!(parse_i32("214748364x"), Err(NumberFault::InvalidDigit));
    assert_eq!(parse_i32("2147483648x"), Err(NumberFault::TooLarge));
    assert_eq!(parse_i32("+-1"), Err(NumberFault::InvalidDigit));
    for text in [
        "99999999999x",
        "-99999999999x",
        "9x9999999999",
        "214748364x",
        "2147483648x",
        "-2147483649x",
        "00000000000000000007",
        "+",
        "",
    ] {
        match (parse_i32(text), text.parse::<i32>()) {
            (Ok(ours), Ok(theirs)) => assert_eq!(ours, theirs),
            (Err(ours), Err(theirs)) => assert_eq!(ours.message(), theirs.to_string()),
            (ours, theirs) => panic!("{:?} reads as {:?} and as {:?}", text, ours, theirs),
        }
    }
}

#[test]
fn numbers_are_written_in_decimal_digits() {
    assert_eq!(number_to_text(0), "0");
    assert_eq!(number_to_text(-1), "-1");
    assert_eq!(number_to_text(1234567890), "1234567890");
    assert_eq!(number_to_text(i64::MAX), "9223372036854775807");
    assert_eq!(number_to_text(i64::MIN), "-9223372036854775808");
    assert_eq!(parse_i32(&number_to_text(-2021)), Ok(-2021));
}

#[test]
fn a_day_is_written_as_its_number_or_as_nothing() {
    assert_eq!(Day::of(11).write(), "11");
    assert_eq!(Day::none().write(), "");
    assert_eq!(Day::of(11).number(), Some(11));
    assert_eq!(Day::none(), Day(None));
    assert!(Day(Some(3)).same(&Day::of(3)));
    assert!(!Day(Some(3)).same(&Day(None)));
    assert_eq!(Day(Some(-3)).to_text(), "-3");
}

#[test]
fn a_row_without_a_day_stands_for_no_day() {
    assert_eq!(DbColViewEntry::<Day>(None).flatten(), Day(None));
    assert_eq!(DbColViewEntry(Some(Day(None))).flatten(), Day(None));
    assert_eq!(DbColViewEntry(Some(Day(Some(4)))).flatten(), Day(Some(4)));
}

#[test]
fn rows_are_compared_copied_and_written() {
    assert!(row("a").same(&row("a")));
    assert!(!row("a").same(&row("b")));
    assert!(!row("a").same(&DbColViewEntry(None)));
    assert!(DbColViewEntry::<String>::none().same(&DbColViewEntry(None)));
    assert_eq!(row("a").duplicate(), row("a"));
    assert_eq!(row("a").to_text(), "a");
    assert_eq!(DbColViewEntry::<String>(None).to_text(), "[none]");
    assert_eq!(DbColViewEntry(Some(-12i32)).to_text(), "-12");
    assert_eq!(DbColViewEntry(Some(1700000000000i64)).to_text(), "1700000000000");
}

#[test]
fn a_column_is_shown_with_title_selection_and_search_text() {
    let mut state = DbColViewState::new(vec![row("alice"), row("bob")]);
    let route = |m| GuiMessage::EntityViewUpd(EntityViewMessage::LabelViewUpdate(m));
    {
        let view = DbColView::new("Label", route, &state);
        assert_eq!(view.title(), "Label");
        assert_eq!(view.selected(), "Selected: [none]");
        assert_eq!(view.search_field(), "");
        assert_eq!(view.selection_list().len(), 3);
        assert_eq!(
            view.update(ColViewMes::SearchFieldUpd(String::from("al"))),
            GuiMessage::EntityViewUpd(EntityViewMessage::LabelViewUpdate(
                ColViewMes::SearchFieldUpd(String::from("al"))
            ))
        );
    }
    state.set_selected(row("bob"));
    state.set_search_text(String::from("b"));
    let view = DbColView::new("Label", route, &state);
    assert_eq!(view.selected(), "Selected: bob");
    assert_eq!(view.search_field(), "b");
}
