use b2::composer::{BootOption, BootOptionItem, BootOptionKind, BootOptionSelection};
use b2::error::B2Error;

fn option(pos: i32, kind: BootOptionKind) -> BootOption {
    BootOption {
        identifier: String::from("ID"),
        pos,
        name: String::from("name"),
        description: None,
        option: kind,
    }
}

fn choice(value: &str) -> BootOptionItem {
    BootOptionItem {
        identifier: String::from(value),
        name: String::from(value),
        description: None,
        value: String::from(value),
    }
}

#[test]
fn bool_option_selected_appends_fragment() {
    let options = [option(0, BootOptionKind::Bool(String::from("acpi=no")))];
    let slots = BootOption::make_parameter(&options, &[BootOptionSelection::Bool(true)]).unwrap();
    assert_eq!(slots, vec![String::from("acpi=no ")]);
}

#[test]
fn bool_option_unselected_leaves_slot_empty() {
    let options = [option(0, BootOptionKind::Bool(String::from("acpi=no")))];
    let slots = BootOption::make_parameter(&options, &[BootOptionSelection::Bool(false)]).unwrap();
    assert_eq!(slots, vec![String::new()]);
}

#[test]
fn template_with_value_concatenates_without_separator() {
    let options = [option(0, BootOptionKind::Template(String::from("root=")))];
    let selections = [BootOptionSelection::Template(Some(String::from("/dev/sda1")))];
    let slots = BootOption::make_parameter(&options, &selections).unwrap();
    assert_eq!(slots, vec![String::from("root=/dev/sda1 ")]);
}

#[test]
fn template_without_value_leaves_slot_empty() {
    let options = [option(0, BootOptionKind::Template(String::from("root=")))];
    let slots = BootOption::make_parameter(&options, &[BootOptionSelection::Template(None)]).unwrap();
    assert_eq!(slots, vec![String::new()]);
}

#[test]
fn multiple_choice_appends_chosen_value() {
    let options = [option(
        0,
        BootOptionKind::Multiple(vec![choice("root=/dev/sda1"), choice("root=/dev/sda2")]),
    )];
    let slots = BootOption::make_parameter(&options, &[BootOptionSelection::Multiple(1)]).unwrap();
    assert_eq!(slots, vec![String::from("root=/dev/sda2 ")]);
}

#[test]
fn slot_count_is_one_more_than_largest_pos() {
    let options = [
        option(2, BootOptionKind::Bool(String::from("quiet"))),
        option(0, BootOptionKind::Bool(String::from("acpi=no"))),
    ];
    let selections = [BootOptionSelection::Bool(true), BootOptionSelection::Bool(true)];
    let slots = BootOption::make_parameter(&options, &selections).unwrap();
    assert_eq!(slots.len(), 3);
    assert_eq!(slots, vec![String::from("acpi=no "), String::new(), String::from("quiet ")]);
}

#[test]
fn fragments_of_one_slot_keep_option_order() {
    let options = [
        option(0, BootOptionKind::Bool(String::from("acpi=no"))),
        option(0, BootOptionKind::Multiple(vec![choice("root=/dev/sda1")])),
        option(0, BootOptionKind::Template(String::from("what="))),
    ];
    let selections = [
        BootOptionSelection::Bool(true),
        BootOptionSelection::Multiple(0),
        BootOptionSelection::Template(Some(String::from("x"))),
    ];
    let slots = BootOption::make_parameter(&options, &selections).unwrap();
    assert_eq!(slots, vec![String::from("acpi=no root=/dev/sda1 what=x ")]);
}

#[test]
fn no_options_give_no_slots() {
    let slots = BootOption::make_parameter(&[], &[]).unwrap();
    assert!(slots.is_empty());
}

#[test]
fn length_mismatch_is_an_error() {
    let options = [option(0, BootOptionKind::Bool(String::from("acpi=no")))];
    let r = BootOption::make_parameter(&options, &[]);
    assert_eq!(r, Err(B2Error::LengthMismatch));
}

#[test]
fn multiple_index_past_the_end_is_out_of_range() {
    let options = [option(0, BootOptionKind::Multiple(vec![choice("a"), choice("b")]))];
    let r = BootOption::make_parameter(&options, &[BootOptionSelection::Multiple(2)]);
    assert_eq!(r, Err(B2Error::OutOfRange));
}

#[test]
fn negative_multiple_index_is_out_of_range() {
    let options = [option(0, BootOptionKind::Multiple(vec![choice("a")]))];
    let r = BootOption::make_parameter(&options, &[BootOptionSelection::Multiple(-1)]);
    assert_eq!(r, Err(B2Error::OutOfRange));
}

#[test]
fn selection_of_another_kind_is_a_mismatch() {
    let options = [option(0, BootOptionKind::Bool(String::from("acpi=no")))];
    let r = BootOption::make_parameter(&options, &[BootOptionSelection::Template(None)]);
    assert_eq!(r, Err(B2Error::KindMismatch));
}

#[test]
fn default_selection_is_a_mismatch() {
    let options = [option(0, BootOptionKind::Template(String::from("root=")))];
    let r = BootOption::make_parameter(&options, &[BootOptionSelection::Default]);
    assert_eq!(r, Err(B2Error::KindMismatch));
}

#[test]
fn first_bad_pair_decides_the_error() {
    let options = [
        option(0, BootOptionKind::Multiple(vec![choice("a")])),
        option(0, BootOptionKind::Bool(String::from("acpi=no"))),
    ];
    let selections = [BootOptionSelection::Multiple(5), BootOptionSelection::Default];
    let r = BootOption::make_parameter(&options, &selections);
    assert_eq!(r, Err(B2Error::OutOfRange));
}
