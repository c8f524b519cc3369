use b2::composer::{BootOption, BootOptionItem, BootOptionKind, BootOptionSelection};
use b2::config::{BootItem, BootTarget, Config};
use b2::menu::{BasicMenu, OptionReply, PromptReply};

fn three_items() -> Config {
    Config {
        name: None,
        message: Some(String::from("hello")),
        items: vec![
            BootItem { name: String::from("Linux"), target: BootTarget::Nop },
            BootItem { name: String::from("Reboot"), target: BootTarget::Reboot },
            BootItem { name: String::from("Exit"), target: BootTarget::Exit },
        ],
        default: 0,
        timeout: None,
        password: None,
    }
}

fn is_invalid(r: &PromptReply) -> bool {
    matches!(r, PromptReply::Reprompt(Some(m)) if m == "Invalid option.")
}

#[test]
fn zero_is_an_invalid_choice() {
    let r = BasicMenu {}.prompt(&three_items(), "0");
    assert!(is_invalid(&r));
}

#[test]
fn number_selects_item_counting_from_one() {
    let r = BasicMenu {}.prompt(&three_items(), "2");
    assert!(matches!(r, PromptReply::Select(1)));
}

#[test]
fn text_is_an_invalid_choice() {
    let r = BasicMenu {}.prompt(&three_items(), "abc");
    assert!(is_invalid(&r));
}

#[test]
fn number_past_the_items_is_invalid() {
    assert!(is_invalid(&BasicMenu {}.prompt(&three_items(), "4")));
    assert!(is_invalid(&BasicMenu {}.prompt(&three_items(), "99999999999999999999999")));
    assert!(is_invalid(&BasicMenu {}.prompt(&three_items(), "-1")));
    assert!(is_invalid(&BasicMenu {}.prompt(&three_items(), "+")));
}

#[test]
fn blank_input_is_ignored() {
    assert!(matches!(BasicMenu {}.prompt(&three_items(), ""), PromptReply::Reprompt(None)));
    assert!(matches!(BasicMenu {}.prompt(&three_items(), " \t "), PromptReply::Reprompt(None)));
}

#[test]
fn surrounding_space_and_plus_sign_are_accepted() {
    assert!(matches!(BasicMenu {}.prompt(&three_items(), "  3 "), PromptReply::Select(2)));
    assert!(matches!(BasicMenu {}.prompt(&three_items(), "+1"), PromptReply::Select(0)));
    assert!(matches!(BasicMenu {}.prompt(&three_items(), "003"), PromptReply::Select(2)));
}

#[test]
fn render_lists_title_message_and_items() {
    let lines = BasicMenu::render(&three_items());
    assert_eq!(lines, vec!["b2 loader", "hello", "[1]: Linux", "[2]: Reboot", "[3]: Exit"]);
}

#[test]
fn render_uses_configured_title_and_two_digit_numbers() {
    let mut c = three_items();
    c.name = Some(String::from("My menu"));
    c.message = None;
    for i in 0..8 {
        c.items.push(BootItem { name: format!("x{}", i), target: BootTarget::Nop });
    }
    let lines = BasicMenu::render(&c);
    assert_eq!(lines[0], "My menu");
    assert_eq!(lines[1], "[1]: Linux");
    assert_eq!(lines[10], "[10]: x6");
    assert_eq!(lines.len(), 12);
}

fn bool_option() -> BootOption {
    BootOption {
        identifier: String::from("NOACPI"),
        pos: 0,
        name: String::from("Disable ACPI"),
        description: None,
        option: BootOptionKind::Bool(String::from("acpi=no")),
    }
}

fn multiple_option() -> BootOption {
    let item = |n: &str, v: &str| BootOptionItem {
        identifier: String::from(n),
        name: String::from(n),
        description: None,
        value: String::from(v),
    };
    BootOption {
        identifier: String::from("ROOT"),
        pos: 0,
        name: String::from("Boot with"),
        description: None,
        option: BootOptionKind::Multiple(vec![
            item("debian", "root=/dev/sda1"),
            item("arch", "root=/dev/sda2"),
            item("nix", "root=/dev/sda3"),
        ]),
    }
}

fn template_option() -> BootOption {
    BootOption {
        identifier: String::from("TEST"),
        pos: 0,
        name: String::from("test"),
        description: Some(String::from("a value")),
        option: BootOptionKind::Template(String::from("what=")),
    }
}

fn selected(r: OptionReply) -> BootOptionSelection {
    match r {
        OptionReply::Selected(s) => s,
        OptionReply::Retry(m) => panic!("retry: {}", m),
    }
}

fn retry(r: OptionReply) -> String {
    match r {
        OptionReply::Retry(m) => m,
        OptionReply::Selected(s) => panic!("selected: {:?}", s),
    }
}

#[test]
fn yes_no_answers() {
    let m = BasicMenu {};
    let o = bool_option();
    assert!(matches!(selected(m.boot_config(&o, "y")), BootOptionSelection::Bool(true)));
    assert!(matches!(selected(m.boot_config(&o, "Y")), BootOptionSelection::Bool(true)));
    assert!(matches!(selected(m.boot_config(&o, "n")), BootOptionSelection::Bool(false)));
    assert!(matches!(selected(m.boot_config(&o, "N")), BootOptionSelection::Bool(false)));
    assert!(matches!(selected(m.boot_config(&o, "")), BootOptionSelection::Bool(false)));
}

#[test]
fn question_mark_explains_option() {
    let r = retry(BasicMenu {}.boot_config(&bool_option(), "?"));
    assert_eq!(r, "Option \"Disable ACPI\" (NOACPI): (description unavailable)");
}

#[test]
fn other_yes_no_answer_is_refused() {
    let r = retry(BasicMenu {}.boot_config(&bool_option(), "yes"));
    assert_eq!(r, "yes is not a valid option.");
}

#[test]
fn multiple_choice_takes_number_from_one() {
    let m = BasicMenu {};
    let o = multiple_option();
    assert!(matches!(selected(m.boot_config(&o, "1")), BootOptionSelection::Multiple(0)));
    assert!(matches!(selected(m.boot_config(&o, "3")), BootOptionSelection::Multiple(2)));
    assert_eq!(retry(m.boot_config(&o, "0")), "Invalid option.");
    assert_eq!(retry(m.boot_config(&o, "4")), "Invalid option.");
    assert_eq!(retry(m.boot_config(&o, "nix")), "Invalid option.");
}

#[test]
fn template_takes_the_line() {
    let s = selected(BasicMenu {}.boot_config(&template_option(), "/dev/sda1"));
    assert!(matches!(s, BootOptionSelection::Template(Some(v)) if v == "/dev/sda1"));
}

#[test]
fn option_prompts() {
    let p = BasicMenu::option_prompt(&bool_option());
    assert!(p.lines.is_empty());
    assert_eq!(p.prompt, "Disable ACPI? (y/N/?) ");

    let p = BasicMenu::option_prompt(&multiple_option());
    assert_eq!(p.lines, vec!["Boot with:", "* 1. debian", "  2. arch", "  3. nix"]);
    assert_eq!(p.prompt, "Select: ");

    let p = BasicMenu::option_prompt(&template_option());
    assert!(p.lines.is_empty());
    assert_eq!(p.prompt, "test (a value)= ");
}
