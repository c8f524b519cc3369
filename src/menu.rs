//! The text menu: what it shows, and how it reads an answer.
//!
//! Reading a line is the console driver's work (with a [`crate::editor::LineEditor`]);
//! each line read is handed here and turned into a decision.

use vstd::prelude::*;
use vstd::string::*;
use crate::composer::{BootOption, BootOptionKind, BootOptionSelection, string_views};
use crate::config::Config;
use crate::text::{chars_of, decimal, digit_value, digits_value, is_digit, push_char, push_decimal};

verus! {

/// Basic Menu - Text based menu.
pub struct BasicMenu {}

/// The answer to one line typed at the menu prompt.
#[derive(Debug, Clone)]
pub enum PromptReply {
    /// Ask again, after printing the message if there is one.
    Reprompt(Option<String>),
    /// The item at this index (counting from 0) was chosen.
    Select(usize),
}

/// The answer to one line typed for a boot option.
#[derive(Debug, Clone)]
pub enum OptionReply {
    Selected(BootOptionSelection),
    /// Print the message and ask again.
    Retry(String),
}

/// What to show before reading the answer for a boot option.
#[derive(Debug, Clone)]
pub struct OptionPrompt {
    /// Lines printed first.
    pub lines: Vec<String>,
    /// The prompt of the line editor.
    pub prompt: String,
}

/// Unicode white space, as trimming of user input understands it.
pub open spec fn is_space(c: char) -> bool {
    ||| '\t' <= c <= '\r'
    ||| c == ' '
    ||| c == '\u{85}'
    ||| c == '\u{a0}'
    ||| c == '\u{1680}'
    ||| '\u{2000}' <= c <= '\u{200a}'
    ||| c == '\u{2028}'
    ||| c == '\u{2029}'
    ||| c == '\u{202f}'
    ||| c == '\u{205f}'
    ||| c == '\u{3000}'
}

pub open spec fn trim_start(s: Seq<char>) -> Seq<char>
    decreases s.len(),
{
    if s.len() > 0 && is_space(s[0]) {
        trim_start(s.drop_first())
    } else {
        s
    }
}

pub open spec fn trim_end(s: Seq<char>) -> Seq<char>
    decreases s.len(),
{
    if s.len() > 0 && is_space(s.last()) {
        trim_end(s.drop_last())
    } else {
        s
    }
}

/// `s` without leading and trailing white space.
pub open spec fn trimmed(s: Seq<char>) -> Seq<char> {
    trim_end(trim_start(s))
}

/// `s` without one leading `+`.
pub open spec fn unsigned_part(s: Seq<char>) -> Seq<char> {
    if s.len() > 0 && s[0] == '+' {
        s.drop_first()
    } else {
        s
    }
}

/// The 0-based index that `s` selects among `count` choices numbered from 1:
/// `s` is a decimal number, with an optional leading `+`, from 1 to `count`.
pub open spec fn number_choice(s: Seq<char>, count: nat) -> Option<int> {
    let d = unsigned_part(s);
    if d.len() > 0 && (forall|i: int| 0 <= i < d.len() ==> is_digit(#[trigger] d[i]))
        && 1 <= digits_value(d) <= count {
        Some(digits_value(d) - 1)
    } else {
        None
    }
}

/// The item that a line typed at the menu prompt selects, if any.
pub open spec fn menu_choice(item_count: nat, input: Seq<char>) -> Option<int> {
    number_choice(trimmed(input), item_count)
}

/// The title shown above the menu.
pub open spec fn title(c: Config) -> Seq<char> {
    match c.name {
        Some(n) => n@,
        None => "b2 loader"@,
    }
}

/// The line showing item `i` (counting from 0) of the menu.
pub open spec fn item_line(i: nat, name: Seq<char>) -> Seq<char> {
    seq!['['] + decimal(i + 1) + "]: "@ + name
}

/// Every line of the menu: title, message if any, then the items.
pub open spec fn menu_lines(c: Config) -> Seq<Seq<char>> {
    seq![title(c)] + match c.message {
        Some(m) => seq![m@],
        None => Seq::empty(),
    } + Seq::new(c.items@.len(), |i: int| item_line(i as nat, c.items@[i].name@))
}

pub open spec fn description_or(o: BootOption, otherwise: Seq<char>) -> Seq<char> {
    match o.description {
        Some(d) => d@,
        None => otherwise,
    }
}

/// The explanation shown when `?` is typed for a yes/no option.
pub open spec fn option_help(o: BootOption) -> Seq<char> {
    "Option \""@ + o.name@ + "\" ("@ + o.identifier@ + "): "@ + description_or(
        o,
        "(description unavailable)"@,
    )
}

/// The line listing choice `i` (counting from 0) of a multiple-choice option;
/// the first choice is marked as the default.
pub open spec fn choice_line(i: nat, name: Seq<char>) -> Seq<char> {
    (if i == 0 {
        seq!['*']
    } else {
        seq![' ']
    }) + seq![' '] + decimal(i + 1) + ". "@ + name
}

/// What is shown before the answer for a boot option is read.
pub open spec fn option_lines(o: BootOption) -> Seq<Seq<char>> {
    match o.option {
        BootOptionKind::Multiple(items) => seq![o.name@ + ":"@] + Seq::new(
            items@.len(),
            |i: int| choice_line(i as nat, items@[i].name@),
        ),
        _ => Seq::empty(),
    }
}

pub open spec fn option_prompt_text(o: BootOption) -> Seq<char> {
    match o.option {
        BootOptionKind::Bool(_) => o.name@ + "? (y/N/?) "@,
        BootOptionKind::Multiple(_) => "Select: "@,
        BootOptionKind::Template(_) => o.name@ + " ("@ + description_or(o, "no description"@)
            + ")= "@,
    }
}

/// How a line typed for a boot option is taken.
pub enum OptionAnswer {
    /// This selection is made.
    Choose(BootOptionSelection),
    /// The typed text itself is the selection (a template's value).
    TakeText,
    /// Show this message and ask again.
    Explain(Seq<char>),
}

/// How the line `input` typed for option `o` is taken.
pub open spec fn option_answer(o: BootOption, input: Seq<char>) -> OptionAnswer {
    match o.option {
        BootOptionKind::Bool(_) => {
            if input == seq!['y'] || input == seq!['Y'] {
                OptionAnswer::Choose(BootOptionSelection::Bool(true))
            } else if input == seq!['n'] || input == seq!['N'] || input.len() == 0 {
                OptionAnswer::Choose(BootOptionSelection::Bool(false))
            } else if input == seq!['?'] {
                OptionAnswer::Explain(option_help(o))
            } else {
                OptionAnswer::Explain(input + " is not a valid option."@)
            }
        },
        BootOptionKind::Multiple(items) => match number_choice(input, items@.len()) {
            Some(k) => OptionAnswer::Choose(BootOptionSelection::Multiple(k as i32)),
            None => OptionAnswer::Explain("Invalid option."@),
        },
        BootOptionKind::Template(_) => OptionAnswer::TakeText,
    }
}

proof fn lemma_trim_start_step(s: Seq<char>, lo: int)
    requires
        0 <= lo < s.len(),
        is_space(s[lo]),
    ensures
        trim_start(s.subrange(lo, s.len() as int)) == trim_start(
            s.subrange(lo + 1, s.len() as int),
        ),
{
    assert(s.subrange(lo, s.len() as int).drop_first() =~= s.subrange(lo + 1, s.len() as int));
}

proof fn lemma_trim_end_step(s: Seq<char>, lo: int, hi: int)
    requires
        0 <= lo < hi <= s.len(),
        is_space(s[hi - 1]),
    ensures
        trim_end(s.subrange(lo, hi)) == trim_end(s.subrange(lo, hi - 1)),
{
    assert(s.subrange(lo, hi).drop_last() =~= s.subrange(lo, hi - 1));
}

/// The bounds of `cs` without leading and trailing white space.
fn trim_bounds(cs: &Vec<char>) -> (r: (usize, usize))
    ensures
        r.0 <= r.1 <= cs@.len(),
        cs@.subrange(r.0 as int, r.1 as int) == trimmed(cs@),
{
    let n = cs.len();
    let mut lo: usize = 0;
    proof {
        assert(cs@.subrange(0, n as int) =~= cs@);
    }
    while lo < n && is_space_exec(cs[lo])
        invariant
            lo <= n == cs@.len(),
            trim_start(cs@) == trim_start(cs@.subrange(lo as int, n as int)),
        decreases n - lo,
    {
        proof {
            lemma_trim_start_step(cs@, lo as int);
        }
        lo = lo + 1;
    }
    let ghost start = cs@.subrange(lo as int, n as int);
    assert(trim_start(cs@) == start);
    let mut hi: usize = n;
    proof {
        assert(start =~= cs@.subrange(lo as int, hi as int));
    }
    while hi > lo && is_space_exec(cs[hi - 1])
        invariant
            lo <= hi <= n == cs@.len(),
            trim_end(start) == trim_end(cs@.subrange(lo as int, hi as int)),
            start == cs@.subrange(lo as int, n as int),
        decreases hi - lo,
    {
        proof {
            lemma_trim_end_step(cs@, lo as int, hi as int);
        }
        hi = hi - 1;
    }
    (lo, hi)
}

fn push_description(s: &mut String, o: &BootOption, otherwise: &str)
    ensures
        final(s)@ == old(s)@ + description_or(*o, otherwise@),
{
    match &o.description {
        Some(d) => s.append(d.as_str()),
        None => s.append(otherwise),
    }
}

fn is_space_exec(c: char) -> (r: bool)
    ensures
        r == is_space(c),
{
    ('\t' <= c && c <= '\r') || c == ' ' || c == '\u{85}' || c == '\u{a0}' || c == '\u{1680}'
        || ('\u{2000}' <= c && c <= '\u{200a}') || c == '\u{2028}' || c == '\u{2029}' || c
        == '\u{202f}' || c == '\u{205f}' || c == '\u{3000}'
}

/// The choice that `cs[lo..hi]` selects among `count` numbered choices.
fn parse_choice(cs: &Vec<char>, lo: usize, hi: usize, count: usize) -> (r: Option<usize>)
    requires
        lo <= hi <= cs@.len(),
    ensures
        r matches Some(k) ==> number_choice(cs@.subrange(lo as int, hi as int), count as nat)
            == Some(k as int),
        r is None ==> number_choice(cs@.subrange(lo as int, hi as int), count as nat) is None,
{
    let ghost s = cs@.subrange(lo as int, hi as int);
    let mut start = lo;
    if start < hi && cs[start] == '+' {
        start = start + 1;
    }
    let ghost d = cs@.subrange(start as int, hi as int);
    assert(unsigned_part(s) =~= d);
    if start == hi {
        return None;
    }
    let mut acc: usize = 0;
    let mut too_big = false;
    let mut i = start;
    proof {
        assert(cs@.subrange(start as int, start as int) =~= Seq::<char>::empty());
    }
    while i < hi
        invariant
            start <= i <= hi <= cs@.len(),
            d == cs@.subrange(start as int, hi as int),
            s == cs@.subrange(lo as int, hi as int),
            unsigned_part(s) == d,
            forall|j: int| start <= j < i ==> is_digit(#[trigger] cs@[j]),
            !too_big ==> acc == digits_value(cs@.subrange(start as int, i as int)) && acc <= count,
            too_big ==> digits_value(cs@.subrange(start as int, i as int)) > count,
        decreases hi - i,
    {
        let c = cs[i];
        if !('0' <= c && c <= '9') {
            proof {
                assert(d[i - start] == c);
                assert(!is_digit(d[i - start]));
            }
            return None;
        }
        let digit = (c as u32 - '0' as u32) as usize;
        proof {
            let prefix = cs@.subrange(start as int, i as int + 1);
            assert(prefix.drop_last() =~= cs@.subrange(start as int, i as int));
            assert(digits_value(prefix) == digits_value(cs@.subrange(start as int, i as int)) * 10
                + digit_value(c));
        }
        if !too_big {
            match acc.checked_mul(10) {
                Some(m) => match m.checked_add(digit) {
                    Some(v) => {
                        if v > count {
                            too_big = true;
                        } else {
                            acc = v;
                        }
                    },
                    None => {
                        too_big = true;
                    },
                },
                None => {
                    too_big = true;
                },
            }
        }
        i = i + 1;
    }
    proof {
        assert forall|j: int| 0 <= j < d.len() implies is_digit(#[trigger] d[j]) by {
            assert(d[j] == cs@[start + j]);
        }
    }
    if too_big || acc == 0 {
        None
    } else {
        Some(acc - 1)
    }
}

impl BasicMenu {
    /// The menu's lines: the title (the configuration's name, or a generic
    /// one), the message if there is one, then each item as `[n]: name`,
    /// numbered from 1.
    pub fn render(config: &Config) -> (r: Vec<String>)
        ensures
            string_views(r@) == menu_lines(*config),
    {
        let mut r: Vec<String> = Vec::new();
        match &config.name {
            Some(n) => r.push(n.clone()),
            None => r.push(String::from_str("b2 loader")),
        }
        match &config.message {
            Some(m) => r.push(m.clone()),
            None => {},
        }
        let ghost header = string_views(r@);
        assert(header =~= seq![title(*config)] + match config.message {
            Some(m) => seq![m@],
            None => Seq::empty(),
        });
        let n = config.items.len();
        let mut i: usize = 0;
        while i < n
            invariant
                n == config.items@.len(),
                i <= n,
                string_views(r@) == header + Seq::new(
                    i as nat,
                    |j: int| item_line(j as nat, config.items@[j].name@),
                ),
            decreases n - i,
        {
            let mut line = String::new();
            push_char(&mut line, '[');
            push_decimal(&mut line, i + 1);
            line.append("]: ");
            line.append(config.items[i].name.as_str());
            proof {
                assert(line@ =~= item_line(i as nat, config.items@[i as int].name@));
            }
            let ghost prev = r@;
            r.push(line);
            i = i + 1;
            proof {
                assert(string_views(r@) =~= string_views(prev).push(line@));
                assert(string_views(r@) =~= header + Seq::new(
                    i as nat,
                    |j: int| item_line(j as nat, config.items@[j].name@),
                ));
            }
        }
        proof {
            assert(string_views(r@) =~= menu_lines(*config));
        }
        r
    }

    /// Decides what a line typed at the menu prompt means: blank input is
    /// ignored, a number from 1 to the number of items selects that item,
    /// anything else is answered with "Invalid option.".
    pub fn prompt(&self, config: &Config, input: &str) -> (r: PromptReply)
        ensures
            trimmed(input@).len() == 0 ==> r matches PromptReply::Reprompt(None),
            menu_choice(config.items@.len(), input@) is Some ==> (r matches PromptReply::Select(i)
                && i == menu_choice(config.items@.len(), input@)->Some_0),
            trimmed(input@).len() > 0 && menu_choice(config.items@.len(), input@) is None ==> (r matches PromptReply::Reprompt(Some(m)) && m@ == "Invalid option."@),
    {
        let cs = chars_of(input);
        let (lo, hi) = trim_bounds(&cs);
        if lo == hi {
            return PromptReply::Reprompt(None);
        }
        match parse_choice(&cs, lo, hi, config.items.len()) {
            Some(k) => PromptReply::Select(k),
            None => PromptReply::Reprompt(Some(String::from_str("Invalid option."))),
        }
    }

    /// What to show before reading the answer for `option`: a list of the
    /// choices for a multiple-choice option, and the editor's prompt.
    pub fn option_prompt(option: &BootOption) -> (r: OptionPrompt)
        ensures
            string_views(r.lines@) == option_lines(*option),
            r.prompt@ == option_prompt_text(*option),
    {
        let mut lines: Vec<String> = Vec::new();
        let mut prompt = String::new();
        match &option.option {
            BootOptionKind::Bool(_) => {
                prompt.append(option.name.as_str());
                prompt.append("? (y/N/?) ");
            },
            BootOptionKind::Multiple(items) => {
                let mut head = option.name.clone();
                head.append(":");
                lines.push(head);
                let n = items.len();
                let mut i: usize = 0;
                while i < n
                    invariant
                        n == items@.len(),
                        i <= n,
                        string_views(lines@) == seq![option.name@ + ":"@] + Seq::new(
                            i as nat,
                            |j: int| choice_line(j as nat, items@[j].name@),
                        ),
                    decreases n - i,
                {
                    let mut line = String::new();
                    if i == 0 {
                        push_char(&mut line, '*');
                    } else {
                        push_char(&mut line, ' ');
                    }
                    push_char(&mut line, ' ');
                    push_decimal(&mut line, i + 1);
                    line.append(". ");
                    line.append(items[i].name.as_str());
                    proof {
                        assert(line@ =~= choice_line(i as nat, items@[i as int].name@));
                    }
                    let ghost prev = lines@;
                    lines.push(line);
                    i = i + 1;
                    proof {
                        assert(string_views(lines@) =~= string_views(prev).push(line@));
                        assert(string_views(lines@) =~= seq![option.name@ + ":"@] + Seq::new(
                            i as nat,
                            |j: int| choice_line(j as nat, items@[j].name@),
                        ));
                    }
                }
                prompt.append("Select: ");
            },
            BootOptionKind::Template(_) => {
                prompt.append(option.name.as_str());
                prompt.append(" (");
                push_description(&mut prompt, option, "no description");
                prompt.append(")= ");
            },
        }
        proof {
            assert(string_views(lines@) =~= option_lines(*option));
        }
        OptionPrompt { lines, prompt }
    }

    /// Decides what a line typed for `option` means.
    ///
    /// A yes/no option takes `y`/`Y` as yes and `n`/`N` or nothing as no; `?`
    /// explains the option. A multiple-choice option takes the number of a
    /// choice, counting from 1. A template takes the line as its value.
    pub fn boot_config(&self, option: &BootOption, input: &str) -> (r: OptionReply)
        requires
            option.option matches BootOptionKind::Multiple(items) ==> items@.len() <= i32::MAX,
        ensures
            match option_answer(*option, input@) {
                OptionAnswer::Choose(sel) => r matches OptionReply::Selected(s) && s == sel,
                OptionAnswer::TakeText => r matches OptionReply::Selected(
                    BootOptionSelection::Template(Some(v)),
                ) && v@ == input@,
                OptionAnswer::Explain(msg) => r matches OptionReply::Retry(m) && m@ == msg,
            },
    {
        let cs = chars_of(input);
        match &option.option {
            BootOptionKind::Bool(_) => {
                if cs.len() == 1 && (cs[0] == 'y' || cs[0] == 'Y') {
                    proof {
                        assert(cs@ =~= seq!['y'] || cs@ =~= seq!['Y']);
                    }
                    OptionReply::Selected(BootOptionSelection::Bool(true))
                } else if cs.len() == 0 || (cs.len() == 1 && (cs[0] == 'n' || cs[0] == 'N')) {
                    proof {
                        assert(cs@.len() == 0 || cs@ =~= seq!['n'] || cs@ =~= seq!['N']);
                        assert(cs@ != seq!['y'] && cs@ != seq!['Y']) by {
                            if cs@.len() == 1 {
                                assert(cs@[0] != seq!['y'][0]);
                                assert(cs@[0] != seq!['Y'][0]);
                            }
                        }
                    }
                    OptionReply::Selected(BootOptionSelection::Bool(false))
                } else {
                    proof {
                        if cs@.len() == 1 {
                            assert(cs@[0] != seq!['y'][0]);
                            assert(cs@[0] != seq!['Y'][0]);
                            assert(cs@[0] != seq!['n'][0]);
                            assert(cs@[0] != seq!['N'][0]);
                        } else {
                            assert(cs@.len() != seq!['y'].len());
                        }
                    }
                    if cs.len() == 1 && cs[0] == '?' {
                        proof {
                            assert(cs@ =~= seq!['?']);
                        }
                        let mut m = String::from_str("Option \"");
                        m.append(option.name.as_str());
                        m.append("\" (");
                        m.append(option.identifier.as_str());
                        m.append("): ");
                        push_description(&mut m, option, "(description unavailable)");
                        OptionReply::Retry(m)
                    } else {
                        proof {
                            if cs@.len() == 1 {
                                assert(cs@[0] != seq!['?'][0]);
                            }
                        }
                        let mut m = String::from_str(input);
                        m.append(" is not a valid option.");
                        OptionReply::Retry(m)
                    }
                }
            },
            BootOptionKind::Multiple(items) => {
                proof {
                    assert(cs@.subrange(0, cs@.len() as int) =~= cs@);
                }
                match parse_choice(&cs, 0, cs.len(), items.len()) {
                    Some(k) => OptionReply::Selected(BootOptionSelection::Multiple(k as i32)),
                    None => OptionReply::Retry(String::from_str("Invalid option.")),
                }
            },
            BootOptionKind::Template(_) => {
                OptionReply::Selected(BootOptionSelection::Template(Some(String::from_str(input))))
            },
        }
    }
}

} // verus!
