//! The menu: its options, the lines it shows and the parser for the
//! operator's choice.

use crate::text::{
    all_white_space, lemma_trimmed_ignores_padding, lemma_trimmed_of_clean, same_text, trim,
    trimmed,
};
use vstd::prelude::*;
use vstd::string::*;

verus! {

/// What the operator can select: one variant per action, in the order of
/// the menu, and two sentinels.
#[derive(Debug, Clone, Copy, PartialEq, Eq, Structural)]
pub enum MenuOption {
    CloneRepos,
    Releasor,
    RustProject,
    CloneMyRepos,
    Xcode,
    UpgradeMise,
    Quit,
    Invalid,
}

/// The number of actions that the menu offers.
pub const ACTION_COUNT: usize = 6;

impl MenuOption {
    /// Whether the option stands for an action of the menu.
    pub open spec fn is_action(self) -> bool {
        !(self is Quit) && !(self is Invalid)
    }

    /// The token that the menu shows for the option. `Invalid` is not shown.
    pub open spec fn key(self) -> Seq<char>
        recommends
            !(self is Invalid),
    {
        match self {
            MenuOption::CloneRepos => "1"@,
            MenuOption::Releasor => "2"@,
            MenuOption::RustProject => "3"@,
            MenuOption::CloneMyRepos => "4"@,
            MenuOption::Xcode => "5"@,
            MenuOption::UpgradeMise => "6"@,
            MenuOption::Quit => "q"@,
            MenuOption::Invalid => Seq::empty(),
        }
    }

    /// The words that the menu shows for the option. `Invalid` is not shown.
    pub open spec fn label(self) -> Seq<char>
        recommends
            !(self is Invalid),
    {
        match self {
            MenuOption::CloneRepos => "Clone HeroesOfCode's repositories"@,
            MenuOption::Releasor => "Releasor"@,
            MenuOption::RustProject => "Create rust project"@,
            MenuOption::CloneMyRepos => "Clone my repositories"@,
            MenuOption::Xcode => "Install Xcode"@,
            MenuOption::UpgradeMise => "Upgrade mise"@,
            MenuOption::Quit => "Quit"@,
            MenuOption::Invalid => Seq::empty(),
        }
    }

    /// The line of the menu for the option: key, separator, label.
    pub open spec fn line(self) -> Seq<char>
        recommends
            !(self is Invalid),
    {
        self.key() + " - "@ + self.label()
    }
}

/// The options that the menu shows, in the order in which it shows them:
/// the actions, then `Quit`.
pub open spec fn menu_order() -> Seq<MenuOption> {
    seq![
        MenuOption::CloneRepos,
        MenuOption::Releasor,
        MenuOption::RustProject,
        MenuOption::CloneMyRepos,
        MenuOption::Xcode,
        MenuOption::UpgradeMise,
        MenuOption::Quit,
    ]
}

/// The lines of the menu.
pub open spec fn menu_text() -> Seq<Seq<char>> {
    menu_order().map_values(|option: MenuOption| option.line())
}

/// The numeral of a number of one digit.
pub open spec fn numeral(k: int) -> Seq<char>
    recommends
        0 <= k <= 9,
{
    seq![('0' as int + k) as char]
}

/// Whether `token` is one of the spellings of quit. Case matters.
pub open spec fn is_quit_alias(token: Seq<char>) -> bool {
    token == "q"@ || token == "quit"@ || token == "exit"@
}

/// The option that a token selects: an action by its key, `Quit` by one of
/// its spellings, and `Invalid` for every other token.
pub open spec fn parse_token(token: Seq<char>) -> MenuOption {
    if token == "1"@ {
        MenuOption::CloneRepos
    } else if token == "2"@ {
        MenuOption::Releasor
    } else if token == "3"@ {
        MenuOption::RustProject
    } else if token == "4"@ {
        MenuOption::CloneMyRepos
    } else if token == "5"@ {
        MenuOption::Xcode
    } else if token == "6"@ {
        MenuOption::UpgradeMise
    } else if is_quit_alias(token) {
        MenuOption::Quit
    } else {
        MenuOption::Invalid
    }
}

/// The option that a line of input selects: that of the line's token, which
/// is the line without the white space around it.
pub open spec fn parse(input: Seq<char>) -> MenuOption {
    parse_token(trimmed(input))
}

/// Resolves a line of input to an option. Every line resolves to exactly
/// one option; a line that selects nothing resolves to `Invalid`.
pub fn parse_menu_option(input: &str) -> (option: MenuOption)
    ensures
        option == parse(input@),
{
    let token = trim(input);
    if same_text(token, "1") {
        MenuOption::CloneRepos
    } else if same_text(token, "2") {
        MenuOption::Releasor
    } else if same_text(token, "3") {
        MenuOption::RustProject
    } else if same_text(token, "4") {
        MenuOption::CloneMyRepos
    } else if same_text(token, "5") {
        MenuOption::Xcode
    } else if same_text(token, "6") {
        MenuOption::UpgradeMise
    } else if same_text(token, "q") || same_text(token, "quit") || same_text(token, "exit") {
        MenuOption::Quit
    } else {
        MenuOption::Invalid
    }
}

/// One line of the menu.
fn menu_line(key: &str, label: &str) -> (line: String)
    ensures
        line@ == key@ + " - "@ + label@,
{
    let mut line = String::from_str(key);
    line.append(" - ");
    line.append(label);
    line
}

/// The lines of the menu, in the order in which they are shown, the line
/// for quitting last.
pub fn menu_lines() -> (lines: Vec<String>)
    ensures
        lines.deep_view() == menu_text(),
{
    let mut lines: Vec<String> = Vec::new();
    lines.push(menu_line("1", "Clone HeroesOfCode's repositories"));
    lines.push(menu_line("2", "Releasor"));
    lines.push(menu_line("3", "Create rust project"));
    lines.push(menu_line("4", "Clone my repositories"));
    lines.push(menu_line("5", "Install Xcode"));
    lines.push(menu_line("6", "Upgrade mise"));
    lines.push(menu_line("q", "Quit"));
    assert(lines.deep_view() =~= menu_text());
    lines
}

/// Brings what the literals of the parser hold into a proof.
proof fn reveal_keys()
    ensures
        "1"@ == seq!['1'] && "1"@.len() == 1 && "1"@[0] == '1',
        "2"@ == seq!['2'] && "2"@.len() == 1 && "2"@[0] == '2',
        "3"@ == seq!['3'] && "3"@.len() == 1 && "3"@[0] == '3',
        "4"@ == seq!['4'] && "4"@.len() == 1 && "4"@[0] == '4',
        "5"@ == seq!['5'] && "5"@.len() == 1 && "5"@[0] == '5',
        "6"@ == seq!['6'] && "6"@.len() == 1 && "6"@[0] == '6',
        "q"@ == seq!['q'] && "q"@.len() == 1 && "q"@[0] == 'q',
        "quit"@ == seq!['q', 'u', 'i', 't'] && "quit"@.len() == 4 && "quit"@[3] == 't',
        "exit"@ == seq!['e', 'x', 'i', 't'] && "exit"@.len() == 4 && "exit"@[0] == 'e',
{
    reveal_strlit("1");
    reveal_strlit("2");
    reveal_strlit("3");
    reveal_strlit("4");
    reveal_strlit("5");
    reveal_strlit("6");
    reveal_strlit("q");
    reveal_strlit("quit");
    reveal_strlit("exit");
    assert("1"@ =~= seq!['1']);
    assert("2"@ =~= seq!['2']);
    assert("3"@ =~= seq!['3']);
    assert("4"@ =~= seq!['4']);
    assert("5"@ =~= seq!['5']);
    assert("6"@ =~= seq!['6']);
    assert("q"@ =~= seq!['q']);
    assert("quit"@ =~= seq!['q', 'u', 'i', 't']);
    assert("exit"@ =~= seq!['e', 'x', 'i', 't']);
}

/// The numerals from "1" to the number of actions select the actions in the
/// order of the menu, and every other numeral of one digit, the next one
/// among them, selects nothing.
pub proof fn lemma_numerals_select_actions(k: int)
    requires
        0 <= k <= 9,
    ensures
        parse(numeral(k)) == if 1 <= k <= ACTION_COUNT {
            menu_order()[k - 1]
        } else {
            MenuOption::Invalid
        },
{
    reveal_keys();
    let token = numeral(k);
    assert(token[0] == ('0' as int + k) as char);
    assert(trimmed(token) == token);
    if 1 <= k <= ACTION_COUNT {
        assert(token =~= menu_order()[k - 1].key());
    }
}

/// The key that the menu shows for an option selects that option, whatever
/// white space stands around it.
pub proof fn lemma_key_selects_option(option: MenuOption, before: Seq<char>, after: Seq<char>)
    requires
        !(option is Invalid),
        all_white_space(before),
        all_white_space(after),
    ensures
        parse(before + option.key() + after) == option,
{
    reveal_keys();
    lemma_trimmed_ignores_padding(before, option.key(), after);
    lemma_trimmed_of_clean(option.key());
}

/// Every line selects exactly one option, and `Invalid` is the one for
/// every line whose token is neither the key of an action nor a spelling
/// of quit: the empty line and the line of white space among them.
pub proof fn lemma_invalid_is_the_rest(input: Seq<char>)
    ensures
        parse(input) is Invalid <==> !is_quit_alias(trimmed(input)) && forall|option: MenuOption|
            option.is_action() ==> trimmed(input) != #[trigger] option.key(),
        all_white_space(input) ==> parse(input) is Invalid,
{
    reveal_keys();
    if parse(input).is_action() {
        assert(trimmed(input) == parse(input).key());
    }
    if all_white_space(input) {
        lemma_trimmed_ignores_padding(input, Seq::empty(), Seq::empty());
        assert(input + Seq::<char>::empty() + Seq::<char>::empty() =~= input);
        assert(trimmed(input).len() == 0);
    }
}

/// A line selects an action exactly when its token is the key of that
/// action.
pub proof fn lemma_action_has_one_key(input: Seq<char>, option: MenuOption)
    requires
        option.is_action(),
    ensures
        parse(input) == option <==> trimmed(input) == option.key(),
{
    reveal_keys();
}

/// A line selects `Quit` exactly when its token is "q", "quit" or "exit",
/// in lower case: "Q" and "QUIT" select nothing.
pub proof fn lemma_quit_has_three_spellings(input: Seq<char>)
    ensures
        parse(input) == MenuOption::Quit <==> is_quit_alias(trimmed(input)),
        parse("Q"@) == MenuOption::Invalid,
        parse("QUIT"@) == MenuOption::Invalid,
{
    reveal_keys();
    reveal_strlit("Q");
    reveal_strlit("QUIT");
    assert("Q"@[0] == 'Q');
    assert("QUIT"@[0] == 'Q');
    assert(trimmed("Q"@) == "Q"@);
    assert(trimmed("QUIT"@) == "QUIT"@);
}

/// The menu has a line for each action and one more, the last, for
/// quitting: "q - Quit".
pub proof fn lemma_quit_is_shown_last()
    ensures
        menu_text().len() == ACTION_COUNT + 1,
        menu_text().last() == "q - Quit"@,
{
    reveal_strlit("q");
    reveal_strlit(" - ");
    reveal_strlit("Quit");
    reveal_strlit("q - Quit");
    assert(menu_text().last() == MenuOption::Quit.line());
    assert("q"@ + " - "@ + "Quit"@ =~= "q - Quit"@);
}

/// White space around a line does not change what it selects.
pub proof fn lemma_parse_ignores_padding(before: Seq<char>, input: Seq<char>, after: Seq<char>)
    requires
        all_white_space(before),
        all_white_space(after),
    ensures
        parse(before + input + after) == parse(input),
{
    lemma_trimmed_ignores_padding(before, input, after);
}

/// What a line selects depends on its token alone: two lines with the same
/// token, and so the same line read twice, select the same option.
pub proof fn lemma_parse_depends_on_token(first: Seq<char>, second: Seq<char>)
    requires
        trimmed(first) == trimmed(second),
    ensures
        parse(first) == parse(second),
{
}

} // verus!
