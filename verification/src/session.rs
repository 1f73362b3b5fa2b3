//! The launcher's session as a machine. In each stage the launcher waits
//! for one text from its driver: the operator's choice, the operator's
//! reply to a question, or what a program printed. `advance` says what
//! follows from that text: a notice for the operator, outside work, and
//! the next stage or the end of the session. The driver shows, reads and
//! runs; it decides nothing.

use crate::actions::{
    clone_my_repositories, clone_repos, clone_repos_plan, install_xcode, install_xcode_plan,
    install_xcodes, install_xcodes_plan, my_repository_plan, releasor_plan, rust_project_plan,
    setup_releasor, setup_rust_project, upgrade_mise, upgrade_mise_plan,
};
use crate::menu::{menu_lines, menu_text, parse, parse_menu_option, MenuOption};
use crate::text::{contains, occurs_in, trim, trimmed};
use crate::work::{Command, CommandModel, Step, StepModel};
use vstd::prelude::*;
use vstd::string::*;

verus! {

/// What an action asks the operator before it can start.
#[derive(Debug, Clone, Copy, PartialEq, Eq, Structural)]
pub enum Question {
    PackageName,
    ProjectName,
    Repository,
    XcodeVersion,
}

impl Question {
    /// The words of the question.
    pub open spec fn spec_prompt(self) -> Seq<char> {
        match self {
            Question::PackageName => "What's the package name: "@,
            Question::ProjectName => "What's the project name: "@,
            Question::Repository => "Which repository do you want to clone: "@,
            Question::XcodeVersion => "What's the Xcode version you want to install: "@,
        }
    }

    /// The words of the question.
    pub fn prompt(self) -> (words: &'static str)
        ensures
            words@ == self.spec_prompt(),
    {
        match self {
            Question::PackageName => "What's the package name: ",
            Question::ProjectName => "What's the project name: ",
            Question::Repository => "Which repository do you want to clone: ",
            Question::XcodeVersion => "What's the Xcode version you want to install: ",
        }
    }
}

/// What the launcher tells the operator without running anything.
#[derive(Debug, Clone, Copy, PartialEq, Eq, Structural)]
pub enum Notice {
    /// The operator has quit.
    Farewell,
    /// The operator's line selects nothing.
    NoSuchOption,
}

impl Notice {
    /// The words of the notice.
    pub open spec fn spec_words(self) -> Seq<char> {
        match self {
            Notice::Farewell => "Bye 👋"@,
            Notice::NoSuchOption => "❌ This option does not exist"@,
        }
    }

    /// The words of the notice.
    pub fn words(self) -> (words: &'static str)
        ensures
            words@ == self.spec_words(),
    {
        match self {
            Notice::Farewell => "Bye 👋",
            Notice::NoSuchOption => "❌ This option does not exist",
        }
    }
}

/// What the launcher waits for.
#[derive(Debug, Clone, Copy, PartialEq, Eq, Structural)]
pub enum Stage {
    /// The menu is shown: the next text is the operator's choice.
    Choice,
    /// The installed `xcodes` has been asked for its version: the next text
    /// is what it printed.
    Probe,
    /// A question is shown: the next text is the operator's reply.
    Reply(Question),
}

/// How the session goes on after a turn.
#[derive(Debug, Clone, Copy, PartialEq, Eq, Structural)]
pub enum Flow {
    /// The session goes on in the given stage.
    Continue(Stage),
    /// The session is over, with success.
    Terminate,
}

/// How often the driver goes through the menu.
#[derive(Debug, Clone, Copy, PartialEq, Eq, Structural)]
pub enum Mode {
    /// One choice, and what follows from it.
    Once,
    /// One choice after the other, until the operator quits.
    Repeat,
}

/// How the driver fared with a turn: with getting the text that the stage
/// waits for and with carrying out what follows from it.
#[derive(Debug, Clone, Copy, PartialEq, Eq, Structural)]
pub enum Outcome {
    /// All of it was done, and the turn said how the session goes on.
    Completed(Flow),
    /// The text could not be had, or a step failed.
    Failed,
}

/// The exit status of a session that ended with success.
pub const EXIT_SUCCESS: u8 = 0;

/// The exit status of a session that a failure ended.
pub const EXIT_FAILURE: u8 = 1;

/// What the driver does once the outcome of a turn is known.
#[derive(Debug, Clone, Copy, PartialEq, Eq, Structural)]
pub enum Verdict {
    /// Go on in the given stage.
    Resume(Stage),
    /// End the process with the given status; after a failure, report its
    /// cause.
    Exit { code: u8 },
}

/// What the driver has to do to get the text that a stage waits for.
#[derive(Debug, PartialEq, Eq)]
pub enum Request {
    /// Show the lines, then read one line from the operator.
    Ask { lines: Vec<String> },
    /// Run the command and hand back what it printed.
    Capture(Command),
}

/// A request as the contracts see it.
pub enum RequestModel {
    Ask { lines: Seq<Seq<char>> },
    Capture(CommandModel),
}

impl View for Request {
    type V = RequestModel;

    open spec fn view(&self) -> RequestModel {
        match self {
            Request::Ask { lines } => RequestModel::Ask { lines: lines.deep_view() },
            Request::Capture(command) => RequestModel::Capture(command@),
        }
    }
}

/// What follows from one text: a notice for the operator, the outside work
/// to carry out in the given order, and how the session goes on once the
/// work has succeeded.
#[derive(Debug, PartialEq, Eq)]
pub struct Turn {
    pub notice: Option<Notice>,
    pub steps: Vec<Step>,
    pub flow: Flow,
}

/// A turn as the contracts see it.
pub struct TurnModel {
    pub notice: Option<Notice>,
    pub steps: Seq<StepModel>,
    pub flow: Flow,
}

impl View for Turn {
    type V = TurnModel;

    open spec fn view(&self) -> TurnModel {
        TurnModel { notice: self.notice, steps: self.steps.deep_view(), flow: self.flow }
    }
}

/// The text that the installed `xcodes` must print for it to be used.
pub open spec fn supported_xcodes() -> Seq<char> {
    "1.6.2"@
}

/// The request of a stage.
pub open spec fn requested(stage: Stage) -> RequestModel {
    match stage {
        Stage::Choice => RequestModel::Ask {
            lines: seq![""@] + menu_text() + seq![""@, "Choose an option: "@],
        },
        Stage::Probe => RequestModel::Capture(
            CommandModel { program: "xcodes"@, args: seq!["version"@] },
        ),
        Stage::Reply(question) => RequestModel::Ask { lines: seq![""@, question.spec_prompt()] },
    }
}

/// The turn that carries out `steps` and comes back to the menu.
pub open spec fn work(steps: Seq<StepModel>) -> TurnModel {
    TurnModel { notice: None, steps, flow: Flow::Continue(Stage::Choice) }
}

/// The turn that does nothing but go on to `stage`.
pub open spec fn wait_for(stage: Stage) -> TurnModel {
    TurnModel { notice: None, steps: Seq::empty(), flow: Flow::Continue(stage) }
}

/// The turn that follows from a resolved option. An action that needs no
/// more input starts at once; one that needs a name asks for it; the
/// installation of Xcode first looks at the installed `xcodes`. `Quit` and
/// `Invalid` are answered with a notice and start nothing; only `Quit`
/// ends the session.
pub open spec fn dispatched(option: MenuOption) -> TurnModel {
    match option {
        MenuOption::CloneRepos => work(clone_repos_plan()),
        MenuOption::Releasor => wait_for(Stage::Reply(Question::PackageName)),
        MenuOption::RustProject => wait_for(Stage::Reply(Question::ProjectName)),
        MenuOption::CloneMyRepos => wait_for(Stage::Reply(Question::Repository)),
        MenuOption::Xcode => wait_for(Stage::Probe),
        MenuOption::UpgradeMise => work(upgrade_mise_plan()),
        MenuOption::Quit => TurnModel {
            notice: Some(Notice::Farewell),
            steps: Seq::empty(),
            flow: Flow::Terminate,
        },
        MenuOption::Invalid => TurnModel {
            notice: Some(Notice::NoSuchOption),
            steps: Seq::empty(),
            flow: Flow::Continue(Stage::Choice),
        },
    }
}

/// The turn that follows from the operator's reply to a question: the work
/// of the action that asked, on the reply without the white space around
/// it.
pub open spec fn answered(question: Question, reply: Seq<char>) -> TurnModel {
    match question {
        Question::PackageName => work(releasor_plan(trimmed(reply))),
        Question::ProjectName => work(rust_project_plan(trimmed(reply))),
        Question::Repository => work(my_repository_plan(trimmed(reply))),
        Question::XcodeVersion => work(install_xcode_plan(trimmed(reply))),
    }
}

/// The turn that follows from what the installed `xcodes` printed as its
/// version: with the supported version in it, the operator is asked which
/// Xcode to install; without, `xcodes` is installed.
pub open spec fn probed(output: Seq<char>) -> TurnModel {
    if occurs_in(supported_xcodes(), output) {
        wait_for(Stage::Reply(Question::XcodeVersion))
    } else {
        work(install_xcodes_plan())
    }
}

/// The turn that follows from `text` in `stage`.
pub open spec fn advanced(stage: Stage, text: Seq<char>) -> TurnModel {
    match stage {
        Stage::Choice => dispatched(parse(text)),
        Stage::Probe => probed(text),
        Stage::Reply(question) => answered(question, text),
    }
}

/// The verdict on a turn. A failure is final whatever the turn was about:
/// nothing is tried again. Without a failure the session goes on as the
/// turn said, but that a driver which runs once ends with success where
/// the other comes back to the menu.
pub open spec fn concluded(mode: Mode, outcome: Outcome) -> Verdict {
    match outcome {
        Outcome::Failed => Verdict::Exit { code: EXIT_FAILURE },
        Outcome::Completed(Flow::Terminate) => Verdict::Exit { code: EXIT_SUCCESS },
        Outcome::Completed(Flow::Continue(stage)) => if stage is Choice && mode is Once {
            Verdict::Exit { code: EXIT_SUCCESS }
        } else {
            Verdict::Resume(stage)
        },
    }
}

/// The stage in which a session starts.
pub fn start() -> (stage: Stage)
    ensures
        stage == Stage::Choice,
{
    Stage::Choice
}

/// What the driver has to do in `stage`.
pub fn request(stage: Stage) -> (request: Request)
    ensures
        request@ == requested(stage),
{
    match stage {
        Stage::Choice => {
            let mut lines: Vec<String> = Vec::new();
            lines.push(String::from_str(""));
            let mut menu = menu_lines();
            let ghost shown = menu.deep_view();
            lines.append(&mut menu);
            lines.push(String::from_str(""));
            lines.push(String::from_str("Choose an option: "));
            assert(lines.deep_view() =~= seq![""@] + shown + seq![""@, "Choose an option: "@]);
            Request::Ask { lines }
        },
        Stage::Probe => {
            let command = Command::new("xcodes").arg("version");
            assert(command@.args =~= seq!["version"@]);
            Request::Capture(command)
        },
        Stage::Reply(question) => {
            let mut lines: Vec<String> = Vec::new();
            lines.push(String::from_str(""));
            lines.push(String::from_str(question.prompt()));
            assert(lines.deep_view() =~= seq![""@, question.spec_prompt()]);
            Request::Ask { lines }
        },
    }
}

/// The turn that carries out `steps` and comes back to the menu.
fn work_turn(steps: Vec<Step>) -> (turn: Turn)
    ensures
        turn@ == work(steps.deep_view()),
{
    Turn { notice: None, steps, flow: Flow::Continue(Stage::Choice) }
}

/// The turn that does nothing but go on to `stage`.
fn wait_turn(stage: Stage) -> (turn: Turn)
    ensures
        turn@ == wait_for(stage),
{
    let turn = Turn { notice: None, steps: Vec::new(), flow: Flow::Continue(stage) };
    assert(turn.steps.deep_view() =~= Seq::empty());
    turn
}

/// The turn that tells the operator `notice` and goes on with `flow`.
fn notice_turn(notice: Notice, flow: Flow) -> (turn: Turn)
    ensures
        turn@ == (TurnModel { notice: Some(notice), steps: Seq::empty(), flow }),
{
    let turn = Turn { notice: Some(notice), steps: Vec::new(), flow };
    assert(turn.steps.deep_view() =~= Seq::empty());
    turn
}

/// Binds a resolved option to what it stands for.
pub fn dispatch(option: MenuOption) -> (turn: Turn)
    ensures
        turn@ == dispatched(option),
{
    match option {
        MenuOption::CloneRepos => work_turn(clone_repos()),
        MenuOption::Releasor => wait_turn(Stage::Reply(Question::PackageName)),
        MenuOption::RustProject => wait_turn(Stage::Reply(Question::ProjectName)),
        MenuOption::CloneMyRepos => wait_turn(Stage::Reply(Question::Repository)),
        MenuOption::Xcode => wait_turn(Stage::Probe),
        MenuOption::UpgradeMise => work_turn(upgrade_mise()),
        MenuOption::Quit => notice_turn(Notice::Farewell, Flow::Terminate),
        MenuOption::Invalid => notice_turn(Notice::NoSuchOption, Flow::Continue(Stage::Choice)),
    }
}

/// The name that the operator gave in the line `reply`: the line without
/// the white space around it. Nothing else is asked of a name.
pub fn input_name(reply: &str) -> (name: String)
    ensures
        name@ == trimmed(reply@),
{
    String::from_str(trim(reply))
}

/// Starts the action that asked `question`, on the operator's reply.
pub fn answer(question: Question, reply: &str) -> (turn: Turn)
    ensures
        turn@ == answered(question, reply@),
{
    let name = input_name(reply);
    match question {
        Question::PackageName => work_turn(setup_releasor(name.as_str())),
        Question::ProjectName => work_turn(setup_rust_project(name.as_str())),
        Question::Repository => work_turn(clone_my_repositories(name.as_str())),
        Question::XcodeVersion => work_turn(install_xcode(name.as_str())),
    }
}

/// Decides how the installation of Xcode goes on, from what the installed
/// `xcodes` printed as its version.
pub fn setup_xcode(version_output: &str) -> (turn: Turn)
    ensures
        turn@ == probed(version_output@),
{
    if contains(version_output, "1.6.2") {
        wait_turn(Stage::Reply(Question::XcodeVersion))
    } else {
        work_turn(install_xcodes())
    }
}

/// What follows from `text` in `stage`. Every text is taken: a line that
/// selects nothing is answered with a notice, and the session goes on.
pub fn advance(stage: Stage, text: &str) -> (turn: Turn)
    ensures
        turn@ == advanced(stage, text@),
{
    match stage {
        Stage::Choice => dispatch(parse_menu_option(text)),
        Stage::Probe => setup_xcode(text),
        Stage::Reply(question) => answer(question, text),
    }
}

/// Decides what the driver does after a turn.
pub fn conclude(mode: Mode, outcome: Outcome) -> (verdict: Verdict)
    ensures
        verdict == concluded(mode, outcome),
{
    match outcome {
        Outcome::Failed => Verdict::Exit { code: EXIT_FAILURE },
        Outcome::Completed(Flow::Terminate) => Verdict::Exit { code: EXIT_SUCCESS },
        Outcome::Completed(Flow::Continue(Stage::Choice)) => match mode {
            Mode::Once => Verdict::Exit { code: EXIT_SUCCESS },
            Mode::Repeat => Verdict::Resume(Stage::Choice),
        },
        Outcome::Completed(Flow::Continue(stage)) => Verdict::Resume(stage),
    }
}

/// Only the choice of `Quit` ends a session, and it starts no work.
pub proof fn lemma_only_quit_terminates(stage: Stage, text: Seq<char>)
    ensures
        advanced(stage, text).flow is Terminate <==> stage is Choice && parse(text) is Quit,
        advanced(stage, text).flow is Terminate ==> advanced(stage, text).steps.len() == 0,
{
}

/// A notice comes without work: a line that selects nothing, and the
/// choice of `Quit`, start no program.
pub proof fn lemma_notice_without_work(stage: Stage, text: Seq<char>)
    ensures
        advanced(stage, text).notice is Some <==> stage is Choice && !parse(text).is_action(),
        advanced(stage, text).notice is Some ==> advanced(stage, text).steps.len() == 0,
        stage is Choice && parse(text) is Invalid ==> advanced(stage, text).flow
            == Flow::Continue(Stage::Choice),
{
}

/// A session ends with a status other than zero exactly after a failure
/// of the driver, whatever the turn was about; and a session that goes
/// from choice to choice ends with the status zero exactly after the
/// choice of `Quit`.
pub proof fn lemma_session_ends(mode: Mode, stage: Stage, text: Seq<char>)
    ensures
        concluded(mode, Outcome::Failed) == (Verdict::Exit { code: EXIT_FAILURE }),
        EXIT_FAILURE != 0,
        concluded(mode, Outcome::Completed(advanced(stage, text).flow)) != (Verdict::Exit {
            code: EXIT_FAILURE,
        }),
        concluded(Mode::Repeat, Outcome::Completed(advanced(stage, text).flow)) == (Verdict::Exit {
            code: 0,
        }) <==> stage is Choice && parse(text) is Quit,
{
}

/// A session of one choice ends with the status zero as soon as a turn
/// would come back to the menu: after a line that selects nothing, after
/// the work of an action, and after the choice of `Quit`.
pub proof fn lemma_single_choice_ends(stage: Stage, text: Seq<char>)
    ensures
        concluded(Mode::Once, Outcome::Completed(advanced(stage, text).flow)) == (Verdict::Exit {
            code: 0,
        }) <==> advanced(stage, text).flow == Flow::Continue(Stage::Choice) || advanced(
            stage,
            text,
        ).flow is Terminate,
        stage is Choice && !parse(text).is_action() ==> concluded(
            Mode::Once,
            Outcome::Completed(advanced(stage, text).flow),
        ) == (Verdict::Exit { code: 0 }),
{
}

/// An action asks the operator at most one question: the turn after a
/// reply starts the work and comes back to the menu.
pub proof fn lemma_one_question_per_action(question: Question, reply: Seq<char>)
    ensures
        answered(question, reply).notice is None,
        answered(question, reply).flow == Flow::Continue(Stage::Choice),
        answered(question, reply).steps.len() > 0,
{
}

} // verus!
