use launcher::menu::{menu_lines, MenuOption};
use launcher::session::{
    advance, answer, conclude, dispatch, input_name, request, setup_xcode, start, Flow, Mode,
    Notice, Outcome, Question, Request, Stage, Turn, Verdict, EXIT_FAILURE, EXIT_SUCCESS,
};
use launcher::work::{Command, Step};

fn run_step(program: &str, args: &[&str]) -> Step {
    Step::Run(Command {
        program: program.to_string(),
        args: args.iter().map(|arg| arg.to_string()).collect(),
    })
}

fn back_to_menu(steps: Vec<Step>) -> Turn {
    Turn { notice: None, steps, flow: Flow::Continue(Stage::Choice) }
}

fn wait_for(stage: Stage) -> Turn {
    Turn { notice: None, steps: vec![], flow: Flow::Continue(stage) }
}

#[test]
fn a_session_starts_at_the_menu() {
    assert_eq!(start(), Stage::Choice);
}

#[test]
fn the_menu_is_shown_before_a_choice() {
    let mut lines = vec![String::new()];
    lines.extend(menu_lines());
    lines.push(String::new());
    lines.push("Choose an option: ".to_string());
    assert_eq!(request(Stage::Choice), Request::Ask { lines: lines.clone() });
    assert_eq!(lines.len(), 10);
    assert_eq!(lines[1], "1 - Clone HeroesOfCode's repositories");
    assert_eq!(lines[7], "q - Quit");
}

#[test]
fn a_question_is_shown_before_a_reply() {
    let asked = |question: Question, words: &str| {
        assert_eq!(question.prompt(), words);
        assert_eq!(
            request(Stage::Reply(question)),
            Request::Ask { lines: vec![String::new(), words.to_string()] }
        );
    };
    asked(Question::PackageName, "What's the package name: ");
    asked(Question::ProjectName, "What's the project name: ");
    asked(Question::Repository, "Which repository do you want to clone: ");
    asked(Question::XcodeVersion, "What's the Xcode version you want to install: ");
}

#[test]
fn the_installed_xcodes_is_asked_for_its_version() {
    assert_eq!(
        request(Stage::Probe),
        Request::Capture(Command { program: "xcodes".to_string(), args: vec!["version".to_string()] })
    );
}

#[test]
fn the_notices_have_their_words() {
    assert_eq!(Notice::Farewell.words(), "Bye 👋");
    assert_eq!(Notice::NoSuchOption.words(), "❌ This option does not exist");
}

#[test]
fn each_option_is_bound_to_what_it_stands_for() {
    assert_eq!(dispatch(MenuOption::CloneRepos), back_to_menu(vec![run_step("hoc", &["clone"])]));
    assert_eq!(dispatch(MenuOption::Releasor), wait_for(Stage::Reply(Question::PackageName)));
    assert_eq!(dispatch(MenuOption::RustProject), wait_for(Stage::Reply(Question::ProjectName)));
    assert_eq!(dispatch(MenuOption::CloneMyRepos), wait_for(Stage::Reply(Question::Repository)));
    assert_eq!(dispatch(MenuOption::Xcode), wait_for(Stage::Probe));
    assert_eq!(
        dispatch(MenuOption::UpgradeMise),
        back_to_menu(vec![run_step("brew", &["upgrade", "mise"])])
    );
    assert_eq!(
        dispatch(MenuOption::Quit),
        Turn { notice: Some(Notice::Farewell), steps: vec![], flow: Flow::Terminate }
    );
    assert_eq!(
        dispatch(MenuOption::Invalid),
        Turn {
            notice: Some(Notice::NoSuchOption),
            steps: vec![],
            flow: Flow::Continue(Stage::Choice),
        }
    );
}

#[test]
fn a_name_is_the_reply_without_the_white_space_around_it() {
    assert_eq!(input_name("mypkg\n"), "mypkg");
    assert_eq!(input_name("  my pkg \r\n"), "my pkg");
    assert_eq!(input_name("\t\u{3000}name\u{a0}"), "name");
    assert_eq!(input_name("name"), "name");
    assert_eq!(input_name(" \n"), "");
    assert_eq!(input_name(""), "");
}

#[test]
fn a_reply_starts_the_action_that_asked() {
    assert_eq!(
        answer(Question::PackageName, " mypkg \n"),
        back_to_menu(vec![run_step("releasor", &["-f", "mypkg"])])
    );
    assert_eq!(
        answer(Question::ProjectName, "demo\n"),
        back_to_menu(vec![
            run_step("bash", &["-c", "cargo new demo && cd demo"]),
            Step::WriteScript { dir: "demo".to_string(), file: "rust_files.sh".to_string() },
            run_step(
                "bash",
                &[
                    "-c",
                    "cd demo && chmod +x rust_files.sh && ./rust_files.sh && rm rust_files.sh && rm -rf .git",
                ],
            ),
        ])
    );
    assert_eq!(
        answer(Question::Repository, "dotfiles\n"),
        back_to_menu(vec![Step::CloneBranch {
            url: "https://github.com/joaolfp/dotfiles".to_string(),
            dest: "dotfiles/".to_string(),
            branch: "main".to_string(),
        }])
    );
    assert_eq!(
        answer(Question::XcodeVersion, "16.2\n"),
        back_to_menu(vec![run_step("xcodes", &["update"]), run_step("xcodes", &["install", "16.2"])])
    );
}

#[test]
fn the_supported_xcodes_leads_to_the_question_for_a_version() {
    let ask = wait_for(Stage::Reply(Question::XcodeVersion));
    assert_eq!(setup_xcode("1.6.2"), ask);
    assert_eq!(setup_xcode("xcodes 1.6.2 (build 7)"), ask);
    assert_eq!(setup_xcode("11.6.20"), ask);
}

#[test]
fn another_xcodes_is_replaced() {
    let install = back_to_menu(vec![run_step("brew", &["install", "xcodesorg/made/xcodes"])]);
    assert_eq!(setup_xcode(""), install);
    assert_eq!(setup_xcode("1.6.1"), install);
    assert_eq!(setup_xcode("1.6"), install);
    assert_eq!(setup_xcode("1.6 .2"), install);
    assert_eq!(setup_xcode("2.6.1"), install);
    assert_eq!(setup_xcode("command not found: xcodes"), install);
}

#[test]
fn choosing_the_first_option_clones_once_without_a_question() {
    let turn = advance(Stage::Choice, "1");
    assert_eq!(turn, back_to_menu(vec![run_step("hoc", &["clone"])]));
    assert_eq!(turn.steps.len(), 1);
    assert_eq!(conclude(Mode::Repeat, Outcome::Completed(turn.flow)), Verdict::Resume(Stage::Choice));
}

#[test]
fn choosing_the_second_option_asks_once_and_hands_the_reply_on() {
    let asked = advance(Stage::Choice, "2");
    assert_eq!(asked, wait_for(Stage::Reply(Question::PackageName)));
    let stage = match conclude(Mode::Repeat, Outcome::Completed(asked.flow)) {
        Verdict::Resume(stage) => stage,
        verdict => panic!("{:?}", verdict),
    };
    assert_eq!(
        request(stage),
        Request::Ask { lines: vec![String::new(), "What's the package name: ".to_string()] }
    );
    let turn = advance(stage, "mypkg");
    assert_eq!(turn, back_to_menu(vec![run_step("releasor", &["-f", "mypkg"])]));
    assert_eq!(conclude(Mode::Repeat, Outcome::Completed(turn.flow)), Verdict::Resume(Stage::Choice));
}

#[test]
fn an_empty_line_is_answered_with_a_notice_and_the_menu_again() {
    let turn = advance(Stage::Choice, "");
    assert_eq!(turn.notice, Some(Notice::NoSuchOption));
    assert!(turn.notice.unwrap().words().contains("option does not exist"));
    assert!(turn.steps.is_empty());
    assert_eq!(turn.flow, Flow::Continue(Stage::Choice));
    assert_eq!(conclude(Mode::Repeat, Outcome::Completed(turn.flow)), Verdict::Resume(Stage::Choice));
    assert_eq!(conclude(Mode::Once, Outcome::Completed(turn.flow)), Verdict::Exit { code: 0 });
    assert_eq!(advance(Stage::Choice, "\n"), turn);
    match request(Stage::Choice) {
        Request::Ask { lines } => assert!(lines.contains(&"q - Quit".to_string())),
        other => panic!("{:?}", other),
    }
}

#[test]
fn exit_says_farewell_and_ends_the_session_with_success() {
    let turn = advance(Stage::Choice, "exit");
    assert_eq!(turn, Turn { notice: Some(Notice::Farewell), steps: vec![], flow: Flow::Terminate });
    assert!(turn.notice.unwrap().words().contains("Bye"));
    assert_eq!(conclude(Mode::Once, Outcome::Completed(turn.flow)), Verdict::Exit { code: 0 });
    assert_eq!(conclude(Mode::Repeat, Outcome::Completed(turn.flow)), Verdict::Exit { code: 0 });
    assert_eq!(advance(Stage::Choice, "q\n"), turn);
    assert_eq!(advance(Stage::Choice, " quit "), turn);
}

#[test]
fn installing_xcode_probes_then_asks_then_installs() {
    let chosen = advance(start(), "5\n");
    assert_eq!(chosen, wait_for(Stage::Probe));
    let probed = advance(Stage::Probe, "1.6.2");
    assert_eq!(probed, wait_for(Stage::Reply(Question::XcodeVersion)));
    let turn = advance(Stage::Reply(Question::XcodeVersion), "16.2\n");
    assert_eq!(
        turn,
        back_to_menu(vec![run_step("xcodes", &["update"]), run_step("xcodes", &["install", "16.2"])])
    );
    let missing = advance(Stage::Probe, "1.5.0");
    assert_eq!(
        missing,
        back_to_menu(vec![run_step("brew", &["install", "xcodesorg/made/xcodes"])])
    );
}

#[test]
fn a_reply_is_not_read_as_a_choice() {
    assert_eq!(
        advance(Stage::Reply(Question::PackageName), "q"),
        back_to_menu(vec![run_step("releasor", &["-f", "q"])])
    );
    assert_eq!(
        advance(Stage::Reply(Question::Repository), "1"),
        back_to_menu(vec![Step::CloneBranch {
            url: "https://github.com/joaolfp/1".to_string(),
            dest: "1/".to_string(),
            branch: "main".to_string(),
        }])
    );
    assert_eq!(
        advance(Stage::Probe, "exit"),
        back_to_menu(vec![run_step("brew", &["install", "xcodesorg/made/xcodes"])])
    );
}

#[test]
fn a_failure_is_final() {
    assert_eq!(conclude(Mode::Once, Outcome::Failed), Verdict::Exit { code: 1 });
    assert_eq!(conclude(Mode::Repeat, Outcome::Failed), Verdict::Exit { code: 1 });
    assert_eq!(EXIT_FAILURE, 1);
    assert_eq!(EXIT_SUCCESS, 0);
}

#[test]
fn without_a_failure_a_repeating_session_goes_on_as_the_turn_said() {
    assert_eq!(
        conclude(Mode::Repeat, Outcome::Completed(Flow::Terminate)),
        Verdict::Exit { code: 0 }
    );
    for stage in [
        Stage::Choice,
        Stage::Probe,
        Stage::Reply(Question::PackageName),
        Stage::Reply(Question::ProjectName),
        Stage::Reply(Question::Repository),
        Stage::Reply(Question::XcodeVersion),
    ] {
        assert_eq!(
            conclude(Mode::Repeat, Outcome::Completed(Flow::Continue(stage))),
            Verdict::Resume(stage)
        );
    }
}

#[test]
fn a_session_of_one_choice_ends_where_the_menu_would_come_again() {
    assert_eq!(
        conclude(Mode::Once, Outcome::Completed(Flow::Terminate)),
        Verdict::Exit { code: 0 }
    );
    assert_eq!(
        conclude(Mode::Once, Outcome::Completed(Flow::Continue(Stage::Choice))),
        Verdict::Exit { code: 0 }
    );
    for stage in [
        Stage::Probe,
        Stage::Reply(Question::PackageName),
        Stage::Reply(Question::ProjectName),
        Stage::Reply(Question::Repository),
        Stage::Reply(Question::XcodeVersion),
    ] {
        assert_eq!(
            conclude(Mode::Once, Outcome::Completed(Flow::Continue(stage))),
            Verdict::Resume(stage)
        );
    }
}
