//! The actions of the menu: for each, the outside work it stands for.

use crate::work::{Command, CommandModel, Step, StepModel};
use vstd::prelude::*;
use vstd::string::*;

verus! {

/// The model of a step that runs `program` with `args`.
pub open spec fn runs(program: Seq<char>, args: Seq<Seq<char>>) -> StepModel {
    StepModel::Run(CommandModel { program, args })
}

/// Cloning the shared repositories: `hoc clone`.
pub open spec fn clone_repos_plan() -> Seq<StepModel> {
    seq![runs("hoc"@, seq!["clone"@])]
}

/// Packaging a release of `package_name`: `releasor -f <package_name>`.
pub open spec fn releasor_plan(package_name: Seq<char>) -> Seq<StepModel> {
    seq![runs("releasor"@, seq!["-f"@, package_name])]
}

/// The shell script that creates the project `project_name`.
pub open spec fn create_project_script(project_name: Seq<char>) -> Seq<char> {
    "cargo new "@ + project_name + " && cd "@ + project_name
}

/// The shell script that runs the bundled script inside the project
/// `project_name` and then removes it and the project's repository.
pub open spec fn furnish_project_script(project_name: Seq<char>) -> Seq<char> {
    "cd "@ + project_name
        + " && chmod +x rust_files.sh && ./rust_files.sh && rm rust_files.sh && rm -rf .git"@
}

/// Scaffolding the project `project_name`: create it, write the bundled
/// script into it, run the script and clean up.
pub open spec fn rust_project_plan(project_name: Seq<char>) -> Seq<StepModel> {
    seq![
        runs("bash"@, seq!["-c"@, create_project_script(project_name)]),
        StepModel::WriteScript { dir: project_name, file: "rust_files.sh"@ },
        runs("bash"@, seq!["-c"@, furnish_project_script(project_name)]),
    ]
}

/// Cloning the repository `repo` of the owner: its `main` branch, into the
/// directory named after it.
pub open spec fn my_repository_plan(repo: Seq<char>) -> Seq<StepModel> {
    seq![
        StepModel::CloneBranch {
            url: "https://github.com/joaolfp/"@ + repo,
            dest: repo + "/"@,
            branch: "main"@,
        },
    ]
}

/// Installing the tool that installs Xcode: `brew install
/// xcodesorg/made/xcodes`.
pub open spec fn install_xcodes_plan() -> Seq<StepModel> {
    seq![runs("brew"@, seq!["install"@, "xcodesorg/made/xcodes"@])]
}

/// Installing the Xcode `version`: `xcodes update`, then `xcodes install
/// <version>`.
pub open spec fn install_xcode_plan(version: Seq<char>) -> Seq<StepModel> {
    seq![runs("xcodes"@, seq!["update"@]), runs("xcodes"@, seq!["install"@, version])]
}

/// Upgrading mise: `brew upgrade mise`.
pub open spec fn upgrade_mise_plan() -> Seq<StepModel> {
    seq![runs("brew"@, seq!["upgrade"@, "mise"@])]
}

/// The step that runs `program` with one argument.
fn run_one(program: &str, arg: &str) -> (step: Step)
    ensures
        step@ == runs(program@, seq![arg@]),
{
    let command = Command::new(program).arg(arg);
    assert(command@.args =~= seq![arg@]);
    Step::Run(command)
}

/// The step that runs `program` with two arguments.
fn run_two(program: &str, first: &str, second: &str) -> (step: Step)
    ensures
        step@ == runs(program@, seq![first@, second@]),
{
    let command = Command::new(program).arg(first).arg(second);
    assert(command@.args =~= seq![first@, second@]);
    Step::Run(command)
}

/// The work of cloning the shared repositories.
pub fn clone_repos() -> (plan: Vec<Step>)
    ensures
        plan.deep_view() == clone_repos_plan(),
{
    let mut plan: Vec<Step> = Vec::new();
    plan.push(run_one("hoc", "clone"));
    assert(plan.deep_view() =~= clone_repos_plan());
    plan
}

/// The work of packaging a release of `package_name`, which is handed to
/// the tool as it is.
pub fn setup_releasor(package_name: &str) -> (plan: Vec<Step>)
    ensures
        plan.deep_view() == releasor_plan(package_name@),
{
    let mut plan: Vec<Step> = Vec::new();
    plan.push(run_two("releasor", "-f", package_name));
    assert(plan.deep_view() =~= releasor_plan(package_name@));
    plan
}

/// The work of scaffolding the project `project_name`: the name goes into
/// the two shell scripts as it is.
pub fn setup_rust_project(project_name: &str) -> (plan: Vec<Step>)
    ensures
        plan.deep_view() == rust_project_plan(project_name@),
{
    let mut create = String::from_str("cargo new ");
    create.append(project_name);
    create.append(" && cd ");
    create.append(project_name);
    let mut furnish = String::from_str("cd ");
    furnish.append(project_name);
    furnish.append(
        " && chmod +x rust_files.sh && ./rust_files.sh && rm rust_files.sh && rm -rf .git",
    );
    let mut plan: Vec<Step> = Vec::new();
    plan.push(run_two("bash", "-c", create.as_str()));
    plan.push(
        Step::WriteScript {
            dir: String::from_str(project_name),
            file: String::from_str("rust_files.sh"),
        },
    );
    plan.push(run_two("bash", "-c", furnish.as_str()));
    assert(plan.deep_view() =~= rust_project_plan(project_name@));
    plan
}

/// The work of cloning the repository `repo` of the owner.
pub fn clone_my_repositories(repo: &str) -> (plan: Vec<Step>)
    ensures
        plan.deep_view() == my_repository_plan(repo@),
{
    let mut url = String::from_str("https://github.com/joaolfp/");
    url.append(repo);
    let mut dest = String::from_str(repo);
    dest.append("/");
    let mut plan: Vec<Step> = Vec::new();
    plan.push(Step::CloneBranch { url, dest, branch: String::from_str("main") });
    assert(plan.deep_view() =~= my_repository_plan(repo@));
    plan
}

/// The work of installing the tool that installs Xcode.
pub fn install_xcodes() -> (plan: Vec<Step>)
    ensures
        plan.deep_view() == install_xcodes_plan(),
{
    let mut plan: Vec<Step> = Vec::new();
    plan.push(run_two("brew", "install", "xcodesorg/made/xcodes"));
    assert(plan.deep_view() =~= install_xcodes_plan());
    plan
}

/// The work of installing the Xcode `version`, which is handed to the tool
/// as it is.
pub fn install_xcode(version: &str) -> (plan: Vec<Step>)
    ensures
        plan.deep_view() == install_xcode_plan(version@),
{
    let mut plan: Vec<Step> = Vec::new();
    plan.push(run_one("xcodes", "update"));
    plan.push(run_two("xcodes", "install", version));
    assert(plan.deep_view() =~= install_xcode_plan(version@));
    plan
}

/// The work of upgrading mise.
pub fn upgrade_mise() -> (plan: Vec<Step>)
    ensures
        plan.deep_view() == upgrade_mise_plan(),
{
    let mut plan: Vec<Step> = Vec::new();
    plan.push(run_two("brew", "upgrade", "mise"));
    assert(plan.deep_view() =~= upgrade_mise_plan());
    plan
}

} // verus!
