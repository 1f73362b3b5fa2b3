//! Outside work: what the launcher asks its driver to carry out.

use vstd::prelude::*;
use vstd::string::*;

verus! {

/// A program and the arguments to start it with.
#[derive(Debug, PartialEq, Eq)]
pub struct Command {
    pub program: String,
    pub args: Vec<String>,
}

/// A command as the contracts see it.
pub struct CommandModel {
    pub program: Seq<char>,
    pub args: Seq<Seq<char>>,
}

impl View for Command {
    type V = CommandModel;

    open spec fn view(&self) -> CommandModel {
        CommandModel { program: self.program@, args: self.args.deep_view() }
    }
}

impl Command {
    /// The command that starts `program` without arguments.
    pub fn new(program: &str) -> (command: Command)
        ensures
            command@ == (CommandModel { program: program@, args: Seq::empty() }),
    {
        let command = Command { program: String::from_str(program), args: Vec::new() };
        assert(command.args.deep_view() =~= Seq::empty());
        command
    }

    /// The command with `arg` as one more argument, handed on as it is.
    pub fn arg(self, arg: &str) -> (command: Command)
        ensures
            command@ == (CommandModel { program: self@.program, args: self@.args.push(arg@) }),
    {
        let mut args = self.args;
        let ghost before = args.deep_view();
        args.push(String::from_str(arg));
        assert(args.deep_view() =~= before.push(arg@));
        Command { program: self.program, args }
    }
}

/// One piece of outside work. The driver attempts each piece once; a piece
/// that fails ends the run.
#[derive(Debug, PartialEq, Eq)]
pub enum Step {
    /// Run the command and wait for it. An exit status other than zero is
    /// a failure.
    Run(Command),
    /// Write the bundled script to the file `file` in the directory `dir`
    /// of the working directory.
    WriteScript { dir: String, file: String },
    /// Clone the branch `branch` of the repository at `url` into `dest`.
    CloneBranch { url: String, dest: String, branch: String },
}

/// A step as the contracts see it.
pub enum StepModel {
    Run(CommandModel),
    WriteScript { dir: Seq<char>, file: Seq<char> },
    CloneBranch { url: Seq<char>, dest: Seq<char>, branch: Seq<char> },
}

impl View for Step {
    type V = StepModel;

    open spec fn view(&self) -> StepModel {
        match self {
            Step::Run(command) => StepModel::Run(command@),
            Step::WriteScript { dir, file } => StepModel::WriteScript { dir: dir@, file: file@ },
            Step::CloneBranch { url, dest, branch } => StepModel::CloneBranch {
                url: url@,
                dest: dest@,
                branch: branch@,
            },
        }
    }
}

impl DeepView for Step {
    type V = StepModel;

    open spec fn deep_view(&self) -> StepModel {
        self@
    }
}

} // verus!
