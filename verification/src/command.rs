//! Commands for the operating system, as values: the library says which
//! program to run with which arguments, and reads what came back.

use vstd::prelude::*;

verus! {

/// The kind of operating system that the worker runs on.
#[derive(Clone, Copy, Debug, PartialEq, Eq, Structural)]
pub enum Platform {
    /// Windows, with its driver service and its console windows.
    Windows,
    /// Any other system.
    Unix,
}

/// The process creation flag that keeps a console window from opening.
pub const CREATE_NO_WINDOW: u32 = 0x0800_0000;

impl Platform {
    /// The creation flags for a process that must not show a window: the
    /// flag above on Windows, none elsewhere.
    pub open spec fn quiet(self) -> u32 {
        match self {
            Platform::Windows => CREATE_NO_WINDOW,
            Platform::Unix => 0,
        }
    }

    /// The creation flags for a process that must not show a window.
    pub fn quiet_flags(self) -> (flags: u32)
        ensures
            flags == self.quiet(),
    {
        match self {
            Platform::Windows => CREATE_NO_WINDOW,
            Platform::Unix => 0,
        }
    }
}

/// The texts of a list of strings.
pub open spec fn texts(strings: Seq<String>) -> Seq<Seq<char>> {
    strings.map_values(|s: String| s@)
}

/// A program to run, with its arguments. No shell reads them.
#[derive(Debug)]
pub struct CommandLine {
    /// The program's name.
    pub program: String,
    /// The arguments, in order.
    pub args: Vec<String>,
    /// The process creation flags, which only Windows knows.
    pub creation_flags: u32,
}

/// A command with its texts as sequences of characters.
pub struct CommandView {
    pub program: Seq<char>,
    pub args: Seq<Seq<char>>,
    pub creation_flags: u32,
}

impl View for CommandLine {
    type V = CommandView;

    open spec fn view(&self) -> CommandView {
        CommandView {
            program: self.program@,
            args: texts(self.args@),
            creation_flags: self.creation_flags,
        }
    }
}

/// The command that runs `program` with `args` without a window.
pub open spec fn quiet_command(
    platform: Platform,
    program: Seq<char>,
    args: Seq<Seq<char>>,
) -> CommandView {
    CommandView { program, args, creation_flags: platform.quiet() }
}

/// What came back from a command.
#[derive(Debug)]
pub enum Reply {
    /// The command could not be run. The text says why.
    NotRun(String),
    /// The command ran to its end. `success` tells whether it reported
    /// success, `output` is what it wrote to its standard output.
    Ran { success: bool, output: String },
}

/// Builds the command that runs `program` with `args` without a window.
pub fn quiet(platform: Platform, program: &str, args: Vec<String>) -> (command: CommandLine)
    ensures
        command@ == quiet_command(platform, program@, texts(args@)),
{
    CommandLine { program: String::from_str(program), args, creation_flags: platform.quiet_flags() }
}

/// An empty list of arguments.
pub fn no_args() -> (args: Vec<String>)
    ensures
        texts(args@) == Seq::<Seq<char>>::empty(),
{
    let args: Vec<String> = Vec::new();
    assert(texts(args@) =~= Seq::<Seq<char>>::empty());
    args
}

/// Adds the argument `arg` at the end of `args`.
pub fn push_arg(args: &mut Vec<String>, arg: String)
    ensures
        texts(final(args)@) == texts(old(args)@).push(arg@),
{
    args.push(arg);
    assert(texts(args@) =~= texts(old(args)@).push(arg@));
}

/// Adds an argument with the text `arg` at the end of `args`.
pub fn push_text(args: &mut Vec<String>, arg: &str)
    ensures
        texts(final(args)@) == texts(old(args)@).push(arg@),
{
    push_arg(args, String::from_str(arg));
}

} // verus!
