//! How a command line is handed to the shell of each kind of platform.
use vstd::prelude::*;

verus! {

/// The kinds of platform, by the shell they offer.
#[derive(Debug, Clone, Copy, PartialEq, Eq, Structural)]
pub enum Platform {
    /// A POSIX shell: `sh -c <command>`.
    Posix,
    /// The Windows command interpreter: `cmd /C <command>`.
    Windows,
}

/// A program to start, with the two arguments it is given.
#[derive(Debug, Clone, PartialEq, Eq)]
pub struct Invocation {
    /// The shell's name.
    pub program: String,
    /// The flag that makes the shell run its next argument.
    pub flag: String,
    /// The command line, as one argument.
    pub command: String,
}

/// The mathematical value of an [`Invocation`].
pub struct InvocationView {
    pub program: Seq<char>,
    pub flag: Seq<char>,
    pub command: Seq<char>,
}

impl View for Invocation {
    type V = InvocationView;

    open spec fn view(&self) -> InvocationView {
        InvocationView { program: self.program@, flag: self.flag@, command: self.command@ }
    }
}

/// The name of the platform's shell.
pub open spec fn shell_program(platform: Platform) -> Seq<char> {
    match platform {
        Platform::Posix => seq!['s', 'h'],
        Platform::Windows => seq!['c', 'm', 'd'],
    }
}

/// The flag after which the platform's shell takes a command line.
pub open spec fn shell_flag(platform: Platform) -> Seq<char> {
    match platform {
        Platform::Posix => seq!['-', 'c'],
        Platform::Windows => seq!['/', 'C'],
    }
}

/// How `command` is run on `platform`: the shell, its flag, and the command
/// text as it is, in one piece.
pub open spec fn invocation_of(platform: Platform, command: Seq<char>) -> InvocationView {
    InvocationView { program: shell_program(platform), flag: shell_flag(platform), command }
}

/// Says how to run `command` on `platform`. The command text is not looked
/// at: quoting and parsing are the shell's.
pub fn invocation(platform: Platform, command: &str) -> (inv: Invocation)
    ensures
        inv@ == invocation_of(platform, command@),
{
    proof {
        reveal_strlit("sh");
        reveal_strlit("-c");
        reveal_strlit("cmd");
        reveal_strlit("/C");
    }
    let (program, flag) = match platform {
        Platform::Posix => ("sh", "-c"),
        Platform::Windows => ("cmd", "/C"),
    };
    assert(program@ =~= shell_program(platform));
    assert(flag@ =~= shell_flag(platform));
    Invocation {
        program: program.to_owned(),
        flag: flag.to_owned(),
        command: command.to_owned(),
    }
}

} // verus!
