//! Opening a path with the program that the operating system has for it.

use vstd::prelude::*;
use crate::platform::OsFamily;

verus! {

/// A program to start and the arguments to start it with.
#[derive(Clone, Debug, PartialEq, Eq)]
pub struct OpenerCommand {
    pub program: String,
    pub args: Vec<String>,
}

/// What an [`OpenerCommand`] holds, as mathematical values.
pub struct OpenerCommandView {
    pub program: Seq<char>,
    pub args: Seq<Seq<char>>,
}

impl View for OpenerCommand {
    type V = OpenerCommandView;

    open spec fn view(&self) -> OpenerCommandView {
        OpenerCommandView { program: self.program@, args: self.args.deep_view() }
    }
}

/// The command that opens `path`: `open` with the path on macOS; the command
/// interpreter with `/C`, `start`, an empty window title and the path on
/// Windows; `xdg-open` with the path elsewhere.
pub open spec fn opener_command_of(os: OsFamily, path: Seq<char>) -> OpenerCommandView {
    match os {
        OsFamily::MacOs => OpenerCommandView { program: "open"@, args: seq![path] },
        OsFamily::Windows => OpenerCommandView {
            program: "cmd"@,
            args: seq!["/C"@, "start"@, ""@, path],
        },
        OsFamily::Unix => OpenerCommandView { program: "xdg-open"@, args: seq![path] },
    }
}

/// The command that opens `path` on the given operating system. Starting it
/// is all that opening means: what the started program does is not awaited.
pub fn opener_command(os: OsFamily, path: &str) -> (command: OpenerCommand)
    ensures
        command@ == opener_command_of(os, path@),
{
    let mut args: Vec<String> = Vec::new();
    let program = match os {
        OsFamily::MacOs => String::from_str("open"),
        OsFamily::Windows => {
            args.push(String::from_str("/C"));
            args.push(String::from_str("start"));
            args.push(String::from_str(""));
            String::from_str("cmd")
        },
        OsFamily::Unix => String::from_str("xdg-open"),
    };
    args.push(String::from_str(path));
    assert(args.deep_view() =~= opener_command_of(os, path@).args);
    OpenerCommand { program, args }
}

} // verus!
