//! The interactive shell's command language. Reading lines and printing
//! answers happens outside the library; each line read is interpreted here.
use vstd::prelude::*;
use vstd::string::StrSliceExecFns;
use crate::strutil::{spec_starts_with, spec_trim, starts_with_str, str_eq, trim_str};

verus! {

/// What one line of input asks for.
#[derive(Debug, Clone, PartialEq, Eq)]
pub enum InteractiveCommand {
    /// Leave the shell ("exit" or "quit").
    Exit,
    /// List the available commands.
    Help,
    /// Download the given target ("download <url> [output]").
    Download(String),
    /// A blank line: ignored.
    Empty,
    /// Anything else, kept for the error message.
    Unknown(String),
}

/// Interpret one line, after trimming: "exit" and "quit" leave, "help"
/// lists commands, "download " hands over everything after the keyword, a
/// blank line is ignored, and anything else is unknown.
pub fn parse_command(line: &str) -> (r: InteractiveCommand)
    ensures
        ({
            let t = spec_trim(line@);
            &&& (t == "exit"@ || t == "quit"@) ==> r == InteractiveCommand::Exit
            &&& (t != "exit"@ && t != "quit"@ && t == "help"@) ==> r == InteractiveCommand::Help
            &&& (t != "exit"@ && t != "quit"@ && t != "help"@ && spec_starts_with(
                t,
                "download "@,
            )) ==> (r matches InteractiveCommand::Download(u) && u@ == t.skip(
                "download "@.len() as int,
            ))
            &&& (t != "exit"@ && t != "quit"@ && t != "help"@ && !spec_starts_with(
                t,
                "download "@,
            ) && t.len() == 0) ==> r == InteractiveCommand::Empty
            &&& (t != "exit"@ && t != "quit"@ && t != "help"@ && !spec_starts_with(
                t,
                "download "@,
            ) && t.len() > 0) ==> (r matches InteractiveCommand::Unknown(u) && u@ == t)
        }),
{
    let t = trim_str(line);
    if str_eq(t.as_str(), "exit") || str_eq(t.as_str(), "quit") {
        InteractiveCommand::Exit
    } else if str_eq(t.as_str(), "help") {
        InteractiveCommand::Help
    } else if starts_with_str(t.as_str(), "download ") {
        proof {
            reveal_strlit("download ");
        }
        let n = t.as_str().unicode_len();
        let rest = t.as_str().substring_char(9, n).to_owned();
        proof {
            assert(rest@ =~= spec_trim(line@).skip("download "@.len() as int));
        }
        InteractiveCommand::Download(rest)
    } else if t.as_str().unicode_len() == 0 {
        InteractiveCommand::Empty
    } else {
        InteractiveCommand::Unknown(t)
    }
}

} // verus!
