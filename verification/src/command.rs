//! The command line.

use vstd::prelude::*;
use vstd::string::*;

use crate::text::same_text;

verus! {

/// What the program was asked to do.
#[derive(Debug, PartialEq, Eq)]
pub enum Command {
    /// Run the proxy.
    Proxy,
    /// Print the version.
    Version,
    /// Print the commands and the version.
    Help,
    /// Not a command.
    Unknown(String),
}

/// What a [`Command`] says.
pub enum CommandView {
    Proxy,
    Version,
    Help,
    Unknown(Seq<char>),
}

impl View for Command {
    type V = CommandView;

    open spec fn view(&self) -> CommandView {
        match self {
            Command::Proxy => CommandView::Proxy,
            Command::Version => CommandView::Version,
            Command::Help => CommandView::Help,
            Command::Unknown(s) => CommandView::Unknown(s@),
        }
    }
}

/// The command that the first argument names; the proxy, where there is no argument.
pub open spec fn command_of(arg: Option<Seq<char>>) -> CommandView {
    match arg {
        None => CommandView::Proxy,
        Some(a) => if a == "proxy"@ {
            CommandView::Proxy
        } else if a == "version"@ {
            CommandView::Version
        } else if a == "help"@ {
            CommandView::Help
        } else {
            CommandView::Unknown(a)
        },
    }
}

/// The command that the first argument names.
pub fn parse_command(arg: Option<&str>) -> (r: Command)
    ensures
        r@ == command_of(
            match arg {
                Some(a) => Some(a@),
                None => None,
            },
        ),
{
    match arg {
        None => Command::Proxy,
        Some(a) => if same_text(a, "proxy") {
            Command::Proxy
        } else if same_text(a, "version") {
            Command::Version
        } else if same_text(a, "help") {
            Command::Help
        } else {
            Command::Unknown(a.to_owned())
        },
    }
}

/// What is printed when the first argument is no command.
pub fn unknown_command_text(arg: &str) -> (s: String)
    ensures
        s@ == "unknown command: "@ + arg@,
{
    "unknown command: ".to_owned().concat(arg)
}

/// The commands that there are, for the program in the given version.
pub fn help_text(version: &str) -> (s: String)
    ensures
        s@ == "\nIstio Ztunnel ("@ + version@
            + ")\n\nCommands:\nproxy (default) - Start the ztunnel proxy\nversion         - Print the version of ztunnel\nhelp            - Print commands and version of ztunnel"@,
{
    "\nIstio Ztunnel (".to_owned().concat(version).concat(
        ")\n\nCommands:\nproxy (default) - Start the ztunnel proxy\nversion         - Print the version of ztunnel\nhelp            - Print commands and version of ztunnel",
    )
}

/// The command names are read back as the commands they stand for, and no other text is.
pub proof fn commands_are_told_apart(arg: Seq<char>)
    ensures
        command_of(None) is Proxy,
        command_of(Some("proxy"@)) is Proxy,
        command_of(Some("version"@)) is Version,
        command_of(Some("help"@)) is Help,
        command_of(Some(arg)) is Unknown <==> arg != "proxy"@ && arg != "version"@ && arg
            != "help"@,
        command_of(Some(arg)) matches CommandView::Unknown(a) ==> a == arg,
{
    reveal_strlit("proxy");
    reveal_strlit("version");
    reveal_strlit("help");
    assert("proxy"@.len() == 5 && "version"@.len() == 7 && "help"@.len() == 4);
}

/// A command says what it is.
pub proof fn commands_say_what_they_are(c: Command)
    ensures
        c is Proxy <==> c@ is Proxy,
        c is Version <==> c@ is Version,
        c is Help <==> c@ is Help,
        c matches Command::Unknown(s) ==> c@ == CommandView::Unknown(s@),
{
}

} // verus!
