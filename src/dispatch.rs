//! The command vocabulary: reading a command line and routing it to a
//! connector or a management action.

use vstd::prelude::*;
use crate::connector::{
    download_filename, filename_of, http_method, method_of, strings_view, uppercased,
    url_last_segment, Connector, ConnectorView, HttpMethod,
};
use crate::text::{owned, same_text};

verus! {

/// What a command line asks for.
#[derive(Debug)]
pub enum Command {
    /// Run one connection attempt.
    Connect(Connector),
    /// A required argument is missing; with the message shown. Nothing runs.
    MissingArgument(String),
    /// Enter the settings menu.
    Configure,
    /// Show the recent connections.
    Phonebook,
    Help,
    Clear,
    /// End the session.
    Quit,
    /// An empty line: nothing happens.
    Nothing,
    /// Not a command; with the one error line shown.
    Unknown(String),
}

pub enum CommandView {
    Connect(ConnectorView),
    MissingArgument(Seq<char>),
    Configure,
    Phonebook,
    Help,
    Clear,
    Quit,
    Nothing,
    Unknown(Seq<char>),
}

impl View for Command {
    type V = CommandView;

    open spec fn view(&self) -> CommandView {
        match self {
            Command::Connect(c) => CommandView::Connect(c@),
            Command::MissingArgument(m) => CommandView::MissingArgument(m@),
            Command::Configure => CommandView::Configure,
            Command::Phonebook => CommandView::Phonebook,
            Command::Help => CommandView::Help,
            Command::Clear => CommandView::Clear,
            Command::Quit => CommandView::Quit,
            Command::Nothing => CommandView::Nothing,
            Command::Unknown(m) => CommandView::Unknown(m@),
        }
    }
}

/// The error line for a word that is no command.
pub open spec fn unknown_line(cmd: Seq<char>) -> Seq<char> {
    "Unknown command: "@ + cmd + " (type 'help' for commands)"@
}

/// The words of the command vocabulary, aliases included.
pub open spec fn is_known(cmd: Seq<char>) -> bool {
    cmd == "http"@ || cmd == "download"@ || cmd == "dl"@ || cmd == "ssh"@ || cmd == "telnet"@
        || cmd == "config"@ || cmd == "configure"@ || cmd == "phonebook"@ || cmd == "pb"@
        || cmd == "help"@ || cmd == "?"@ || cmd == "clear"@ || cmd == "cls"@ || cmd == "quit"@
        || cmd == "exit"@ || cmd == "bye"@ || cmd == ""@
}

/// What the command `cmd` with arguments `args` asks for.
pub open spec fn route(cmd: Seq<char>, args: Seq<Seq<char>>) -> CommandView {
    if cmd == "http"@ {
        if args.len() == 0 {
            CommandView::MissingArgument("URL required"@)
        } else {
            CommandView::Connect(
                ConnectorView::Http {
                    url: args[0],
                    method: if args.len() > 1 {
                        method_of(uppercased(args[1]))
                    } else {
                        Some(HttpMethod::Get)
                    },
                },
            )
        }
    } else if cmd == "download"@ || cmd == "dl"@ {
        if args.len() == 0 {
            CommandView::MissingArgument("URL required"@)
        } else {
            CommandView::Connect(
                ConnectorView::Download {
                    url: args[0],
                    output: if args.len() > 1 {
                        args[1]
                    } else {
                        filename_of(url_last_segment(args[0]))
                    },
                },
            )
        }
    } else if cmd == "ssh"@ {
        if args.len() == 0 {
            CommandView::MissingArgument("Host required"@)
        } else {
            CommandView::Connect(ConnectorView::Ssh { target: args[0] })
        }
    } else if cmd == "telnet"@ {
        if args.len() == 0 {
            CommandView::MissingArgument("Host required"@)
        } else {
            CommandView::Connect(
                ConnectorView::Telnet {
                    host: args[0],
                    port: if args.len() > 1 {
                        args[1]
                    } else {
                        "23"@
                    },
                },
            )
        }
    } else if cmd == "config"@ || cmd == "configure"@ {
        CommandView::Configure
    } else if cmd == "phonebook"@ || cmd == "pb"@ {
        CommandView::Phonebook
    } else if cmd == "help"@ || cmd == "?"@ {
        CommandView::Help
    } else if cmd == "clear"@ || cmd == "cls"@ {
        CommandView::Clear
    } else if cmd == "quit"@ || cmd == "exit"@ || cmd == "bye"@ {
        CommandView::Quit
    } else if cmd == ""@ {
        CommandView::Nothing
    } else {
        CommandView::Unknown(unknown_line(cmd))
    }
}

/// Routes the command `command` with arguments `args`. Commands are case
/// sensitive; arguments past those a command takes are ignored.
pub fn dispatch(command: &str, args: &Vec<String>) -> (r: Command)
    ensures
        r@ == route(command@, strings_view(args@)),
{
    let ghost a = strings_view(args@);
    if same_text(command, "http") {
        if args.len() == 0 {
            Command::MissingArgument(owned("URL required"))
        } else {
            let method = if args.len() > 1 {
                http_method(Some(args[1].as_str()))
            } else {
                http_method(None)
            };
            Command::Connect(Connector::Http { url: args[0].clone(), method })
        }
    } else if same_text(command, "download") || same_text(command, "dl") {
        if args.len() == 0 {
            Command::MissingArgument(owned("URL required"))
        } else {
            let output = if args.len() > 1 {
                download_filename(args[0].as_str(), Some(args[1].as_str()))
            } else {
                download_filename(args[0].as_str(), None)
            };
            Command::Connect(Connector::Download { url: args[0].clone(), output })
        }
    } else if same_text(command, "ssh") {
        if args.len() == 0 {
            Command::MissingArgument(owned("Host required"))
        } else {
            Command::Connect(Connector::Ssh { target: args[0].clone() })
        }
    } else if same_text(command, "telnet") {
        if args.len() == 0 {
            Command::MissingArgument(owned("Host required"))
        } else {
            let port = if args.len() > 1 {
                args[1].clone()
            } else {
                owned("23")
            };
            Command::Connect(Connector::Telnet { host: args[0].clone(), port })
        }
    } else if same_text(command, "config") || same_text(command, "configure") {
        Command::Configure
    } else if same_text(command, "phonebook") || same_text(command, "pb") {
        Command::Phonebook
    } else if same_text(command, "help") || same_text(command, "?") {
        Command::Help
    } else if same_text(command, "clear") || same_text(command, "cls") {
        Command::Clear
    } else if same_text(command, "quit") || same_text(command, "exit") || same_text(
        command,
        "bye",
    ) {
        Command::Quit
    } else if same_text(command, "") {
        Command::Nothing
    } else {
        let line = owned("Unknown command: ").concat(command).concat(
            " (type 'help' for commands)",
        );
        Command::Unknown(line)
    }
}

/// What `str::split_whitespace` gives: the words of a line.
pub uninterp spec fn words_of(line: Seq<char>) -> Seq<Seq<char>>;

/// Relies on `str::split_whitespace`: the line's words in order, which
/// depend on its characters alone.
#[verifier::external_body]
fn split_words(line: &str) -> (r: Vec<String>)
    ensures
        strings_view(r@) == words_of(line@),
{
    let mut words = Vec::new();
    for w in line.split_whitespace() {
        words.push(w.to_string());
    }
    words
}

/// What a line of input asks for: its first word is the command, the rest
/// are its arguments; an empty line asks for nothing.
pub open spec fn route_words(words: Seq<Seq<char>>) -> CommandView {
    if words.len() == 0 {
        CommandView::Nothing
    } else {
        route(words[0], words.skip(1))
    }
}

/// Routes a list of words: the first is the command, the rest its arguments.
pub fn dispatch_words(words: Vec<String>) -> (r: Command)
    ensures
        r@ == route_words(strings_view(words@)),
{
    let mut words = words;
    if words.len() == 0 {
        return Command::Nothing;
    }
    let ghost before = strings_view(words@);
    let command = words.remove(0);
    assert(strings_view(words@) =~= before.skip(1));
    dispatch(command.as_str(), &words)
}

/// Routes a line of input.
pub fn dispatch_line(line: &str) -> (r: Command)
    ensures
        r@ == route_words(words_of(line@)),
{
    dispatch_words(split_words(line))
}

/// A word that is no command gives exactly one error line, which names it,
/// and asks for nothing to run, whatever the arguments.
pub proof fn lemma_unknown_command(cmd: Seq<char>, args: Seq<Seq<char>>)
    requires
        !is_known(cmd),
    ensures
        route(cmd, args) == CommandView::Unknown(unknown_line(cmd)),
        unknown_line(cmd).subrange(17, 17 + cmd.len() as int) == cmd,
{
    reveal_strlit("Unknown command: ");
    assert(unknown_line(cmd).subrange(17, 17 + cmd.len() as int) =~= cmd);
}

/// A command that needs an argument and has none runs nothing.
pub proof fn lemma_missing_argument_runs_nothing(cmd: Seq<char>)
    requires
        cmd == "http"@ || cmd == "download"@ || cmd == "dl"@ || cmd == "ssh"@ || cmd
            == "telnet"@,
    ensures
        route(cmd, Seq::empty()) is MissingArgument,
{
}

} // verus!
