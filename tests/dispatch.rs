use vmodem::connector::{Connector, HttpMethod};
use vmodem::dispatch::{dispatch, dispatch_line, dispatch_words, Command};

fn words(ws: &[&str]) -> Vec<String> {
    ws.iter().map(|w| w.to_string()).collect()
}

#[test]
fn unknown_command_gives_one_error_line() {
    match dispatch("frobnicate", &vec![]) {
        Command::Unknown(line) => {
            assert_eq!(line, "Unknown command: frobnicate (type 'help' for commands)");
            assert_eq!(line.lines().count(), 1);
        }
        other => panic!("unexpected {:?}", other),
    }
}

#[test]
fn telnet_without_port_targets_port_23() {
    match dispatch("telnet", &words(&["example.com"])) {
        Command::Connect(c) => {
            assert_eq!(c.log_target(), "example.com:23");
            assert_eq!(c.kind_tag(), "TELNET");
        }
        other => panic!("unexpected {:?}", other),
    }
}

#[test]
fn telnet_with_port() {
    match dispatch_line("  telnet towel.blinkenlights.nl 2323 ") {
        Command::Connect(c) => assert_eq!(c.log_target(), "towel.blinkenlights.nl:2323"),
        other => panic!("unexpected {:?}", other),
    }
}

#[test]
fn download_derives_file_name() {
    match dispatch("download", &words(&["http://x/y/file.zip"])) {
        Command::Connect(Connector::Download { url, output }) => {
            assert_eq!(url, "http://x/y/file.zip");
            assert_eq!(output, "file.zip");
        }
        other => panic!("unexpected {:?}", other),
    }
    match dispatch("dl", &words(&["http://x/y/"])) {
        Command::Connect(Connector::Download { output, .. }) => assert_eq!(output, "download"),
        other => panic!("unexpected {:?}", other),
    }
}

#[test]
fn download_with_output_keeps_it() {
    match dispatch("download", &words(&["http://x/y/file.zip", "out.bin"])) {
        Command::Connect(Connector::Download { output, .. }) => assert_eq!(output, "out.bin"),
        other => panic!("unexpected {:?}", other),
    }
}

#[test]
fn missing_arguments() {
    for (cmd, msg) in [("http", "URL required"), ("download", "URL required"), ("dl", "URL required"),
        ("ssh", "Host required"), ("telnet", "Host required")] {
        match dispatch(cmd, &vec![]) {
            Command::MissingArgument(m) => assert_eq!(m, msg),
            other => panic!("unexpected {:?}", other),
        }
    }
}

#[test]
fn http_methods() {
    match dispatch("http", &words(&["http://example.com"])) {
        Command::Connect(Connector::Http { method, .. }) => assert_eq!(method, Some(HttpMethod::Get)),
        other => panic!("unexpected {:?}", other),
    }
    match dispatch("http", &words(&["http://example.com", "head"])) {
        Command::Connect(Connector::Http { method, .. }) => assert_eq!(method, Some(HttpMethod::Head)),
        other => panic!("unexpected {:?}", other),
    }
    match dispatch("http", &words(&["http://example.com", "POST"])) {
        Command::Connect(Connector::Http { method, .. }) => assert_eq!(method, None),
        other => panic!("unexpected {:?}", other),
    }
}

#[test]
fn management_commands_and_aliases() {
    assert!(matches!(dispatch("config", &vec![]), Command::Configure));
    assert!(matches!(dispatch("configure", &vec![]), Command::Configure));
    assert!(matches!(dispatch("pb", &vec![]), Command::Phonebook));
    assert!(matches!(dispatch("?", &vec![]), Command::Help));
    assert!(matches!(dispatch("cls", &vec![]), Command::Clear));
    assert!(matches!(dispatch("bye", &vec![]), Command::Quit));
    assert!(matches!(dispatch("exit", &vec![]), Command::Quit));
    assert!(matches!(dispatch("QUIT", &vec![]), Command::Unknown(_)));
}

#[test]
fn empty_input_does_nothing() {
    assert!(matches!(dispatch_line(""), Command::Nothing));
    assert!(matches!(dispatch_line("   \t "), Command::Nothing));
    assert!(matches!(dispatch_words(vec![]), Command::Nothing));
}

#[test]
fn ssh_target_passes_through() {
    match dispatch_line("ssh user@example.com") {
        Command::Connect(Connector::Ssh { target }) => assert_eq!(target, "user@example.com"),
        other => panic!("unexpected {:?}", other),
    }
}
