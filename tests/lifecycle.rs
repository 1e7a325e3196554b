use vmodem::config::{ConfigEdit, ModemConfig};
use vmodem::connector::{
    body_preview, download_filename, filename_from_segment, http_method, method_from_upper,
    progress_line_shown, telnet_target, Connector, HttpMethod, Transport,
};
use vmodem::history::{ConnectionHistory, Status};
use vmodem::lifecycle::{classify_outcome, effect_plan, Effect, Modem, Outcome};

fn http(url: &str, method: Option<HttpMethod>) -> Connector {
    Connector::Http { url: url.to_string(), method }
}

#[test]
fn http_404_is_success() {
    assert_eq!(classify_outcome(&Outcome::Response(404)), Status::Success);
    assert_eq!(classify_outcome(&Outcome::Response(500)), Status::Success);
    let mut m = Modem::new(ModemConfig::default(), ConnectionHistory::new());
    let c = http("http://example.com/missing", Some(HttpMethod::Get));
    let r = m.conclude(&c, Outcome::Response(404), 12);
    assert_eq!(r.status, Status::Success);
    assert!(r.handshake);
    assert!(!r.disconnect);
    assert_eq!(r.message, "HTTP GET connection established");
    let e = &m.history.entries()[0];
    assert_eq!(e.status, Status::Success);
    assert_eq!(e.connection_type, "HTTP");
    assert_eq!(e.target, "http://example.com/missing");
    assert_eq!(e.duration_ms, 12);
}

#[test]
fn exit_codes_classify() {
    assert_eq!(classify_outcome(&Outcome::Exited(Some(0))), Status::Success);
    assert_eq!(classify_outcome(&Outcome::Exited(Some(255))), Status::Failed);
    assert_eq!(classify_outcome(&Outcome::Exited(None)), Status::Failed);
    assert_eq!(classify_outcome(&Outcome::Unsupported), Status::Failed);
    assert_eq!(classify_outcome(&Outcome::Unavailable("no such file".to_string())), Status::Error);
}

#[test]
fn sessions_always_disconnect() {
    let mut m = Modem::new(ModemConfig::default(), ConnectionHistory::new());
    let c = Connector::Telnet { host: "example.com".to_string(), port: "23".to_string() };
    let r = m.conclude(&c, Outcome::Unavailable("not found".to_string()), 3);
    assert_eq!(r.status, Status::Error);
    assert!(r.disconnect);
    assert!(!r.handshake);
    assert_eq!(r.message, "Telnet client error: not found");
    assert_eq!(m.history.entries()[0].target, "example.com:23");
    assert_eq!(m.history.entries()[0].status.tag(), "ERROR");
    let s = Connector::Ssh { target: "user@host".to_string() };
    let r = m.conclude(&s, Outcome::Exited(Some(1)), 4);
    assert_eq!(r.status, Status::Failed);
    assert!(r.disconnect);
    assert_eq!(r.message, "SSH connection failed");
    assert_eq!(m.history.len(), 2);
}

#[test]
fn unsupported_method_is_logged_as_failed() {
    let mut m = Modem::new(ModemConfig::default(), ConnectionHistory::new());
    let c = http("http://example.com", None);
    assert!(matches!(c.transport(), Transport::Unsupported));
    let r = m.conclude(&c, Outcome::Unsupported, 801);
    assert_eq!(r.status, Status::Failed);
    assert_eq!(r.message, "Unsupported HTTP method");
    assert_eq!(m.history.entries()[0].status, Status::Failed);
}

#[test]
fn download_success_message_names_file() {
    let mut m = Modem::new(ModemConfig::default(), ConnectionHistory::new());
    let c = Connector::Download { url: "http://x/y/file.zip".to_string(), output: "file.zip".to_string() };
    let r = m.conclude(&c, Outcome::Exited(Some(0)), 5);
    assert_eq!(r.message, "File downloaded successfully: file.zip");
    assert_eq!(m.history.entries()[0].connection_type, "DOWNLOAD");
}

#[test]
fn transports() {
    let d = Connector::Download { url: "http://x/f".to_string(), output: "f".to_string() };
    match d.transport() {
        Transport::Process { program, args, progress } => {
            assert_eq!(program, "wget");
            assert_eq!(args, vec!["--progress=bar", "--timeout=30", "-O", "f", "http://x/f"]);
            assert!(progress);
        }
        other => panic!("unexpected {:?}", other),
    }
    let t = Connector::Telnet { host: "h".to_string(), port: "99".to_string() };
    match t.transport() {
        Transport::Process { program, args, progress } => {
            assert_eq!(program, "telnet");
            assert_eq!(args, vec!["h", "99"]);
            assert!(!progress);
        }
        other => panic!("unexpected {:?}", other),
    }
    assert_eq!(t.opening_line(), "Establishing Telnet connection to h:99");
    match http("http://a", Some(HttpMethod::Head)).transport() {
        Transport::Http { method, url } => {
            assert_eq!(method, HttpMethod::Head);
            assert_eq!(url, "http://a");
        }
        other => panic!("unexpected {:?}", other),
    }
}

#[test]
fn effects() {
    let p = effect_plan(Effect::DialTone, true);
    assert_eq!(p.pause_ms, 800);
    assert_eq!(p.tone, Some("ATDT"));
    let p = effect_plan(Effect::Handshake, false);
    assert_eq!(p.pause_ms, 500);
    assert_eq!(p.tone, None);
    assert_eq!(effect_plan(Effect::Disconnect, true).pause_ms, 500);
    assert_eq!(effect_plan(Effect::Disconnect, true).tone, Some("+++ATH"));
}

#[test]
fn config_edit_keeps_history() {
    let mut m = Modem::new(ModemConfig::default(), ConnectionHistory::new());
    m.conclude(&Connector::Ssh { target: "a".to_string() }, Outcome::Exited(Some(0)), 1);
    m.edit_config(ConfigEdit::SetBaudRate(56000));
    assert_eq!(m.config.baud_rate, 56000);
    assert_eq!(m.history.len(), 1);
    assert_eq!(m.phonebook().len(), 1);
}

#[test]
fn phonebook_lists_ten_newest() {
    let mut m = Modem::new(ModemConfig::default(), ConnectionHistory::new());
    for i in 0..15 {
        m.conclude(&Connector::Ssh { target: format!("h{}", i) }, Outcome::Exited(Some(0)), 1);
    }
    let p = m.phonebook();
    assert_eq!(p.len(), 10);
    assert_eq!(p[0].target, "h14");
    assert_eq!(p[9].target, "h5");
}

#[test]
fn filenames() {
    assert_eq!(download_filename("http://x/y/file.zip", None), "file.zip");
    assert_eq!(download_filename("http://x/y/", None), "download");
    assert_eq!(download_filename("not a url", None), "download");
    assert_eq!(download_filename("http://x/y/", Some("o.txt")), "o.txt");
    assert_eq!(filename_from_segment(Some(String::new())), "download");
    assert_eq!(filename_from_segment(None), "download");
    assert_eq!(filename_from_segment(Some("a.b".to_string())), "a.b");
}

#[test]
fn methods() {
    assert_eq!(http_method(None), Some(HttpMethod::Get));
    assert_eq!(http_method(Some("get")), Some(HttpMethod::Get));
    assert_eq!(http_method(Some("Head")), Some(HttpMethod::Head));
    assert_eq!(http_method(Some("delete")), None);
    assert_eq!(method_from_upper("get"), None);
    assert_eq!(method_from_upper("HEAD"), Some(HttpMethod::Head));
}

#[test]
fn body_previews() {
    let long = "é".repeat(600);
    let (p, cut) = body_preview(&long);
    assert!(cut);
    assert_eq!(p.chars().count(), 500);
    let (p, cut) = body_preview("short");
    assert!(!cut);
    assert_eq!(p, "short");
    let exact = "a".repeat(500);
    assert_eq!(body_preview(&exact), (exact.clone(), false));
}

#[test]
fn progress_lines() {
    assert!(progress_line_shown("  50% [=====>     ] 1.2M"));
    assert!(progress_line_shown("'file.zip' saved [1234/1234]"));
    assert!(!progress_line_shown("Resolving example.com..."));
    assert!(!progress_line_shown(""));
}

#[test]
fn telnet_targets() {
    assert_eq!(telnet_target("example.com", "23"), "example.com:23");
}
