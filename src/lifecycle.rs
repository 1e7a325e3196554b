//! The dial, handshake and disconnect steps that bracket every attempt, and
//! how an attempt's result is classified, reported and logged.

use vstd::prelude::*;
use crate::config::{edited, ConfigEdit, ModemConfig};
use crate::connector::{Connector, ConnectorView, HttpMethod, is_session, kind_tag, log_target};
use crate::text::owned;
use crate::history::{appended, newest_first, ConnectionHistory, HistoryEntry, Status};

verus! {

/// A timed cue step of the connection lifecycle.
#[derive(Clone, Copy, Debug, PartialEq, Eq, Structural)]
pub enum Effect {
    DialTone,
    Handshake,
    Disconnect,
}

/// How an effect is carried out: show `line`, send `tone` to the tone
/// generator without waiting for it (where sound is on), then pause.
#[derive(Debug)]
pub struct EffectPlan {
    pub line: &'static str,
    pub tone: Option<&'static str>,
    pub pause_ms: u64,
}

pub open spec fn pause_ms(e: Effect) -> nat {
    match e {
        Effect::DialTone => 800,
        Effect::Handshake => 500,
        Effect::Disconnect => 500,
    }
}

pub open spec fn tone_text(e: Effect) -> Seq<char> {
    match e {
        Effect::DialTone => "ATDT"@,
        Effect::Handshake => "CONNECT 1200"@,
        Effect::Disconnect => "+++ATH"@,
    }
}

/// The effect's plan under the given sound setting.
pub fn effect_plan(e: Effect, sound_enabled: bool) -> (r: EffectPlan)
    ensures
        r.pause_ms == pause_ms(e),
        sound_enabled ==> (r.tone matches Some(t) && t@ == tone_text(e)),
        !sound_enabled ==> r.tone is None,
{
    let (line, tone, pause) = match e {
        Effect::DialTone => ("\u{266a} Dialing...", "ATDT", 800u64),
        Effect::Handshake => ("\u{266a} Handshaking...", "CONNECT 1200", 500u64),
        Effect::Disconnect => ("\u{266a} Disconnecting...", "+++ATH", 500u64),
    };
    EffectPlan {
        line,
        tone: if sound_enabled {
            Some(tone)
        } else {
            None
        },
        pause_ms: pause,
    }
}

/// What the transport did.
#[derive(Debug)]
pub enum Outcome {
    /// An HTTP response came back, with this status code.
    Response(u16),
    /// The external program ended, with its exit code where it gave one.
    Exited(Option<i32>),
    /// Nothing was sent: the method asked for is not supported.
    Unsupported,
    /// The transport could not be started or reached; with the reason.
    Unavailable(String),
}

/// The log status of an outcome: any response, and an exit code of 0, is a
/// success; another exit, or an unsupported method, a failure; a transport
/// that could not be started or reached, an error.
pub open spec fn classify(o: Outcome) -> Status {
    match o {
        Outcome::Response(_) => Status::Success,
        Outcome::Exited(code) => if code == Some(0i32) {
            Status::Success
        } else {
            Status::Failed
        },
        Outcome::Unsupported => Status::Failed,
        Outcome::Unavailable(_) => Status::Error,
    }
}

/// The log status of an outcome.
pub fn classify_outcome(o: &Outcome) -> (r: Status)
    ensures
        r == classify(*o),
{
    match o {
        Outcome::Response(_) => Status::Success,
        Outcome::Exited(code) => match code {
            Some(c) => if *c == 0 {
                Status::Success
            } else {
                Status::Failed
            },
            None => Status::Failed,
        },
        Outcome::Unsupported => Status::Failed,
        Outcome::Unavailable(_) => Status::Error,
    }
}

/// Any HTTP response, whatever its status code (a 404 too), is a success:
/// a response was obtained.
pub proof fn lemma_any_response_succeeds(code: u16)
    ensures
        classify(Outcome::Response(code)) == Status::Success,
        classify(Outcome::Response(404)) != Status::Failed,
{
}

/// The line that reports how an attempt ended.
pub open spec fn closing_message(c: ConnectorView, o: Outcome) -> Seq<char> {
    match classify(o) {
        Status::Success => match c {
            ConnectorView::Http { method, .. } => if method == Some(HttpMethod::Head) {
                "HTTP HEAD request completed"@
            } else {
                "HTTP GET connection established"@
            },
            ConnectorView::Download { output, .. } => "File downloaded successfully: "@ + output,
            ConnectorView::Ssh { .. } => "SSH connection completed"@,
            ConnectorView::Telnet { .. } => "Telnet connection completed"@,
        },
        Status::Failed => match c {
            ConnectorView::Http { .. } => "Unsupported HTTP method"@,
            ConnectorView::Download { .. } => "Download failed"@,
            ConnectorView::Ssh { .. } => "SSH connection failed"@,
            ConnectorView::Telnet { .. } => "Telnet connection failed"@,
        },
        Status::Error => error_prefix(c) + match o {
            Outcome::Unavailable(reason) => reason@,
            _ => Seq::<char>::empty(),
        },
    }
}

pub open spec fn error_prefix(c: ConnectorView) -> Seq<char> {
    match c {
        ConnectorView::Http { method, .. } => if method == Some(HttpMethod::Head) {
            "HTTP HEAD request failed: "@
        } else {
            "HTTP connection failed: "@
        },
        ConnectorView::Download { .. } => "Download client error: "@,
        ConnectorView::Ssh { .. } => "SSH client error: "@,
        ConnectorView::Telnet { .. } => "Telnet client error: "@,
    }
}

/// How an attempt ends: its log status, whether the handshake plays (on a
/// success), the line that reports it, and whether the disconnect follows
/// (for interactive sessions, whatever the outcome).
#[derive(Debug)]
pub struct Conclusion {
    pub status: Status,
    pub handshake: bool,
    pub message: String,
    pub disconnect: bool,
}

fn closing_message_of(c: &Connector, o: &Outcome) -> (r: String)
    ensures
        r@ == closing_message(c@, *o),
{
    let status = classify_outcome(o);
    match status {
        Status::Success => match c {
            Connector::Http { method, .. } => match method {
                Some(HttpMethod::Head) => owned("HTTP HEAD request completed"),
                _ => owned("HTTP GET connection established"),
            },
            Connector::Download { output, .. } => owned("File downloaded successfully: ").concat(
                output.as_str(),
            ),
            Connector::Ssh { .. } => owned("SSH connection completed"),
            Connector::Telnet { .. } => owned("Telnet connection completed"),
        },
        Status::Failed => match c {
            Connector::Http { .. } => owned("Unsupported HTTP method"),
            Connector::Download { .. } => owned("Download failed"),
            Connector::Ssh { .. } => owned("SSH connection failed"),
            Connector::Telnet { .. } => owned("Telnet connection failed"),
        },
        Status::Error => {
            let prefix = match c {
                Connector::Http { method, .. } => match method {
                    Some(HttpMethod::Head) => owned("HTTP HEAD request failed: "),
                    _ => owned("HTTP connection failed: "),
                },
                Connector::Download { .. } => owned("Download client error: "),
                Connector::Ssh { .. } => owned("SSH client error: "),
                Connector::Telnet { .. } => owned("Telnet client error: "),
            };
            match o {
                Outcome::Unavailable(reason) => prefix.concat(reason.as_str()),
                _ => {
                    assert(prefix@ + Seq::<char>::empty() =~= prefix@);
                    prefix
                },
            }
        },
    }
}

/// Relies on `chrono::Utc::now` and `DateTime::timestamp_millis`: the time
/// now, in milliseconds since the Unix epoch. Nothing is known of its value.
#[verifier::external_body]
fn now_millis() -> (r: i64) {
    chrono::Utc::now().timestamp_millis()
}

/// How many recent connections the phone book lists.
pub const PHONEBOOK_SIZE: usize = 10;

/// The settings and the connection log: all the state of a running modem.
pub struct Modem {
    pub config: ModemConfig,
    pub history: ConnectionHistory,
}

impl Modem {
    pub open spec fn wf(&self) -> bool {
        self.history.wf()
    }

    pub fn new(config: ModemConfig, history: ConnectionHistory) -> (r: Modem)
        requires
            history.wf(),
        ensures
            r.wf(),
            r.config@ == config@,
            r.history@ == history@,
    {
        Modem { config, history }
    }

    /// The plan of an effect under the current sound setting.
    pub fn effect(&self, e: Effect) -> (r: EffectPlan)
        ensures
            r.pause_ms == pause_ms(e),
            self.config.sound_enabled ==> (r.tone matches Some(t) && t@ == tone_text(e)),
            !self.config.sound_enabled ==> r.tone is None,
    {
        effect_plan(e, self.config.sound_enabled)
    }

    /// The recent connections that the phone book lists, newest first.
    pub fn phonebook(&self) -> (r: Vec<HistoryEntry>)
        ensures
            r@.map_values(|e: HistoryEntry| e@) == newest_first(self.history@, PHONEBOOK_SIZE as nat),
    {
        self.history.recent(PHONEBOOK_SIZE)
    }

    /// Applies one edit of the settings menu; the log does not change.
    pub fn edit_config(&mut self, edit: ConfigEdit)
        requires
            old(self).wf(),
            edit matches ConfigEdit::SetBaudRate(rate) ==> rate > 0,
        ensures
            final(self).wf(),
            final(self).config@ == edited(old(self).config@, edit),
            final(self).history@ == old(self).history@,
    {
        self.config.apply(edit);
    }

    /// Ends an attempt: logs one entry for it, stamped with the time now, and
    /// says what follows. The settings do not change.
    pub fn conclude(&mut self, c: &Connector, outcome: Outcome, duration_ms: u64) -> (r:
        Conclusion)
        requires
            old(self).wf(),
        ensures
            final(self).wf(),
            final(self).config@ == old(self).config@,
            final(self).history@ == appended(old(self).history@, final(self).history@.last()),
            final(self).history@.last().connection_type == kind_tag(c@),
            final(self).history@.last().target == log_target(c@),
            final(self).history@.last().status == classify(outcome),
            final(self).history@.last().duration_ms == duration_ms,
            r.status == classify(outcome),
            r.handshake == (classify(outcome) == Status::Success),
            r.message@ == closing_message(c@, outcome),
            r.disconnect == is_session(c@),
    {
        let status = classify_outcome(&outcome);
        let message = closing_message_of(c, &outcome);
        let entry = HistoryEntry {
            timestamp_ms: now_millis(),
            connection_type: owned(c.kind_tag()),
            target: c.log_target(),
            status,
            duration_ms,
        };
        let ghost e = entry@;
        self.history.record(entry);
        assert(self.history@.last() == e);
        Conclusion {
            status,
            handshake: match status {
                Status::Success => true,
                _ => false,
            },
            message,
            disconnect: c.is_session(),
        }
    }
}

} // verus!
