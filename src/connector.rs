//! The four transports: what each one is asked to do, and how its result is
//! read.

use vstd::prelude::*;
use crate::text::{owned, same_text};

verus! {

/// The request methods that the HTTP transport supports.
#[derive(Clone, Copy, Debug, PartialEq, Eq, Structural)]
pub enum HttpMethod {
    Get,
    Head,
}

/// Most characters of a response body that are shown.
pub const BODY_PREVIEW_CHARS: usize = 500;

/// A connection attempt, one variant per transport.
#[derive(Debug)]
pub enum Connector {
    /// `method` is `None` where the method asked for is not supported.
    Http { url: String, method: Option<HttpMethod> },
    Download { url: String, output: String },
    Ssh { target: String },
    Telnet { host: String, port: String },
}

pub enum ConnectorView {
    Http { url: Seq<char>, method: Option<HttpMethod> },
    Download { url: Seq<char>, output: Seq<char> },
    Ssh { target: Seq<char> },
    Telnet { host: Seq<char>, port: Seq<char> },
}

impl View for Connector {
    type V = ConnectorView;

    open spec fn view(&self) -> ConnectorView {
        match self {
            Connector::Http { url, method } => ConnectorView::Http { url: url@, method: *method },
            Connector::Download { url, output } => ConnectorView::Download {
                url: url@,
                output: output@,
            },
            Connector::Ssh { target } => ConnectorView::Ssh { target: target@ },
            Connector::Telnet { host, port } => ConnectorView::Telnet {
                host: host@,
                port: port@,
            },
        }
    }
}

/// The tag that the log gives each transport.
pub open spec fn kind_tag(c: ConnectorView) -> Seq<char> {
    match c {
        ConnectorView::Http { .. } => "HTTP"@,
        ConnectorView::Download { .. } => "DOWNLOAD"@,
        ConnectorView::Ssh { .. } => "SSH"@,
        ConnectorView::Telnet { .. } => "TELNET"@,
    }
}

/// `host:port`.
pub open spec fn host_port(host: Seq<char>, port: Seq<char>) -> Seq<char> {
    host + ":"@ + port
}

/// The target that the log records.
pub open spec fn log_target(c: ConnectorView) -> Seq<char> {
    match c {
        ConnectorView::Http { url, .. } => url,
        ConnectorView::Download { url, .. } => url,
        ConnectorView::Ssh { target } => target,
        ConnectorView::Telnet { host, port } => host_port(host, port),
    }
}

/// The status line that opens an attempt.
pub open spec fn opening_line(c: ConnectorView) -> Seq<char> {
    match c {
        ConnectorView::Http { url, .. } => "Initializing HTTP connection to "@ + url,
        ConnectorView::Download { url, .. } => "Initiating file transfer from "@ + url,
        ConnectorView::Ssh { target } => "Establishing SSH connection to "@ + target,
        ConnectorView::Telnet { host, port } => "Establishing Telnet connection to "@
            + host_port(host, port),
    }
}

/// Interactive sessions run as an external client and end with a disconnect.
pub open spec fn is_session(c: ConnectorView) -> bool {
    c is Ssh || c is Telnet
}

/// What the transport is asked to do.
#[derive(Debug)]
pub enum Transport {
    /// Send one request, with a 30 second timeout.
    Http { method: HttpMethod, url: String },
    /// Nothing is sent: the method asked for is not supported.
    Unsupported,
    /// Run an external program and wait until it exits; where `progress`
    /// holds, its error stream carries progress lines.
    Process { program: String, args: Vec<String>, progress: bool },
}

/// The arguments of the external downloader.
pub open spec fn download_args(url: Seq<char>, output: Seq<char>) -> Seq<Seq<char>> {
    seq!["--progress=bar"@, "--timeout=30"@, "-O"@, output, url]
}

pub open spec fn strings_view(v: Seq<String>) -> Seq<Seq<char>> {
    v.map_values(|s: String| s@)
}

/// What `c`'s transport is asked to do.
pub open spec fn transport_matches(c: ConnectorView, t: Transport) -> bool {
    match c {
        ConnectorView::Http { url, method } => match method {
            Some(m) => t matches Transport::Http { method: tm, url: tu } && tm == m && tu@ == url,
            None => t is Unsupported,
        },
        ConnectorView::Download { url, output } => t matches Transport::Process {
            program,
            args,
            progress,
        } && program@ == "wget"@ && strings_view(args@) == download_args(url, output)
            && progress,
        ConnectorView::Ssh { target } => t matches Transport::Process {
            program,
            args,
            progress,
        } && program@ == "ssh"@ && strings_view(args@) == seq![target] && !progress,
        ConnectorView::Telnet { host, port } => t matches Transport::Process {
            program,
            args,
            progress,
        } && program@ == "telnet"@ && strings_view(args@) == seq![host, port] && !progress,
    }
}

impl Connector {
    /// The tag that the log gives this transport.
    pub fn kind_tag(&self) -> (r: &'static str)
        ensures
            r@ == kind_tag(self@),
    {
        match self {
            Connector::Http { .. } => "HTTP",
            Connector::Download { .. } => "DOWNLOAD",
            Connector::Ssh { .. } => "SSH",
            Connector::Telnet { .. } => "TELNET",
        }
    }

    /// The target that the log records: the URL, the SSH target, or `host:port`.
    pub fn log_target(&self) -> (r: String)
        ensures
            r@ == log_target(self@),
    {
        match self {
            Connector::Http { url, .. } => url.clone(),
            Connector::Download { url, .. } => url.clone(),
            Connector::Ssh { target } => target.clone(),
            Connector::Telnet { host, port } => telnet_target(host.as_str(), port.as_str()),
        }
    }

    /// The status line that opens an attempt.
    pub fn opening_line(&self) -> (r: String)
        ensures
            r@ == opening_line(self@),
    {
        match self {
            Connector::Http { url, .. } => owned("Initializing HTTP connection to ").concat(
                url.as_str(),
            ),
            Connector::Download { url, .. } => owned("Initiating file transfer from ").concat(
                url.as_str(),
            ),
            Connector::Ssh { target } => owned("Establishing SSH connection to ").concat(
                target.as_str(),
            ),
            Connector::Telnet { host, port } => {
                let t = telnet_target(host.as_str(), port.as_str());
                owned("Establishing Telnet connection to ").concat(t.as_str())
            },
        }
    }

    /// Whether the attempt is an interactive session that ends with a disconnect.
    pub fn is_session(&self) -> (r: bool)
        ensures
            r == is_session(self@),
    {
        match self {
            Connector::Ssh { .. } | Connector::Telnet { .. } => true,
            _ => false,
        }
    }

    /// What the transport is asked to do: the request to send, or the
    /// external program to run with its arguments, passed through as given.
    pub fn transport(&self) -> (r: Transport)
        ensures
            transport_matches(self@, r),
    {
        match self {
            Connector::Http { url, method } => match method {
                Some(m) => Transport::Http { method: *m, url: url.clone() },
                None => Transport::Unsupported,
            },
            Connector::Download { url, output } => {
                let args = vec![
                    owned("--progress=bar"),
                    owned("--timeout=30"),
                    owned("-O"),
                    output.clone(),
                    url.clone(),
                ];
                assert(strings_view(args@) =~= download_args(url@, output@));
                Transport::Process { program: owned("wget"), args, progress: true }
            },
            Connector::Ssh { target } => {
                let args = vec![target.clone()];
                assert(strings_view(args@) =~= seq![target@]);
                Transport::Process { program: owned("ssh"), args, progress: false }
            },
            Connector::Telnet { host, port } => {
                let args = vec![host.clone(), port.clone()];
                assert(strings_view(args@) =~= seq![host@, port@]);
                Transport::Process { program: owned("telnet"), args, progress: false }
            },
        }
    }
}

/// `host:port`, the target that a Telnet attempt is logged under.
pub fn telnet_target(host: &str, port: &str) -> (r: String)
    ensures
        r@ == host_port(host@, port@),
{
    owned(host).concat(":").concat(port)
}

/// What `Url::parse` and `Url::path_segments` give as the last path segment
/// of a URL.
pub uninterp spec fn url_last_segment(url: Seq<char>) -> Option<Seq<char>>;

/// Relies on `url::Url::parse` and `url::Url::path_segments`: the last
/// segment of the URL's path, `None` where the text is no URL or its URL has
/// no hierarchical path.
#[verifier::external_body]
fn last_path_segment(url: &str) -> (r: Option<String>)
    ensures
        match r {
            Some(s) => url_last_segment(url@) == Some(s@),
            None => url_last_segment(url@) is None,
        },
{
    match url::Url::parse(url) {
        Ok(u) => match u.path_segments() {
            Some(segments) => match segments.last() {
                Some(s) => Some(s.to_string()),
                None => None,
            },
            None => None,
        },
        Err(_) => None,
    }
}

/// The name a download is saved under when none is given: the URL's last
/// path segment, or `download` where there is none or it is empty.
pub open spec fn filename_of(segment: Option<Seq<char>>) -> Seq<char> {
    match segment {
        Some(s) => if s.len() > 0 {
            s
        } else {
            "download"@
        },
        None => "download"@,
    }
}

/// The file name for a download, from the URL's last path segment.
pub fn filename_from_segment(segment: Option<String>) -> (r: String)
    ensures
        r@ == filename_of(
            match segment {
                Some(s) => Some(s@),
                None => None,
            },
        ),
{
    match segment {
        Some(s) => if s.unicode_len() > 0 {
            s
        } else {
            owned("download")
        },
        None => owned("download"),
    }
}

/// The file a download is saved to: `output` where given, else a name taken
/// from the URL.
pub fn download_filename(url: &str, output: Option<&str>) -> (r: String)
    ensures
        r@ == match output {
            Some(o) => o@,
            None => filename_of(url_last_segment(url@)),
        },
{
    match output {
        Some(o) => owned(o),
        None => filename_from_segment(last_path_segment(url)),
    }
}

/// What `str::to_uppercase` gives.
pub uninterp spec fn uppercased(s: Seq<char>) -> Seq<char>;

/// Relies on `str::to_uppercase`: the upper-case form of the text, which
/// depends on the characters alone.
#[verifier::external_body]
fn to_upper(s: &str) -> (r: String)
    ensures
        r@ == uppercased(s@),
{
    s.to_uppercase()
}

/// The method that an upper-case method name selects.
pub open spec fn method_of(upper: Seq<char>) -> Option<HttpMethod> {
    if upper == "GET"@ {
        Some(HttpMethod::Get)
    } else if upper == "HEAD"@ {
        Some(HttpMethod::Head)
    } else {
        None
    }
}

/// The method an upper-case method name selects, `None` where it is not supported.
pub fn method_from_upper(upper: &str) -> (r: Option<HttpMethod>)
    ensures
        r == method_of(upper@),
{
    if same_text(upper, "GET") {
        Some(HttpMethod::Get)
    } else if same_text(upper, "HEAD") {
        Some(HttpMethod::Head)
    } else {
        None
    }
}

/// The method asked for, in any case; `GET` where none is given.
pub fn http_method(given: Option<&str>) -> (r: Option<HttpMethod>)
    ensures
        r == match given {
            Some(m) => method_of(uppercased(m@)),
            None => Some(HttpMethod::Get),
        },
{
    match given {
        Some(m) => {
            let upper = to_upper(m);
            method_from_upper(upper.as_str())
        },
        None => Some(HttpMethod::Get),
    }
}

/// How many response headers are shown for a method.
pub fn header_limit(method: HttpMethod) -> (r: usize)
    ensures
        r == match method {
            HttpMethod::Get => 5usize,
            HttpMethod::Head => 10usize,
        },
{
    match method {
        HttpMethod::Get => 5,
        HttpMethod::Head => 10,
    }
}

/// The part of a response body that is shown, and whether the rest was cut.
pub fn body_preview(body: &str) -> (r: (String, bool))
    ensures
        body@.len() > BODY_PREVIEW_CHARS ==> r.0@ == body@.take(BODY_PREVIEW_CHARS as int) && r.1,
        body@.len() <= BODY_PREVIEW_CHARS ==> r.0@ == body@ && !r.1,
{
    let n = body.unicode_len();
    if n > BODY_PREVIEW_CHARS {
        let head = body.substring_char(0, BODY_PREVIEW_CHARS);
        (owned(head), true)
    } else {
        (owned(body), false)
    }
}

/// Whether `needle` occurs in `hay`.
pub open spec fn occurs_in(needle: Seq<char>, hay: Seq<char>) -> bool {
    exists|i: int| 0 <= i <= hay.len() - needle.len() && #[trigger] hay.subrange(i, i + needle.len()) == needle
}

/// Whether `needle` occurs in `hay`.
pub fn contains_text(hay: &str, needle: &str) -> (r: bool)
    ensures
        r == occurs_in(needle@, hay@),
{
    let n = hay.unicode_len();
    let m = needle.unicode_len();
    if m > n {
        return false;
    }
    if m == 0 {
        assert(hay@.subrange(0, 0 + needle@.len() as int) =~= needle@);
        return true;
    }
    let mut i: usize = 0;
    while i <= n - m
        invariant
            n == hay@.len(),
            m == needle@.len(),
            0 < m <= n,
            i <= n - m + 1,
            forall|k: int| 0 <= k < i ==> #[trigger] hay@.subrange(k, k + m) != needle@,
        decreases n - m + 1 - i,
    {
        if same_text(hay.substring_char(i, i + m), needle) {
            return true;
        }
        i = i + 1;
    }
    false
}

/// A line of the downloader's progress stream that is shown: one with a
/// percentage or the word `saved`.
pub open spec fn is_progress_line(line: Seq<char>) -> bool {
    occurs_in("%"@, line) || occurs_in("saved"@, line)
}

/// Whether a line of the downloader's progress stream is shown.
pub fn progress_line_shown(line: &str) -> (r: bool)
    ensures
        r == is_progress_line(line@),
{
    contains_text(line, "%") || contains_text(line, "saved")
}

} // verus!
