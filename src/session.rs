//! The phases of one request, as a machine that the caller drives: it names
//! the next piece of network work, the caller does it and reports back.
use crate::duration::{max_nanos, nanos_of};
use crate::error::TimingError;
use crate::decode::{
    brotli_name, decode_body, decoded_body_of, deflate_name, gzip_name, lossy_text_of,
};
use crate::head::{
    content_encoding_of, content_length_of, lines_view, parse_content_encoding,
    parse_content_length, parse_status, status_of,
};
use crate::target::{
    is_encrypted, parse_input, parsed_url_of, normalized_input, request_text, request_text_of,
    target_port, target_port_of, uses_tls, UrlParts, UrlView,
};
use crate::timings::{RequestTimings, TimingsView};
use std::time::Duration;
use vstd::prelude::*;
use vstd::string::*;

verus! {

/// The port the connection is made to, whatever the scheme; the unencrypted
/// scheme too goes through the TLS handshake on it.
pub const CONNECT_PORT: u16 = 443;

/// What a successful request returns: the status code, the timings and the
/// decoded body.
#[derive(Debug)]
pub struct RequestOutput {
    status: u16,
    timings: RequestTimings,
    body: String,
}

pub ghost struct OutputView {
    pub status: u16,
    pub timings: TimingsView,
    pub body: Seq<char>,
}

impl View for RequestOutput {
    type V = OutputView;

    closed spec fn view(&self) -> OutputView {
        OutputView { status: self.status, timings: self.timings@, body: self.body@ }
    }
}

impl RequestOutput {
    /// The status code.
    pub fn status(&self) -> (r: u16)
        ensures
            r == self@.status,
    {
        self.status
    }

    /// The timings.
    pub fn timings(&self) -> (r: &RequestTimings)
        ensures
            r@ == self@.timings,
    {
        &self.timings
    }

    /// The decoded body.
    pub fn body(&self) -> (r: &str)
        ensures
            r@ == self@.body,
    {
        self.body.as_str()
    }
}

/// Network work for the caller to do next.
#[derive(Debug)]
pub enum Action {
    /// Resolve `host:port`; report `Event::Completed` with the time taken.
    Resolve { host: String, port: u16 },
    /// Open a TCP connection to `host:port`, bound reads on it by
    /// `read_timeout`; report `Event::Completed`.
    Connect { host: String, port: u16, read_timeout: Option<Duration> },
    /// Perform the TLS handshake for `server_name` over the connection;
    /// report `Event::Completed`.
    Handshake { server_name: String },
    /// Write all of `request`; report `Event::Completed`.
    Send { request: String },
    /// Read one byte; report `Event::FirstByte`.
    AwaitFirstByte,
    /// Read up to and including the next `\n`, or to the end of the stream;
    /// report `Event::Line`.
    ReadLine,
    /// Read until the stream ends; report `Event::Body`.
    ReadToEnd,
    /// Read exactly `len` bytes; report `Event::Body`.
    ReadExact { len: usize },
}

/// What the caller reports after doing an [`Action`].
#[derive(Debug)]
pub enum Event {
    /// The work finished after the given time.
    Completed(Duration),
    /// The first byte of the response, and the time waited for it.
    FirstByte(u8, Duration),
    /// The bytes of one line (empty at the end of the stream), and the time
    /// the read took.
    Line(Vec<u8>, Duration),
    /// The body bytes, and the time the read took.
    Body(Vec<u8>, Duration),
    /// The work failed, for the reason given.
    Failed(String),
}

/// What follows an event.
#[derive(Debug)]
pub enum Step {
    Next(Action),
    Done(RequestOutput),
    Failed(TimingError),
}

#[derive(Debug, Clone, Copy, PartialEq, Eq, Structural)]
pub enum Phase {
    Dns,
    Tcp,
    Tls,
    Send,
    FirstByte,
    Head,
    Body,
    Over,
}

/// One request in progress.
#[derive(Debug)]
pub struct Session {
    url: UrlParts,
    max_duration: Option<Duration>,
    phase: Phase,
    dns: Option<Duration>,
    tcp: Option<Duration>,
    tls: Option<Duration>,
    http_send: Option<Duration>,
    ttfb: Option<Duration>,
    download: Option<Duration>,
    pending: Vec<u8>,
    lines: Vec<Vec<u8>>,
    body_len: usize,
}

pub open spec fn nanos_opt(d: Option<Duration>) -> Option<nat> {
    match d {
        Some(x) => Some(nanos_of(x)),
        None => None,
    }
}

pub ghost struct SessionView {
    pub url: UrlView,
    pub max_duration: Option<Duration>,
    pub phase: Phase,
    pub dns: Option<nat>,
    pub tcp: Option<nat>,
    pub tls: Option<nat>,
    pub http_send: Option<nat>,
    pub ttfb: Option<nat>,
    /// The time spent reading the response head and body so far.
    pub download: Option<nat>,
    /// Bytes read ahead of the next line: the first byte, until the first line
    /// comes.
    pub pending: Seq<u8>,
    /// The lines of the response head read so far.
    pub lines: Seq<Seq<u8>>,
    pub body_len: nat,
}

impl View for Session {
    type V = SessionView;

    closed spec fn view(&self) -> SessionView {
        SessionView {
            url: self.url@,
            max_duration: self.max_duration,
            phase: self.phase,
            dns: nanos_opt(self.dns),
            tcp: nanos_opt(self.tcp),
            tls: nanos_opt(self.tls),
            http_send: nanos_opt(self.http_send),
            ttfb: nanos_opt(self.ttfb),
            download: nanos_opt(self.download),
            pending: self.pending@,
            lines: lines_view(self.lines@),
            body_len: self.body_len as nat,
        }
    }
}

/// The phase that follows each phase whose work ends in `Event::Completed`.
pub open spec fn phase_after(p: Phase) -> Phase {
    match p {
        Phase::Dns => Phase::Tcp,
        Phase::Tcp => Phase::Tls,
        Phase::Tls => Phase::Send,
        Phase::Send => Phase::FirstByte,
        _ => Phase::Over,
    }
}

/// The time read so far with `d` added.
pub open spec fn download_after(v: SessionView, d: Duration) -> nat {
    match v.download {
        Some(t) => t + nanos_of(d),
        None => nanos_of(d),
    }
}

/// The output of a request whose body arrives in `body` after `d`, or `None`
/// where the status line is missing or the body does not decode.
pub open spec fn output_of(v: SessionView, body: Seq<u8>, d: Duration) -> Option<OutputView> {
    match (status_of(v.lines), decoded_body_of(content_encoding_of(v.lines), body)) {
        (Some(status), Some(text)) => Some(
            OutputView {
                status,
                timings: TimingsView {
                    dns: v.dns->0,
                    tcp: v.tcp->0,
                    tls: if is_encrypted(v.url) {
                        v.tls
                    } else {
                        None
                    },
                    http_send: v.http_send->0,
                    ttfb: v.ttfb->0,
                    content_download: download_after(v, d),
                },
                body: text,
            },
        ),
        _ => None,
    }
}

impl SessionView {
    /// The durations recorded match the phase reached, and the URL has a host.
    pub open spec fn wf(self) -> bool {
        &&& self.url.host is Some
        &&& (self.phase != Phase::Dns && self.phase != Phase::Over) ==> self.dns is Some
        &&& (self.phase == Phase::Tls || self.phase == Phase::Send || self.phase
            == Phase::FirstByte || self.phase == Phase::Head || self.phase == Phase::Body)
            ==> self.tcp is Some
        &&& (self.phase == Phase::Send || self.phase == Phase::FirstByte || self.phase
            == Phase::Head || self.phase == Phase::Body) ==> self.tls is Some
        &&& (self.phase == Phase::FirstByte || self.phase == Phase::Head || self.phase
            == Phase::Body) ==> self.http_send is Some
        &&& (self.phase == Phase::Head || self.phase == Phase::Body) ==> self.ttfb is Some
        &&& self.phase == Phase::Body ==> self.download is Some
    }
}

impl Session {
    pub closed spec fn wf(&self) -> bool {
        self@.wf()
    }

    /// Validates the input and names the first piece of work, the resolution
    /// of the URL's host at its port. An input error where the input is
    /// empty, is no URL once normalized, or has no host or an unsupported
    /// scheme; no network work is asked for then.
    pub fn start(input: &str, max_duration: Option<Duration>) -> (r: Result<
        (Session, Action),
        TimingError,
    >)
        ensures
            r is Ok <==> input@.len() > 0 && parsed_url_of(normalized_input(input@)) is Some
                && target_port_of(parsed_url_of(normalized_input(input@))->0) is Some,
            r matches Err(e) ==> e is Input,
            r matches Ok((s, a)) ==> {
                let u = parsed_url_of(normalized_input(input@))->0;
                &&& s.wf()
                &&& s@.url == u
                &&& s@.phase == Phase::Dns
                &&& s@.max_duration == max_duration
                &&& s@.download is None
                &&& s@.lines.len() == 0
                &&& a matches Action::Resolve { host, port } && host@ == u.host->0 && Some(port)
                    == target_port_of(u)
            },
    {
        let url = parse_input(input)?;
        let port = target_port(&url)?;
        let host = match &url.host {
            Some(h) => h.clone(),
            None => return Err(TimingError::Input(String::from_str("URL without host"))),
        };
        let session = Session {
            url,
            max_duration,
            phase: Phase::Dns,
            dns: None,
            tcp: None,
            tls: None,
            http_send: None,
            ttfb: None,
            download: None,
            pending: Vec::new(),
            lines: Vec::new(),
            body_len: 0,
        };
        proof {
            assert(session@.lines =~= Seq::<Seq<u8>>::empty());
        }
        Ok((session, Action::Resolve { host, port }))
    }

    /// The phase the request is in.
    pub fn phase(&self) -> (r: Phase)
        ensures
            r == self@.phase,
    {
        self.phase
    }

    fn abort(&mut self, e: TimingError) -> (r: Step)
        ensures
            final(self)@ == (SessionView { phase: Phase::Over, ..old(self)@ }),
            r == Step::Failed(e),
    {
        self.phase = Phase::Over;
        Step::Failed(e)
    }

    /// Takes the report of the work last asked for and names what follows.
    /// A reported failure, or a report that does not answer that work, ends
    /// the request with a network error; nothing follows the end.
    pub fn advance(&mut self, event: Event) -> (r: Step)
        requires
            old(self).wf(),
        ensures
            final(self).wf(),
            final(self)@.url == old(self)@.url,
            old(self)@.phase == Phase::Over ==> final(self)@.phase == Phase::Over && r is Failed,
            old(self)@.phase != Phase::Over && !answers(old(self)@.phase, event) ==> final(self)@.phase == Phase::Over && r matches Step::Failed(TimingError::Network(_)),
            event matches Event::Failed(m) ==> (old(self)@.phase != Phase::Over ==> r
                == Step::Failed(TimingError::Network(m))),
            event matches Event::Completed(d) ==> (old(self)@.phase == Phase::Dns ==> {
                &&& final(self)@ == (SessionView {
                    phase: Phase::Tcp,
                    dns: Some(nanos_of(d)),
                    ..old(self)@
                })
                &&& r matches Step::Next(Action::Connect { host, port, read_timeout }) && host@
                    == old(self)@.url.host->0 && port == CONNECT_PORT && read_timeout == old(self)@.max_duration
            }),
            event matches Event::Completed(d) ==> (old(self)@.phase == Phase::Tcp ==> {
                &&& final(self)@ == (SessionView {
                    phase: Phase::Tls,
                    tcp: Some(nanos_of(d)),
                    ..old(self)@
                })
                &&& r matches Step::Next(Action::Handshake { server_name }) && server_name@
                    == old(self)@.url.host->0
            }),
            event matches Event::Completed(d) ==> (old(self)@.phase == Phase::Tls ==> {
                &&& final(self)@ == (SessionView {
                    phase: Phase::Send,
                    tls: Some(nanos_of(d)),
                    ..old(self)@
                })
                &&& r matches Step::Next(Action::Send { request }) && request@ == request_text_of(
                    old(self)@.url.path,
                    old(self)@.url.host->0,
                )
            }),
            event matches Event::Completed(d) ==> (old(self)@.phase == Phase::Send ==> {
                &&& final(self)@ == (SessionView {
                    phase: Phase::FirstByte,
                    http_send: Some(nanos_of(d)),
                    ..old(self)@
                })
                &&& r matches Step::Next(Action::AwaitFirstByte)
            }),
            event matches Event::FirstByte(b, d) ==> (old(self)@.phase == Phase::FirstByte ==> {
                &&& final(self)@ == (SessionView {
                    phase: Phase::Head,
                    ttfb: Some(nanos_of(d)),
                    pending: seq![b],
                    ..old(self)@
                })
                &&& r matches Step::Next(Action::ReadLine)
            }),
            event matches Event::Line(l, d) ==> (old(self)@.phase == Phase::Head ==> {
                let v = old(self)@;
                let line = v.pending + l@;
                if l@.len() == 0 {
                    final(self)@.phase == Phase::Over && r matches Step::Failed(
                        TimingError::Network(_),
                    )
                } else if download_after(v, d) > max_nanos() {
                    final(self)@.phase == Phase::Over && r matches Step::Failed(
                        TimingError::Overflow(_),
                    )
                } else if line.len() == 2 {
                    &&& final(self)@ == (SessionView {
                        phase: Phase::Body,
                        download: Some(download_after(v, d)),
                        pending: Seq::empty(),
                        body_len: content_length_of(v.lines),
                        ..v
                    })
                    &&& content_length_of(v.lines) == 0 ==> r == Step::Next(Action::ReadToEnd)
                    &&& content_length_of(v.lines) != 0 ==> r == Step::Next(
                        Action::ReadExact { len: content_length_of(v.lines) as usize },
                    )
                } else {
                    &&& final(self)@ == (SessionView {
                        download: Some(download_after(v, d)),
                        pending: Seq::empty(),
                        lines: v.lines.push(line),
                        ..v
                    })
                    &&& r matches Step::Next(Action::ReadLine)
                }
            }),
            event matches Event::Body(b, d) ==> (old(self)@.phase == Phase::Body ==> {
                let v = old(self)@;
                &&& final(self)@.phase == Phase::Over
                &&& if v.body_len != 0 && b@.len() != v.body_len {
                    r matches Step::Failed(TimingError::Network(_))
                } else if download_after(v, d) > max_nanos() {
                    r matches Step::Failed(TimingError::Overflow(_))
                } else {
                    match output_of(v, b@, d) {
                        Some(o) => r matches Step::Done(out) && out@ == o,
                        None => r matches Step::Failed(TimingError::Data(_)),
                    }
                }
            }),
    {
        if self.phase == Phase::Over {
            return Step::Failed(TimingError::Network(String::from_str("the request is over")));
        }
        match event {
            Event::Failed(m) => self.abort(TimingError::Network(m)),
            Event::Completed(d) => self.completed(d),
            Event::FirstByte(b, d) => {
                if self.phase != Phase::FirstByte {
                    return self.abort(unanswered());
                }
                self.ttfb = Some(d);
                self.pending = vec![b];
                assert(self.pending@ =~= seq![b]);
                self.phase = Phase::Head;
                Step::Next(Action::ReadLine)
            },
            Event::Line(l, d) => {
                if self.phase != Phase::Head {
                    return self.abort(unanswered());
                }
                self.head_line(l, d)
            },
            Event::Body(b, d) => {
                if self.phase != Phase::Body {
                    return self.abort(unanswered());
                }
                self.body_read(b, d)
            },
        }
    }

    fn completed(&mut self, d: Duration) -> (r: Step)
        requires
            old(self).wf(),
            old(self)@.phase != Phase::Over,
        ensures
            final(self).wf(),
            final(self)@.url == old(self)@.url,
            !answers(old(self)@.phase, Event::Completed(d)) ==> final(self)@.phase == Phase::Over
                && r matches Step::Failed(TimingError::Network(_)),
            old(self)@.phase == Phase::Dns ==> {
                &&& final(self)@ == (SessionView {
                    phase: Phase::Tcp,
                    dns: Some(nanos_of(d)),
                    ..old(self)@
                })
                &&& r matches Step::Next(Action::Connect { host, port, read_timeout }) && host@
                    == old(self)@.url.host->0 && port == CONNECT_PORT && read_timeout == old(self)@.max_duration
            },
            old(self)@.phase == Phase::Tcp ==> {
                &&& final(self)@ == (SessionView {
                    phase: Phase::Tls,
                    tcp: Some(nanos_of(d)),
                    ..old(self)@
                })
                &&& r matches Step::Next(Action::Handshake { server_name }) && server_name@
                    == old(self)@.url.host->0
            },
            old(self)@.phase == Phase::Tls ==> {
                &&& final(self)@ == (SessionView {
                    phase: Phase::Send,
                    tls: Some(nanos_of(d)),
                    ..old(self)@
                })
                &&& r matches Step::Next(Action::Send { request }) && request@ == request_text_of(
                    old(self)@.url.path,
                    old(self)@.url.host->0,
                )
            },
            old(self)@.phase == Phase::Send ==> {
                &&& final(self)@ == (SessionView {
                    phase: Phase::FirstByte,
                    http_send: Some(nanos_of(d)),
                    ..old(self)@
                })
                &&& r matches Step::Next(Action::AwaitFirstByte)
            },
    {
        let host = match &self.url.host {
            Some(h) => h.clone(),
            None => String::new(),
        };
        match self.phase {
            Phase::Dns => {
                self.dns = Some(d);
                self.phase = Phase::Tcp;
                Step::Next(
                    Action::Connect {
                        host,
                        port: CONNECT_PORT,
                        read_timeout: self.max_duration,
                    },
                )
            },
            Phase::Tcp => {
                self.tcp = Some(d);
                self.phase = Phase::Tls;
                Step::Next(Action::Handshake { server_name: host })
            },
            Phase::Tls => {
                self.tls = Some(d);
                self.phase = Phase::Send;
                Step::Next(Action::Send { request: request_text(&self.url) })
            },
            Phase::Send => {
                self.http_send = Some(d);
                self.phase = Phase::FirstByte;
                Step::Next(Action::AwaitFirstByte)
            },
            _ => self.abort(unanswered()),
        }
    }

    fn add_download(&self, d: Duration) -> (r: Option<Duration>)
        ensures
            r is Some <==> download_after(self@, d) <= max_nanos(),
            r matches Some(t) ==> nanos_of(t) == download_after(self@, d),
    {
        // `as_nanos` bounds `d` by the largest duration, which the first
        // reading needs.
        let _whole = d.as_nanos();
        match self.download {
            Some(t) => t.checked_add(d),
            None => Some(d),
        }
    }

    fn head_line(&mut self, l: Vec<u8>, d: Duration) -> (r: Step)
        requires
            old(self).wf(),
            old(self)@.phase == Phase::Head,
        ensures
            final(self).wf(),
            final(self)@.url == old(self)@.url,
            ({
                let v = old(self)@;
                let line = v.pending + l@;
                if l@.len() == 0 {
                    final(self)@.phase == Phase::Over && r matches Step::Failed(
                        TimingError::Network(_),
                    )
                } else if download_after(v, d) > max_nanos() {
                    final(self)@.phase == Phase::Over && r matches Step::Failed(
                        TimingError::Overflow(_),
                    )
                } else if line.len() == 2 {
                    &&& final(self)@ == (SessionView {
                        phase: Phase::Body,
                        download: Some(download_after(v, d)),
                        pending: Seq::empty(),
                        body_len: content_length_of(v.lines),
                        ..v
                    })
                    &&& content_length_of(v.lines) == 0 ==> r == Step::Next(Action::ReadToEnd)
                    &&& content_length_of(v.lines) != 0 ==> r == Step::Next(
                        Action::ReadExact { len: content_length_of(v.lines) as usize },
                    )
                } else {
                    &&& final(self)@ == (SessionView {
                        download: Some(download_after(v, d)),
                        pending: Seq::empty(),
                        lines: v.lines.push(line),
                        ..v
                    })
                    &&& r matches Step::Next(Action::ReadLine)
                }
            }),
    {
        if l.len() == 0 {
            return self.abort(
                TimingError::Network(
                    String::from_str("the connection closed before the end of the response head"),
                ),
            );
        }
        let total = match self.add_download(d) {
            Some(t) => t,
            None => return self.abort(
                TimingError::Overflow(String::from_str("the download time overflows")),
            ),
        };
        let ghost old_lines = self.lines@;
        let mut line: Vec<u8> = Vec::new();
        line.append(&mut self.pending);
        let mut rest = l;
        line.append(&mut rest);
        self.download = Some(total);
        if line.len() == 2 {
            self.body_len = parse_content_length(&self.lines);
            self.phase = Phase::Body;
            if self.body_len == 0 {
                Step::Next(Action::ReadToEnd)
            } else {
                Step::Next(Action::ReadExact { len: self.body_len })
            }
        } else {
            self.lines.push(line);
            proof {
                assert(lines_view(self.lines@) =~= lines_view(old_lines).push(line@));
            }
            Step::Next(Action::ReadLine)
        }
    }

    fn body_read(&mut self, b: Vec<u8>, d: Duration) -> (r: Step)
        requires
            old(self).wf(),
            old(self)@.phase == Phase::Body,
        ensures
            final(self).wf(),
            final(self)@.url == old(self)@.url,
            final(self)@.phase == Phase::Over,
            ({
                let v = old(self)@;
                if v.body_len != 0 && b@.len() != v.body_len {
                    r matches Step::Failed(TimingError::Network(_))
                } else if download_after(v, d) > max_nanos() {
                    r matches Step::Failed(TimingError::Overflow(_))
                } else {
                    match output_of(v, b@, d) {
                        Some(o) => r matches Step::Done(out) && out@ == o,
                        None => r matches Step::Failed(TimingError::Data(_)),
                    }
                }
            }),
    {
        if self.body_len != 0 && b.len() != self.body_len {
            return self.abort(
                TimingError::Network(String::from_str("the body ended before its declared length")),
            );
        }
        let total = match self.add_download(d) {
            Some(t) => t,
            None => return self.abort(
                TimingError::Overflow(String::from_str("the download time overflows")),
            ),
        };
        let status = match parse_status(&self.lines) {
            Some(s) => s,
            None => return self.abort(TimingError::Data(String::from_str("no status code returned"))),
        };
        let coding = parse_content_encoding(&self.lines);
        let body = match decode_body(&coding, &b) {
            Ok(t) => t,
            Err(e) => return self.abort(e),
        };
        let tls = if uses_tls(&self.url) {
            self.tls
        } else {
            None
        };
        let timings = RequestTimings::new(
            self.dns.unwrap(),
            self.tcp.unwrap(),
            tls,
            self.http_send.unwrap(),
            self.ttfb.unwrap(),
            total,
        );
        self.phase = Phase::Over;
        Step::Done(RequestOutput { status, timings, body })
    }
}

/// Whether `e` is the report of the work that phase `p` asks for.
pub open spec fn answers(p: Phase, e: Event) -> bool {
    match e {
        Event::Completed(_) => p == Phase::Dns || p == Phase::Tcp || p == Phase::Tls || p
            == Phase::Send,
        Event::FirstByte(_, _) => p == Phase::FirstByte,
        Event::Line(_, _) => p == Phase::Head,
        Event::Body(_, _) => p == Phase::Body,
        Event::Failed(_) => true,
    }
}

fn unanswered() -> (r: TimingError)
    ensures
        r is Network,
{
    TimingError::Network(String::from_str("the report does not answer the work asked for"))
}

/// The TLS duration is reported exactly when the URL's scheme is the
/// encrypted one; for the unencrypted scheme the handshake is timed but left
/// out.
pub proof fn lemma_tls_reported_iff_encrypted(v: SessionView, body: Seq<u8>, d: Duration)
    requires
        v.wf(),
        v.phase == Phase::Body,
        output_of(v, body, d) is Some,
    ensures
        output_of(v, body, d)->0.timings.tls is Some <==> is_encrypted(v.url),
        is_encrypted(v.url) ==> output_of(v, body, d)->0.timings.tls == v.tls,
{
}

/// A head without a declared length and without a content coding makes the
/// body be read to the end of the stream, and the output's body is the text
/// of all those bytes.
pub proof fn lemma_unlengthed_identity_body(v: SessionView, body: Seq<u8>, d: Duration)
    requires
        v.wf(),
        v.phase == Phase::Body,
        v.body_len == 0,
        content_encoding_of(v.lines) == Seq::<u8>::empty(),
        status_of(v.lines) is Some,
    ensures
        output_of(v, body, d) is Some,
        output_of(v, body, d)->0.body == lossy_text_of(body),
{
    assert(Seq::<u8>::empty() != gzip_name()) by {
        assert(gzip_name().len() == 4);
    }
    assert(Seq::<u8>::empty() != deflate_name()) by {
        assert(deflate_name().len() == 7);
    }
    assert(Seq::<u8>::empty() != brotli_name()) by {
        assert(brotli_name().len() == 2);
    }
}

} // verus!
