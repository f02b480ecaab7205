use http_timings::{Action, Event, RequestOutput, Session, Step, TimingError};
use std::io::Write;
use std::time::Duration;

fn ms(n: u64) -> Duration {
    Duration::from_millis(n)
}

/// Runs a request against a canned server reply, each piece of work taking a
/// fixed time. Returns the output and the actions asked for.
fn drive(
    input: &str,
    reply: &[u8],
    max: Option<Duration>,
) -> (Result<RequestOutput, TimingError>, Vec<String>) {
    let mut seen = Vec::new();
    let (mut session, mut action) = match Session::start(input, max) {
        Ok(x) => x,
        Err(e) => return (Err(e), seen),
    };
    let mut pos = 0;
    loop {
        seen.push(format!("{:?}", action));
        let event = match action {
            Action::Resolve { .. } => Event::Completed(ms(5)),
            Action::Connect { .. } => Event::Completed(ms(10)),
            Action::Handshake { .. } => Event::Completed(ms(20)),
            Action::Send { .. } => Event::Completed(ms(1)),
            Action::AwaitFirstByte => {
                pos = 1;
                Event::FirstByte(reply[0], ms(30))
            }
            Action::ReadLine => {
                let start = pos;
                while pos < reply.len() && reply[pos] != b'\n' {
                    pos += 1;
                }
                if pos < reply.len() {
                    pos += 1;
                }
                Event::Line(reply[start..pos].to_vec(), ms(1))
            }
            Action::ReadToEnd => Event::Body(reply[pos..].to_vec(), ms(2)),
            Action::ReadExact { len } => {
                let end = (pos + len).min(reply.len());
                Event::Body(reply[pos..end].to_vec(), ms(2))
            }
        };
        match session.advance(event) {
            Step::Next(a) => action = a,
            Step::Done(o) => return (Ok(o), seen),
            Step::Failed(e) => return (Err(e), seen),
        }
    }
}

fn reply(head: &str, body: &[u8]) -> Vec<u8> {
    let mut r = head.as_bytes().to_vec();
    r.extend_from_slice(body);
    r
}

fn gzip(text: &str) -> Vec<u8> {
    let mut e = flate2::write::GzEncoder::new(Vec::new(), flate2::Compression::default());
    e.write_all(text.as_bytes()).unwrap();
    e.finish().unwrap()
}

const NEVERSSL_PAGE: &str = "<html><body><h1>NeverSSL</h1><p>Follow @neverssl</p></body></html>";
const GOOGLE_PAGE: &str = "<html><head><title>Google</title></head><body>Google Search</body></html>";

fn google_reply() -> Vec<u8> {
    let body = gzip(GOOGLE_PAGE);
    reply(
        &format!(
            "HTTP/1.0 200 OK\r\nContent-Type: text/html\r\nContent-Encoding: gzip\r\nContent-Length: {}\r\n\r\n",
            body.len()
        ),
        &body,
    )
}

#[test]
fn test_non_tls_connection() {
    let url = "neverssl.com";
    let r = reply(
        &format!("HTTP/1.1 200 OK\r\nContent-Length: {}\r\n\r\n", NEVERSSL_PAGE.len()),
        NEVERSSL_PAGE.as_bytes(),
    );
    let (out, seen) = drive(url, &r, None);
    let output = out.unwrap();
    assert_eq!(output.status(), 200);
    assert!(output.body().contains("Follow @neverssl"));
    assert!(output.timings().dns().total().as_secs() < 1);
    assert!(output.timings().content_download().total().as_secs() < 5);
    assert!(output.timings().tls().is_none());
    assert!(seen[0].contains("\"neverssl.com\"") && seen[0].contains("port: 80"));
}

#[test]
fn test_popular_tls_connection() {
    let url = "https://www.google.com";
    let (out, seen) = drive(url, &google_reply(), None);
    let output = out.unwrap();
    assert_eq!(output.status(), 200);
    assert!(output.body().contains("Google Search"));
    assert!(output.timings().dns().total().as_secs() < 1);
    assert!(output.timings().content_download().total().as_secs() < 5);
    assert_eq!(output.timings().tls().unwrap().relative(), ms(20));
    assert!(seen[0].contains("port: 443"));
}

#[test]
fn test_ip() {
    let url = "1.1.1.1";
    let r = reply("HTTP/1.1 302 Found\r\nLocation: https://1.1.1.1/\r\nContent-Length: 0\r\n\r\n", b"");
    let (out, _) = drive(url, &r, None);
    let output = out.unwrap();
    assert_eq!(output.status(), 302);
    assert!(output.body().is_empty());
    assert!(output.timings().dns().total().as_secs() < 1);
    assert!(output.timings().content_download().total().as_secs() < 5);
}

#[test]
fn i_need_this_rq() {
    let (out, _) = drive("https://www.google.com", &google_reply(), None);
    println!("{:?}", out.unwrap());
}

#[test]
fn empty_input_is_an_input_error_before_any_work() {
    let (out, seen) = drive("", b"HTTP/1.0 200 OK\r\n\r\n", None);
    assert!(matches!(out, Err(TimingError::Input(_))));
    assert!(seen.is_empty());
}

#[test]
fn input_without_scheme_resolves_like_the_written_out_one() {
    let (_, a) = Session::start("example.com", None).unwrap();
    let (_, b) = Session::start("http://example.com", None).unwrap();
    assert_eq!(format!("{:?}", a), format!("{:?}", b));
    match a {
        Action::Resolve { host, port } => {
            assert_eq!(host, "example.com");
            assert_eq!(port, 80);
        }
        other => panic!("unexpected {:?}", other),
    }
}

#[test]
fn explicit_port_is_resolved() {
    let (_, a) = Session::start("http://example.com:8080/x", None).unwrap();
    assert!(matches!(a, Action::Resolve { port: 8080, .. }));
}

#[test]
fn unsupported_scheme_is_an_input_error() {
    assert!(matches!(
        Session::start("httpx://example.com", None),
        Err(TimingError::Input(_))
    ));
}

#[test]
fn malformed_url_is_an_input_error() {
    assert!(matches!(
        Session::start("http://exa mple.com", None),
        Err(TimingError::Input(_))
    ));
}

#[test]
fn connection_goes_to_the_tls_port_with_the_timeout() {
    let (mut s, _) = Session::start("neverssl.com", Some(ms(700))).unwrap();
    match s.advance(Event::Completed(ms(3))) {
        Step::Next(Action::Connect { host, port, read_timeout }) => {
            assert_eq!(host, "neverssl.com");
            assert_eq!(port, 443);
            assert_eq!(read_timeout, Some(ms(700)));
        }
        other => panic!("unexpected {:?}", other),
    }
    assert!(matches!(
        s.advance(Event::Completed(ms(3))),
        Step::Next(Action::Handshake { .. })
    ));
    match s.advance(Event::Completed(ms(3))) {
        Step::Next(Action::Send { request }) => assert_eq!(
            request,
            "GET / HTTP/1.0\r\nHost: neverssl.com\r\nAccept-Encoding: gzip, deflate, br\r\nUser-Agent: http-timings/0.1\r\nConnection: keep-alive\r\nAccept: */*\r\n\r\n"
        ),
        other => panic!("unexpected {:?}", other),
    }
}

#[test]
fn timings_add_up_over_the_phases() {
    let (out, _) = drive("https://www.google.com", &google_reply(), None);
    let o = out.unwrap();
    let t = o.timings();
    assert_eq!(t.dns().total(), ms(5));
    assert_eq!(t.tcp().total(), ms(15));
    assert_eq!(t.tls().unwrap().total(), ms(35));
    assert_eq!(t.http_send().total(), ms(36));
    assert_eq!(t.ttfb().total(), ms(66));
    // four head lines and the blank one at 1 ms each, then the body at 2 ms
    assert_eq!(t.content_download().relative(), ms(7));
    assert_eq!(t.content_download().total(), ms(73));
    assert_eq!(t.total(), ms(73));
}

#[test]
fn totals_skip_an_absent_tls_phase() {
    let t = http_timings::RequestTimings::new(ms(1), ms(2), None, ms(4), ms(8), ms(16));
    assert!(t.tls().is_none());
    assert_eq!(t.http_send().total(), ms(7));
    assert_eq!(t.ttfb().total(), ms(15));
    assert_eq!(t.ttfb().relative(), ms(8));
    assert_eq!(t.content_download().total(), ms(31));
    assert_eq!(t.total(), ms(31));
    assert!(t.fits());
    let u = http_timings::RequestTimings::new(ms(1), ms(2), Some(ms(100)), ms(4), ms(8), ms(16));
    assert_eq!(u.tls().unwrap().total(), ms(103));
    assert_eq!(u.http_send().total(), ms(107));
    assert_eq!(u.total(), ms(131));
}

#[test]
fn overflowing_totals_do_not_fit() {
    let t = http_timings::RequestTimings::new(Duration::MAX, ms(1), None, ms(0), ms(0), ms(0));
    assert!(!t.fits());
    assert_eq!(t.dns().total(), Duration::MAX);
}

#[test]
fn gzip_body_is_decompressed_and_identity_is_not() {
    let body = gzip("hello timings");
    let with = reply(
        &format!("HTTP/1.1 200 OK\r\nContent-Encoding: gzip\r\nContent-Length: {}\r\n\r\n", body.len()),
        &body,
    );
    let (out, _) = drive("example.com", &with, None);
    assert_eq!(out.unwrap().body(), "hello timings");
    let without = reply(&format!("HTTP/1.1 200 OK\r\nContent-Length: {}\r\n\r\n", body.len()), &body);
    let (out, _) = drive("example.com", &without, None);
    assert_ne!(out.unwrap().body(), "hello timings");
}

#[test]
fn deflate_body_is_decompressed() {
    let mut e = flate2::write::DeflateEncoder::new(Vec::new(), flate2::Compression::default());
    e.write_all(b"deflated text").unwrap();
    let body = e.finish().unwrap();
    let r = reply(
        &format!("HTTP/1.1 200 OK\r\nContent-Encoding: deflate\r\nContent-Length: {}\r\n\r\n", body.len()),
        &body,
    );
    let (out, _) = drive("example.com", &r, None);
    assert_eq!(out.unwrap().body(), "deflated text");
}

#[test]
fn corrupt_deflate_body_is_a_data_error() {
    let r = reply("HTTP/1.1 200 OK\r\nContent-Encoding: deflate\r\nContent-Length: 4\r\n\r\n", b"\xff\xff\xff\xff");
    let (out, _) = drive("example.com", &r, None);
    assert!(matches!(out, Err(TimingError::Data(_))));
}

#[test]
fn brotli_body_is_decompressed() {
    let mut body = Vec::new();
    {
        let mut w = brotli::CompressorWriter::new(&mut body, 4096, 5, 22);
        w.write_all(b"brotli text").unwrap();
    }
    let r = reply(
        &format!("HTTP/1.1 200 OK\r\nContent-Encoding: br\r\nContent-Length: {}\r\n\r\n", body.len()),
        &body,
    );
    let (out, _) = drive("example.com", &r, None);
    assert_eq!(out.unwrap().body(), "brotli text");
}

#[test]
fn corrupt_brotli_body_is_a_data_error() {
    let r = reply("HTTP/1.1 200 OK\r\nContent-Encoding: br\r\nContent-Length: 3\r\n\r\n", b"\xff\xfe\xfd");
    let (out, _) = drive("example.com", &r, None);
    assert!(matches!(out, Err(TimingError::Data(_))));
}

#[test]
fn unlengthed_body_is_read_to_the_end() {
    let r = reply("HTTP/1.1 200 OK\r\nServer: x\r\n\r\n", b"all of it\nand more");
    let (out, seen) = drive("example.com", &r, None);
    assert_eq!(out.unwrap().body(), "all of it\nand more");
    assert_eq!(seen.last().unwrap(), "ReadToEnd");
}

#[test]
fn declared_length_is_read_exactly() {
    let r = reply("HTTP/1.1 200 OK\r\nContent-Length:  5 \r\n\r\n", b"abcdefgh");
    let (out, seen) = drive("example.com", &r, None);
    assert_eq!(out.unwrap().body(), "abcde");
    assert_eq!(seen.last().unwrap(), "ReadExact { len: 5 }");
}

#[test]
fn unreadable_length_counts_as_none() {
    let r = reply("HTTP/1.1 200 OK\r\nContent-Length: five\r\n\r\n", b"xyz");
    let (out, _) = drive("example.com", &r, None);
    assert_eq!(out.unwrap().body(), "xyz");
}

#[test]
fn short_body_is_a_network_error() {
    let r = reply("HTTP/1.1 200 OK\r\nContent-Length: 10\r\n\r\n", b"abc");
    let (out, _) = drive("example.com", &r, None);
    assert!(matches!(out, Err(TimingError::Network(_))));
}

#[test]
fn missing_status_line_is_a_data_error() {
    let r = reply("XTTP/1.1 200 OK\r\nContent-Length: 1\r\n\r\n", b"a");
    let (out, _) = drive("example.com", &r, None);
    assert!(matches!(out, Err(TimingError::Data(_))));
}

#[test]
fn unreadable_status_is_a_data_error() {
    let r = reply("HTTP/1.1 70000 Big\r\n\r\n", b"");
    let (out, _) = drive("example.com", &r, None);
    assert!(matches!(out, Err(TimingError::Data(_))));
}

#[test]
fn head_cut_short_is_a_network_error() {
    let r = b"HTTP/1.1 200 OK\r\nServer: x\r\n".to_vec();
    let (out, _) = drive("example.com", &r, None);
    assert!(matches!(out, Err(TimingError::Network(_))));
}

#[test]
fn reported_failure_ends_the_request() {
    let (mut s, _) = Session::start("example.com", None).unwrap();
    match s.advance(Event::Failed("no such host".to_string())) {
        Step::Failed(TimingError::Network(m)) => assert_eq!(m, "no such host"),
        other => panic!("unexpected {:?}", other),
    }
    assert!(matches!(s.advance(Event::Completed(ms(1))), Step::Failed(_)));
}

#[test]
fn report_of_other_work_ends_the_request() {
    let (mut s, _) = Session::start("example.com", None).unwrap();
    assert!(matches!(
        s.advance(Event::Line(b"HTTP/1.1 200 OK\r\n".to_vec(), ms(1))),
        Step::Failed(TimingError::Network(_))
    ));
}
