//! Phase durations of one request and their running totals.
use crate::duration::{max_nanos, nanos_of};
use std::time::Duration;
use vstd::prelude::*;

verus! {

/// The duration of one phase ("relative") and the time from the start of the
/// request through the end of that phase ("total").
#[derive(Debug)]
pub struct DurationPair {
    total: Duration,
    relative: Duration,
}

/// A [`DurationPair`] in nanoseconds.
pub ghost struct PairView {
    pub total: nat,
    pub relative: nat,
}

impl View for DurationPair {
    type V = PairView;

    closed spec fn view(&self) -> PairView {
        PairView { total: nanos_of(self.total), relative: nanos_of(self.relative) }
    }
}

impl DurationPair {
    /// The time from the start of the request through the end of this phase.
    pub fn total(&self) -> (r: Duration)
        ensures
            nanos_of(r) == self@.total,
    {
        self.total
    }

    /// The duration of this phase alone.
    pub fn relative(&self) -> (r: Duration)
        ensures
            nanos_of(r) == self@.relative,
    {
        self.relative
    }
}

/// The six phase durations of a request, in nanoseconds. `tls` is present only
/// for a request over an encrypted transport.
pub ghost struct TimingsView {
    pub dns: nat,
    pub tcp: nat,
    pub tls: Option<nat>,
    pub http_send: nat,
    pub ttfb: nat,
    pub content_download: nat,
}

impl TimingsView {
    pub open spec fn dns_total(self) -> nat {
        self.dns
    }

    pub open spec fn tcp_total(self) -> nat {
        self.dns_total() + self.tcp
    }

    /// The total through the TLS phase; where there was none, through TCP.
    pub open spec fn tls_total(self) -> nat {
        match self.tls {
            Some(t) => self.tcp_total() + t,
            None => self.tcp_total(),
        }
    }

    pub open spec fn http_send_total(self) -> nat {
        self.tls_total() + self.http_send
    }

    pub open spec fn ttfb_total(self) -> nat {
        self.http_send_total() + self.ttfb
    }

    pub open spec fn content_download_total(self) -> nat {
        self.ttfb_total() + self.content_download
    }

    /// The time of the whole request.
    pub open spec fn request_total(self) -> nat {
        self.dns + self.tcp + match self.tls {
            Some(t) => t,
            None => 0,
        } + self.http_send + self.ttfb + self.content_download
    }
}

/// The key HTTP timings of one request. Each field holds the duration of its
/// own phase; the accessors add up the totals.
#[derive(Debug)]
pub struct RequestTimings {
    dns: Duration,
    tcp: Duration,
    tls: Option<Duration>,
    http_send: Duration,
    ttfb: Duration,
    content_download: Duration,
}

impl View for RequestTimings {
    type V = TimingsView;

    closed spec fn view(&self) -> TimingsView {
        TimingsView {
            dns: nanos_of(self.dns),
            tcp: nanos_of(self.tcp),
            tls: match self.tls {
                Some(t) => Some(nanos_of(t)),
                None => None,
            },
            http_send: nanos_of(self.http_send),
            ttfb: nanos_of(self.ttfb),
            content_download: nanos_of(self.content_download),
        }
    }
}

impl RequestTimings {
    /// Bundles the six phase durations, each the duration of its own phase.
    pub fn new(
        dns: Duration,
        tcp: Duration,
        tls: Option<Duration>,
        http_send: Duration,
        ttfb: Duration,
        content_download: Duration,
    ) -> (r: Self)
        ensures
            r@ == (TimingsView {
                dns: nanos_of(dns),
                tcp: nanos_of(tcp),
                tls: match tls {
                    Some(t) => Some(nanos_of(t)),
                    None => None,
                },
                http_send: nanos_of(http_send),
                ttfb: nanos_of(ttfb),
                content_download: nanos_of(content_download),
            }),
    {
        RequestTimings { dns, tcp, tls, http_send, ttfb, content_download }
    }

    /// The DNS phase, the first one: its total is its own duration.
    pub fn dns(&self) -> (r: DurationPair)
        ensures
            r@ == (PairView { total: self@.dns_total(), relative: self@.dns }),
    {
        DurationPair { total: self.dns, relative: self.dns }
    }

    /// The TCP phase. The total must fit in a `Duration`.
    pub fn tcp(&self) -> (r: DurationPair)
        requires
            self@.tcp_total() <= max_nanos(),
        ensures
            r@ == (PairView { total: self@.tcp_total(), relative: self@.tcp }),
    {
        let before = self.dns().total();
        let total = before.checked_add(self.tcp).unwrap();
        DurationPair { total, relative: self.tcp }
    }

    /// The TLS phase, where the request had one. The total must fit in a
    /// `Duration`.
    pub fn tls(&self) -> (r: Option<DurationPair>)
        requires
            self@.tls_total() <= max_nanos(),
        ensures
            r is Some <==> self@.tls is Some,
            r matches Some(p) ==> p@ == (PairView {
                total: self@.tls_total(),
                relative: self@.tls->0,
            }),
    {
        match self.tls {
            Some(t) => {
                let before = self.tcp().total();
                let total = before.checked_add(t).unwrap();
                Some(DurationPair { total, relative: t })
            },
            None => None,
        }
    }

    /// The HTTP send phase; it follows TLS, or TCP where there was no TLS.
    /// The total must fit in a `Duration`.
    pub fn http_send(&self) -> (r: DurationPair)
        requires
            self@.http_send_total() <= max_nanos(),
        ensures
            r@ == (PairView { total: self@.http_send_total(), relative: self@.http_send }),
    {
        let before = match self.tls() {
            Some(p) => p.total(),
            None => self.tcp().total(),
        };
        let total = before.checked_add(self.http_send).unwrap();
        DurationPair { total, relative: self.http_send }
    }

    /// The time to first byte. The total must fit in a `Duration`.
    pub fn ttfb(&self) -> (r: DurationPair)
        requires
            self@.ttfb_total() <= max_nanos(),
        ensures
            r@ == (PairView { total: self@.ttfb_total(), relative: self@.ttfb }),
    {
        let before = self.http_send().total();
        let total = before.checked_add(self.ttfb).unwrap();
        DurationPair { total, relative: self.ttfb }
    }

    /// The content download phase, the last one. The total must fit in a
    /// `Duration`.
    pub fn content_download(&self) -> (r: DurationPair)
        requires
            self@.content_download_total() <= max_nanos(),
        ensures
            r@ == (PairView {
                total: self@.content_download_total(),
                relative: self@.content_download,
            }),
    {
        let before = self.ttfb().total();
        let total = before.checked_add(self.content_download).unwrap();
        DurationPair { total, relative: self.content_download }
    }

    /// The duration of the whole request, which must fit in a `Duration`.
    pub fn total(&self) -> (r: Duration)
        requires
            self@.request_total() <= max_nanos(),
        ensures
            nanos_of(r) == self@.request_total(),
            nanos_of(r) == self@.content_download_total(),
    {
        self.content_download().total()
    }

    /// Whether the whole request's total fits in a `Duration`, so that every
    /// accessor may be called.
    pub fn fits(&self) -> (r: bool)
        ensures
            r == (self@.request_total() <= max_nanos()),
    {
        let mut sum = match self.dns.checked_add(self.tcp) {
            Some(s) => s,
            None => return false,
        };
        if let Some(t) = self.tls {
            sum = match sum.checked_add(t) {
                Some(s) => s,
                None => return false,
            };
        }
        sum = match sum.checked_add(self.http_send) {
            Some(s) => s,
            None => return false,
        };
        sum = match sum.checked_add(self.ttfb) {
            Some(s) => s,
            None => return false,
        };
        match sum.checked_add(self.content_download) {
            Some(_) => true,
            None => false,
        }
    }
}

/// Each phase's total is its own duration added to the total of the phase
/// before it, the TLS phase skipped where the request had none; the DNS
/// phase, the first, has its own duration as total.
pub proof fn lemma_totals_chain(t: RequestTimings)
    ensures
        t@.dns_total() == t@.dns,
        t@.tcp_total() == t@.tcp + t@.dns_total(),
        t@.tls matches Some(d) ==> t@.tls_total() == d + t@.tcp_total(),
        t@.tls matches Some(d) ==> t@.http_send_total() == t@.http_send + t@.tls_total(),
        t@.tls is None ==> t@.http_send_total() == t@.http_send + t@.tcp_total(),
        t@.ttfb_total() == t@.ttfb + t@.http_send_total(),
        t@.content_download_total() == t@.content_download + t@.ttfb_total(),
{
}

/// The last phase's total is the total of the whole request: the sum of all
/// phase durations.
pub proof fn lemma_last_total_is_request_total(t: RequestTimings)
    ensures
        t@.content_download_total() == t@.request_total(),
{
}

} // verus!
