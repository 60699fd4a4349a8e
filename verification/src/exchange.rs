//! The report exchange that answers one query.
//!
//! An exchange is a strictly sequential machine. It never branches and never
//! retries: each stage names one request for the transport, the reply to
//! that request moves the machine to the next stage, and the last reply
//! yields the value byte. The feature-report protocol sends its command,
//! lets the firmware settle, and reads the answer. The write/read protocol
//! first primes the device with a handshake that is written and answered,
//! settles, and then writes its command and reads the answer.
//!
//! The two protocols treat a failing transport differently. Under the
//! feature-report protocol a failure is absorbed: the exchange goes on and
//! decodes whatever the response buffer holds. Under the write/read protocol
//! the first failure aborts the exchange.

use vstd::prelude::*;
use crate::product::Protocol;
use crate::report::{
    build_feature_command,
    build_raw_command,
    feature_command,
    raw_command,
    zeroed,
    Query,
    FEATURE_REPORT_LEN,
    RAW_BATTERY_MARKER,
    RAW_HANDSHAKE_MARKER,
    RAW_REPORT_LEN,
    SETTLE_DELAY_MS,
    VALUE_OFFSET,
};

verus! {

/// A send, write or read that failed under the write/read protocol.
#[derive(Clone, Copy, Debug, PartialEq, Eq, Structural)]
pub struct IoError;

/// What the transport is asked to do next.
#[allow(inconsistent_fields)]
#[derive(Clone, Copy, Debug, PartialEq, Eq)]
pub enum Request {
    /// Send `data` to the device as a feature report.
    SendFeatureReport { data: [u8; FEATURE_REPORT_LEN] },
    /// Read a feature report from the device into `buffer`.
    GetFeatureReport { buffer: [u8; FEATURE_REPORT_LEN] },
    /// Write `data` to the device as an output report.
    Write { data: [u8; RAW_REPORT_LEN] },
    /// Read an input report from the device into `buffer`.
    Read { buffer: [u8; RAW_REPORT_LEN] },
    /// Wait for `millis` milliseconds.
    Settle { millis: u64 },
}

/// A request with its buffers as sequences of bytes.
#[allow(inconsistent_fields)]
pub enum RequestView {
    SendFeatureReport { data: Seq<u8> },
    GetFeatureReport { buffer: Seq<u8> },
    Write { data: Seq<u8> },
    Read { buffer: Seq<u8> },
    Settle { millis: u64 },
}

impl View for Request {
    type V = RequestView;

    open spec fn view(&self) -> RequestView {
        match *self {
            Request::SendFeatureReport { data } => RequestView::SendFeatureReport { data: data@ },
            Request::GetFeatureReport { buffer } => RequestView::GetFeatureReport {
                buffer: buffer@,
            },
            Request::Write { data } => RequestView::Write { data: data@ },
            Request::Read { buffer } => RequestView::Read { buffer: buffer@ },
            Request::Settle { millis } => RequestView::Settle { millis },
        }
    }
}

/// What the transport did with a request. `ok` tells whether the transport
/// reported success; `buffer` is the request's buffer as the transport left
/// it, whether or not it reported success.
#[allow(inconsistent_fields)]
#[derive(Clone, Copy, Debug, PartialEq, Eq)]
pub enum Reply {
    /// Answers `Request::SendFeatureReport`.
    FeatureReportSent { ok: bool },
    /// Answers `Request::GetFeatureReport`.
    FeatureReport { ok: bool, buffer: [u8; FEATURE_REPORT_LEN] },
    /// Answers `Request::Write`.
    Written { ok: bool },
    /// Answers `Request::Read`.
    Input { ok: bool, buffer: [u8; RAW_REPORT_LEN] },
    /// Answers `Request::Settle`.
    Settled,
}

impl Reply {
    /// Whether the transport reported success. A delay cannot fail.
    pub open spec fn succeeded(self) -> bool {
        match self {
            Reply::FeatureReportSent { ok } => ok,
            Reply::FeatureReport { ok, .. } => ok,
            Reply::Written { ok } => ok,
            Reply::Input { ok, .. } => ok,
            Reply::Settled => true,
        }
    }

    /// Whether this reply is of the kind that answers `request`.
    pub open spec fn answers(self, request: RequestView) -> bool {
        match (request, self) {
            (RequestView::SendFeatureReport { .. }, Reply::FeatureReportSent { .. }) => true,
            (RequestView::GetFeatureReport { .. }, Reply::FeatureReport { .. }) => true,
            (RequestView::Write { .. }, Reply::Written { .. }) => true,
            (RequestView::Read { .. }, Reply::Input { .. }) => true,
            (RequestView::Settle { .. }, Reply::Settled) => true,
            _ => false,
        }
    }
}

/// Where an exchange stands, named after the request that is outstanding.
#[derive(Clone, Copy, Debug, PartialEq, Eq, Structural)]
pub enum Stage {
    /// The priming command of the write/read protocol is to be written.
    Handshake,
    /// The answer to the priming command is to be read.
    HandshakeAnswer,
    /// The command that carries the query is to be sent.
    Command,
    /// The firmware is to be given its settle delay.
    Settle,
    /// The response to the command is to be read.
    Answer,
    /// The response has been read; `raw` is its value byte. Terminal.
    Decoded { raw: u8 },
    /// The transport failed under the write/read protocol. Terminal.
    Aborted,
}

/// An exchange as a mathematical value.
pub struct ExchangeView {
    pub protocol: Protocol,
    pub query: Query,
    pub stage: Stage,
    /// The input-report buffer as the transport last left it; zero-filled
    /// until the first read.
    pub scratch: Seq<u8>,
}

/// Whether a protocol has a wire sequence for a query. The write/read
/// protocol has none for the polling rate.
pub open spec fn supported(protocol: Protocol, query: Query) -> bool {
    protocol == Protocol::FeatureReport || query == Query::Battery
}

impl ExchangeView {
    /// The exchange before anything was asked of the transport, where the
    /// protocol supports the query.
    pub open spec fn start(protocol: Protocol, query: Query) -> Option<ExchangeView> {
        if supported(protocol, query) {
            Some(
                ExchangeView {
                    protocol,
                    query,
                    stage: match protocol {
                        Protocol::FeatureReport => Stage::Command,
                        Protocol::WriteRead => Stage::Handshake,
                    },
                    scratch: zeroed(RAW_REPORT_LEN as nat),
                },
            )
        } else {
            None
        }
    }

    /// Whether the exchange has come to its end, decoded or aborted.
    pub open spec fn finished(self) -> bool {
        self.stage is Decoded || self.stage is Aborted
    }

    /// The request that is outstanding; none once the exchange is finished.
    pub open spec fn pending(self) -> Option<RequestView> {
        match self.stage {
            Stage::Handshake => Some(
                RequestView::Write { data: raw_command(RAW_HANDSHAKE_MARKER) },
            ),
            Stage::HandshakeAnswer => Some(RequestView::Read { buffer: self.scratch }),
            Stage::Command => match self.protocol {
                Protocol::FeatureReport => Some(
                    RequestView::SendFeatureReport { data: feature_command(self.query) },
                ),
                Protocol::WriteRead => Some(
                    RequestView::Write { data: raw_command(RAW_BATTERY_MARKER) },
                ),
            },
            Stage::Settle => Some(RequestView::Settle { millis: SETTLE_DELAY_MS }),
            Stage::Answer => match self.protocol {
                Protocol::FeatureReport => Some(
                    RequestView::GetFeatureReport { buffer: zeroed(FEATURE_REPORT_LEN as nat) },
                ),
                Protocol::WriteRead => Some(RequestView::Read { buffer: self.scratch }),
            },
            Stage::Decoded { .. } | Stage::Aborted => None,
        }
    }

    /// The stage that follows the current one once its request has been
    /// answered by `reply`.
    pub open spec fn following(self, reply: Reply) -> Stage {
        match self.stage {
            Stage::Handshake => Stage::HandshakeAnswer,
            Stage::HandshakeAnswer => Stage::Settle,
            Stage::Command => match self.protocol {
                Protocol::FeatureReport => Stage::Settle,
                Protocol::WriteRead => Stage::Answer,
            },
            Stage::Settle => match self.protocol {
                Protocol::FeatureReport => Stage::Answer,
                Protocol::WriteRead => Stage::Command,
            },
            Stage::Answer => match reply {
                Reply::FeatureReport { buffer, .. } => Stage::Decoded {
                    raw: buffer@[VALUE_OFFSET as int],
                },
                Reply::Input { buffer, .. } => Stage::Decoded { raw: buffer@[VALUE_OFFSET as int] },
                _ => self.stage,
            },
            Stage::Decoded { .. } | Stage::Aborted => self.stage,
        }
    }

    /// The exchange after the transport's reply. A reply that does not
    /// answer the outstanding request leaves the exchange where it was. A
    /// reported failure aborts the write/read protocol and is ignored by the
    /// feature-report protocol.
    pub open spec fn after(self, reply: Reply) -> ExchangeView {
        match self.pending() {
            Some(request) if reply.answers(request) => {
                if self.protocol == Protocol::WriteRead && !reply.succeeded() {
                    ExchangeView { stage: Stage::Aborted, ..self }
                } else {
                    ExchangeView {
                        stage: self.following(reply),
                        scratch: match reply {
                            Reply::Input { buffer, .. } => buffer@,
                            _ => self.scratch,
                        },
                        ..self
                    }
                }
            },
            _ => self,
        }
    }

    /// The exchange after a series of replies, oldest first.
    pub open spec fn run(self, replies: Seq<Reply>) -> ExchangeView
        decreases replies.len(),
    {
        if replies.len() == 0 {
            self
        } else {
            self.after(replies[0]).run(replies.drop_first())
        }
    }

    /// The value byte of a decoded exchange, the failure of an aborted one,
    /// nothing while a request is outstanding.
    pub open spec fn outcome(self) -> Option<Result<u8, IoError>> {
        match self.stage {
            Stage::Decoded { raw } => Some(Ok(raw)),
            Stage::Aborted => Some(Err(IoError)),
            _ => None,
        }
    }
}

/// One query in progress.
#[derive(Clone, Copy, Debug)]
pub struct Exchange {
    protocol: Protocol,
    query: Query,
    stage: Stage,
    scratch: [u8; RAW_REPORT_LEN],
}

impl View for Exchange {
    type V = ExchangeView;

    closed spec fn view(&self) -> ExchangeView {
        ExchangeView {
            protocol: self.protocol,
            query: self.query,
            stage: self.stage,
            scratch: self.scratch@,
        }
    }
}

impl Exchange {
    /// Begins an exchange. There is none where the protocol has no wire
    /// sequence for the query.
    pub fn new(protocol: Protocol, query: Query) -> (exchange: Option<Exchange>)
        ensures
            exchange is Some <==> supported(protocol, query),
            exchange matches Some(e) ==> Some(e@) == ExchangeView::start(protocol, query),
    {
        let stage = match protocol {
            Protocol::FeatureReport => Stage::Command,
            Protocol::WriteRead => {
                match query {
                    Query::Battery => Stage::Handshake,
                    Query::PollingRate => {
                        return None;
                    },
                }
            },
        };
        let scratch: [u8; RAW_REPORT_LEN] = [0u8; RAW_REPORT_LEN];
        assert(scratch@ =~= zeroed(RAW_REPORT_LEN as nat));
        Some(Exchange { protocol, query, stage, scratch })
    }

    /// The protocol that the exchange speaks.
    pub fn protocol(&self) -> (protocol: Protocol)
        ensures
            protocol == self@.protocol,
    {
        self.protocol
    }

    /// The query that the exchange answers.
    pub fn query(&self) -> (query: Query)
        ensures
            query == self@.query,
    {
        self.query
    }

    /// The stage that the exchange stands at.
    pub fn stage(&self) -> (stage: Stage)
        ensures
            stage == self@.stage,
    {
        self.stage
    }

    /// The request that the transport is to carry out next, with its
    /// buffers filled in; none once the exchange is finished.
    pub fn request(&self) -> (request: Option<Request>)
        ensures
            request is Some <==> self@.pending() is Some,
            request matches Some(r) ==> Some(r@) == self@.pending(),
    {
        match self.stage {
            Stage::Handshake => Some(
                Request::Write { data: build_raw_command(RAW_HANDSHAKE_MARKER) },
            ),
            Stage::HandshakeAnswer => Some(Request::Read { buffer: self.scratch }),
            Stage::Command => match self.protocol {
                Protocol::FeatureReport => Some(
                    Request::SendFeatureReport { data: build_feature_command(self.query) },
                ),
                Protocol::WriteRead => Some(
                    Request::Write { data: build_raw_command(RAW_BATTERY_MARKER) },
                ),
            },
            Stage::Settle => Some(Request::Settle { millis: SETTLE_DELAY_MS }),
            Stage::Answer => match self.protocol {
                Protocol::FeatureReport => {
                    let buffer: [u8; FEATURE_REPORT_LEN] = [0u8; FEATURE_REPORT_LEN];
                    assert(buffer@ =~= zeroed(FEATURE_REPORT_LEN as nat));
                    Some(Request::GetFeatureReport { buffer })
                },
                Protocol::WriteRead => Some(Request::Read { buffer: self.scratch }),
            },
            Stage::Decoded { .. } | Stage::Aborted => None,
        }
    }

    /// Moves to `next`, or aborts where the protocol is strict and the
    /// transport reported a failure. Tells whether the exchange moved on.
    fn advance(&mut self, ok: bool, next: Stage) -> (moved: bool)
        ensures
            moved == (ok || old(self).protocol == Protocol::FeatureReport),
            final(self).stage == (if moved {
                next
            } else {
                Stage::Aborted
            }),
            final(self).protocol == old(self).protocol,
            final(self).query == old(self).query,
            final(self).scratch == old(self).scratch,
    {
        match self.protocol {
            Protocol::WriteRead if !ok => {
                self.stage = Stage::Aborted;
                false
            },
            _ => {
                self.stage = next;
                true
            },
        }
    }

    /// Takes the transport's reply to the outstanding request and moves to
    /// the next stage.
    pub fn feed(&mut self, reply: Reply)
        ensures
            final(self)@ == old(self)@.after(reply),
    {
        match (self.stage, self.protocol, reply) {
            (Stage::Handshake, _, Reply::Written { ok }) => {
                self.advance(ok, Stage::HandshakeAnswer);
            },
            (Stage::HandshakeAnswer, _, Reply::Input { ok, buffer }) => {
                if self.advance(ok, Stage::Settle) {
                    self.scratch = buffer;
                }
            },
            (Stage::Command, Protocol::FeatureReport, Reply::FeatureReportSent { ok }) => {
                self.advance(ok, Stage::Settle);
            },
            (Stage::Command, Protocol::WriteRead, Reply::Written { ok }) => {
                self.advance(ok, Stage::Answer);
            },
            (Stage::Settle, Protocol::FeatureReport, Reply::Settled) => {
                self.stage = Stage::Answer;
            },
            (Stage::Settle, Protocol::WriteRead, Reply::Settled) => {
                self.stage = Stage::Command;
            },
            (Stage::Answer, Protocol::FeatureReport, Reply::FeatureReport { ok, buffer }) => {
                self.advance(ok, Stage::Decoded { raw: buffer[VALUE_OFFSET] });
            },
            (Stage::Answer, Protocol::WriteRead, Reply::Input { ok, buffer }) => {
                if self.advance(ok, Stage::Decoded { raw: buffer[VALUE_OFFSET] }) {
                    self.scratch = buffer;
                }
            },
            _ => {},
        }
    }

    /// The value byte once the exchange is decoded, the failure once it is
    /// aborted, nothing before.
    pub fn outcome(&self) -> (outcome: Option<Result<u8, IoError>>)
        ensures
            outcome == self@.outcome(),
    {
        match self.stage {
            Stage::Decoded { raw } => Some(Ok(raw)),
            Stage::Aborted => Some(Err(IoError)),
            _ => None,
        }
    }
}

/// The replies of a transport that carries a feature-report exchange to
/// its end: the command was sent, the delay passed, and the response buffer
/// came back as `response`. `sent` and `received` tell whether the transport
/// reported success.
pub open spec fn feature_replies(
    sent: bool,
    received: bool,
    response: [u8; FEATURE_REPORT_LEN],
) -> Seq<Reply> {
    seq![
        Reply::FeatureReportSent { ok: sent },
        Reply::Settled,
        Reply::FeatureReport { ok: received, buffer: response },
    ]
}

/// The replies of a transport that answers each request of a write/read
/// exchange in turn: the handshake was written and answered with `echo`, the
/// delay passed, the command was written and answered with `response`. The
/// four flags tell whether the transport reported success.
pub open spec fn raw_replies(
    primed: bool,
    echoed: bool,
    echo: [u8; RAW_REPORT_LEN],
    asked: bool,
    answered: bool,
    response: [u8; RAW_REPORT_LEN],
) -> Seq<Reply> {
    seq![
        Reply::Written { ok: primed },
        Reply::Input { ok: echoed, buffer: echo },
        Reply::Settled,
        Reply::Written { ok: asked },
        Reply::Input { ok: answered, buffer: response },
    ]
}

/// Running a series of replies is taking the first and running the rest.
pub proof fn lemma_run_unfolds(exchange: ExchangeView, first: Reply, rest: Seq<Reply>)
    ensures
        exchange.run(seq![first] + rest) == exchange.after(first).run(rest),
{
    let replies = seq![first] + rest;
    assert(replies.drop_first() =~= rest);
}

/// A finished exchange stays as it is, whatever the transport says.
pub proof fn lemma_finished_is_terminal(exchange: ExchangeView, replies: Seq<Reply>)
    requires
        exchange.finished(),
    ensures
        exchange.pending() is None,
        exchange.run(replies) == exchange,
    decreases replies.len(),
{
    if replies.len() > 0 {
        lemma_finished_is_terminal(exchange, replies.drop_first());
    }
}

/// A feature-report exchange always ends decoded, with the byte at the value
/// offset of the response buffer, whether or not the transport reported
/// success on the way.
pub proof fn lemma_feature_exchange_decodes(
    query: Query,
    sent: bool,
    received: bool,
    response: [u8; FEATURE_REPORT_LEN],
)
    ensures
        ExchangeView::start(Protocol::FeatureReport, query) matches Some(exchange)
            && exchange.run(feature_replies(sent, received, response)).stage == (Stage::Decoded {
            raw: response@[VALUE_OFFSET as int],
        }),
{
    let exchange = ExchangeView::start(Protocol::FeatureReport, query).unwrap();
    let first = Reply::FeatureReportSent { ok: sent };
    let second = Reply::Settled;
    let third = Reply::FeatureReport { ok: received, buffer: response };
    assert(feature_replies(sent, received, response) =~= seq![first] + (seq![second] + (seq![third]
        + Seq::empty())));
    lemma_run_unfolds(exchange, first, seq![second] + (seq![third] + Seq::empty()));
    let commanded = exchange.after(first);
    lemma_run_unfolds(commanded, second, seq![third] + Seq::empty());
    let settled = commanded.after(second);
    lemma_run_unfolds(settled, third, Seq::empty());
}

/// A write/read exchange ends decoded, with the byte at the value offset of
/// the second response, exactly when the transport reported success four
/// times. The first failure aborts it.
pub proof fn lemma_raw_exchange_is_strict(
    primed: bool,
    echoed: bool,
    echo: [u8; RAW_REPORT_LEN],
    asked: bool,
    answered: bool,
    response: [u8; RAW_REPORT_LEN],
)
    ensures
        ExchangeView::start(Protocol::WriteRead, Query::Battery) matches Some(exchange)
            && exchange.run(raw_replies(primed, echoed, echo, asked, answered, response)).stage
            == (if primed && echoed && asked && answered {
            Stage::Decoded { raw: response@[VALUE_OFFSET as int] }
        } else {
            Stage::Aborted
        }),
{
    let exchange = ExchangeView::start(Protocol::WriteRead, Query::Battery).unwrap();
    let r0 = Reply::Written { ok: primed };
    let r1 = Reply::Input { ok: echoed, buffer: echo };
    let r2 = Reply::Settled;
    let r3 = Reply::Written { ok: asked };
    let r4 = Reply::Input { ok: answered, buffer: response };
    let t4 = seq![r4] + Seq::empty();
    let t3 = seq![r3] + t4;
    let t2 = seq![r2] + t3;
    let t1 = seq![r1] + t2;
    assert(raw_replies(primed, echoed, echo, asked, answered, response) =~= seq![r0] + t1);
    let x1 = exchange.after(r0);
    let x2 = x1.after(r1);
    let x3 = x2.after(r2);
    let x4 = x3.after(r3);
    lemma_run_unfolds(exchange, r0, t1);
    lemma_run_unfolds(x1, r1, t2);
    lemma_run_unfolds(x2, r2, t3);
    lemma_run_unfolds(x3, r3, t4);
    lemma_run_unfolds(x4, r4, Seq::empty());
}

} // verus!
