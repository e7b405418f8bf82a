//! The decisions of the relay.
//!
//! A request passes through two of them. [`receive`] looks at what came in
//! and says what, if anything, is to be sent downstream. [`conclude`] looks at
//! how the downstream call ended and says what the caller is told. Between
//! the two the host makes the call; the relay keeps nothing from one request
//! to the next.

use vstd::prelude::*;
use vstd::string::StringExecFns;

use crate::config::endpoint_of;
use crate::config::resolved_base_url;
use crate::config::RelayConfig;
use crate::config::FALLBACK_BASE_URL;
use crate::record::SaleRecord;
use crate::record::SaleRecordView;

verus! {

/// The status of the answer to a sale that was handed on.
pub const STATUS_OK: u16 = 200;

/// The status of the answer to a sale that could not be handed on.
pub const STATUS_INTERNAL_SERVER_ERROR: u16 = 500;

/// The body that confirms a sale: a JSON string, quotes included.
pub const CONFIRMATION_BODY: &'static str = "\"Venta procesada\"";

/// The body that reports a failed hand-over. It is bare text, and the same
/// whatever went wrong.
pub const FAILURE_BODY: &'static str = "Error enviando a Go";

/// What the diagnostic line for a failed hand-over starts with; the
/// description of the failure follows.
pub const FAILURE_LOG_PREFIX: &'static str = "Error enviando a Go: ";

/// How a response body is announced to the caller.
#[derive(Clone, Copy, Debug, PartialEq, Eq, Structural)]
pub enum BodyKind {
    /// Announced as `application/json`.
    Json,
    /// Sent without a content type.
    Untyped,
}

/// Where a request stands. It waits from the moment its record is sent
/// downstream, and it is answered exactly once.
#[derive(Clone, Copy, Debug, PartialEq, Eq, Structural)]
pub enum Phase {
    AwaitingDownstream,
    RespondedOk,
    RespondedError,
}

/// The method of a call. The relay asks for one kind only.
#[derive(Clone, Copy, Debug, PartialEq, Eq, Structural)]
pub enum Method {
    Post,
}

/// The one call the relay asks for: `method` on `url`, with the record as the
/// body, encoded as a JSON object of its four fields.
#[derive(Clone, Debug, PartialEq, Eq)]
pub struct OutboundRequest {
    pub method: Method,
    pub url: String,
    pub record: SaleRecord,
}

/// The mathematical content of an [`OutboundRequest`].
pub struct OutboundRequestView {
    pub method: Method,
    pub url: Seq<char>,
    pub record: SaleRecordView,
}

impl View for OutboundRequest {
    type V = OutboundRequestView;

    open spec fn view(&self) -> OutboundRequestView {
        OutboundRequestView { method: self.method, url: self.url@, record: self.record@ }
    }
}

/// How the downstream call ended.
#[derive(Clone, Debug, PartialEq, Eq)]
pub enum DownstreamOutcome {
    /// A response arrived. Its status is recorded and never consulted.
    Answered { status: u16 },
    /// No response arrived: the connection, the name lookup, the handshake or
    /// the request itself failed.
    TransportFailure { description: String },
}

/// The mathematical content of a [`DownstreamOutcome`].
pub enum DownstreamOutcomeView {
    Answered { status: u16 },
    TransportFailure { description: Seq<char> },
}

impl View for DownstreamOutcome {
    type V = DownstreamOutcomeView;

    open spec fn view(&self) -> DownstreamOutcomeView {
        match *self {
            DownstreamOutcome::Answered { status } => DownstreamOutcomeView::Answered { status },
            DownstreamOutcome::TransportFailure { description } => {
                DownstreamOutcomeView::TransportFailure { description: description@ }
            },
        }
    }
}

/// What the caller is told.
#[derive(Clone, Debug, PartialEq, Eq)]
pub struct RelayResponse {
    pub status: u16,
    pub kind: BodyKind,
    pub body: String,
}

/// The mathematical content of a [`RelayResponse`].
pub struct RelayResponseView {
    pub status: u16,
    pub kind: BodyKind,
    pub body: Seq<char>,
}

impl View for RelayResponse {
    type V = RelayResponseView;

    open spec fn view(&self) -> RelayResponseView {
        RelayResponseView { status: self.status, kind: self.kind, body: self.body@ }
    }
}

/// The end of a request: the phase it reached, the response for the caller,
/// and the line to log, if there is one.
#[derive(Clone, Debug, PartialEq, Eq)]
pub struct Reply {
    pub phase: Phase,
    pub response: RelayResponse,
    pub log_line: Option<String>,
}

/// The mathematical content of a [`Reply`].
pub struct ReplyView {
    pub phase: Phase,
    pub response: RelayResponseView,
    pub log_line: Option<Seq<char>>,
}

impl View for Reply {
    type V = ReplyView;

    open spec fn view(&self) -> ReplyView {
        ReplyView {
            phase: self.phase,
            response: self.response@,
            log_line: match self.log_line {
                Some(line) => Some(line@),
                None => None,
            },
        }
    }
}

/// The request that carries `record` to the service at `base_url`: a POST to
/// the endpoint under that base, with the record and every field as it came.
pub open spec fn request_for(base_url: Seq<char>, record: SaleRecordView) -> OutboundRequestView {
    OutboundRequestView { method: Method::Post, url: endpoint_of(base_url), record }
}

/// The response that confirms a sale.
pub open spec fn confirmation() -> RelayResponseView {
    RelayResponseView { status: STATUS_OK, kind: BodyKind::Json, body: CONFIRMATION_BODY@ }
}

/// The response that reports a failed hand-over.
pub open spec fn failure_notice() -> RelayResponseView {
    RelayResponseView {
        status: STATUS_INTERNAL_SERVER_ERROR,
        kind: BodyKind::Untyped,
        body: FAILURE_BODY@,
    }
}

/// The end of a request whose downstream call ended in `outcome`.
///
/// Any response from downstream counts as success, whatever its status. Only
/// a call that brought no response is a failure, and only then is a line
/// logged: the description of the failure goes to the log and not to the
/// caller.
pub open spec fn reply_for(outcome: DownstreamOutcomeView) -> ReplyView {
    match outcome {
        DownstreamOutcomeView::Answered { status } => ReplyView {
            phase: Phase::RespondedOk,
            response: confirmation(),
            log_line: None,
        },
        DownstreamOutcomeView::TransportFailure { description } => ReplyView {
            phase: Phase::RespondedError,
            response: failure_notice(),
            log_line: Some(FAILURE_LOG_PREFIX@ + description),
        },
    }
}

/// The steps a request can take. It leaves `AwaitingDownstream` when the
/// downstream call ends, for the phase that the outcome decides; from either
/// of the other two phases there is no step.
pub open spec fn steps(before: Phase, outcome: DownstreamOutcomeView, after: Phase) -> bool {
    before == Phase::AwaitingDownstream && after == reply_for(outcome).phase
}

/// The request that hands `record` to the configured downstream service.
/// Nothing of the record is read or changed on the way.
pub fn forward(config: &RelayConfig, record: SaleRecord) -> (request: OutboundRequest)
    ensures
        request@ == request_for(config@, record@),
        request.method == Method::Post,
        request@.url == endpoint_of(config@),
        request@.record == record@,
{
    OutboundRequest { method: Method::Post, url: config.endpoint(), record }
}

/// The first decision: what to send downstream for an inbound body.
///
/// `inbound` is the record that the body decoded to, or `None` where it did
/// not decode. A record is forwarded; a body that did not decode leads to no
/// downstream call, and its answer is left to the host, which reports a
/// client error in its own way.
pub fn receive(config: &RelayConfig, inbound: Option<SaleRecord>) -> (outbound: Option<OutboundRequest>)
    ensures
        inbound is None <==> outbound is None,
        inbound is Some ==> outbound->0@ == request_for(config@, inbound->0@),
{
    match inbound {
        Some(record) => Some(forward(config, record)),
        None => None,
    }
}

/// The second decision: what the caller is told once the downstream call has
/// ended.
pub fn conclude(outcome: DownstreamOutcome) -> (reply: Reply)
    ensures
        reply@ == reply_for(outcome@),
        steps(Phase::AwaitingDownstream, outcome@, reply.phase),
        outcome is Answered ==> reply.phase == Phase::RespondedOk,
        outcome is Answered ==> reply.response@ == confirmation(),
        outcome is Answered ==> reply.log_line is None,
        outcome is TransportFailure ==> reply.phase == Phase::RespondedError,
        outcome is TransportFailure ==> reply.response@ == failure_notice(),
        outcome is TransportFailure ==> reply.log_line is Some,
        outcome is TransportFailure ==> reply.log_line->0@ == FAILURE_LOG_PREFIX@
            + outcome->description@,
{
    match outcome {
        DownstreamOutcome::Answered { status: _ } => Reply {
            phase: Phase::RespondedOk,
            response: RelayResponse {
                status: STATUS_OK,
                kind: BodyKind::Json,
                body: String::from_str(CONFIRMATION_BODY),
            },
            log_line: None,
        },
        DownstreamOutcome::TransportFailure { description } => Reply {
            phase: Phase::RespondedError,
            response: RelayResponse {
                status: STATUS_INTERNAL_SERVER_ERROR,
                kind: BodyKind::Untyped,
                body: String::from_str(FAILURE_BODY),
            },
            log_line: Some(String::from_str(FAILURE_LOG_PREFIX).concat(description.as_str())),
        },
    }
}

/// The downstream call ended with a response of this status.
pub open spec fn answered(status: u16) -> DownstreamOutcomeView {
    DownstreamOutcomeView::Answered { status }
}

/// The downstream call brought no response, for the reason described.
pub open spec fn transport_failure(description: Seq<char>) -> DownstreamOutcomeView {
    DownstreamOutcomeView::TransportFailure { description }
}

/// The target of the outbound call follows the environment: where it names a
/// downstream service, the record goes to `/procesar` under that name, and
/// where it names none, to `/procesar` under the fallback.
pub proof fn lemma_target_follows_environment(configured: Option<Seq<char>>, record: SaleRecordView)
    ensures
        configured is Some ==> request_for(
            resolved_base_url(configured, FALLBACK_BASE_URL@),
            record,
        ).url == configured->0 + "/procesar"@,
        configured is None ==> request_for(
            resolved_base_url(configured, FALLBACK_BASE_URL@),
            record,
        ).url == "http://go-api:8081"@ + "/procesar"@,
{
}

/// A request is answered exactly once: whatever the outcome of the
/// downstream call, it takes the request from waiting to one of the two
/// answered phases, and to no other; and an answered request takes no further
/// step.
pub proof fn lemma_answered_exactly_once(
    outcome: DownstreamOutcomeView,
    after: Phase,
    later: DownstreamOutcomeView,
    beyond: Phase,
)
    requires
        steps(Phase::AwaitingDownstream, outcome, after),
    ensures
        after == Phase::RespondedOk || after == Phase::RespondedError,
        after == Phase::RespondedOk <==> outcome is Answered,
        after == Phase::RespondedError <==> outcome is TransportFailure,
        !steps(after, later, beyond),
{
}

/// Whatever the downstream service answers, and with whatever status, the
/// caller is told that the sale was processed, and nothing is logged.
pub proof fn lemma_any_answer_confirms(status: u16)
    ensures
        reply_for(answered(status)).phase == Phase::RespondedOk,
        reply_for(answered(status)).response == confirmation(),
        reply_for(answered(status)).response.status == 200,
        reply_for(answered(status)).response.body == "\"Venta procesada\""@,
        reply_for(answered(status)).log_line is None,
{
}

/// Whatever kept the downstream service from answering, the caller is told
/// the same thing: the response does not depend on the description of the
/// failure, which only the log line carries.
pub proof fn lemma_failure_is_not_disclosed(first: Seq<char>, second: Seq<char>)
    ensures
        reply_for(transport_failure(first)).response == reply_for(
            transport_failure(second),
        ).response,
        reply_for(transport_failure(first)).phase == Phase::RespondedError,
        reply_for(transport_failure(first)).response.status == 500,
        reply_for(transport_failure(first)).response.body == "Error enviando a Go"@,
        reply_for(transport_failure(first)).log_line == Some("Error enviando a Go: "@ + first),
{
}

} // verus!
