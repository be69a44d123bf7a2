//! Receiving a message: from a request to the response, or to the work that has to be
//! done before there is one.
//!
//! A message that carries the manifest of a result goes the way of results. Any other
//! passes the gates of [`crate::ingress`], and is then a proposal to be dispatched.
use crate::control::{Problem, ProblemView};
use crate::control;
use crate::delivery::{CoveredValues, CoveredValuesView, body_digest, content_digest};
use crate::delivery;
use crate::ingress::{A2A_MEDIA_TYPE, Admit, Ingress, Reject, RejectView, admit_request};
use crate::ingress;
use crate::outside::rfc3339;
use crate::outside;
use crate::store::inbox;
use crate::store::{Store, StoreError, StoreView};
use crate::table::Record;
use crate::table;
use crate::text::{chars_of, copy_bytes, same_ignoring_case, same_text};
use crate::text;
use vstd::prelude::*;

verus! {

/// The media type of a problem.
pub const PROBLEM_MEDIA_TYPE: &'static str = "application/problem+json";

/// A signed envelope that was received: what it says its payload is, and its bytes.
#[derive(Debug, Clone, PartialEq, Eq)]
pub struct ReceivedEnvelope {
    pub payload_type: String,
    pub bytes: Vec<u8>,
}

/// The view of [`ReceivedEnvelope`].
#[verifier::ext_equal]
pub struct ReceivedEnvelopeView {
    pub payload_type: Seq<char>,
    pub bytes: Seq<u8>,
}

impl View for ReceivedEnvelope {
    type V = ReceivedEnvelopeView;

    open spec fn view(&self) -> ReceivedEnvelopeView {
        ReceivedEnvelopeView {
            payload_type: self.payload_type@,
            bytes: self.bytes@,
        }
    }
}

impl Record for ReceivedEnvelope {
    fn dup(&self) -> (r: Self) {
        let r = ReceivedEnvelope {
            payload_type: self.payload_type.clone(),
            bytes: copy_bytes(&self.bytes),
        };
        r
    }
}

/// What a part of a message holds.
#[derive(Debug, Clone, PartialEq, Eq)]
pub enum ReceivedContent {
    /// Structured data, and the envelope that it is, if it is one.
    Data(Option<ReceivedEnvelope>),
    /// Bytes.
    Raw(Vec<u8>),
    /// Something else, or nothing.
    Other,
}

/// The view of [`ReceivedContent`].
pub enum ReceivedContentView {
    Data(Option<ReceivedEnvelopeView>),
    Raw(Seq<u8>),
    Other,
}

impl View for ReceivedContent {
    type V = ReceivedContentView;

    open spec fn view(&self) -> ReceivedContentView {
        match self {
            ReceivedContent::Data(e) => ReceivedContentView::Data(
                match e {
                    Some(e) => Some(e@),
                    None => None,
                },
            ),
            ReceivedContent::Raw(bytes) => ReceivedContentView::Raw(bytes@),
            ReceivedContent::Other => ReceivedContentView::Other,
        }
    }
}

/// A part of a message that was received.
#[derive(Debug, Clone, PartialEq, Eq)]
pub struct ReceivedPart {
    pub media_type: String,
    pub filename: String,
    pub content: ReceivedContent,
}

/// The view of [`ReceivedPart`].
pub struct ReceivedPartView {
    pub media_type: Seq<char>,
    pub filename: Seq<char>,
    pub content: ReceivedContentView,
}

impl View for ReceivedPart {
    type V = ReceivedPartView;

    open spec fn view(&self) -> ReceivedPartView {
        ReceivedPartView {
            media_type: self.media_type@,
            filename: self.filename@,
            content: self.content@,
        }
    }
}

/// A message that was received.
#[derive(Debug, Clone, PartialEq, Eq)]
pub struct ReceivedMessage {
    pub message_id: String,
    pub context_id: String,
    pub parts: Vec<ReceivedPart>,
}

/// The views of the parts of a message.
pub open spec fn part_views(parts: Seq<ReceivedPart>) -> Seq<ReceivedPartView> {
    parts.map_values(|p: ReceivedPart| p@)
}

/// An output that came with a result.
#[derive(Debug, Clone, PartialEq, Eq)]
pub struct DeliveredOutput {
    pub artifact_id: String,
    pub bytes: Vec<u8>,
}

/// The view of [`DeliveredOutput`].
#[verifier::ext_equal]
pub struct DeliveredOutputView {
    pub artifact_id: Seq<char>,
    pub bytes: Seq<u8>,
}

impl View for DeliveredOutput {
    type V = DeliveredOutputView;

    open spec fn view(&self) -> DeliveredOutputView {
        DeliveredOutputView {
            artifact_id: self.artifact_id@,
            bytes: self.bytes@,
        }
    }
}

impl Record for DeliveredOutput {
    fn dup(&self) -> (r: Self) {
        let r = DeliveredOutput {
            artifact_id: self.artifact_id.clone(),
            bytes: copy_bytes(&self.bytes),
        };
        r
    }
}

/// What a message is received under. The peer was resolved before.
#[derive(Debug)]
pub struct ReceiveConfig<'a> {
    /// The extensions that a request has to activate.
    pub required_extensions: &'a [String],
    /// The URL of this endpoint.
    pub interface_url: &'a str,
    /// The media type of a part that is an envelope.
    pub envelope_media_type: &'a str,
    /// The payload type of an envelope that is the manifest of a result.
    pub result_payload_type: &'a str,
    /// This endpoint can sign outcomes.
    pub has_outcome_key: bool,
    /// The key with which the peer signs results is known.
    pub has_task_result_key: bool,
}

/// A request: what its head says, the peer that was authenticated, and its body.
#[derive(Debug)]
pub struct HttpRequest<'a> {
    pub method: &'a str,
    pub content_type: &'a str,
    pub a2a_version: Option<&'a str>,
    pub content_digest: Option<&'a str>,
    pub activated_extensions: &'a [String],
    pub tenant: Option<&'a str>,
    pub peer: &'a str,
    pub body: &'a [u8],
}

/// The body of a response.
#[derive(Debug, Clone, PartialEq, Eq)]
pub enum ResponseBody {
    Problem(Problem),
    Bytes(Vec<u8>),
}

/// The view of [`ResponseBody`].
pub enum ResponseBodyView {
    Problem(ProblemView),
    Bytes(Seq<u8>),
}

impl View for ResponseBody {
    type V = ResponseBodyView;

    open spec fn view(&self) -> ResponseBodyView {
        match self {
            ResponseBody::Problem(p) => ResponseBodyView::Problem(p@),
            ResponseBody::Bytes(bytes) => ResponseBodyView::Bytes(bytes@),
        }
    }
}

/// A response.
#[derive(Debug, Clone, PartialEq, Eq)]
pub struct HttpResponse {
    pub status: u16,
    pub content_type: String,
    pub body: ResponseBody,
}

/// The view of [`HttpResponse`].
pub struct HttpResponseView {
    pub status: u16,
    pub content_type: Seq<char>,
    pub body: ResponseBodyView,
}

impl View for HttpResponse {
    type V = HttpResponseView;

    open spec fn view(&self) -> HttpResponseView {
        HttpResponseView {
            status: self.status,
            content_type: self.content_type@,
            body: self.body@,
        }
    }
}

/// A response that is a problem.
pub open spec fn refused_with(p: ProblemView) -> HttpResponseView {
    HttpResponseView {
        status: p.status,
        content_type: PROBLEM_MEDIA_TYPE@,
        body: ResponseBodyView::Problem(p),
    }
}

/// A response that is a message.
pub open spec fn ok_with(body: Seq<u8>) -> HttpResponseView {
    HttpResponseView {
        status: 200,
        content_type: A2A_MEDIA_TYPE@,
        body: ResponseBodyView::Bytes(body),
    }
}

/// The media type of a response, by its status.
pub open spec fn media_type_for(status: u16) -> Seq<char> {
    if status < 400 {
        A2A_MEDIA_TYPE@
    } else {
        PROBLEM_MEDIA_TYPE@
    }
}

/// Answers with a problem.
pub fn problem_response(p: Problem) -> (r: HttpResponse)
    ensures
        r@ == refused_with(p@),
{
    HttpResponse {
        status: p.status,
        content_type: PROBLEM_MEDIA_TYPE.to_owned(),
        body: ResponseBody::Problem(p),
    }
}

fn a2a_ok(body: Vec<u8>) -> (r: HttpResponse)
    ensures
        r@ == ok_with(body@),
{
    HttpResponse {
        status: 200,
        content_type: A2A_MEDIA_TYPE.to_owned(),
        body: ResponseBody::Bytes(body),
    }
}

/// The status and the words of a refusal at a gate. They say no more than which gate
/// it was.
pub open spec fn gate_problem(reject: RejectView) -> ProblemView {
    match reject {
        RejectView::UnsupportedMediaType => control::problem_of(
            415,
            "ingress-rejected"@,
            "unsupported media type"@,
        ),
        RejectView::BadA2aVersion(_) => control::problem_of(
            400,
            "ingress-rejected"@,
            "unsupported or missing A2A-Version"@,
        ),
        RejectView::ContentDigest(_) => control::problem_of(
            400,
            "ingress-rejected"@,
            "content-digest missing or does not match the body"@,
        ),
        RejectView::MissingRequiredExtensions(_) => control::problem_of(
            400,
            "ingress-rejected"@,
            "a required extension was not activated"@,
        ),
    }
}

/// Answers a refusal at a gate.
pub fn reject_to_http(reject: &Reject) -> (r: HttpResponse)
    ensures
        r@ == refused_with(gate_problem(reject@)),
{
    let p = match reject {
        Reject::UnsupportedMediaType => Problem::new(
            415,
            "ingress-rejected",
            "unsupported media type",
        ),
        Reject::BadA2aVersion(_) => Problem::new(
            400,
            "ingress-rejected",
            "unsupported or missing A2A-Version",
        ),
        Reject::ContentDigest(_) => Problem::new(
            400,
            "ingress-rejected",
            "content-digest missing or does not match the body",
        ),
        Reject::MissingRequiredExtensions(_) => Problem::new(
            400,
            "ingress-rejected",
            "a required extension was not activated",
        ),
    };
    problem_response(p)
}

/// The envelope that a part is, if it is one.
pub open spec fn envelope_in(part: ReceivedPartView, media_type: Seq<char>) -> Option<
    ReceivedEnvelopeView,
> {
    if part.media_type == media_type {
        match part.content {
            ReceivedContentView::Data(e) => e,
            _ => None,
        }
    } else {
        None
    }
}

/// The part is the manifest of a result.
pub open spec fn is_manifest(
    part: ReceivedPartView,
    media_type: Seq<char>,
    payload_type: Seq<char>,
) -> bool {
    match envelope_in(part, media_type) {
        Some(e) => e.payload_type == payload_type,
        None => false,
    }
}

/// The manifest of a result in a message: the first one.
pub open spec fn manifest_in(
    parts: Seq<ReceivedPartView>,
    media_type: Seq<char>,
    payload_type: Seq<char>,
) -> Option<ReceivedEnvelopeView>
    decreases parts.len(),
{
    if parts.len() == 0 {
        None
    } else if is_manifest(parts[0], media_type, payload_type) {
        envelope_in(parts[0], media_type)
    } else {
        manifest_in(parts.skip(1), media_type, payload_type)
    }
}

/// The manifest of a result in a message, if it carries one.
pub fn result_manifest_envelope(parts: &Vec<ReceivedPart>, media_type: &str, payload_type: &str) -> (r:
    Option<ReceivedEnvelope>)
    ensures
        match r {
            Some(e) => manifest_in(part_views(parts@), media_type@, payload_type@) == Some(e@),
            None => manifest_in(part_views(parts@), media_type@, payload_type@) is None,
        },
{
    let ghost all = part_views(parts@);
    let mut i: usize = 0;
    proof {
        assert(all.skip(0) =~= all);
    }
    while i < parts.len()
        invariant
            all == part_views(parts@),
            i <= all.len(),
            manifest_in(all.skip(i as int), media_type@, payload_type@) == manifest_in(
                all,
                media_type@,
                payload_type@,
            ),
        decreases all.len() - i,
    {
        proof {
            assert(all.skip(i as int)[0] == parts@[i as int]@);
            assert(all.skip(i as int).skip(1) =~= all.skip(i + 1));
        }
        if same_text(&parts[i].media_type, media_type) {
            match &parts[i].content {
                ReceivedContent::Data(Some(e)) => {
                    if same_text(&e.payload_type, payload_type) {
                        return Some(e.dup());
                    }
                },
                _ => {},
            }
        }
        i = i + 1;
    }
    assert(all.skip(i as int) =~= Seq::<ReceivedPartView>::empty());
    None
}

/// The outputs that came with a result: every part that is bytes, under its file
/// name.
pub open spec fn outputs_in(parts: Seq<ReceivedPartView>) -> Seq<DeliveredOutputView>
    decreases parts.len(),
{
    if parts.len() == 0 {
        Seq::empty()
    } else {
        let before = outputs_in(parts.drop_last());
        match parts.last().content {
            ReceivedContentView::Raw(bytes) => before.push(
                DeliveredOutputView { artifact_id: parts.last().filename, bytes },
            ),
            _ => before,
        }
    }
}

/// The outputs that came with a result. Nothing is trusted of them yet.
pub fn delivered_outputs(parts: &Vec<ReceivedPart>) -> (r: Vec<DeliveredOutput>)
    ensures
        table::seen(r@) == outputs_in(part_views(parts@)),
{
    let ghost all = part_views(parts@);
    let mut r: Vec<DeliveredOutput> = Vec::new();
    let mut i: usize = 0;
    proof {
        assert(table::seen(r@) =~= outputs_in(all.take(0)));
    }
    while i < parts.len()
        invariant
            all == part_views(parts@),
            i <= all.len(),
            table::seen(r@) == outputs_in(all.take(i as int)),
        decreases all.len() - i,
    {
        let ghost had = table::seen(r@);
        proof {
            assert(all.take(i + 1).drop_last() =~= all.take(i as int));
            assert(all.take(i + 1).last() == parts@[i as int]@);
        }
        match &parts[i].content {
            ReceivedContent::Raw(bytes) => {
                let output = DeliveredOutput {
                    artifact_id: parts[i].filename.clone(),
                    bytes: copy_bytes(bytes),
                };
                let ghost view = output@;
                r.push(output);
                assert(table::seen(r@) =~= had.push(view));
            },
            _ => {},
        }
        i = i + 1;
    }
    assert(all.take(i as int) =~= all);
    r
}

/// What a request comes to.
#[derive(Debug)]
pub enum ReceiveStep {
    /// The response.
    Respond(HttpResponse),
    /// A result was delivered: verify it, and sign the outcome at this time.
    Finalize {
        envelope: ReceivedEnvelope,
        delivered: Vec<DeliveredOutput>,
        signed_at: String,
    },
    /// A proposal passed the gates: dispatch it under these values.
    Dispatch(CoveredValues),
}

/// The request as the gates see it.
pub open spec fn ingress_of<'a>(
    config: ReceiveConfig<'a>,
    req: HttpRequest<'a>,
    message_id: &'a str,
) -> Ingress<'a> {
    Ingress {
        peer: req.peer,
        method: req.method,
        content_type: req.content_type,
        a2a_version: req.a2a_version,
        content_digest: req.content_digest,
        activated_extensions: req.activated_extensions,
        interface_url: config.interface_url,
        tenant: req.tenant,
        message_id,
        body: req.body,
    }
}

/// What comes of a result that was delivered.
pub open spec fn takes_result(
    config: ReceiveConfig<'_>,
    manifest: ReceivedEnvelopeView,
    parts: Seq<ReceivedPartView>,
    now: i64,
    step: ReceiveStep,
) -> bool {
    if !config.has_outcome_key || !config.has_task_result_key {
        match step {
            ReceiveStep::Respond(response) => response@ == refused_with(
                control::problem_of(
                    415,
                    "results-not-accepted"@,
                    "this endpoint does not accept delivered results"@,
                ),
            ),
            _ => false,
        }
    } else {
        match (outside::rfc3339_of(now as int), step) {
            (None, ReceiveStep::Respond(response)) => response@ == refused_with(
                control::internal_problem(),
            ),
            (Some(at), ReceiveStep::Finalize { envelope, delivered, signed_at }) => envelope@
                == manifest && table::seen(delivered@) == outputs_in(parts) && signed_at@ == at,
            _ => false,
        }
    }
}

/// What comes of a message: it passes the gates, or it is refused, before anything is
/// done with it.
pub open spec fn takes_message(
    v: StoreView,
    config: ReceiveConfig<'_>,
    req: Ingress<'_>,
    parts: Seq<ReceivedPartView>,
    now: i64,
    step: ReceiveStep,
) -> bool {
    match ingress::refusal(text::views(config.required_extensions@), req) {
        Some(reject) => match step {
            ReceiveStep::Respond(response) => response@ == refused_with(gate_problem(reject)),
            _ => false,
        },
        None => exists|a: Admit|
            (forall|c: CoveredValuesView| ingress::covers(c, req) ==> #[trigger] ingress::admitted(a, v, c)) && (
            match a {
                Admit::Accept(covered) => ingress::covers(covered@, req),
                _ => true,
            }) && #[trigger] answers_admission(a, config, parts, now, step),
    }
}

/// What an admission comes to. What was not seen before is a result or a proposal, by
/// whether a manifest came with it.
pub open spec fn answers_admission(
    a: Admit,
    config: ReceiveConfig<'_>,
    parts: Seq<ReceivedPartView>,
    now: i64,
    step: ReceiveStep,
) -> bool {
    match a {
        Admit::Accept(covered) => match manifest_in(
            parts,
            config.envelope_media_type@,
            config.result_payload_type@,
        ) {
            Some(manifest) => takes_result(config, manifest, parts, now, step),
            None => match step {
                ReceiveStep::Dispatch(c) => c == covered,
                _ => false,
            },
        },
        Admit::Duplicate { response, .. } => match step {
            ReceiveStep::Respond(r) => r@ == ok_with(response@),
            _ => false,
        },
        Admit::Conflict => match step {
            ReceiveStep::Respond(r) => r@ == refused_with(
                control::problem_of(409, "conflict"@, "a covered value changed for this Message id"@),
            ),
            _ => false,
        },
        Admit::Rejected(_) => false,
    }
}

/// What comes of a request.
pub open spec fn receives(
    v: StoreView,
    config: ReceiveConfig<'_>,
    req: HttpRequest<'_>,
    message: Option<ReceivedMessage>,
    now: i64,
    step: ReceiveStep,
) -> bool {
    if text::lowered(req.method@) != text::lowered("POST"@) {
        match step {
            ReceiveStep::Respond(response) => response@ == refused_with(
                control::problem_of(405, "method-not-allowed"@, "only POST is supported"@),
            ),
            _ => false,
        }
    } else {
        match message {
            None => match step {
                ReceiveStep::Respond(response) => response@ == refused_with(
                    control::problem_of(
                        400,
                        "malformed-request"@,
                        "body is not a SendMessage with a message"@,
                    ),
                ),
                _ => false,
            },
            Some(m) => exists|id: &str|
                id@ == m.message_id@ && #[trigger] takes_message(
                    v,
                    config,
                    ingress_of(config, req, id),
                    part_views(m.parts@),
                    now,
                    step,
                ),
        }
    }
}

fn handle_result(
    config: &ReceiveConfig<'_>,
    envelope: ReceivedEnvelope,
    parts: &Vec<ReceivedPart>,
    now: i64,
) -> (r: ReceiveStep)
    ensures
        takes_result(*config, envelope@, part_views(parts@), now, r),
{
    if !config.has_outcome_key || !config.has_task_result_key {
        return ReceiveStep::Respond(
            problem_response(
                Problem::new(
                    415,
                    "results-not-accepted",
                    "this endpoint does not accept delivered results",
                ),
            ),
        );
    }
    match rfc3339(now) {
        Some(signed_at) => ReceiveStep::Finalize {
            envelope,
            delivered: delivered_outputs(parts),
            signed_at,
        },
        None => ReceiveStep::Respond(problem_response(Problem::internal())),
    }
}

/// Takes a request. `message` is what its body was read as. The peer was
/// authenticated, and `trusted_now_unix` is the trusted time.
pub fn handle_receive(
    store: &Store,
    config: &ReceiveConfig<'_>,
    req: &HttpRequest<'_>,
    message: &Option<ReceivedMessage>,
    trusted_now_unix: i64,
) -> (r: Result<ReceiveStep, StoreError>)
    requires
        store.wf(),
    ensures
        match r {
            Ok(step) => receives(store@, *config, *req, *message, trusted_now_unix, step),
            Err(_) => false,
        },
{
    if !same_ignoring_case(&chars_of(req.method), &chars_of("POST")) {
        return Ok(
            ReceiveStep::Respond(
                problem_response(
                    Problem::new(405, "method-not-allowed", "only POST is supported"),
                ),
            ),
        );
    }
    let m = match message {
        Some(m) => m,
        None => {
            return Ok(
                ReceiveStep::Respond(
                    problem_response(
                        Problem::new(
                            400,
                            "malformed-request",
                            "body is not a SendMessage with a message",
                        ),
                    ),
                ),
            );
        },
    };
    let id = m.message_id.as_str();
    let ingress = Ingress {
        peer: req.peer,
        method: req.method,
        content_type: req.content_type,
        a2a_version: req.a2a_version,
        content_digest: req.content_digest,
        activated_extensions: req.activated_extensions,
        interface_url: config.interface_url,
        tenant: req.tenant,
        message_id: id,
        body: req.body,
    };
    assert(ingress == ingress_of(*config, *req, id));
    let outcome = match admit_request(store, config.required_extensions, &ingress) {
        Ok(outcome) => outcome,
        Err(e) => {
            return Err(e);
        },
    };
    let ghost answer = outcome;
    let step = match outcome {
        Admit::Rejected(reject) => ReceiveStep::Respond(reject_to_http(&reject)),
        Admit::Duplicate { response, .. } => ReceiveStep::Respond(a2a_ok(response)),
        Admit::Conflict => ReceiveStep::Respond(
            problem_response(
                Problem::new(409, "conflict", "a covered value changed for this Message id"),
            ),
        ),
        Admit::Accept(covered) => match result_manifest_envelope(
            &m.parts,
            config.envelope_media_type,
            config.result_payload_type,
        ) {
            Some(envelope) => handle_result(config, envelope, &m.parts, trusted_now_unix),
            None => ReceiveStep::Dispatch(covered),
        },
    };
    proof {
        let parts = part_views(m.parts@);
        if ingress::refusal(text::views(config.required_extensions@), ingress) is None {
            assert(answers_admission(answer, *config, parts, trusted_now_unix, step));
        }
        assert(takes_message(store@, *config, ingress, parts, trusted_now_unix, step));
    }
    Ok(step)
}

/// What became of a proposal that was dispatched.
#[derive(Debug, Clone, Copy, PartialEq, Eq, Structural)]
pub enum DispatchKind {
    Submitted,
    Duplicate,
    Rejected,
    Conflict,
}

/// The status of a response, by what became of the proposal.
pub open spec fn status_of(kind: DispatchKind) -> u16 {
    match kind {
        DispatchKind::Submitted => 200,
        DispatchKind::Duplicate => 200,
        DispatchKind::Rejected => 422,
        DispatchKind::Conflict => 409,
    }
}

/// Answers a proposal that was dispatched.
pub fn answer_dispatch(kind: DispatchKind, response: Vec<u8>) -> (r: HttpResponse)
    ensures
        r@ == (HttpResponseView {
            status: status_of(kind),
            content_type: media_type_for(status_of(kind)),
            body: ResponseBodyView::Bytes(response@),
        }),
{
    let status: u16 = match kind {
        DispatchKind::Submitted => 200,
        DispatchKind::Duplicate => 200,
        DispatchKind::Rejected => 422,
        DispatchKind::Conflict => 409,
    };
    let content_type = if status < 400 {
        A2A_MEDIA_TYPE.to_owned()
    } else {
        PROBLEM_MEDIA_TYPE.to_owned()
    };
    HttpResponse { status, content_type, body: ResponseBody::Bytes(response) }
}

/// Answers a result that was verified, or refused.
pub fn answer_result(result: Result<Vec<u8>, Problem>) -> (r: HttpResponse)
    ensures
        match result {
            Ok(body) => r@ == ok_with(body@),
            Err(p) => r@ == refused_with(p@),
        },
{
    match result {
        Ok(body) => a2a_ok(body),
        Err(p) => problem_response(p),
    }
}

/// Only a proposal that was not seen before is dispatched, under the values that it
/// came with, and only if it passed every gate.
pub proof fn only_fresh_proposals_are_dispatched(
    v: StoreView,
    config: ReceiveConfig<'_>,
    req: HttpRequest<'_>,
    message: ReceivedMessage,
    now: i64,
    covered: CoveredValues,
)
    requires
        receives(v, config, req, Some(message), now, ReceiveStep::Dispatch(covered)),
    ensures
        inbox::receipt_of(v, covered@) is Fresh,
        covered@.peer == req.peer@,
        covered@.message_id == message.message_id@,
        covered@.body_digest == delivery::body_digest_of(req.body@),
{
    let step = ReceiveStep::Dispatch(covered);
    let id = choose|id: &str|
        id@ == message.message_id@ && #[trigger] takes_message(
            v,
            config,
            ingress_of(config, req, id),
            part_views(message.parts@),
            now,
            step,
        );
    let i = ingress_of(config, req, id);
    let a = choose|a: Admit|
        (forall|c: CoveredValuesView| ingress::covers(c, i) ==> #[trigger] ingress::admitted(a, v, c)) && (match a {
            Admit::Accept(x) => ingress::covers(x@, i),
            _ => true,
        }) && #[trigger] answers_admission(a, config, part_views(message.parts@), now, step);
    assert(a is Accept);
    assert(ingress::covers(covered@, i));
    assert(ingress::admitted(a, v, covered@));
}

/// A replay gets the response that was saved, as it was.
pub proof fn replays_get_the_saved_response(
    v: StoreView,
    config: ReceiveConfig<'_>,
    req: Ingress<'_>,
    parts: Seq<ReceivedPartView>,
    now: i64,
    c: CoveredValuesView,
    step: ReceiveStep,
)
    requires
        takes_message(v, config, req, parts, now, step),
        ingress::refusal(text::views(config.required_extensions@), req) is None,
        ingress::covers(c, req),
        inbox::receipt_of(v, c) is Duplicate,
    ensures
        match step {
            ReceiveStep::Respond(r) => r@ == ok_with(inbox::receipt_of(v, c)->response),
            _ => false,
        },
{
    let a = choose|a: Admit|
        (forall|c: CoveredValuesView| ingress::covers(c, req) ==> #[trigger] ingress::admitted(a, v, c)) && (match a {
            Admit::Accept(x) => ingress::covers(x@, req),
            _ => true,
        }) && #[trigger] answers_admission(a, config, parts, now, step);
    assert(ingress::admitted(a, v, c));
}

/// A result passes the gates before it is finalized, as a proposal does before it is
/// dispatched: nothing is done with a request that a gate refuses.
pub proof fn results_pass_the_gates(
    v: StoreView,
    config: ReceiveConfig<'_>,
    req: HttpRequest<'_>,
    message: ReceivedMessage,
    now: i64,
    step: ReceiveStep,
    id: &str,
)
    requires
        receives(v, config, req, Some(message), now, step),
        id@ == message.message_id@,
        step is Finalize || step is Dispatch,
    ensures
        ingress::refusal(
            text::views(config.required_extensions@),
            ingress_of(config, req, id),
        ) is None,
{
}

} // verus!
