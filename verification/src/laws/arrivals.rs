//! What arrives: which requests pass, which are the same, what is answered, and what is on
//! record afterwards.
use crate::contract::{HeadStateView, ParsedContractView, RevisionVerdictView};
use crate::contract;
use crate::coord_egress::{AcknowledgementView, CoordReject, ReceivedDispatchView};
use crate::delivery::{CoveredValuesView, DeliveryError};
use crate::delivery;
use crate::ingress::{Ingress, RejectView};
use crate::ingress;
use crate::outside;
use crate::propose::{ProposalView, ProposedInputView, Submission};
use crate::propose;
use crate::receive_coord;
use crate::receive_http::{
    DeliveredOutputView, DispatchKind, HttpRequest, HttpResponseView, ReceiveConfig, ReceiveStep,
    ReceivedContentView, ReceivedEnvelopeView, ReceivedMessage, ReceivedPartView, ResponseBodyView,
};
use crate::receive_http;
use crate::store::contracts;
use crate::store::inbox::ReceiptView;
use crate::store::inbox;
use crate::store::StoreView;
use crate::text;
use vstd::prelude::*;

verus! {

/// A request passes exactly where its media type is that of a message, its version is spoken, its
/// digest is that of its body, and every required extension is activated. What is refused is
/// refused for the first of these that fails.
pub proof fn a_request_passes_all_the_gates(required: Seq<Seq<char>>, req: Ingress<'_>)
    ensures
        ({
            let verdict = ingress::refusal(required, req);
            let media = text::lowered(text::essence(req.content_type@)) == "application/a2a+json"@;
            let version = req.a2a_version is Some && req.a2a_version->0@ == "1.0"@;
            let field = if req.content_digest is Some {
                req.content_digest->0@
            } else {
                Seq::empty()
            };
            let digest = delivery::digest_verdict(field, req.body@) is Ok;
            let active = text::views(req.activated_extensions@);
            let extensions = forall|i: int|
                0 <= i < required.len() ==> active.contains(#[trigger] required[i]);
            &&& verdict is None <==> media && version && digest && extensions
            &&& !media ==> verdict == Some(RejectView::UnsupportedMediaType)
            &&& media && !version ==> (verdict matches Some(RejectView::BadA2aVersion(_)))
            &&& media && version && !digest ==> (verdict matches Some(RejectView::ContentDigest(e))
                && delivery::digest_verdict(field, req.body@) == Err::<(), DeliveryError>(e))
            &&& media && version && digest && !extensions ==> (verdict matches Some(
                RejectView::MissingRequiredExtensions(_),
            ))
        }),
{
    reveal_strlit("application/a2a+json");
    assert(text::lowered("application/a2a+json"@) =~= "application/a2a+json"@);
    let active = text::views(req.activated_extensions@);
    let pred = |r: Seq<char>| !active.contains(r);
    let absent = ingress::missing(required, active);
    assert(absent == required.filter(pred));
    broadcast use vstd::seq_lib::group_filter_ensures;

    if absent.len() > 0 {
        assert(pred(absent[0]));
        assert(absent.contains(absent[0]));
        required.lemma_filter_contains_rev(pred, absent[0]);
        let i = choose|i: int| 0 <= i < required.len() && required[i] == absent[0];
        assert(!active.contains(required[i]));
    } else {
        assert forall|i: int| 0 <= i < required.len() implies active.contains(#[trigger] required[i]) by {
            if pred(required[i]) {
                assert(absent.contains(required[i]));
            }
        }
    }
}

/// A digest field is taken only where it is a single one, by SHA-256, in base64 between two
/// colons, and of the body.
pub proof fn a_digest_is_that_of_the_body(header: Seq<char>, body: Seq<u8>)
    ensures
        ({
            let h = text::trimmed(header);
            let at = text::first_of(h, '=');
            let value = text::trimmed(h.skip(at + 1));
            let verdict = delivery::digest_verdict(header, body);
            &&& verdict is Ok ==> !h.contains(',') && h.contains('=') && text::trimmed(h.take(at))
                == "sha-256"@ && value.len() >= 2 && value[0] == ':' && value[value.len() - 1] == ':'
                && outside::base64_value(value.subrange(1, value.len() - 1)) == Some(
                outside::sha256_of(body),
            )
            &&& (verdict == Err::<(), DeliveryError>(DeliveryError::Missing)) <==> h.len() == 0
            &&& h.contains(',') ==> verdict == Err::<(), DeliveryError>(DeliveryError::NotSingle)
            &&& verdict == Err::<(), DeliveryError>(DeliveryError::Mismatch) ==> exists|other: Seq<u8>|
                other != outside::sha256_of(body) && #[trigger] outside::base64_value(
                    value.subrange(1, value.len() - 1),
                ) == Some(other)
        }),
{
    let h = text::trimmed(header);
    text::lemma_first_of(h, '=');
    if h.len() == 0 {
        assert(!h.contains(','));
    }
}

/// What makes two requests the same: the peer that was authenticated, the message id, the body,
/// the address, the tenant, the version, the extensions as a set, the media type and the method.
pub proof fn these_values_tell_requests_apart(c: CoveredValuesView, req: Ingress<'_>, x: Seq<char>)
    requires
        ingress::covers(c, req),
    ensures
        c.peer == req.peer@,
        c.message_id == req.message_id@,
        c.body_digest == outside::base64_of(outside::sha256_of(req.body@)),
        c.interface_url == req.interface_url@,
        c.tenant is Some <==> req.tenant is Some,
        c.tenant is Some ==> c.tenant->0 == req.tenant->0@,
        c.a2a_version == "1.0"@,
        c.content_type == req.content_type@,
        c.http_method == req.method@,
        c.extensions.contains(x) <==> text::views(req.activated_extensions@).contains(x),
{
}

/// The commitment to a request is keyed, and over all of its values.
pub proof fn a_commitment_is_over_every_value(a: CoveredValuesView, b: CoveredValuesView, key: Seq<u8>)
    ensures
        delivery::covered_members(a) == delivery::covered_members(b) <==> (a.peer == b.peer
            && a.message_id == b.message_id && a.body_digest == b.body_digest && a.interface_url
            == b.interface_url && a.tenant == b.tenant && a.a2a_version == b.a2a_version && a.extensions
            == b.extensions && a.content_type == b.content_type && a.http_method == b.http_method),
        (outside::canonical_json(delivery::covered_members(a)) matches Some(bytes)
            ==> delivery::commitment_of(a, key) == outside::hmac_sha256_of(key, bytes)),
{
    delivery::every_covered_value_counts(a, b);
}

/// A request that was not seen before is recorded once, under its peer and its message id, with
/// its body, its commitment and the response to it. Nothing else changes.
pub proof fn a_request_is_on_record(
    v: StoreView,
    covered: CoveredValuesView,
    body: Seq<u8>,
    response: Seq<u8>,
    task_id: Option<Seq<char>>,
    class: Seq<char>,
    now: i64,
    other: (Seq<char>, Seq<char>),
)
    ensures
        ({
            let w = inbox::with_request(v, covered, body, response, task_id, class, now);
            let row = w.inbox[(covered.peer, covered.message_id)];
            &&& w.inbox.contains_key((covered.peer, covered.message_id))
            &&& row.body == body
            &&& row.response == Some(response)
            &&& row.task_id == task_id
            &&& row.response_class == class
            &&& row.received_at == now
            &&& row.body_digest == covered.body_digest
            &&& row.commitment == delivery::commitment_of(covered, v.commitment_key)
            &&& other != (covered.peer, covered.message_id) ==> (w.inbox.contains_key(other)
                <==> v.inbox.contains_key(other)) && w.inbox[other] == v.inbox[other]
            &&& w == (StoreView { inbox: w.inbox, ..v })
        }),
{
}

/// A request is new exactly where neither a record nor a tombstone of its peer and message id is
/// kept. It is a repetition only where the commitment is the one on record, and gets the response
/// on record; with any other commitment it is a conflict.
pub proof fn a_request_is_new_once(v: StoreView, covered: CoveredValuesView)
    ensures
        ({
            let k = (covered.peer, covered.message_id);
            let tag = delivery::commitment_of(covered, v.commitment_key);
            let r = inbox::receipt_of(v, covered);
            &&& r is Fresh <==> !v.inbox.contains_key(k) && !v.tombstones.contains_key(k)
            &&& v.inbox.contains_key(k) && v.inbox[k].commitment != tag ==> r is Conflict
            &&& v.inbox.contains_key(k) && v.inbox[k].commitment == tag ==> match v.inbox[k].response {
                Some(saved) => r == (ReceiptView::Duplicate {
                    task_id: v.inbox[k].task_id,
                    response: saved,
                }),
                None => r is Conflict,
            }
            &&& !v.inbox.contains_key(k) && v.tombstones.contains_key(k) && v.tombstones[k].commitment
                != tag ==> r is Conflict
            &&& !v.inbox.contains_key(k) && v.tombstones.contains_key(k) && v.tombstones[k].commitment
                == tag ==> match v.tombstones[k].response {
                Some(saved) => r == (ReceiptView::Duplicate {
                    task_id: v.tombstones[k].task_id,
                    response: saved,
                }),
                None => r is Conflict,
            }
        }),
{
}

/// A tombstone keeps what a repetition needs, until its time, and drops the body.
pub proof fn a_tombstone_keeps_the_answer(
    v: StoreView,
    k: (Seq<char>, Seq<char>),
    expires_at: i64,
    other: (Seq<char>, Seq<char>),
)
    requires
        v.inbox.contains_key(k),
    ensures
        ({
            let w = inbox::with_tombstone(v, k, expires_at);
            &&& !w.inbox.contains_key(k)
            &&& w.tombstones.contains_key(k)
            &&& w.tombstones[k].commitment == v.inbox[k].commitment
            &&& w.tombstones[k].task_id == v.inbox[k].task_id
            &&& w.tombstones[k].response == v.inbox[k].response
            &&& w.tombstones[k].response_class == v.inbox[k].response_class
            &&& w.tombstones[k].expires_at == expires_at
            &&& other != k ==> (w.inbox.contains_key(other) <==> v.inbox.contains_key(other)) && (
            w.tombstones.contains_key(other) <==> v.tombstones.contains_key(other))
        }),
{
}

/// A tombstone lives exactly as long as the longer of the two that it has to outlive.
pub proof fn a_tombstone_lives_the_longer_time(retention: int, retry: int, expiry: int)
    ensures
        ({
            let n = delivery::tombstone_lifetime(retention, retry, expiry);
            n >= retention && n >= retry + expiry && (n == retention || n == retry + expiry)
        }),
{
}

/// A refusal at a gate is a 415 for the media type and a 400 for anything else, as a problem.
pub proof fn a_gate_is_named_in_the_answer(reject: RejectView)
    ensures
        ({
            let r = receive_http::refused_with(receive_http::gate_problem(reject));
            &&& r.content_type == "application/problem+json"@
            &&& (r.body matches ResponseBodyView::Problem(p) && p.status == r.status && p.type_
                == "urn:akson:error:"@ + "ingress-rejected"@ && p.title == (match reject {
                RejectView::UnsupportedMediaType => "unsupported media type"@,
                RejectView::BadA2aVersion(_) => "unsupported or missing A2A-Version"@,
                RejectView::ContentDigest(_) => "content-digest missing or does not match the body"@,
                RejectView::MissingRequiredExtensions(_) => "a required extension was not activated"@,
            }))
            &&& r.status == (if reject is UnsupportedMediaType {
                415u16
            } else {
                400
            })
        }),
{
}

/// A proposal that was taken or was taken before is answered with a 200 that is a message; a
/// refused one with a 422 and a changed one with a 409, which are problems.
pub proof fn a_proposal_is_answered_by_what_became_of_it(kind: DispatchKind)
    ensures
        ({
            let status = receive_http::status_of(kind);
            &&& status == (match kind {
                DispatchKind::Submitted => 200u16,
                DispatchKind::Duplicate => 200,
                DispatchKind::Rejected => 422,
                DispatchKind::Conflict => 409,
            })
            &&& receive_http::media_type_for(status) == (if kind is Submitted || kind is Duplicate {
                "application/a2a+json"@
            } else {
                "application/problem+json"@
            })
        }),
{
}

proof fn lemma_manifest(parts: Seq<ReceivedPartView>, media: Seq<char>, payload: Seq<char>)
    ensures
        match receive_http::manifest_in(parts, media, payload) {
            Some(e) => e.payload_type == payload && exists|i: int|
                0 <= i < parts.len() && (#[trigger] parts[i]).media_type == media && parts[i].content
                    == ReceivedContentView::Data(Some(e)) && forall|j: int|
                    0 <= j < i ==> !receive_http::is_manifest(#[trigger] parts[j], media, payload),
            None => forall|j: int|
                0 <= j < parts.len() ==> !receive_http::is_manifest(#[trigger] parts[j], media, payload),
        },
    decreases parts.len(),
{
    if parts.len() > 0 {
        if receive_http::is_manifest(parts[0], media, payload) {
            assert(parts[0].media_type == media);
        } else {
            let rest = parts.skip(1);
            lemma_manifest(rest, media, payload);
            match receive_http::manifest_in(rest, media, payload) {
                Some(e) => {
                    let i = choose|i: int|
                        0 <= i < rest.len() && (#[trigger] rest[i]).media_type == media
                            && rest[i].content == ReceivedContentView::Data(Some(e)) && forall|j: int|
                            0 <= j < i ==> !receive_http::is_manifest(
                                #[trigger] rest[j],
                                media,
                                payload,
                            );
                    assert(parts[i + 1] == rest[i]);
                    assert forall|j: int| 0 <= j < i + 1 implies !receive_http::is_manifest(
                        #[trigger] parts[j],
                        media,
                        payload,
                    ) by {
                        if j > 0 {
                            assert(parts[j] == rest[j - 1]);
                        }
                    }
                },
                None => {
                    assert forall|j: int| 0 <= j < parts.len() implies !receive_http::is_manifest(
                        #[trigger] parts[j],
                        media,
                        payload,
                    ) by {
                        if j > 0 {
                            assert(parts[j] == rest[j - 1]);
                        }
                    }
                },
            }
        }
    }
}

/// The manifest of a result is an envelope of a message, of the media type of envelopes and with
/// the payload type of results; a message is without one only where none of its parts is.
pub proof fn a_manifest_is_an_envelope_of_the_message(
    parts: Seq<ReceivedPartView>,
    media: Seq<char>,
    payload: Seq<char>,
    e: ReceivedEnvelopeView,
    i: int,
)
    requires
        0 <= i < parts.len(),
        parts[i].media_type == media,
        parts[i].content == ReceivedContentView::Data(Some(e)),
        e.payload_type == payload,
    ensures
        receive_http::manifest_in(parts, media, payload) is Some,
        ({
            let found = receive_http::manifest_in(parts, media, payload)->0;
            &&& found.payload_type == payload
            &&& exists|j: int|
                0 <= j <= i && (#[trigger] parts[j]).media_type == media && parts[j].content
                    == ReceivedContentView::Data(Some(found))
        }),
{
    lemma_manifest(parts, media, payload);
    assert(receive_http::is_manifest(parts[i], media, payload));
    let found = receive_http::manifest_in(parts, media, payload)->0;
    let j = choose|j: int|
        0 <= j < parts.len() && (#[trigger] parts[j]).media_type == media && parts[j].content
            == ReceivedContentView::Data(Some(found)) && forall|k: int|
            0 <= k < j ==> !receive_http::is_manifest(#[trigger] parts[k], media, payload);
    if j > i {
        assert(!receive_http::is_manifest(parts[i], media, payload));
    }
    assert(j <= i);
}

/// The outputs of a result are the parts that are bytes, each under its file name: all of them,
/// and nothing else.
pub proof fn outputs_are_the_parts_that_are_bytes(parts: Seq<ReceivedPartView>, i: int, j: int)
    ensures
        0 <= i < parts.len() ==> (parts[i].content matches ReceivedContentView::Raw(bytes)
            ==> exists|k: int|
            0 <= k < receive_http::outputs_in(parts).len() && (#[trigger] receive_http::outputs_in(parts)[k])
                == (DeliveredOutputView { artifact_id: parts[i].filename, bytes })),
        0 <= j < receive_http::outputs_in(parts).len() ==> exists|k: int|
            0 <= k < parts.len() && (#[trigger] parts[k]).content == ReceivedContentView::Raw(
                receive_http::outputs_in(parts)[j].bytes,
            ) && parts[k].filename == receive_http::outputs_in(parts)[j].artifact_id,
    decreases parts.len(),
{
    if parts.len() > 0 {
        let rest = parts.drop_last();
        let before = receive_http::outputs_in(rest);
        let all = receive_http::outputs_in(parts);
        outputs_are_the_parts_that_are_bytes(rest, i, j);
        if 0 <= i < parts.len() {
            if let ReceivedContentView::Raw(bytes) = parts[i].content {
                if i < rest.len() {
                    assert(rest[i] == parts[i]);
                    let k = choose|k: int|
                        0 <= k < before.len() && (#[trigger] before[k]) == (DeliveredOutputView {
                            artifact_id: parts[i].filename,
                            bytes,
                        });
                    assert(all[k] == before[k]);
                } else {
                    assert(all[before.len() as int] == (DeliveredOutputView {
                        artifact_id: parts[i].filename,
                        bytes,
                    }));
                }
            }
        }
        if 0 <= j < all.len() {
            if j < before.len() {
                let k = choose|k: int|
                    0 <= k < rest.len() && (#[trigger] rest[k]).content == ReceivedContentView::Raw(
                        before[j].bytes,
                    ) && rest[k].filename == before[j].artifact_id;
                assert(parts[k] == rest[k]);
                assert(all[j] == before[j]);
            } else {
                assert(parts[parts.len() - 1].content is Raw);
            }
        }
    }
}

/// Only a POST whose body is a message gets further: anything else is answered with a 405 or a
/// 400.
pub proof fn only_messages_get_further(
    v: StoreView,
    config: ReceiveConfig<'_>,
    req: HttpRequest<'_>,
    message: Option<ReceivedMessage>,
    now: i64,
    step: ReceiveStep,
)
    requires
        receive_http::receives(v, config, req, message, now, step),
        text::lowered(req.method@) != "post"@ || message is None,
    ensures
        step matches ReceiveStep::Respond(r) && r@.content_type == "application/problem+json"@ && r@.status
            == (if text::lowered(req.method@) != "post"@ {
            405u16
        } else {
            400
        }) && (r@.body matches ResponseBodyView::Problem(p) && p.status == r@.status && p.type_ == (if text::lowered(
            req.method@,
        ) != "post"@ {
            "urn:akson:error:"@ + "method-not-allowed"@
        } else {
            "urn:akson:error:"@ + "malformed-request"@
        })),
{
    reveal_strlit("POST");
    reveal_strlit("post");
    assert(text::lowered("POST"@) =~= "post"@);
}

/// A message that passed the gates and is new is a result to be finalized where it carries a
/// manifest and both keys are there, at the time at which it came and with what came with it; a
/// proposal to be dispatched where it carries none; and a changed one is a 409.
pub proof fn a_message_is_a_result_or_a_proposal(
    v: StoreView,
    config: ReceiveConfig<'_>,
    req: Ingress<'_>,
    parts: Seq<ReceivedPartView>,
    now: i64,
    c: CoveredValuesView,
    step: ReceiveStep,
)
    requires
        receive_http::takes_message(v, config, req, parts, now, step),
        ingress::refusal(text::views(config.required_extensions@), req) is None,
        ingress::covers(c, req),
    ensures
        ({
            let manifest = receive_http::manifest_in(
                parts,
                config.envelope_media_type@,
                config.result_payload_type@,
            );
            let receipt = inbox::receipt_of(v, c);
            &&& step is Dispatch <==> receipt is Fresh && manifest is None
            &&& (step matches ReceiveStep::Dispatch(d) ==> ingress::covers(d@, req))
            &&& step is Finalize <==> receipt is Fresh && manifest is Some && config.has_outcome_key
                && config.has_task_result_key && outside::rfc3339_of(now as int) is Some
            &&& (step matches ReceiveStep::Finalize { envelope, delivered, signed_at } ==> manifest
                == Some(envelope@) && crate::table::seen(delivered@) == receive_http::outputs_in(parts)
                && outside::rfc3339_of(now as int) == Some(signed_at@))
            &&& receipt is Conflict ==> (step matches ReceiveStep::Respond(r) && r@.status == 409)
            &&& (receipt matches ReceiptView::Duplicate { task_id, response } ==> (
            step matches ReceiveStep::Respond(r) && r@.status == 200 && r@.content_type
                == "application/a2a+json"@ && r@.body == ResponseBodyView::Bytes(response)))
            &&& receipt is Fresh && manifest is Some && !(config.has_outcome_key
                && config.has_task_result_key) ==> (step matches ReceiveStep::Respond(r) && r@.status
                == 415)
        }),
{
    let a = choose|a: ingress::Admit|
        (forall|c: CoveredValuesView| ingress::covers(c, req) ==> #[trigger] ingress::admitted(a, v, c)) && (
        match a {
            ingress::Admit::Accept(covered) => ingress::covers(covered@, req),
            _ => true,
        }) && #[trigger] receive_http::answers_admission(a, config, parts, now, step);
    assert(ingress::admitted(a, v, c));
}

/// A sender is the active peer whose key for proposals was kept under the certificate that was
/// presented; nobody else is found.
pub proof fn a_sender_is_known_by_the_certificate(v: StoreView, certificate: Seq<char>, root: Seq<char>)
    ensures
        (receive_coord::sender_of(v, certificate) == Some(root)) <==> (v.peer_keys.contains_key(
            (certificate, "contract-proposal"@),
        ) && v.peer_keys[(certificate, "contract-proposal"@)].root_thumbprint == root
            && v.peers.contains_key(root) && v.peers[root].status is Active),
{
}

/// What is acknowledged is the digest and the payload of the dispatch that was verified, by this
/// endpoint, at the time at which it was received.
pub proof fn an_acknowledgement_says_what_was_received(
    received: ReceivedDispatchView,
    local_root: Seq<char>,
    at: i64,
)
    ensures
        ({
            let a: AcknowledgementView = receive_coord::acknowledged(received, local_root, at);
            &&& a.coordination == "acknowledged"@
            &&& a.protocol == "akson_byom_exchange_v1"@
            &&& a.staged_digest == received.staged_digest
            &&& a.payload_sha256 == received.payload_sha256
            &&& a.recipient_root == local_root
            &&& a.received_at == at
        }),
{
}

/// A dispatch that was verified is recorded under its values with the bytes that it is answered
/// with; one that was not is refused with a 400, and nothing is recorded.
pub proof fn a_dispatch_is_recorded_with_its_answer<
    W: Fn(&crate::coord_egress::Acknowledgement) -> Vec<u8>,
>(
    v: StoreView,
    w: StoreView,
    covered: CoveredValuesView,
    body: Seq<u8>,
    worth: Result<ReceivedDispatchView, CoordReject>,
    local_root: Seq<char>,
    write: W,
    wall: i64,
    r: HttpResponseView,
)
    requires
        receive_coord::takes_fresh(v, w, covered, body, worth, local_root, write, wall, r),
    ensures
        worth is Err ==> w == v && r.status == 400 && (r.body matches ResponseBodyView::Problem(p)
            && p.type_ == "urn:akson:error:"@ + "coordination-refused"@),
        worth is Ok && r.status == 200 ==> {
            let row = w.inbox[(covered.peer, covered.message_id)];
            &&& w.inbox.contains_key((covered.peer, covered.message_id))
            &&& row.body == body
            &&& row.response_class == "coordination"@
            &&& row.task_id is None
            &&& row.response is Some
            &&& r.body == ResponseBodyView::Bytes(row.response->0)
            &&& r.content_type == "application/a2a+json"@
        },
        worth is Ok && r.status != 200 ==> w.inbox == v.inbox,
{
}

/// A revision advances the head of its task exactly where it is the first of a task without one,
/// numbered zero, or the one that follows an open head and names it; a locked head is followed by
/// none.
pub proof fn a_revision_follows_the_open_head(head: HeadStateView, p: ParsedContractView)
    ensures
        ({
            let verdict = contract::revision_verdict(head, p);
            let advances = match head {
                HeadStateView::Empty => p.contract.revision == 0,
                HeadStateView::Open(h) => p.contract.revision > 0 && p.contract.revision - 1
                    == h.revision && p.contract.predecessor_digest is Some
                    && p.contract.predecessor_digest->0 == h.digest,
                HeadStateView::Locked(_) => false,
            };
            &&& verdict is Advance <==> advances
            &&& (verdict matches RevisionVerdictView::Advance(h) ==> h.digest == p.digest && h.revision
                == p.contract.revision)
        }),
{
}

/// A revision that advances is the head of its task afterwards, open, with the terms and the
/// bytes that came; whom the task is from stays who it was from first.
pub proof fn a_revision_is_the_head_afterwards(
    v: StoreView,
    task_id: Seq<char>,
    p: ParsedContractView,
    origin_root: Seq<char>,
    expires_at: i64,
    other: Seq<char>,
)
    requires
        !v.contracts.contains_key(p.digest),
        other != task_id,
    ensures
        ({
            let w = contracts::with_revision(v, task_id, p, origin_root, expires_at);
            let head = w.heads[task_id];
            let terms = w.contracts[p.digest];
            &&& w.heads.contains_key(task_id)
            &&& head.digest == p.digest
            &&& head.revision == p.contract.revision
            &&& head.contract_id == p.contract.contract_id
            &&& !head.locked
            &&& head.origin_root == (if v.heads.contains_key(task_id) {
                v.heads[task_id].origin_root
            } else {
                origin_root
            })
            &&& contracts::head_state(w, task_id) == HeadStateView::Open(
                contract::HeadView { revision: p.contract.revision, digest: p.digest },
            )
            &&& w.contracts.contains_key(p.digest)
            &&& terms.contract == Some(p.contract)
            &&& terms.payload == p.payload
            &&& terms.task_id == task_id
            &&& terms.contract_id == p.contract.contract_id
            &&& terms.revision == p.contract.revision
            &&& terms.expires_at == expires_at
            &&& w.heads.contains_key(other) <==> v.heads.contains_key(other)
            &&& w.heads[other] == v.heads[other]
            &&& forall|digest: Seq<char>| digest != p.digest ==> (#[trigger] w.contracts.contains_key(digest)
                <==> v.contracts.contains_key(digest)) && w.contracts[digest] == v.contracts[digest]
        }),
{
}

/// A head is locked by accepting it, and nothing else about the task changes.
pub proof fn a_locked_head_stays_what_it_was(v: StoreView, task_id: Seq<char>, other: Seq<char>)
    requires
        v.heads.contains_key(task_id),
        other != task_id,
    ensures
        ({
            let w = contracts::with_lock(v, task_id);
            &&& w.heads[task_id].locked
            &&& w.heads[task_id].digest == v.heads[task_id].digest
            &&& w.heads[task_id].revision == v.heads[task_id].revision
            &&& w.heads[task_id].contract_id == v.heads[task_id].contract_id
            &&& w.heads[task_id].origin_root == v.heads[task_id].origin_root
            &&& w.heads[task_id].context_id == v.heads[task_id].context_id
            &&& w.heads[other] == v.heads[other]
            &&& w.heads.contains_key(other) <==> v.heads.contains_key(other)
            &&& contracts::head_state(w, task_id) is Locked
        }),
{
}

proof fn lemma_inputs_stored(
    v: StoreView,
    task_id: Seq<char>,
    inputs: Seq<ProposedInputView>,
    now: i64,
    i: int,
)
    requires
        0 <= i < inputs.len() <= i64::MAX,
        !v.task_inputs.contains_key((task_id, inputs[i].input_id)),
        forall|j: int| 0 <= j < i ==> (#[trigger] inputs[j]).input_id != inputs[i].input_id,
    ensures
        ({
            let w = propose::with_inputs(v, task_id, inputs, now);
            let at = (task_id, inputs[i].input_id);
            let row = w.task_inputs[at];
            &&& w.task_inputs.contains_key(at)
            &&& row.ordinal == i
            &&& row.media_type == inputs[i].media_type
            &&& row.sha256 == inputs[i].sha256
            &&& row.payload == inputs[i].payload
            &&& inputs[i].payload.len() <= i64::MAX ==> row.byte_length == inputs[i].payload.len()
        }),
    decreases inputs.len(),
{
    let before = inputs.drop_last();
    if i < before.len() {
        assert(before[i] == inputs[i]);
        assert forall|j: int| 0 <= j < i implies (#[trigger] before[j]).input_id != before[i].input_id by {
            assert(before[j] == inputs[j]);
        }
        lemma_inputs_stored(v, task_id, before, now, i);
    } else {
        assert forall|j: int| 0 <= j < before.len() implies (#[trigger] before[j]).input_id
            != inputs[i].input_id by {
            assert(before[j] == inputs[j]);
        }
        lemma_inputs_leave(v, task_id, before, now, (task_id, inputs[i].input_id));
    }
}

proof fn lemma_inputs_leave(
    v: StoreView,
    task_id: Seq<char>,
    inputs: Seq<ProposedInputView>,
    now: i64,
    at: (Seq<char>, Seq<char>),
)
    requires
        at.0 != task_id || forall|j: int| 0 <= j < inputs.len() ==> (#[trigger] inputs[j]).input_id != at.1,
    ensures
        ({
            let w = propose::with_inputs(v, task_id, inputs, now);
            &&& w.task_inputs.contains_key(at) <==> v.task_inputs.contains_key(at)
            &&& v.task_inputs.contains_key(at) ==> w.task_inputs[at] == v.task_inputs[at]
        }),
    decreases inputs.len(),
{
    if inputs.len() > 0 {
        let before = inputs.drop_last();
        assert(inputs[inputs.len() - 1] == inputs.last());
        if at.0 == task_id {
            assert forall|j: int| 0 <= j < before.len() implies (#[trigger] before[j]).input_id != at.1 by {
                assert(before[j] == inputs[j]);
            }
        }
        lemma_inputs_leave(v, task_id, before, now, at);
    }
}

proof fn lemma_inputs_keep_the_rest(
    v: StoreView,
    task_id: Seq<char>,
    inputs: Seq<ProposedInputView>,
    now: i64,
)
    ensures
        ({
            let w = propose::with_inputs(v, task_id, inputs, now);
            w == (StoreView { task_inputs: w.task_inputs, audit: w.audit, ..v })
        }),
    decreases inputs.len(),
{
    if inputs.len() > 0 {
        lemma_inputs_keep_the_rest(v, task_id, inputs.drop_last(), now);
    }
}

/// A proposal that was submitted is on record: the request with its response, the terms as the
/// head of its task, under the root that was authenticated, and every input in its place.
pub proof fn a_proposal_is_on_record(
    v: StoreView,
    w: StoreView,
    covered: CoveredValuesView,
    body: Seq<u8>,
    origin_root: Seq<char>,
    p: ProposalView,
    now: i64,
    r: Submission,
    i: int,
)
    requires
        propose::submits(v, w, covered, body, origin_root, p, now, r),
        r is Submitted,
        p.inputs.len() <= i64::MAX,
    ensures
        ({
            let row = w.inbox[(covered.peer, covered.message_id)];
            &&& w.inbox.contains_key((covered.peer, covered.message_id))
            &&& row.response == Some(p.response)
            &&& row.task_id == Some(p.task_id)
            &&& row.body == body
            &&& row.response_class == "task"@
            &&& w.heads.contains_key(p.task_id)
            &&& w.heads[p.task_id].digest == p.parsed.digest
            &&& w.heads[p.task_id].context_id == p.context_id
            &&& !w.heads[p.task_id].locked
            &&& !v.heads.contains_key(p.task_id) ==> w.heads[p.task_id].origin_root == origin_root
            &&& !v.contracts.contains_key(p.parsed.digest) ==> w.contracts[p.parsed.digest].contract
                == Some(p.parsed.contract) && w.contracts[p.parsed.digest].payload == p.parsed.payload
                && w.contracts[p.parsed.digest].expires_at == p.expires_at
        }),
        0 <= i < p.inputs.len() && !v.task_inputs.contains_key((p.task_id, p.inputs[i].input_id)) && (
        forall|j: int| 0 <= j < i ==> (#[trigger] p.inputs[j]).input_id != p.inputs[i].input_id) ==> {
            let at = (p.task_id, p.inputs[i].input_id);
            &&& w.task_inputs.contains_key(at)
            &&& w.task_inputs[at].ordinal == i
            &&& w.task_inputs[at].media_type == p.inputs[i].media_type
            &&& w.task_inputs[at].sha256 == p.inputs[i].sha256
            &&& w.task_inputs[at].payload == p.inputs[i].payload
        },
{
    let t = propose::with_terms(v, covered, body, origin_root, p, now);
    lemma_inputs_keep_the_rest(t, p.task_id, p.inputs, now);
    if 0 <= i < p.inputs.len() && !v.task_inputs.contains_key((p.task_id, p.inputs[i].input_id)) && (
    forall|j: int| 0 <= j < i ==> (#[trigger] p.inputs[j]).input_id != p.inputs[i].input_id) {
        lemma_inputs_stored(t, p.task_id, p.inputs, now, i);
    }
}

/// A proposal is taken exactly where it is new and follows the head of its task; otherwise
/// nothing changes.
pub proof fn a_proposal_is_taken_where_it_follows(
    v: StoreView,
    w: StoreView,
    covered: CoveredValuesView,
    body: Seq<u8>,
    origin_root: Seq<char>,
    p: ProposalView,
    now: i64,
    r: Submission,
)
    requires
        propose::submits(v, w, covered, body, origin_root, p, now, r),
    ensures
        ({
            let receipt = inbox::receipt_of(v, covered);
            let follows = if !v.heads.contains_key(p.task_id) {
                p.parsed.contract.revision == 0
            } else {
                !v.heads[p.task_id].locked && p.parsed.contract.revision - 1
                    == v.heads[p.task_id].revision && p.parsed.contract.predecessor_digest == Some(
                    v.heads[p.task_id].digest,
                )
            };
            &&& r is Submitted <==> receipt is Fresh && follows
            &&& r is Stale <==> receipt is Fresh && !follows
            &&& r is Conflict <==> receipt is Conflict
            &&& (receipt matches ReceiptView::Duplicate { task_id, response } ==> (
            r matches Submission::Duplicate(saved) && saved@ == response))
            &&& !(r is Submitted) ==> w == v
        }),
{
}

/// A dispatch that arrives goes through the same gates as a message: only a POST, only what they
/// let pass, and a repetition gets the answer of the first time.
pub proof fn a_dispatch_passes_the_gates<W: Fn(&crate::coord_egress::Acknowledgement) -> Vec<u8>>(
    v: StoreView,
    w: StoreView,
    required: Seq<Seq<char>>,
    req: Ingress<'_>,
    worth: Result<ReceivedDispatchView, CoordReject>,
    local_root: Seq<char>,
    write: W,
    wall: i64,
    r: HttpResponseView,
    c: CoveredValuesView,
)
    requires
        receive_coord::takes_dispatch(v, w, required, req, worth, local_root, write, wall, r),
        ingress::covers(c, req),
    ensures
        text::lowered(req.method@) != "post"@ ==> w == v && r.status == 405,
        text::lowered(req.method@) == "post"@ && ingress::refusal(required, req) is Some ==> w == v && (
        r.status == 400 || r.status == 415),
        text::lowered(req.method@) == "post"@ && ingress::refusal(required, req) is None ==> match inbox::receipt_of(
            v,
            c,
        ) {
            ReceiptView::Duplicate { task_id, response } => w == v && r.status == 200 && r.body
                == ResponseBodyView::Bytes(response),
            ReceiptView::Conflict => w == v && r.status == 409,
            ReceiptView::Fresh => worth is Err ==> w == v && r.status == 400,
        },
{
    reveal_strlit("POST");
    reveal_strlit("post");
    assert(text::lowered("POST"@) =~= "post"@);
    if text::lowered(req.method@) == "post"@ && ingress::refusal(required, req) is None {
        let a = choose|a: ingress::Admit|
            (forall|c: CoveredValuesView|
                ingress::covers(c, req) ==> #[trigger] ingress::admitted(a, v, c)) && (match a {
                ingress::Admit::Accept(covered) => ingress::covers(covered@, req),
                _ => true,
            }) && #[trigger] receive_coord::takes_admitted(
                a,
                v,
                w,
                req.body@,
                worth,
                local_root,
                write,
                wall,
                r,
            );
        assert(ingress::admitted(a, v, c));
    }
}

} // verus!
