//! A dispatch goes to whom the operator pinned, with the bytes that were staged, once, and is
//! settled only by the recipient's word on them.
use crate::clock;
use crate::control::{Problem, ProblemView};
use crate::coord;
use crate::coord_dispatch::{CarryOrderView, DispatchReply, DispatchStep};
use crate::coord_dispatch;
use crate::coord_egress::{CarriageView, CoordEnvelopeView, CoordReject, PartContentView};
use crate::coord_egress;
use crate::identity::StoredPeerView;
use crate::outside;
use crate::receive_coord;
use crate::store::imports;
use crate::store::peers;
use crate::store::rows::PeerKeyRowView;
use crate::store::staging;
use crate::store::StoreView;
use vstd::prelude::*;

verus! {

/// A route that is found leads to the relationship with that label, which is live, to its
/// active peer, at the endpoint that the peer was pinned with, and holds the carriage to the
/// certificate that the peer was pinned with.
pub proof fn a_route_leads_to_what_was_pinned(v: StoreView, performer: Seq<char>)
    requires
        v.consistent(),
        coord_egress::route_of(v, performer) is Ok,
    ensures
        ({
            let route = coord_egress::route_of(v, performer)->Ok_0;
            &&& performer.len() > 0
            &&& route.label == performer
            &&& v.imports.contains_key(route.root)
            &&& v.imports[route.root].label == Some(performer)
            &&& v.imports[route.root].tombstoned_at is None
            &&& v.peers.contains_key(route.root)
            &&& v.peers[route.root].status is Active
            &&& route.tls_fingerprint == v.peers[route.root].peer.identity.tls_cert.value
            &&& route.endpoint == v.peers[route.root].peer.identity.endpoint_id
        }),
{
    let root = choose|root: Seq<char>| #[trigger] imports::holds_label(v, root, performer);
    imports::lemma_labelled(v, root, performer);
}

/// Whoever is labelled, introduced, active and pinned at a usable endpoint can be routed to.
pub proof fn an_active_peer_can_be_routed_to(v: StoreView, root: Seq<char>, label: Seq<char>)
    requires
        v.consistent(),
        label.len() > 0,
        v.imports.contains_key(root),
        v.imports[root].label == Some(label),
        v.peers.contains_key(root),
        v.peers[root].status is Active,
        crate::address::endpoint_of(v.peers[root].peer.identity.endpoint_id) is Some,
    ensures
        coord_egress::route_of(v, label) is Ok,
        coord_egress::route_of(v, label)->Ok_0.root == root,
{
    assert(imports::holds_label(v, root, label));
    imports::lemma_labelled(v, root, label);
}

proof fn lemma_key_is_kept(
    m: Map<(Seq<char>, Seq<char>), PeerKeyRowView>,
    keys: Seq<(Seq<char>, Seq<u8>)>,
    peer: StoredPeerView,
    root: Seq<char>,
    now: i64,
    i: int,
)
    requires
        0 <= i < keys.len(),
    ensures
        imports::with_keys(m, keys, peer, root, now).contains_key(
            (peer.identity.tls_cert.value, keys[i].0),
        ),
        imports::with_keys(m, keys, peer, root, now)[(peer.identity.tls_cert.value, keys[i].0)].root_thumbprint
            == root,
    decreases keys.len(),
{
    if i < keys.len() - 1 {
        lemma_key_is_kept(m, keys.drop_last(), peer, root, now, i);
    }
}

/// The certificate that a route holds the carriage to is the one by which the same peer is
/// found when it calls: after an introduction that pinned a peer with the key of a sender,
/// the route to its label carries the certificate that was presented, and whoever presents
/// that certificate is the root of the route.
pub proof fn a_route_and_a_call_agree_on_the_peer(
    v: StoreView,
    root: Seq<char>,
    label: Seq<char>,
    epoch: u64,
    peer: StoredPeerView,
    keys: Seq<(Seq<char>, Seq<u8>)>,
    now: i64,
    i: int,
)
    requires
        ({
            let w = imports::after_introduction(v, root, epoch, peer, keys, now);
            &&& w.consistent()
            &&& imports::holds_label(w, root, label)
            &&& coord_egress::route_of(w, label) is Ok
        }),
        imports::intro_verdict(v, root, epoch, peer) is Committed || imports::intro_verdict(
            v,
            root,
            epoch,
            peer,
        ) is AlreadyActive,
        peer.identity.agent_card_key.value == root,
        0 <= i < keys.len(),
        keys[i].0 == "contract-proposal"@,
    ensures
        ({
            let w = imports::after_introduction(v, root, epoch, peer, keys, now);
            let route = coord_egress::route_of(w, label)->Ok_0;
            &&& route.root == root
            &&& route.tls_fingerprint == peer.identity.tls_cert.value
            &&& route.endpoint == peer.identity.endpoint_id
            &&& receive_coord::sender_of(w, route.tls_fingerprint) == Some(route.root)
        }),
{
    let w = imports::after_introduction(v, root, epoch, peer, keys, now);
    imports::lemma_labelled(w, root, label);
    let u = imports::with_status(
        peers::with_peer(v, peer, crate::identity::PeerStatus::Active),
        root,
        crate::identity::PeerStatus::Active,
    );
    lemma_key_is_kept(u.peer_keys, keys, peer, root, now, i);
}

/// Whoever may dispatch, what leaves is what was staged and what was consented to. The message
/// is named by the receipt of the dispatch, so that carried twice it is one message. It has two
/// parts: an envelope that names the staged digest, the digest of the bytes, both ends and the
/// consent; and the staged bytes, under the name of their digest. It goes to the peer behind the
/// staged label, at the endpoint and the certificate that it was pinned with.
pub proof fn what_leaves_is_what_was_staged(
    v: StoreView,
    w: StoreView,
    local_root: Seq<char>,
    stage_ref: Seq<char>,
    consent_receipt: Seq<char>,
    execution_key: Seq<char>,
    dispatch_receipt: Seq<char>,
    wall: i64,
    valid: bool,
    r: Result<DispatchStep, Problem>,
)
    requires
        v.consistent(),
        coord_dispatch::begins(
            v,
            w,
            local_root,
            stage_ref,
            consent_receipt,
            execution_key,
            dispatch_receipt,
            wall,
            valid,
            r,
        ),
        r matches Ok(DispatchStep::Carry(_)),
    ensures
        ({
            let order = r->Ok_0->Carry_0@;
            let row = v.stages[stage_ref];
            let pinned = v.peers[order.route.root];
            &&& v.stages.contains_key(stage_ref)
            &&& valid
            &&& v.imports[order.route.root].label == Some(row.performer)
            &&& pinned.status is Active
            &&& order.route.endpoint == pinned.peer.identity.endpoint_id
            &&& order.route.tls_fingerprint == pinned.peer.identity.tls_cert.value
            &&& order.message.message_id == w.dispatches[execution_key].dispatch_receipt
            &&& order.message.context_id == stage_ref
            &&& order.message.parts.len() == 2
            &&& order.message.parts[0].media_type
                == "application/vnd.akson-dev.coord-dispatch.v1+json"@
            &&& order.message.parts[0].content matches PartContentView::Data(Some(e))
            &&& e.schema_version == 1
            &&& e.protocol == "akson_byom_exchange_v1"@
            &&& e.staged_digest == row.staged_digest
            &&& e.payload_sha256 == row.payload_sha256
            &&& e.task_type == row.task_type
            &&& e.recipient_label == row.performer
            &&& e.recipient_root == order.route.root
            &&& e.sender_root == local_root
            &&& e.consent_receipt == consent_receipt
            &&& order.message.parts[1].media_type == "application/octet-stream"@
            &&& order.message.parts[1].filename == row.payload_sha256
            &&& order.message.parts[1].content matches PartContentView::Raw(bytes)
            &&& bytes == row.payload
            &&& order.staged.staged_digest == row.staged_digest
            &&& order.record.execution_key == execution_key
            &&& order.replayed == v.dispatches.contains_key(execution_key)
        }),
{
    a_route_leads_to_what_was_pinned(v, v.stages[stage_ref].performer);
}

/// A dispatch that is committed is on record as it was asked for: under its execution key, of
/// the staging, under the consent, at the time of the decision, with nothing known of its
/// carriage. The staging counts as dispatched, the consent as spent, and the feed tells of it
/// with the recipient and what was staged. Nothing else changes but the clock.
pub proof fn a_commitment_is_on_record(
    v: StoreView,
    w: StoreView,
    local_root: Seq<char>,
    stage_ref: Seq<char>,
    consent_receipt: Seq<char>,
    execution_key: Seq<char>,
    dispatch_receipt: Seq<char>,
    wall: i64,
    valid: bool,
    r: Result<DispatchStep, Problem>,
)
    requires
        v.consistent(),
        coord_dispatch::begins(
            v,
            w,
            local_root,
            stage_ref,
            consent_receipt,
            execution_key,
            dispatch_receipt,
            wall,
            valid,
            r,
        ),
        r is Ok,
        !v.dispatches.contains_key(execution_key),
    ensures
        ({
            let d = w.dispatches[execution_key];
            let e = w.events.last();
            let row = v.stages[stage_ref];
            &&& r->Ok_0 is Carry
            &&& w.dispatches.contains_key(execution_key)
            &&& d.stage_ref == stage_ref
            &&& d.receipt_id == consent_receipt
            &&& d.staged_digest == row.staged_digest
            &&& d.dispatch_receipt == dispatch_receipt
            &&& clock::time_now(v, wall) == Ok::<i64, ProblemView>(d.dispatched_at)
            &&& d.egress_state is Pending
            &&& d.egress_at is None
            &&& v.receipts[consent_receipt].uses == 0
            &&& w.receipts[consent_receipt].uses == 1
            &&& w.stages[stage_ref].status is Dispatched
            &&& w.stages[stage_ref].payload == row.payload
            &&& w.events.len() == v.events.len() + 1
            &&& e.kind is Dispatched
            &&& e.recipient_root == Some((r->Ok_0->Carry_0@).route.root)
            &&& e.content matches Some(c)
            &&& c.payload_sha256 == row.payload_sha256
            &&& c.task_type == row.task_type
            &&& c.performer == row.performer
            &&& c.byte_length == row.payload.len() as usize
            &&& w.peers == v.peers
            &&& w.imports == v.imports
            &&& w.audit == v.audit
            &&& forall|k: Seq<char>| k != execution_key ==> (#[trigger] w.dispatches.contains_key(k)
                == v.dispatches.contains_key(k)) && w.dispatches[k] == v.dispatches[k]
        }),
{
}

/// A dispatch that the recipient has acknowledged is not carried again: asked for once more it
/// is told of as it is on record.
pub proof fn what_arrived_is_not_carried_again(
    v: StoreView,
    w: StoreView,
    local_root: Seq<char>,
    stage_ref: Seq<char>,
    consent_receipt: Seq<char>,
    execution_key: Seq<char>,
    dispatch_receipt: Seq<char>,
    wall: i64,
    valid: bool,
    r: Result<DispatchStep, Problem>,
)
    requires
        coord_dispatch::begins(
            v,
            w,
            local_root,
            stage_ref,
            consent_receipt,
            execution_key,
            dispatch_receipt,
            wall,
            valid,
            r,
        ),
        v.dispatches.contains_key(execution_key),
        r is Ok,
    ensures
        (v.dispatches[execution_key].egress_state is Sent) <==> (r->Ok_0 is Done),
        v.dispatches[execution_key].stage_ref == stage_ref,
        v.dispatches[execution_key].receipt_id == consent_receipt,
        r->Ok_0 matches DispatchStep::Done(reply) ==> {
            let d = v.dispatches[execution_key];
            &&& reply@.dispatch_receipt == d.dispatch_receipt
            &&& reply@.dispatched_at == d.dispatched_at
            &&& reply@.consent_receipt == consent_receipt
            &&& reply@.execution_key == execution_key
            &&& reply@.stage_ref == stage_ref
            &&& reply@.staged_digest == d.staged_digest
            &&& reply@.payload_sha256 == v.stages[stage_ref].payload_sha256
            &&& reply@.task_type == v.stages[stage_ref].task_type
            &&& reply@.performer == v.stages[stage_ref].performer
            &&& reply@.byte_length == v.stages[stage_ref].payload.len() as usize
            &&& reply@.status is Dispatched
            &&& reply@.consent_spent
            &&& reply@.egress.state is Sent
            &&& !reply@.egress.retryable
        },
{
}

/// Only the word of the recipient settles a carriage: it answers with success and names the very
/// digest that was sent. Any other answer, and none at all, is a failure.
pub proof fn only_the_recipients_word_settles(
    answer: Result<(u16, Vec<u8>), Problem>,
    root: Seq<char>,
    staged_digest: Seq<char>,
)
    ensures
        (coord_egress::carriage_of(answer, root, staged_digest) is Acknowledged) <==> (match answer {
            Ok((status, body)) => status == 200 && outside::json_text_of(body@, "staged_digest"@)
                == Some(staged_digest),
            Err(_) => false,
        }),
{
}

/// What is noted of a failure begins with what kind it was: the status that came back, or the
/// type of the problem on the way; and the rest is what the recipient or the problem said.
pub proof fn failures_are_noted_by_their_kind(
    answer: Result<(u16, Vec<u8>), Problem>,
    root: Seq<char>,
    staged_digest: Seq<char>,
)
    ensures
        match (answer, coord_egress::carriage_of(answer, root, staged_digest)) {
            (Ok((status, body)), CarriageView::Failed { detail }) => status != 200 ==> (
            "the recipient answered "@ + crate::numerals::decimal(status as int) + ": "@).is_prefix_of(
                detail,
            ),
            (Err(p), CarriageView::Failed { detail }) => p@.type_.is_prefix_of(detail) && (match p@.detail {
                Some(why) => why,
                None => p@.title,
            }).is_suffix_of(detail),
            (Ok(_), CarriageView::Acknowledged { detail }) => root.is_suffix_of(detail),
            (Err(_), CarriageView::Acknowledged { .. }) => false,
        },
{
    if let Err(p) = answer {
        let why = match p@.detail {
            Some(why) => why,
            None => p@.title,
        };
        let detail = p@.type_ + ": "@ + why;
        assert(detail.take(p@.type_.len() as int) =~= p@.type_);
        assert(detail.skip(detail.len() - why.len()) =~= why);
        assert(p@.type_.is_prefix_of(detail));
        assert(why.is_suffix_of(detail));
    }
}

proof fn lemma_filtered(text: Seq<char>, keep: spec_fn(char) -> bool)
    ensures
        text.filter(keep).len() <= text.len(),
        forall|i: int| 0 <= i < text.filter(keep).len() ==> keep(#[trigger] text.filter(keep)[i]),
    decreases text.len(),
{
    reveal(Seq::filter);
    if text.len() > 0 {
        lemma_filtered(text.drop_last(), keep);
    }
}

/// A peer writes nothing to the record but printable characters, and no more than two hundred:
/// of a longer text the beginning is kept.
pub proof fn a_peers_words_are_bounded(text: Seq<char>)
    ensures
        ({
            let noted = coord_egress::summary(text, coord_egress::MAX_SUMMARY_CHARS as nat);
            &&& noted.len() <= 200
            &&& noted.len() <= text.len()
            &&& forall|i: int| 0 <= i < noted.len() ==> !crate::text::is_control_char(#[trigger] noted[i])
        }),
{
    lemma_filtered(text, |c: char| !crate::text::is_control_char(c));
}

proof fn lemma_unfiltered(text: Seq<char>, keep: spec_fn(char) -> bool)
    requires
        forall|i: int| 0 <= i < text.len() ==> keep(#[trigger] text[i]),
    ensures
        text.filter(keep) == text,
    decreases text.len(),
{
    reveal(Seq::filter);
    if text.len() > 0 {
        let rest = text.drop_last();
        assert forall|i: int| 0 <= i < rest.len() implies keep(#[trigger] rest[i]) by {
            assert(rest[i] == text[i]);
        }
        lemma_unfiltered(rest, keep);
        assert(keep(text[text.len() - 1]));
        assert(rest.push(text.last()) =~= text);
    } else {
        assert(text.filter(keep) =~= text);
    }
}

/// A printable text that is not too long is kept as it is.
pub proof fn short_words_are_kept(text: Seq<char>, max: nat)
    requires
        text.len() <= max,
        forall|i: int| 0 <= i < text.len() ==> !crate::text::is_control_char(#[trigger] text[i]),
    ensures
        coord_egress::summary(text, max) == text,
{
    lemma_unfiltered(text, |c: char| !crate::text::is_control_char(c));
}

/// A carriage that ended is on record: sent where it was acknowledged and failed where it was
/// not, at the time of the record, with what was noted of it; unless it was known to have
/// arrived before, which stands. The reply says the same, and that it can be tried again unless
/// it arrived. The feed tells of it.
pub proof fn the_end_of_a_carriage_is_on_record(
    v: StoreView,
    w: StoreView,
    order: CarryOrderView,
    carriage: CarriageView,
    wall: i64,
    r: Result<DispatchReply, Problem>,
)
    requires
        coord_dispatch::finishes(v, w, order, carriage, wall, r),
        r is Ok,
    ensures
        ({
            let key = order.record.execution_key;
            let before = v.dispatches[key];
            let after = w.dispatches[key];
            let reply = r->Ok_0@;
            &&& v.dispatches.contains_key(key) && w.dispatches.contains_key(key)
            &&& before.egress_state is Sent ==> after == before && w.events == v.events
            &&& !(before.egress_state is Sent) ==> {
                &&& (after.egress_state is Sent) <==> (carriage is Acknowledged)
                &&& (after.egress_state is Failed) <==> (carriage is Failed)
                &&& after.egress_detail == match carriage {
                    CarriageView::Acknowledged { detail } => detail,
                    CarriageView::Failed { detail } => detail,
                }
                &&& after.egress_at == Some(clock::time_now(v, wall)->Ok_0)
                &&& w.events.len() == v.events.len() + 1
                &&& w.events.last().kind is EgressRecorded
                &&& w.events.last().execution_key == Some(key)
                &&& w.events.last().dispatch_receipt == Some(before.dispatch_receipt)
                &&& w.events.last().egress_state == Some(after.egress_state)
                &&& w.events.last().recipient_root == Some(order.route.root)
                &&& w.events.last().remark == Some(after.egress_detail)
                &&& w.events.last().stage_ref == before.stage_ref
                &&& w.events.last().staged_digest == before.staged_digest
            }
            &&& after.dispatch_receipt == before.dispatch_receipt
            &&& after.receipt_id == before.receipt_id
            &&& after.stage_ref == before.stage_ref
            &&& w.receipts == v.receipts
            &&& w.stages == v.stages
            &&& reply.dispatch_receipt == before.dispatch_receipt
            &&& reply.execution_key == key
            &&& reply.consent_receipt == before.receipt_id
            &&& reply.stage_ref == before.stage_ref
            &&& reply.staged_digest == before.staged_digest
            &&& reply.payload_sha256 == order.staged.payload_sha256
            &&& reply.task_type == order.staged.task_type
            &&& reply.performer == order.staged.performer
            &&& reply.byte_length == order.staged.byte_length
            &&& reply.dispatched_at == before.dispatched_at
            &&& reply.replayed == order.replayed
            &&& reply.consent_spent
            &&& reply.status is Dispatched
            &&& reply.egress.state == after.egress_state
            &&& reply.egress.at == after.egress_at
            &&& after.egress_detail.len() > 0 ==> reply.egress.detail == after.egress_detail
            &&& (reply.egress.retryable) <==> !(after.egress_state is Sent)
        }),
{
}

/// The status of a dispatch is that of its record: its staging with what was staged there, its
/// consent, its key, and where its bytes are. Only what arrived counts as acknowledged, and
/// nothing else is verifiable of it.
pub proof fn a_status_is_that_of_the_record(v: StoreView, task_id: Seq<char>, key: Seq<char>)
    requires
        staging::answers_to(v, key, task_id),
    ensures
        ({
            let s = coord_dispatch::status_of(v, task_id, key);
            let d = v.dispatches[key];
            let row = v.stages[d.stage_ref];
            &&& d.dispatch_receipt == task_id || d.stage_ref == task_id
            &&& s.task_id == task_id
            &&& s.stage_ref == d.stage_ref
            &&& s.staged_digest == d.staged_digest
            &&& s.dispatch_receipt == d.dispatch_receipt
            &&& s.consent_receipt == d.receipt_id
            &&& s.execution_key == key
            &&& s.dispatched_at == d.dispatched_at
            &&& s.payload_sha256 == row.payload_sha256
            &&& s.byte_length == row.payload.len() as usize
            &&& s.task_type == row.task_type
            &&& s.performer == row.performer
            &&& s.status == row.status
            &&& s.egress.state == d.egress_state
            &&& s.egress.at == d.egress_at
            &&& (s.egress.retryable) <==> !(d.egress_state is Sent)
            &&& (s.verification.acknowledged) <==> (d.egress_state is Sent)
            &&& s.verification.result_manifest_digest is None
            &&& s.verification.outcome_state is None
            &&& d.egress_state is Failed ==> d.egress_detail.is_suffix_of(s.verification.detail)
            &&& d.egress_state is Pending && d.egress_detail.len() == 0 ==> s.verification.detail
                == s.egress.detail
            &&& d.egress_detail.len() > 0 ==> s.egress.detail == d.egress_detail
        }),
{
    let d = v.dispatches[key];
    let s = coord_dispatch::status_of(v, task_id, key);
    if d.egress_state is Failed {
        let all = s.verification.detail;
        assert(all.skip(all.len() - d.egress_detail.len()) =~= d.egress_detail);
        assert(d.egress_detail.is_suffix_of(all));
    }
}

/// Sender and recipient agree: what is acknowledged of a dispatch that is admitted names the
/// digest that the sender waits for, this endpoint, and the bytes.
pub proof fn an_acknowledgement_answers_the_envelope(
    e: CoordEnvelopeView,
    payload: Seq<u8>,
    sender_root: Seq<char>,
    local_root: Seq<char>,
    at: i64,
)
    requires
        coord_egress::dispatch_worth(Some(e), Some(payload), sender_root, local_root) is Ok,
    ensures
        ({
            let received = coord_egress::dispatch_worth(Some(e), Some(payload), sender_root, local_root)->Ok_0;
            let a = receive_coord::acknowledged(received, local_root, at);
            &&& a.staged_digest == e.staged_digest
            &&& a.payload_sha256 == e.payload_sha256
            &&& a.recipient_root == e.recipient_root
            &&& a.received_at == at
            &&& a.coordination == "acknowledged"@
            &&& a.protocol == "akson_byom_exchange_v1"@
            &&& received.task_type == e.task_type
            &&& received.recipient_label == e.recipient_label
            &&& received.consent_receipt == e.consent_receipt
            &&& received.sender_root == e.sender_root
            &&& received.byte_length == payload.len() as usize
        }),
{
}

/// What a received dispatch is refused for is what is wrong with it: it has no envelope; it
/// names another sender than the one who was authenticated; it is for another endpoint; its
/// bytes are missing or have another digest; or they do not give the staged digest.
pub proof fn a_refused_dispatch_is_wrong(
    e: Option<CoordEnvelopeView>,
    payload: Option<Seq<u8>>,
    sender_root: Seq<char>,
    local_root: Seq<char>,
)
    ensures
        match coord_egress::dispatch_worth(e, payload, sender_root, local_root) {
            Ok(_) => true,
            Err(CoordReject::Malformed) => e is None || payload is Some && coord::reference_of(
                payload->0,
                e->0.recipient_label,
                e->0.task_type,
            ) is None,
            Err(CoordReject::SenderMismatch) => e->0.sender_root != sender_root,
            Err(CoordReject::NotTheRecipient) => e->0.recipient_root != local_root,
            Err(CoordReject::PayloadDigest) => payload is None || e->0.payload_sha256
                != coord::sha256_hex(payload->0),
            Err(CoordReject::StagedDigest) => coord::reference_of(
                payload->0,
                e->0.recipient_label,
                e->0.task_type,
            )->0.staged_digest != e->0.staged_digest,
        },
{
}

/// A dispatch that is refused says why: a key or a reference that is none, nothing staged there,
/// no way to the recipient, no live consent for it, a spent one, or a key that names another
/// dispatch. Nothing is spent by it.
pub proof fn a_refused_dispatch_spends_nothing(
    v: StoreView,
    w: StoreView,
    local_root: Seq<char>,
    stage_ref: Seq<char>,
    consent_receipt: Seq<char>,
    execution_key: Seq<char>,
    dispatch_receipt: Seq<char>,
    wall: i64,
    valid: bool,
    r: Result<DispatchStep, Problem>,
)
    requires
        coord_dispatch::begins(
            v,
            w,
            local_root,
            stage_ref,
            consent_receipt,
            execution_key,
            dispatch_receipt,
            wall,
            valid,
            r,
        ),
        r is Err,
    ensures
        ({
            let p = r->Err_0@;
            let kind = "urn:akson:error:"@;
            let ids = coord::is_id(execution_key) && coord::is_id(stage_ref) && coord::is_id(
                consent_receipt,
            );
            let staged = v.stages.contains_key(stage_ref);
            let routed = coord_egress::route_of(v, v.stages[stage_ref].performer) is Ok;
            let receipt = v.receipts[consent_receipt];
            let known = v.receipts.contains_key(consent_receipt) && receipt.stage_ref == stage_ref;
            let ready = ids && staged && routed && valid && clock::time_now(v, wall) is Ok;
            let fresh = !v.dispatches.contains_key(execution_key);
            &&& w.receipts == v.receipts && w.dispatches == v.dispatches && w.stages == v.stages
                && w.events == v.events
            &&& !coord::is_id(execution_key) ==> p.status == 400 && p.type_ == kind + "bad-execution-key"@
            &&& ids && !staged ==> p.status == 404 && p.type_ == kind + "unknown-stage"@
            &&& ids && staged && !routed ==> p.status == 409 && p.type_
                == "urn:akson:error:unroutable-recipient"@
            &&& ids && staged && routed && !valid ==> p.status == 500 && p.type_ == kind
                + "bad-envelope"@
            &&& ready && fresh && !known ==> p.status == 409 && p.type_ == kind + "consent-required"@
            &&& ready && fresh && known && receipt.uses >= receipt.max_uses ==> p.status == 409
                && p.type_ == kind + "consent-spent"@
            &&& ready && !fresh ==> p.status == 409 && p.type_ == kind + "execution-key-conflict"@
            &&& ready && fresh && known && receipt.uses < receipt.max_uses ==> staging::feed_full(v)
        }),
{
}

/// Why nobody can be routed to is said: no recipient was named, the label means nobody, nobody was
/// introduced, whoever it is is not active, or is pinned at no usable address.
pub proof fn who_cannot_be_routed_to(v: StoreView, performer: Seq<char>)
    requires
        coord_egress::route_of(v, performer) is Err,
    ensures
        ({
            let p = coord_egress::route_of(v, performer)->Err_0;
            let found = imports::labelled(v, performer);
            let root = found->0.root_thumbprint;
            &&& p.status == 409
            &&& p.type_ == "urn:akson:error:unroutable-recipient"@
            &&& p.title == "the staged recipient cannot receive a disclosure"@
            &&& performer.len() == 0 ==> p.detail == Some(
                "this staging named no recipient, so there is nowhere to disclose it"@,
            )
            &&& performer.len() > 0 && found is None ==> p.detail == Some(
                "that recipient label no longer names an imported peer"@,
            )
            &&& performer.len() > 0 && found is Some && !v.peers.contains_key(root) ==> p.detail == Some(
                "that recipient has never been introduced, so no endpoint is pinned"@,
            )
            &&& performer.len() > 0 && found is Some && v.peers.contains_key(root)
                && !(v.peers[root].status is Active) ==> p.detail == Some(
                "that recipient is not an active peer (suspended or removed)"@,
            )
            &&& performer.len() > 0 && found is Some && v.peers.contains_key(root)
                && v.peers[root].status is Active ==> p.detail == Some(
                "that recipient's pinned endpoint is not a usable https URL"@,
            )
        }),
{
}

/// A dispatch is admitted exactly where its envelope names the sender who was authenticated and
/// this endpoint, and describes the bytes that came with it.
pub proof fn a_dispatch_is_admitted_where_it_is_right(
    e: Option<CoordEnvelopeView>,
    payload: Option<Seq<u8>>,
    sender_root: Seq<char>,
    local_root: Seq<char>,
)
    ensures
        coord_egress::dispatch_worth(e, payload, sender_root, local_root) is Ok <==> {
            let derived = coord::reference_of(payload->0, e->0.recipient_label, e->0.task_type);
            &&& e is Some
            &&& payload is Some
            &&& e->0.sender_root == sender_root
            &&& e->0.recipient_root == local_root
            &&& derived is Some
            &&& derived->0.payload_sha256 == e->0.payload_sha256
            &&& derived->0.staged_digest == e->0.staged_digest
        },
{
}

/// Whom a label, a name, a certificate or a reference means is decided by what is on record of
/// it, and nothing else.
pub proof fn what_is_on_record_decides(
    v: StoreView,
    a: Seq<char>,
    b: Seq<char>,
    k: (Seq<char>, Seq<char>),
)
    ensures
        peers::is_named(v.peers, a, b) <==> v.peers.contains_key(b)
            && v.peers[b].peer.identity.agent_id == a,
        peers::is_key_of(v.peer_keys, k, a, b) <==> v.peer_keys.contains_key(k) && v.peer_keys[k].issuer
            == a && v.peer_keys[k].agent_id == b,
        peers::first_named(v.peers, a, b) ==> v.peers.contains_key(b)
            && v.peers[b].peer.identity.agent_id == a && forall|other: Seq<char>| #[trigger]
            v.peers.contains_key(other) && v.peers[other].peer.identity.agent_id == a
                ==> crate::text::text_le(b, other),
        staging::answers_to(v, a, b) <==> v.dispatches.contains_key(a) && (
        v.dispatches[a].dispatch_receipt == b || v.dispatches[a].stage_ref == b),
        staging::is_live_receipt(v, a, b) <==> v.receipts.contains_key(a) && v.receipts[a].stage_ref == b
            && v.receipts[a].uses < v.receipts[a].max_uses,
        crate::store::attempts::is_attempt_at(v, a, b) <==> v.attempts.contains_key(a)
            && v.attempts[a].task_id == b,
        imports::holds_label(v, a, b) <==> v.imports.contains_key(a) && v.imports[a].label == Some(b),
        imports::is_live(v, a) <==> v.imports.contains_key(a) && v.imports[a].tombstoned_at is None,
{
    if peers::first_named(v.peers, a, b) {
        assert forall|other: Seq<char>| #[trigger]
            v.peers.contains_key(other) && v.peers[other].peer.identity.agent_id == a
            implies crate::text::text_le(b, other) by {
            assert(peers::is_named(v.peers, a, other));
        }
    }
}

/// What is noted of a carriage: who acknowledged it, the status and the words of a recipient that
/// did not, or the kind of problem and what it says.
pub proof fn what_is_noted_of_a_carriage(
    status: u16,
    words: Seq<char>,
    named: Option<Seq<char>>,
    root: Seq<char>,
    staged_digest: Seq<char>,
    p: ProblemView,
)
    ensures
        (coord_egress::carriage_by_answer(status, words, named, root, staged_digest)
            matches CarriageView::Acknowledged { detail } ==> detail == "acknowledged by "@ + root
            && status == 200 && named == Some(staged_digest)),
        (coord_egress::carriage_by_answer(status, words, named, root, staged_digest)
            matches CarriageView::Failed { detail } ==> if status != 200 {
            detail == "the recipient answered "@ + crate::numerals::decimal(status as int) + ": "@
                + coord_egress::summary(words, 200)
        } else {
            detail == "the recipient answered 200 without acknowledging this staged digest"@
        }),
        (coord_egress::carriage_by_problem(p) matches CarriageView::Failed { detail } && detail
            == p.type_ + ": "@ + (match p.detail {
            Some(why) => why,
            None => p.title,
        })),
{
}

/// The envelope of a message that arrived is its first part of that media type that is data, and
/// its bytes are its first part of theirs that is bytes: what the sender put there is found.
pub proof fn what_was_put_in_a_message_is_found(
    e: CoordEnvelopeView,
    payload: Seq<u8>,
    dispatch_receipt: Seq<char>,
    stage_ref: Seq<char>,
)
    ensures
        ({
            let parts = coord_egress::message_of(e, payload, dispatch_receipt, stage_ref).parts;
            &&& coord_egress::envelope_in(parts) == Some(Some(e))
            &&& coord_egress::payload_in(parts) == Some(payload)
        }),
{
    let parts = coord_egress::message_of(e, payload, dispatch_receipt, stage_ref).parts;
    assert(parts.drop_first()[0] == parts[1]);
    reveal_with_fuel(coord_egress::payload_in, 3);
    assert(parts[0].content is Data);
}

/// A part of another media type, or of another kind, is neither the envelope nor the bytes.
pub proof fn other_parts_are_passed_over(
    part: coord_egress::PartView,
    rest: Seq<coord_egress::PartView>,
)
    ensures
        part.media_type != "application/vnd.akson-dev.coord-dispatch.v1+json"@ || !(part.content is Data)
            ==> coord_egress::envelope_in(seq![part] + rest) == coord_egress::envelope_in(rest),
        part.media_type != "application/octet-stream"@ || !(part.content is Raw) ==> coord_egress::payload_in(
            seq![part] + rest,
        ) == coord_egress::payload_in(rest),
{
    assert((seq![part] + rest).drop_first() =~= rest);
}

} // verus!
