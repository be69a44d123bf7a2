//! Staging and consent: what can be staged, what the operator is shown of it, what a consent is
//! good for, and what the feed tells.
use crate::address;
use crate::control::Problem;
use crate::coord::StageReferenceView;
use crate::coord;
use crate::coord_card;
use crate::coord_stage::{Admitted, ConsentReply, EventsPage, StageReply};
use crate::coord_stage;
use crate::numerals;
use crate::outside;
use crate::store::imports;
use crate::store::rows::{EgressState, StageRowView, StageStatus};
use crate::store::staging::{DispatchRecordView, StagedContractView};
use crate::store::staging;
use crate::store::{CoordEventKind, CoordEventView, StoreView};
use crate::table;
use crate::text;
use vstd::prelude::*;
use vstd::utf8::*;

verus! {

/// A payload can be staged exactly where the envelope admits the task type and the recipient, a
/// named recipient is a label, and the bytes are some and no more than 524288; and what is staged
/// is those bytes.
pub proof fn a_payload_can_be_staged(
    performer: Seq<char>,
    decoded: Option<Seq<u8>>,
    admitted: Admitted,
)
    ensures
        ({
            let r = coord_stage::stageable(performer, decoded, admitted);
            let label = performer.len() == 0 || (address::is_label(performer) && admitted.recipient_label);
            let fits = decoded is Some && 1 <= decoded->0.len() <= 524288;
            &&& r is Ok <==> admitted.task_type && label && fits
            &&& (r matches Ok(payload) ==> payload == decoded->0)
            &&& !admitted.task_type ==> (r matches Err(p) && p.status == 400 && p.type_
                == "urn:akson:error:"@ + "bad-task-type"@)
            &&& admitted.task_type && !label ==> (r matches Err(p) && p.status == 404 && p.type_
                == "urn:akson:error:"@ + "unknown-peer"@)
            &&& admitted.task_type && label && decoded is Some && decoded->0.len() > 524288 ==> (
            r matches Err(p) && p.status == 413 && p.type_ == "urn:akson:error:"@ + "payload-too-large"@)
            &&& admitted.task_type && label && (decoded is None || decoded->0.len() == 0) ==> (
            r matches Err(p) && p.status == 400 && p.type_ == "urn:akson:error:"@ + "bad-payload"@)
        }),
{
}

/// The reference of what is staged follows from its content: `stage-` and 32 characters of the
/// digest of the payload's digest, the recipient and the task type.
pub proof fn a_reference_follows_from_the_content(
    payload: Seq<u8>,
    performer: Seq<char>,
    task_type: Seq<char>,
)
    ensures
        (coord::reference_of(payload, performer, task_type) matches Some(r) ==> {
            let members = coord::staged_members(r.payload_sha256, performer, task_type);
            let canonical = outside::canonical_json(members);
            &&& r.payload_sha256 == numerals::hex_of(outside::sha256_of(payload))
            &&& canonical is Some
            &&& r.staged_digest == numerals::hex_of(outside::sha256_of(canonical->0))
            &&& r.staged_digest.len() >= 32 ==> r.stage_ref == "stage-"@ + r.staged_digest.take(32)
            &&& members["payload_sha256"@] == outside::Member::Text(r.payload_sha256)
            &&& members["performer"@] == outside::Member::Text(performer)
            &&& members["task_type"@] == outside::Member::Text(task_type)
        }),
{
    reveal_strlit("payload_sha256");
    reveal_strlit("performer");
    reveal_strlit("task_type");
    assert("payload_sha256"@[1] == 'a');
    assert("performer"@[1] == 'e');
    assert("task_type"@[0] == 't');
    assert("performer"@[0] == 'p');
}

/// What is staged is on record as it was asked for, bytes and all, and the feed tells of it;
/// nothing else changes.
pub proof fn what_is_staged_is_on_record(
    v: StoreView,
    task_type: Seq<char>,
    performer: Seq<char>,
    payload: Seq<u8>,
    reference: StageReferenceView,
    now: i64,
)
    requires
        !staging::feed_full(v),
        payload.len() <= usize::MAX,
    ensures
        ({
            let row = coord_stage::content_row(task_type, performer, payload, reference, now);
            let w = staging::with_stage(v, reference.stage_ref, row);
            let at = reference.stage_ref;
            let e = w.events.last();
            &&& w.stages.contains_key(at)
            &&& w.stages[at].staged_digest == reference.staged_digest
            &&& w.stages[at].payload_sha256 == reference.payload_sha256
            &&& w.stages[at].task_type == task_type
            &&& w.stages[at].performer == performer
            &&& w.stages[at].payload == payload
            &&& w.stages[at].status == StageStatus::Staged
            &&& w.stages[at].staged_at == now
            &&& forall|other: Seq<char>| other != at ==> (#[trigger] w.stages.contains_key(other)
                <==> v.stages.contains_key(other)) && w.stages[other] == v.stages[other]
            &&& w == (StoreView { stages: w.stages, events: w.events, ..v })
            &&& w.events == v.events.push(e)
            &&& e.kind == CoordEventKind::Staged
            &&& e.stage_ref == at
            &&& e.staged_digest == reference.staged_digest
            &&& e.at == now
            &&& v.events.len() > 0 ==> e.seq == v.events.last().seq + 1
            &&& v.events.len() == 0 ==> e.seq == 1
            &&& (e.content matches Some(c) && c.payload_sha256 == reference.payload_sha256 && c.task_type
                == task_type && c.performer == performer && c.byte_length == payload.len())
            &&& e.recipient_root is None && e.consent_receipt is None && e.execution_key is None
        }),
{
}

/// What callers are shown of something staged is what is on record, and how many bytes it is.
pub proof fn a_staging_is_shown_as_it_is_kept(stage_ref: Seq<char>, row: StageRowView)
    requires
        row.payload.len() <= usize::MAX,
    ensures
        ({
            let s = staging::stage_shown(stage_ref, row);
            &&& s.stage_ref == stage_ref
            &&& s.staged_digest == row.staged_digest
            &&& s.payload_sha256 == row.payload_sha256
            &&& s.byte_length == row.payload.len()
            &&& s.task_type == row.task_type
            &&& s.performer == row.performer
            &&& s.status == row.status
            &&& s.staged_at == row.staged_at
        }),
{
}

/// Staging gives back what is staged under the reference of the content, and says truly whether
/// it was staged before. What was staged before is not written again.
pub proof fn staging_answers_with_what_is_staged(
    v: StoreView,
    w: StoreView,
    task_type: Seq<char>,
    performer: Seq<char>,
    payload: Seq<u8>,
    reference: StageReferenceView,
    wall: i64,
    r: Result<StageReply, Problem>,
)
    requires
        coord_stage::stages_content(v, w, task_type, performer, payload, reference, wall, r),
        r is Ok,
    ensures
        ({
            let at = reference.stage_ref;
            let reply = r->Ok_0;
            &&& w.stages.contains_key(at)
            &&& w.stages[at].staged_digest == reference.staged_digest
            &&& reply.staged@ == staging::stage_shown(at, w.stages[at])
            &&& reply.already_staged <==> v.stages.contains_key(at)
            &&& reply.already_staged ==> w.stages == v.stages && w.events == v.events
            &&& !reply.already_staged ==> w.stages[at].payload == payload && w.stages[at].task_type
                == task_type && w.stages[at].performer == performer && w.stages[at].status
                == StageStatus::Staged
            &&& performer.len() > 0 ==> imports::labelled(v, performer) is Some
        }),
{
}

/// A consent is for one use, of what is staged under the reference, for a dispatch and nothing
/// else; it is on record unspent, and the feed tells of it.
pub proof fn a_consent_is_for_one_dispatch(
    v: StoreView,
    receipt_id: Seq<char>,
    stage_ref: Seq<char>,
    now: i64,
)
    requires
        !staging::feed_full(v),
        v.stages.contains_key(stage_ref),
    ensures
        ({
            let w = staging::with_receipt(v, receipt_id, stage_ref, now);
            let row = w.receipts[receipt_id];
            let e = w.events.last();
            &&& w.receipts.contains_key(receipt_id)
            &&& row.stage_ref == stage_ref
            &&& row.staged_digest == v.stages[stage_ref].staged_digest
            &&& row.payload_sha256 == v.stages[stage_ref].payload_sha256
            &&& row.purpose == "coord.dispatch"@
            &&& row.max_uses == 1
            &&& row.uses == 0
            &&& row.minted_at == now
            &&& w.stages[stage_ref].status == StageStatus::Consented
            &&& w.stages[stage_ref].payload == v.stages[stage_ref].payload
            &&& w.stages[stage_ref].staged_digest == v.stages[stage_ref].staged_digest
            &&& w.stages[stage_ref].performer == v.stages[stage_ref].performer
            &&& w.stages[stage_ref].task_type == v.stages[stage_ref].task_type
            &&& forall|other: Seq<char>| other != receipt_id ==> (#[trigger] w.receipts.contains_key(other)
                <==> v.receipts.contains_key(other)) && w.receipts[other] == v.receipts[other]
            &&& w.events == v.events.push(e)
            &&& e.kind == CoordEventKind::ConsentRecorded
            &&& e.stage_ref == stage_ref
            &&& e.staged_digest == v.stages[stage_ref].staged_digest
            &&& e.consent_receipt == Some(receipt_id)
            &&& e.max_uses == Some(1u32)
            &&& e.at == now
            &&& e.content is None && e.recipient_root is None && e.dispatch_receipt is None
            &&& w == (StoreView {
                receipts: w.receipts,
                stages: w.stages,
                events: w.events,
                ..v
            })
            &&& staging::receipt_shown(receipt_id, row).receipt_id == receipt_id
            &&& staging::receipt_shown(receipt_id, row).stage_ref == stage_ref
            &&& staging::receipt_shown(receipt_id, row).staged_digest == row.staged_digest
            &&& staging::receipt_shown(receipt_id, row).payload_sha256 == row.payload_sha256
            &&& staging::receipt_shown(receipt_id, row).purpose == row.purpose
            &&& staging::receipt_shown(receipt_id, row).max_uses == 1
            &&& staging::receipt_shown(receipt_id, row).uses == 0
            &&& staging::receipt_shown(receipt_id, row).minted_at == now
        }),
{
}

/// A consent is given only for what is staged, has no unspent consent and was not dispatched: an
/// unknown reference is a 404, the other two are a 409, and then nothing changes.
pub proof fn a_consent_is_given_once(
    v: StoreView,
    w: StoreView,
    stage_ref: Seq<char>,
    receipt_id: Seq<char>,
    wall: i64,
    r: Result<ConsentReply, Problem>,
    key: Seq<char>,
    spent: Seq<char>,
)
    requires
        coord_stage::consents(v, w, stage_ref, receipt_id, wall, r),
    ensures
        !v.stages.contains_key(stage_ref) ==> w == v && (r matches Err(p) && p@.status == 404 && p@.type_
            == "urn:akson:error:"@ + "unknown-stage"@),
        v.stages.contains_key(stage_ref) && v.receipts.contains_key(spent) && v.receipts[spent].stage_ref
            == stage_ref && v.receipts[spent].uses < v.receipts[spent].max_uses ==> w == v && (
        r matches Err(p) && p@.status == 409 && p@.type_ == "urn:akson:error:"@ + "already-consented"@),
        v.stages.contains_key(stage_ref) && v.dispatches.contains_key(key) && v.dispatches[key].stage_ref
            == stage_ref ==> w == v && (r matches Err(p) && p@.status == 409),
        (r matches Ok(reply) ==> w.receipts.contains_key(receipt_id) && !v.receipts.contains_key(receipt_id)
            && reply.receipt@.receipt_id == receipt_id && reply.receipt@.stage_ref == stage_ref
            && reply.receipt@.max_uses == 1 && reply.receipt@.uses == 0 && reply.card@
            == coord_card::card_of(v, staging::stage_shown(stage_ref, v.stages[stage_ref]), None)),
{
    if v.receipts.contains_key(spent) && v.receipts[spent].stage_ref == stage_ref
        && v.receipts[spent].uses < v.receipts[spent].max_uses {
        assert(staging::is_live_receipt(v, spent, stage_ref));
    }
    if v.dispatches.contains_key(key) && v.dispatches[key].stage_ref == stage_ref {
        assert(staging::answers_to(v, key, stage_ref));
        assert(coord_stage::was_dispatched(v, stage_ref));
    }
}

/// The card says what leaves: the task type, how many bytes, their digest and the digest that is
/// consented to, and to whom.
pub proof fn a_card_says_what_leaves(
    v: StoreView,
    staged: StagedContractView,
    dispatched: Option<DispatchRecordView>,
)
    ensures
        ({
            let card = coord_card::card_of(v, staged, dispatched);
            let n = numerals::decimal(staged.byte_length as int);
            let to = if staged.performer.len() == 0 {
                "no named recipient"@
            } else {
                "your peer "@ + outside::quoted(staged.performer)
            };
            &&& card.sentence == "You are about to allow ONE outbound disclosure to "@ + to + ": "@ + n
                + " bytes of "@ + staged.task_type + "."@
            &&& card.sections.len() == 4
            &&& card.sections[0].heading == "What leaves this machine"@
            &&& card.sections[0].lines.len() == 4
            &&& card.sections[0].lines[0] == "task type:   "@ + staged.task_type
            &&& card.sections[0].lines[1] == "bytes:       "@ + n
            &&& card.sections[0].lines[2] == "payload:     sha256:"@ + staged.payload_sha256
            &&& card.sections[0].lines[3] == "staged as:   "@ + staged.staged_digest
            &&& card.sections[1].heading == "Who receives it"@
            &&& card.sections[2].heading == "What this consent allows"@
            &&& card.sections[2].lines.len() == 3
            &&& card.sections[2].lines[0]
                == "exactly one dispatch of the staged digest above, once (max_uses 1)"@
            &&& card.sections[2].lines[1]
                == "nothing else: it grants no model call, no credential, and no inbound authority"@
            &&& card.sections[2].lines[2]
                == "akson does not interpret these bytes — it discloses them as staged"@
            &&& card.sections[3].heading == "Who staged it"@
            &&& card.sections[3].lines.len() == 2
            &&& card.sections[3].lines[0] == "the coordination surface ("@ + "akson_byom_exchange_v1"@
                + "), at unix time "@ + numerals::decimal(staged.staged_at as int)
        }),
{
}

/// The card says who receives: the label, and the root, the standing and the address of the
/// relationship behind it, if there is one.
pub proof fn a_card_says_who_receives(
    v: StoreView,
    staged: StagedContractView,
    dispatched: Option<DispatchRecordView>,
    root: Seq<char>,
)
    requires
        v.consistent(),
        staged.performer.len() > 0,
        v.imports.contains_key(root),
        v.imports[root].tombstoned_at is None,
        v.imports[root].label == Some(staged.performer),
    ensures
        ({
            let lines = coord_card::card_of(v, staged, dispatched).sections[1].lines;
            let standing = if v.peers.contains_key(root) {
                v.peers[root].status.column() + " (claims the name "@ + outside::quoted(
                    v.peers[root].peer.identity.agent_id,
                ) + ")"@
            } else {
                "imported, not yet introduced"@
            };
            let hint = v.imports[root].endpoint_hint;
            &&& lines.len() == (if hint.len() > 0 {
                4int
            } else {
                3int
            })
            &&& lines[0] == "recipient label: "@ + staged.performer
            &&& lines[1] == "root thumbprint: "@ + root
            &&& lines[2] == "relationship: "@ + standing
            &&& hint.len() > 0 ==> lines[3] == "endpoint hint: "@ + hint
        }),
{
    assert(imports::holds_label(v, root, staged.performer));
    imports::lemma_labelled(v, root, staged.performer);
}

/// A card never says that nothing left where a dispatch is on record, and names the dispatch.
pub proof fn a_card_says_what_has_left(v: StoreView, staged: StagedContractView, d: DispatchRecordView)
    ensures
        coord_card::card_of(v, staged, None).sections[3].lines[1]
            == "staging was inert: nothing has left this machine yet"@,
        coord_card::card_of(v, staged, Some(d)).sections[3].lines[1] == (match d.egress_state {
            EgressState::Sent => "ALREADY DISCLOSED: dispatch "@ + d.dispatch_receipt
                + " was acknowledged by the recipient — these bytes have left this machine"@,
            EgressState::Failed => "ALREADY DISPATCHED: consent was spent on dispatch "@
                + d.dispatch_receipt + " and its carriage failed; the bytes may or may not have left"@,
            EgressState::Pending => "ALREADY DISPATCHED: consent was spent on dispatch "@
                + d.dispatch_receipt
                + " and no acknowledgement is recorded; the bytes may or may not have left"@,
        }),
{
}

/// A page has as many events as are asked for, at least one and at most 256, or 64 where nothing
/// is asked for; each is of the feed and later than where reading began.
pub proof fn a_page_is_of_the_feed(
    page: EventsPage,
    v: StoreView,
    after: i64,
    limit: Option<u32>,
    i: int,
)
    requires
        coord_stage::is_page(page, v, after, limit),
        0 <= i < page.events@.len(),
    ensures
        ({
            let asked: int = if limit is Some {
                limit->0 as int
            } else {
                64
            };
            let most: int = if asked < 1 {
                1
            } else if asked > 256 {
                256
            } else {
                asked
            };
            &&& page.events@.len() <= most
            &&& page.events@.len() < most ==> page.events@.len() == v.events.filter(
                |e: CoordEventView| e.seq > after,
            ).len()
        }),
        v.events.contains(page.events@[i].event@),
        page.events@[i].event@.seq > after,
        page.events@[i].cursor@ == coord::cursor_of(page.events@[i].event@.seq),
        page.next_cursor@ == coord::cursor_of(page.events@.last().event@.seq),
        page.has_more <==> page.events@.last().event@.seq < v.events.last().seq,
{
    let pred = |e: CoordEventView| e.seq > after;
    let rest = staging::feed_after(v.events, after);
    assert(rest == v.events.filter(pred));
    let shown = coord_stage::page_events(v, after, limit);
    let seen = table::seen(page.events@);
    assert(seen.len() == page.events@.len());
    assert(seen[i] == page.events@[i]@);
    assert(seen[i] == coord_stage::shown_events(shown)[i]);
    assert(seen.last() == page.events@.last()@);
    assert(seen.last() == coord_stage::shown_events(shown).last());
    assert(shown[i] == rest[i]);
    broadcast use vstd::seq_lib::group_filter_ensures;

    assert(pred(rest[i]));
    assert(rest.contains(rest[i]));
    v.events.lemma_filter_contains_rev(pred, rest[i]);
    assert(page.events@[i]@.event == page.events@[i].event@);
    if v.events.len() == 0 {
        assert(v.events.contains(rest[i]));
    }
}

/// A cursor is the encoding of its own words and of one position, and of no other.
pub proof fn a_cursor_names_one_position(cursor: Seq<char>, seq: i64)
    ensures
        coord::cursor_of(seq) == outside::base64url_of(
            encode_utf8("akson-coord-events-v1:"@ + numerals::decimal(seq as int)),
        ),
        coord::cursor_position(cursor) == Some(seq) ==> cursor == coord::cursor_of(seq) && seq >= 0,
{
}

/// An id of a driver is 1 to 128 characters, none of them white space or a control character.
pub proof fn an_id_is_short_and_visible(s: Seq<char>, i: int)
    requires
        coord::is_id(s),
        0 <= i < s.len(),
    ensures
        1 <= s.len() <= 128,
        s[i] != ' ' && s[i] != '\n' && s[i] != '\t' && s[i] != '\r',
        s[i] as int >= 32 && s[i] as int != 127,
{
    assert(!text::is_control_char(s[i]) && !text::is_white_space(s[i]));
}

/// Any text of 1 to 128 visible ASCII characters is an id of a driver.
pub proof fn visible_texts_are_ids(s: Seq<char>)
    requires
        1 <= s.len() <= 128,
        forall|i: int| 0 <= i < s.len() ==> 33 <= (#[trigger] s[i]) as int <= 126,
    ensures
        coord::is_id(s),
{
}

} // verus!
