//! Staging bytes, reading what is staged and what happened to it, and consenting to
//! a disclosure.
use crate::address::valid_label;
use crate::address;
use crate::clock::trusted_now;
use crate::clock;
use crate::control::{Problem, ProblemView};
use crate::control;
use crate::coord::{
    DEFAULT_EVENT_LIMIT, MAX_EVENT_LIMIT, MAX_STAGED_PAYLOAD_BYTES, StageReferenceView,
    decode_cursor, encode_cursor, stage_reference,
};
use crate::coord;
use crate::coord_card::{RiskCard, risk_card};
use crate::coord_card;
use crate::outside::base64_decode;
use crate::outside;
use crate::store::imports;
use crate::store::rows::{StageRowView, StageStatus};
use crate::store::staging::{
    ConsentReceipt, DispatchRecord, DispatchRecordView, NewStagedContract, StageOutcome,
    StagedContract,
};
use crate::store::staging;
use crate::store::{CoordEvent, CoordEventView, Store, StoreView};
use crate::store;
use crate::table::Record;
use crate::table;
use crate::text;
use vstd::prelude::*;
use vstd::string::*;
use vstd::utf8::*;

verus! {

/// No imported peer answers to a label. An unknown label and a malformed one are not
/// told apart.
pub open spec fn unknown_peer_problem() -> ProblemView {
    control::problem_of(404, "unknown-peer"@, "no imported peer answers to that label"@)
}

/// The problem of a label that no imported peer answers to.
pub fn unknown_peer() -> (p: Problem)
    ensures
        p@ == unknown_peer_problem(),
{
    Problem::new(404, "unknown-peer", "no imported peer answers to that label")
}

/// Nothing is staged under a reference.
pub open spec fn unknown_stage_problem() -> ProblemView {
    control::problem_of(404, "unknown-stage"@, "no staged contract has that reference"@)
}

/// The problem of a reference that nothing is staged under.
pub fn unknown_stage() -> (p: Problem)
    ensures
        p@ == unknown_stage_problem(),
{
    Problem::new(404, "unknown-stage", "no staged contract has that reference")
}

/// What came of staging: what is staged, and whether it was staged before.
#[derive(Debug, Clone, PartialEq, Eq)]
pub struct StageReply {
    pub staged: StagedContract,
    pub already_staged: bool,
}

/// What the schema of the envelope says of what is to be staged: what it refuses could
/// never leave.
#[derive(Debug, Clone, Copy, PartialEq, Eq)]
pub struct Admitted {
    /// It admits the task type.
    pub task_type: bool,
    /// It admits the label of the recipient.
    pub recipient_label: bool,
}

/// The payload that is to be staged, or why none is.
pub open spec fn stageable(
    performer: Seq<char>,
    decoded: Option<Seq<u8>>,
    admitted: Admitted,
) -> Result<Seq<u8>, ProblemView> {
    if !admitted.task_type {
        Err(
            control::problem_of(
                400,
                "bad-task-type"@,
                "task_type must be a bounded printable US-ASCII URI with no whitespace — exactly what the coordination envelope admits"@,
            ),
        )
    } else if performer.len() > 0 && !(address::is_label(performer) && admitted.recipient_label) {
        Err(unknown_peer_problem())
    } else {
        match decoded {
            None => Err(
                control::problem_of(
                    400,
                    "bad-payload"@,
                    "payload_base64 is not valid base64 (standard alphabet)"@,
                ),
            ),
            Some(payload) => if payload.len() == 0 {
                Err(control::problem_of(400, "bad-payload"@, "there are no bytes to stage"@))
            } else if payload.len() > MAX_STAGED_PAYLOAD_BYTES {
                Err(
                    control::problem_of(
                        413,
                        "payload-too-large"@,
                        "the staged payload exceeds the coordination ceiling"@,
                    ),
                )
            } else {
                Ok(payload)
            },
        }
    }
}

/// The row of content that is to be staged.
pub open spec fn content_row(
    task_type: Seq<char>,
    performer: Seq<char>,
    payload: Seq<u8>,
    reference: StageReferenceView,
    now: i64,
) -> StageRowView {
    StageRowView {
        staged_digest: reference.staged_digest,
        task_type,
        performer,
        payload_sha256: reference.payload_sha256,
        payload,
        status: StageStatus::Staged,
        staged_at: now,
    }
}

/// What comes of staging content under its reference. A recipient that is named must
/// be imported. What is staged already stays as it is.
pub open spec fn stages_content(
    v: StoreView,
    w: StoreView,
    task_type: Seq<char>,
    performer: Seq<char>,
    payload: Seq<u8>,
    reference: StageReferenceView,
    wall: i64,
    r: Result<StageReply, Problem>,
) -> bool {
    let t = clock::timed(v, wall);
    let at = reference.stage_ref;
    if performer.len() > 0 && imports::labelled(v, performer) is None {
        w == v && match r {
            Err(p) => p@ == unknown_peer_problem(),
            Ok(_) => false,
        }
    } else {
        match clock::time_now(v, wall) {
            Err(q) => w == t && match r {
                Err(p) => p@ == q,
                Ok(_) => false,
            },
            Ok(now) => {
                let row = content_row(task_type, performer, payload, reference, now);
                if v.stages.contains_key(at) && v.stages[at].staged_digest
                    == reference.staged_digest {
                    w == t && match r {
                        Ok(reply) => reply.already_staged && reply.staged@ == staging::stage_shown(
                            at,
                            v.stages[at],
                        ),
                        Err(_) => false,
                    }
                } else if v.stages.contains_key(at) || staging::digest_elsewhere(
                    v,
                    at,
                    reference.staged_digest,
                ) || staging::feed_full(v) {
                    w == t && match r {
                        Err(p) => p@ == control::internal_problem(),
                        Ok(_) => false,
                    }
                } else {
                    w == staging::with_stage(t, at, row) && match r {
                        Ok(reply) => !reply.already_staged && reply.staged@ == staging::stage_shown(at, row),
                        Err(_) => false,
                    }
                }
            },
        }
    }
}

/// What comes of staging.
pub open spec fn stages(
    v: StoreView,
    w: StoreView,
    task_type: Seq<char>,
    performer: Seq<char>,
    payload_base64: Seq<char>,
    admitted: Admitted,
    wall: i64,
    r: Result<StageReply, Problem>,
) -> bool {
    match stageable(performer, outside::base64_value(payload_base64), admitted) {
        Err(q) => w == v && match r {
            Err(p) => p@ == q,
            Ok(_) => false,
        },
        Ok(payload) => match coord::reference_of(payload, performer, task_type) {
            None => w == v && match r {
                Err(p) => p@ == control::internal_problem(),
                Ok(_) => false,
            },
            Some(reference) => stages_content(
                v,
                w,
                task_type,
                performer,
                payload,
                reference,
                wall,
                r,
            ),
        },
    }
}

/// Checks what is to be staged. `decoded` is the payload, or none where it was not
/// base64.
pub fn check_stageable(performer: &str, decoded: Option<Vec<u8>>, admitted: Admitted) -> (r: Result<
    Vec<u8>,
    Problem,
>)
    ensures
        match (r, stageable(performer@, text::view_bytes(decoded), admitted)) {
            (Ok(payload), Ok(p)) => payload@ == p,
            (Err(p), Err(q)) => p@ == q,
            _ => false,
        },
{
    if !admitted.task_type {
        return Err(
            Problem::new(
                400,
                "bad-task-type",
                "task_type must be a bounded printable US-ASCII URI with no whitespace — exactly what the coordination envelope admits",
            ),
        );
    }
    if !performer.is_empty() && !(valid_label(performer) && admitted.recipient_label) {
        return Err(unknown_peer());
    }
    let payload = match decoded {
        Some(payload) => payload,
        None => {
            return Err(
                Problem::new(
                    400,
                    "bad-payload",
                    "payload_base64 is not valid base64 (standard alphabet)",
                ),
            );
        },
    };
    if payload.len() == 0 {
        return Err(Problem::new(400, "bad-payload", "there are no bytes to stage"));
    }
    if payload.len() > MAX_STAGED_PAYLOAD_BYTES {
        return Err(
            Problem::new(
                413,
                "payload-too-large",
                "the staged payload exceeds the coordination ceiling",
            ),
        );
    }
    Ok(payload)
}

/// Stages content under its reference.
pub fn stage_content(
    store: &mut Store,
    task_type: &str,
    performer: &str,
    payload: &Vec<u8>,
    reference: &(String, String, String),
    wall: i64,
) -> (r: Result<StageReply, Problem>)
    requires
        old(store).wf(),
    ensures
        final(store).wf(),
        stages_content(
            old(store)@,
            final(store)@,
            task_type@,
            performer@,
            payload@,
            coord::named(*reference),
            wall,
            r,
        ),
{
    if !performer.is_empty() {
        match store.peer_import_by_label(performer) {
            Ok(Some(_)) => {},
            _ => {
                return Err(unknown_peer());
            },
        }
    }
    let now = match trusted_now(store, wall) {
        Ok(now) => now,
        Err(p) => {
            return Err(p);
        },
    };
    let new = NewStagedContract {
        stage_ref: &reference.0,
        staged_digest: &reference.1,
        task_type,
        performer,
        payload_sha256: &reference.2,
        payload,
    };
    match store.stage_contract(&new, now) {
        Ok(StageOutcome::Staged(staged)) => Ok(StageReply { staged, already_staged: false }),
        Ok(StageOutcome::AlreadyStaged(staged)) => Ok(StageReply { staged, already_staged: true }),
        Err(_) => Err(Problem::internal()),
    }
}

/// Stages bytes for a disclosure. The reference follows from the content, so that
/// the same content is staged once. Nothing else happens. `admitted` is what the schema
/// of the envelope says of the task type and of the recipient.
pub fn stage(
    store: &mut Store,
    task_type: &str,
    performer: &str,
    payload_base64: &str,
    admitted: Admitted,
    wall: i64,
) -> (r: Result<StageReply, Problem>)
    requires
        old(store).wf(),
    ensures
        final(store).wf(),
        stages(
            old(store)@,
            final(store)@,
            task_type@,
            performer@,
            payload_base64@,
            admitted,
            wall,
            r,
        ),
{
    let decoded = base64_decode(payload_base64);
    let payload = match check_stageable(performer, decoded, admitted) {
        Ok(payload) => payload,
        Err(p) => {
            return Err(p);
        },
    };
    let reference = match stage_reference(&payload, performer, task_type) {
        Ok(reference) => reference,
        Err(p) => {
            return Err(p);
        },
    };
    stage_content(store, task_type, performer, &payload, &reference, wall)
}

/// Something staged, with the consent that is not spent yet.
#[derive(Debug, Clone, PartialEq, Eq)]
pub struct StageShown {
    pub staged: StagedContract,
    pub consent: Option<ConsentReceipt>,
}

/// Shows what is staged under a reference.
pub fn stage_show(store: &Store, stage_ref: &str) -> (r: Result<StageShown, Problem>)
    requires
        store.wf(),
    ensures
        match r {
            Ok(shown) => store@.stages.contains_key(stage_ref@) && shown.staged@ == staging::stage_shown(
                stage_ref@,
                store@.stages[stage_ref@],
            ) && match shown.consent {
                Some(c) => staging::is_live_receipt(store@, c@.receipt_id, stage_ref@) && c@
                    == staging::receipt_shown(c@.receipt_id, store@.receipts[c@.receipt_id]),
                None => !staging::has_live_receipt(store@, stage_ref@),
            },
            Err(p) => !store@.stages.contains_key(stage_ref@) && p@ == unknown_stage_problem(),
        },
{
    let staged = match store.staged_contract(stage_ref) {
        Ok(Some(staged)) => staged,
        _ => {
            return Err(unknown_stage());
        },
    };
    let consent = match store.unconsumed_consent(stage_ref) {
        Ok(consent) => consent,
        Err(_) => {
            return Err(Problem::internal());
        },
    };
    Ok(StageShown { staged, consent })
}

/// An event, with the cursor that resumes after it.
#[derive(Debug, Clone, PartialEq, Eq)]
pub struct EventShown {
    pub cursor: String,
    pub event: CoordEvent,
}

/// The view of [`EventShown`].
#[verifier::ext_equal]
pub struct EventShownView {
    pub cursor: Seq<char>,
    pub event: CoordEventView,
}

impl View for EventShown {
    type V = EventShownView;

    open spec fn view(&self) -> EventShownView {
        EventShownView {
            cursor: self.cursor@,
            event: self.event@,
        }
    }
}

impl Record for EventShown {
    fn dup(&self) -> (r: Self) {
        let r = EventShown {
            cursor: self.cursor.clone(),
            event: self.event.dup(),
        };
        r
    }
}

/// A page of events.
#[derive(Debug, Clone, PartialEq, Eq)]
pub struct EventsPage {
    pub events: Vec<EventShown>,
    /// The cursor that resumes after the page.
    pub next_cursor: String,
    pub has_more: bool,
}

/// The limit of a page.
pub open spec fn page_limit(limit: Option<u32>) -> nat {
    let n = match limit {
        Some(n) => n,
        None => DEFAULT_EVENT_LIMIT,
    };
    if n < 1 {
        1
    } else if n > MAX_EVENT_LIMIT {
        MAX_EVENT_LIMIT as nat
    } else {
        n as nat
    }
}

/// The events of a page.
pub open spec fn page_events(v: StoreView, after: i64, limit: Option<u32>) -> Seq<CoordEventView> {
    staging::at_most(staging::feed_after(v.events, after), page_limit(limit))
}

/// The last position of a page; where it is empty, the one that it was read from.
pub open spec fn page_end(v: StoreView, after: i64, limit: Option<u32>) -> i64 {
    let events = page_events(v, after, limit);
    if events.len() == 0 {
        after
    } else {
        events.last().seq
    }
}

/// What is shown of the events of a page.
pub open spec fn shown_events(events: Seq<CoordEventView>) -> Seq<EventShownView> {
    events.map_values(
        |e: CoordEventView| EventShownView { cursor: coord::cursor_of(e.seq), event: e },
    )
}

/// A page that was read from a position.
pub open spec fn is_page(page: EventsPage, v: StoreView, after: i64, limit: Option<u32>) -> bool {
    &&& table::seen(page.events@) == shown_events(page_events(v, after, limit))
    &&& page.next_cursor@ == coord::cursor_of(page_end(v, after, limit))
    &&& page.has_more == (page_end(v, after, limit) < staging::feed_head(v))
}

/// Every cursor of a page names the position that it resumes after.
pub open spec fn resumes(page: EventsPage, v: StoreView, after: i64, limit: Option<u32>) -> bool {
    &&& coord::cursor_position(page.next_cursor@) == Some(page_end(v, after, limit))
    &&& forall|i: int|
        0 <= i < page.events@.len() ==> coord::cursor_position((#[trigger] page.events@[i]).cursor@)
            == Some(page.events@[i].event.seq)
}

/// Reads a page of events from a position.
pub fn read_page(store: &Store, after: i64, limit: Option<u32>) -> (r: EventsPage)
    requires
        store.wf(),
        after >= 0,
    ensures
        is_page(r, store@, after, limit),
        resumes(r, store@, after, limit),
{
    let asked: u32 = match limit {
        Some(n) => n,
        None => DEFAULT_EVENT_LIMIT,
    };
    let count: u32 = if asked < 1 {
        1
    } else if asked > MAX_EVENT_LIMIT {
        MAX_EVENT_LIMIT
    } else {
        asked
    };
    let events = match store.read_coord_events(after, count as usize) {
        Ok(events) => events,
        Err(_) => Vec::new(),
    };
    let head: i64 = match store.coord_events_head() {
        Ok(head) => head,
        Err(_) => 0,
    };
    let ghost all = table::seen(events@);
    proof {
        lemma_page_is_of_the_feed(store@.events, after, page_limit(limit));
    }
    let n = events.len();
    assert(all.len() == n);
    let last: i64 = if n == 0 {
        after
    } else {
        assert(all[n - 1] == events@[n - 1]@);
        events[n - 1].seq
    };
    let mut shown: Vec<EventShown> = Vec::new();
    let mut i: usize = 0;
    while i < events.len()
        invariant
            all == table::seen(events@),
            forall|j: int| 0 <= j < all.len() ==> (#[trigger] all[j]).seq > 0,
            i <= events@.len(),
            shown@.len() == i,
            forall|j: int|
                0 <= j < i ==> (#[trigger] shown@[j])@ == (EventShownView {
                    cursor: coord::cursor_of(all[j].seq),
                    event: all[j],
                }) && coord::cursor_position(shown@[j].cursor@) == Some(shown@[j].event.seq),
        decreases events@.len() - i,
    {
        assert(all[i as int] == events@[i as int]@);
        let event = events[i].dup();
        shown.push(EventShown { cursor: encode_cursor(event.seq), event });
        i = i + 1;
    }
    assert(table::seen(shown@) =~= shown_events(all));
    EventsPage { events: shown, next_cursor: encode_cursor(last), has_more: last < head }
}

proof fn lemma_page_is_of_the_feed(events: Seq<CoordEventView>, after: i64, limit: nat)
    requires
        store::numbered_upwards(events),
    ensures
        forall|i: int|
            0 <= i < staging::at_most(staging::feed_after(events, after), limit).len() ==> (#[trigger] staging::at_most(
                staging::feed_after(events, after),
                limit,
            )[i]).seq > 0,
{
    let keep = |e: CoordEventView| e.seq > after;
    let rest = staging::feed_after(events, after);
    assert forall|i: int| 0 <= i < rest.len() implies (#[trigger] rest[i]).seq > 0 by {
        assert(rest.contains(rest[i]));
        events.lemma_filter_contains_rev(keep, rest[i]);
        let j = choose|j: int| 0 <= j < events.len() && events[j] == rest[i];
        assert(events[j].seq > 0);
    }
}

/// Reads the events after a cursor, or from the beginning.
pub fn events_read(store: &Store, cursor: Option<&str>, limit: Option<u32>) -> (r: Result<
    EventsPage,
    Problem,
>)
    requires
        store.wf(),
    ensures
        match cursor {
            None => match r {
                Ok(page) => is_page(page, store@, 0, limit) && resumes(page, store@, 0, limit),
                Err(_) => false,
            },
            Some(c) => match coord::cursor_position(c@) {
                Some(after) => match r {
                    Ok(page) => is_page(page, store@, after, limit) && resumes(
                        page,
                        store@,
                        after,
                        limit,
                    ),
                    Err(_) => false,
                },
                None => match r {
                    Err(p) => p@ == coord::bad_cursor(),
                    Ok(_) => false,
                },
            },
        },
{
    let after: i64 = match cursor {
        Some(c) => match decode_cursor(c) {
            Ok(after) => {
                proof {
                    lemma_positions_are_not_negative(c@);
                }
                after
            },
            Err(p) => {
                return Err(p);
            },
        },
        None => 0,
    };
    Ok(read_page(store, after, limit))
}

proof fn lemma_positions_are_not_negative(cursor: Seq<char>)
    ensures
        match coord::cursor_position(cursor) {
            Some(after) => after >= 0,
            None => true,
        },
{
}

/// A consent to one disclosure, with the card that the operator read.
#[derive(Debug, Clone, PartialEq, Eq)]
pub struct ConsentReply {
    pub receipt: ConsentReceipt,
    pub card: RiskCard,
}

/// An unspent consent exists already.
pub open spec fn already_consented_problem() -> ProblemView {
    control::problem_of(
        409,
        "already-consented"@,
        "an unconsumed consent receipt already exists for this staged digest"@,
    )
}

/// The disclosure was dispatched already. What is left is to carry it again.
pub open spec fn already_dispatched_problem(d: DispatchRecordView) -> ProblemView {
    ProblemView {
        type_: "urn:akson:error:already-dispatched"@,
        title: "this staging has already been dispatched"@,
        status: 409,
        detail: Some(
            "consent for this staged digest was already spent under execution_key "@
                + d.execution_key + " (carriage "@ + d.egress_state.name()
                + "); re-present that execution_key to resume carriage, which spends nothing"@,
        ),
    }
}

fn already_dispatched(d: &DispatchRecord) -> (p: Problem)
    ensures
        p@ == already_dispatched_problem(d@),
{
    Problem {
        type_: "urn:akson:error:already-dispatched".to_owned(),
        title: "this staging has already been dispatched".to_owned(),
        status: 409,
        detail: Some(
            "consent for this staged digest was already spent under execution_key ".to_owned().concat(
                &d.execution_key,
            ).concat(" (carriage ").concat(d.egress_state.as_str()).concat(
                "); re-present that execution_key to resume carriage, which spends nothing",
            ),
        ),
    }
}

/// Some dispatch answers to a reference.
pub open spec fn was_dispatched(v: StoreView, stage_ref: Seq<char>) -> bool {
    exists|key: Seq<char>| #[trigger] staging::answers_to(v, key, stage_ref)
}

/// The problem is that of some dispatch that answers to a reference.
pub open spec fn tells_of_a_dispatch(v: StoreView, stage_ref: Seq<char>, p: ProblemView) -> bool {
    exists|key: Seq<char>| #[trigger]
        staging::answers_to(v, key, stage_ref) && p == already_dispatched_problem(
            staging::dispatch_shown(key, v.dispatches[key]),
        )
}

/// What comes of consenting to a disclosure. It must be staged, without a live
/// consent and not dispatched. The card is drawn of the very state that the receipt
/// is minted in.
pub open spec fn consents(
    v: StoreView,
    w: StoreView,
    stage_ref: Seq<char>,
    receipt_id: Seq<char>,
    wall: i64,
    r: Result<ConsentReply, Problem>,
) -> bool {
    let t = clock::timed(v, wall);
    if !v.stages.contains_key(stage_ref) {
        w == v && match r {
            Err(p) => p@ == unknown_stage_problem(),
            Ok(_) => false,
        }
    } else if staging::has_live_receipt(v, stage_ref) {
        w == v && match r {
            Err(p) => p@ == already_consented_problem(),
            Ok(_) => false,
        }
    } else if was_dispatched(v, stage_ref) {
        w == v && match r {
            Err(p) => tells_of_a_dispatch(v, stage_ref, p@),
            Ok(_) => false,
        }
    } else {
        match clock::time_now(v, wall) {
            Err(q) => w == t && match r {
                Err(p) => p@ == q,
                Ok(_) => false,
            },
            Ok(now) => if v.receipts.contains_key(receipt_id) || staging::feed_full(v) {
                w == t && match r {
                    Err(p) => p@ == control::internal_problem(),
                    Ok(_) => false,
                }
            } else {
                w == staging::with_receipt(t, receipt_id, stage_ref, now) && match r {
                    Ok(reply) => reply.receipt@ == staging::receipt_shown(
                        receipt_id,
                        w.receipts[receipt_id],
                    ) && reply.card@ == coord_card::card_of(
                        v,
                        staging::stage_shown(stage_ref, v.stages[stage_ref]),
                        None,
                    ),
                    Err(_) => false,
                }
            },
        }
    }
}

/// Consents to one disclosure, for the operator. The receipt is good for one
/// dispatch of the staged digest. `nonce` is fresh and random.
pub fn stage_consent(store: &mut Store, stage_ref: &str, nonce: &str, wall: i64) -> (r: Result<
    ConsentReply,
    Problem,
>)
    requires
        old(store).wf(),
    ensures
        final(store).wf(),
        consents(old(store)@, final(store)@, stage_ref@, "consent-"@ + nonce@, wall, r),
{
    let staged = match store.staged_contract(stage_ref) {
        Ok(Some(staged)) => staged,
        _ => {
            return Err(unknown_stage());
        },
    };
    match store.unconsumed_consent(stage_ref) {
        Ok(Some(c)) => {
            assert(staging::is_live_receipt(store@, c@.receipt_id, stage_ref@));
            return Err(
                Problem::new(
                    409,
                    "already-consented",
                    "an unconsumed consent receipt already exists for this staged digest",
                ),
            );
        },
        Ok(None) => {},
        Err(_) => {
            return Err(Problem::internal());
        },
    }
    match store.coord_dispatch(stage_ref) {
        Ok(Some(d)) => {
            assert(staging::answers_to(store@, d@.execution_key, stage_ref@));
            return Err(already_dispatched(&d));
        },
        Ok(None) => {},
        Err(_) => {
            return Err(Problem::internal());
        },
    }
    let ghost v = store@;
    let card = risk_card(store, &staged, None);
    let now = match trusted_now(store, wall) {
        Ok(now) => now,
        Err(p) => {
            return Err(p);
        },
    };
    let ghost t = store@;
    proof {
        assert(t == clock::timed(v, wall));
        assert forall|id: Seq<char>| #[trigger] staging::is_live_receipt(t, id, stage_ref@) implies false by {
            assert(staging::is_live_receipt(v, id, stage_ref@));
        }
    }
    let receipt_id = "consent-".to_owned().concat(nonce);
    match store.mint_consent_receipt(stage_ref, &receipt_id, now) {
        Ok(Some(receipt)) => Ok(ConsentReply { receipt, card }),
        _ => Err(Problem::internal()),
    }
}

/// Staging is idempotent: what was staged is found again under the same reference,
/// unchanged, and nothing is written.
pub proof fn staging_is_idempotent(
    v: StoreView,
    w: StoreView,
    x: StoreView,
    task_type: Seq<char>,
    performer: Seq<char>,
    payload: Seq<u8>,
    reference: StageReferenceView,
    wall: i64,
    later: i64,
    first: Result<StageReply, Problem>,
    second: Result<StageReply, Problem>,
)
    requires
        stages_content(v, w, task_type, performer, payload, reference, wall, first),
        first is Ok,
        stages_content(w, x, task_type, performer, payload, reference, later, second),
        clock::time_now(w, later) is Ok,
    ensures
        second is Ok,
        second->Ok_0.already_staged,
        second->Ok_0.staged@ == first->Ok_0.staged@,
        x == clock::timed(w, later),
{
    if performer.len() > 0 {
        assert forall|root: Seq<char>| #[trigger] imports::holds_label(w, root, performer) == imports::holds_label(
            v,
            root,
            performer,
        ) by {}
        let root = choose|root: Seq<char>| #[trigger] imports::holds_label(v, root, performer);
        assert(imports::holds_label(w, root, performer));
    }
}

/// A staging that was dispatched is not consented to again: there is one disclosure
/// of a staging.
pub proof fn a_dispatched_staging_is_not_consented_to(
    v: StoreView,
    w: StoreView,
    stage_ref: Seq<char>,
    receipt_id: Seq<char>,
    wall: i64,
    r: Result<ConsentReply, Problem>,
)
    requires
        consents(v, w, stage_ref, receipt_id, wall, r),
        was_dispatched(v, stage_ref),
    ensures
        r is Err,
        w == v,
{
}

/// No card says that nothing has left the machine where a dispatch is on record.
pub proof fn cards_do_not_hide_a_dispatch(d: DispatchRecordView)
    ensures
        coord_card::egress_claim(Some(d)) != coord_card::egress_claim(None),
{
    reveal_strlit("staging was inert: nothing has left this machine yet");
    reveal_strlit("ALREADY DISCLOSED: dispatch ");
    reveal_strlit("ALREADY DISPATCHED: consent was spent on dispatch ");
    assert(coord_card::egress_claim(None)[0] == 's');
    assert(coord_card::egress_claim(Some(d))[0] == 'A');
}

/// Reading on from the cursor of a page gives the events that follow it, none of
/// them twice and none left out.
pub proof fn reading_on_misses_nothing(v: StoreView, after: i64, limit: Option<u32>)
    requires
        v.consistent(),
    ensures
        ({
            let rest = staging::feed_after(v.events, after);
            let page = page_events(v, after, limit);
            &&& page.len() <= rest.len()
            &&& page == rest.take(page.len() as int)
            &&& staging::feed_after(v.events, page_end(v, after, limit)) == rest.skip(page.len() as int)
        }),
{
    let rest = staging::feed_after(v.events, after);
    let n = page_limit(limit);
    if rest.len() > n {
        staging::pages_follow_on(v.events, after, n);
    } else {
        assert(rest.take(rest.len() as int) =~= rest);
        if rest.len() == 0 {
            assert(rest.skip(0) =~= rest);
        } else {
            staging::lemma_nothing_follows_the_end(v.events, after);
            assert(rest.skip(rest.len() as int) =~= Seq::<CoordEventView>::empty());
        }
    }
}

} // verus!
