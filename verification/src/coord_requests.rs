//! Answering the requests of a coordination driver, and the operator's consent.
use crate::address;
use crate::control::{Problem, ProblemView};
use crate::control;
use crate::coord::{COORD_PROTOCOL, COORD_PROTOCOL_VERSION};
use crate::coord;
use crate::coord_dispatch::{DispatchStep, TaskStatusReply, begin_dispatch, task_status};
use crate::coord_dispatch;
use crate::coord_peers::{
    CapabilityClaim, CoordWhoAmI, EvidenceSchemas, FeatureReport, PeerShown, capability_evidence,
    coord_whoami, peer_show,
};
use crate::coord_peers;
use crate::coord_egress::CoordEnvelope;
use crate::coord_stage::{
    Admitted, ConsentReply, EventsPage, StageReply, StageShown, events_read, stage, stage_consent,
    stage_show,
};
use crate::coord_stage;
use crate::endpoint::{Endpoint, EndpointView};
use crate::request::ControlRequest;
use crate::store::imports;
use crate::store::staging;
use crate::store::{Store, StoreView};
use crate::table;
use vstd::prelude::*;

verus! {

/// What a request is answered with besides the state: the wall clock, fresh
/// randomness, what was found of the means of confinement, the schemas, and what the
/// schema of the envelope says of what a request wants to stage.
pub struct Surroundings {
    pub wall: i64,
    pub nonce: String,
    pub admitted: Admitted,
    pub report: Vec<FeatureReport>,
    pub schemas: EvidenceSchemas,
}

/// An answer.
#[derive(Debug, Clone, PartialEq, Eq)]
pub enum CoordAnswer {
    WhoAmI(CoordWhoAmI),
    Peer(PeerShown),
    Staged(StageReply),
    Shown(StageShown),
    Events(EventsPage),
    Consent(ConsentReply),
    Dispatch(DispatchStep),
    Status(TaskStatusReply),
    /// A claim, to be signed.
    Evidence(CapabilityClaim),
}

/// The request is not one of this surface.
pub open spec fn not_coordination_problem() -> ProblemView {
    control::problem_of(
        400,
        "unsupported-operation"@,
        "this operation is not a coordination request"@,
    )
}

/// What comes of a coordination request. `valid` is what the schema says of the envelope
/// of a dispatch.
pub open spec fn answers_coordination(
    v: StoreView,
    w: StoreView,
    me: EndpointView,
    request: ControlRequest,
    around: Surroundings,
    valid: bool,
    r: Result<CoordAnswer, Problem>,
) -> bool {
    match request {
        ControlRequest::CoordWhoAmI => w == v && match r {
            Ok(CoordAnswer::WhoAmI(who)) => who@.root_thumbprint == me.root && who@.issuer
                == me.issuer && who@.agent == me.agent && who@.interface_url == me.interface_url
                && who@.endpoint_fingerprint == "sha256:"@ + me.fingerprint && who@.protocol
                == COORD_PROTOCOL@ && who@.protocol_version == COORD_PROTOCOL_VERSION
                && who@.features == coord_peers::coord_features() && who@.unimplemented.len() == 0
                && who@.partial.len() == 0,
            _ => false,
        },
        ControlRequest::PeerShow { label } => w == v && match r {
            Ok(CoordAnswer::Peer(shown)) => address::is_label(label@) && match imports::labelled(v, label@) {
                Some(import) => shown@ == coord_peers::shown_peer(v, label@, import),
                None => false,
            },
            Err(p) => (!address::is_label(label@) || imports::labelled(v, label@) is None) && p@
                == coord_stage::unknown_peer_problem(),
            _ => false,
        },
        ControlRequest::Stage { task_type, performer, payload_base64 } => match r {
            Ok(CoordAnswer::Staged(reply)) => coord_stage::stages(
                v,
                w,
                task_type@,
                performer@,
                payload_base64@,
                around.admitted,
                around.wall,
                Ok(reply),
            ),
            Err(p) => coord_stage::stages(
                v,
                w,
                task_type@,
                performer@,
                payload_base64@,
                around.admitted,
                around.wall,
                Err(p),
            ),
            _ => false,
        },
        ControlRequest::StageShow { stage_ref } => w == v && match r {
            Ok(CoordAnswer::Shown(shown)) => v.stages.contains_key(stage_ref@) && shown.staged@
                == staging::stage_shown(stage_ref@, v.stages[stage_ref@]) && match shown.consent {
                Some(c) => staging::is_live_receipt(v, c@.receipt_id, stage_ref@) && c@ == staging::receipt_shown(
                    c@.receipt_id,
                    v.receipts[c@.receipt_id],
                ),
                None => !staging::has_live_receipt(v, stage_ref@),
            },
            Err(p) => !v.stages.contains_key(stage_ref@) && p@ == coord_stage::unknown_stage_problem(),
            _ => false,
        },
        ControlRequest::EventsRead { cursor, limit } => w == v && match asked_position(cursor) {
            Some(after) => match r {
                Ok(CoordAnswer::Events(page)) => coord_stage::is_page(page, v, after, limit) && coord_stage::resumes(
                    page,
                    v,
                    after,
                    limit,
                ),
                _ => false,
            },
            None => match r {
                Err(p) => p@ == coord::bad_cursor(),
                Ok(_) => false,
            },
        },
        ControlRequest::StageConsent { stage_ref } => match r {
            Ok(CoordAnswer::Consent(reply)) => coord_stage::consents(
                v,
                w,
                stage_ref@,
                "consent-"@ + around.nonce@,
                around.wall,
                Ok(reply),
            ),
            Err(p) => coord_stage::consents(
                v,
                w,
                stage_ref@,
                "consent-"@ + around.nonce@,
                around.wall,
                Err(p),
            ),
            _ => false,
        },
        ControlRequest::Dispatch { stage_ref, consent_receipt, execution_key } => match r {
            Ok(CoordAnswer::Dispatch(step)) => coord_dispatch::begins(
                v,
                w,
                me.root,
                stage_ref@,
                consent_receipt@,
                execution_key@,
                "dispatch-"@ + around.nonce@,
                around.wall,
                valid,
                Ok(step),
            ),
            Err(p) => coord_dispatch::begins(
                v,
                w,
                me.root,
                stage_ref@,
                consent_receipt@,
                execution_key@,
                "dispatch-"@ + around.nonce@,
                around.wall,
                valid,
                Err(p),
            ),
            _ => false,
        },
        ControlRequest::TaskStatus { task_id } => w == v && match r {
            Ok(CoordAnswer::Status(reply)) => coord::is_id(task_id@) && staging::answers_to(
                v,
                reply@.execution_key,
                task_id@,
            ) && reply@ == coord_dispatch::status_of(v, task_id@, reply@.execution_key),
            Err(p) => p@ == coord_dispatch::unknown_task_problem() && (!coord::is_id(task_id@) || !coord_stage::was_dispatched(
                v,
                task_id@,
            )),
            _ => false,
        },
        ControlRequest::CapabilityEvidence { label } => w == v && match r {
            Ok(CoordAnswer::Evidence(claim)) => address::is_label(label@) && match imports::labelled(v, label@) {
                Some(import) => claim@ == coord_peers::claim_of(
                    v,
                    label@,
                    import,
                    table::seen(around.report@),
                    around.schemas@,
                ),
                None => false,
            },
            Err(p) => (!address::is_label(label@) || imports::labelled(v, label@) is None) && p@
                == coord_stage::unknown_peer_problem(),
            _ => false,
        },
        _ => w == v && match r {
            Err(p) => p@ == not_coordination_problem(),
            Ok(_) => false,
        },
    }
}

/// The position that events are read from; the beginning where no cursor is given,
/// and none where it is not a cursor.
pub open spec fn asked_position(cursor: Option<String>) -> Option<i64> {
    match cursor {
        None => Some(0),
        Some(c) => coord::cursor_position(c@),
    }
}

/// The schema says this of the envelope, where a request is to dispatch.
pub open spec fn schema_answers_request<V: Fn(&CoordEnvelope) -> bool>(
    v: StoreView,
    me: EndpointView,
    request: ControlRequest,
    validate: V,
    valid: bool,
) -> bool {
    match request {
        ControlRequest::Dispatch { stage_ref, consent_receipt, execution_key } => {
            coord_dispatch::schema_answers(
                v,
                me.root,
                stage_ref@,
                consent_receipt@,
                execution_key@,
                validate,
                valid,
            )
        },
        _ => true,
    }
}

/// What comes of a coordination request, by one of the two answers that the schema gives.
pub open spec fn answers_asking<V: Fn(&CoordEnvelope) -> bool>(
    v: StoreView,
    w: StoreView,
    me: EndpointView,
    request: ControlRequest,
    around: Surroundings,
    validate: V,
    r: Result<CoordAnswer, Problem>,
) -> bool {
    let answered = |valid: bool|
        schema_answers_request(v, me, request, validate, valid) && answers_coordination(
            v,
            w,
            me,
            request,
            around,
            valid,
            r,
        );
    answered(true) || answered(false)
}

/// Answers a coordination request. The surface was authorized before: who asks for
/// consent is the operator. `validate` holds the envelope of a dispatch against its
/// schema.
pub fn dispatch_coord<V: Fn(&CoordEnvelope) -> bool>(
    store: &mut Store,
    me: &Endpoint,
    request: &ControlRequest,
    around: &Surroundings,
    validate: V,
) -> (r: Result<CoordAnswer, Problem>)
    requires
        old(store).wf(),
        forall|e: &CoordEnvelope| #[trigger] call_requires(validate, (e,)),
    ensures
        final(store).wf(),
        answers_asking(old(store)@, final(store)@, me@, *request, *around, validate, r),
{
    match request {
        ControlRequest::CoordWhoAmI => Ok(CoordAnswer::WhoAmI(coord_whoami(me))),
        ControlRequest::PeerShow { label } => match peer_show(store, label) {
            Ok(shown) => Ok(CoordAnswer::Peer(shown)),
            Err(p) => Err(p),
        },
        ControlRequest::Stage { task_type, performer, payload_base64 } => match stage(
            store,
            task_type,
            performer,
            payload_base64,
            around.admitted,
            around.wall,
        ) {
            Ok(reply) => Ok(CoordAnswer::Staged(reply)),
            Err(p) => Err(p),
        },
        ControlRequest::StageShow { stage_ref } => match stage_show(store, stage_ref) {
            Ok(shown) => Ok(CoordAnswer::Shown(shown)),
            Err(p) => Err(p),
        },
        ControlRequest::EventsRead { cursor, limit } => {
            let from = match cursor {
                Some(c) => Some(c.as_str()),
                None => None,
            };
            match events_read(store, from, *limit) {
                Ok(page) => Ok(CoordAnswer::Events(page)),
                Err(p) => Err(p),
            }
        },
        ControlRequest::StageConsent { stage_ref } => match stage_consent(
            store,
            stage_ref,
            &around.nonce,
            around.wall,
        ) {
            Ok(reply) => Ok(CoordAnswer::Consent(reply)),
            Err(p) => Err(p),
        },
        ControlRequest::Dispatch { stage_ref, consent_receipt, execution_key } => match begin_dispatch(
            store,
            &me.root,
            stage_ref,
            consent_receipt,
            execution_key,
            &around.nonce,
            around.wall,
            validate,
        ) {
            Ok(step) => Ok(CoordAnswer::Dispatch(step)),
            Err(p) => Err(p),
        },
        ControlRequest::TaskStatus { task_id } => match task_status(store, task_id) {
            Ok(reply) => Ok(CoordAnswer::Status(reply)),
            Err(p) => Err(p),
        },
        ControlRequest::CapabilityEvidence { label } => match capability_evidence(
            store,
            label,
            &around.report,
            &around.schemas,
        ) {
            Ok(claim) => Ok(CoordAnswer::Evidence(claim)),
            Err(p) => Err(p),
        },
        _ => Err(
            Problem::new(
                400,
                "unsupported-operation",
                "this operation is not a coordination request",
            ),
        ),
    }
}

} // verus!
