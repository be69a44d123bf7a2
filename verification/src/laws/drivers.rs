//! What a coordination driver learns: who this endpoint is, what is shown and claimed of a named
//! peer, and what its requests come to.
use crate::address;
use crate::control::Problem;
use crate::coord_peers::{CapabilityClaimView, EvidenceSchemasView, FactsView, FeatureReportView};
use crate::coord_peers;
use crate::coord_requests::{CoordAnswer, Surroundings};
use crate::coord_requests;
use crate::coord_stage;
use crate::endpoint::EndpointView;
use crate::numerals;
use crate::outside;
use crate::request::ControlRequest;
use crate::store::imports::PeerImportView;
use crate::store::imports;
use crate::store::peers;
use crate::store::Recovery;
use crate::store::StoreView;
use vstd::prelude::*;
use vstd::utf8::*;

verus! {

/// A handshake says who this endpoint is, and the eight operations that it answers.
pub proof fn a_handshake_says_who_this_is(
    v: StoreView,
    w: StoreView,
    me: EndpointView,
    around: Surroundings,
    valid: bool,
    r: Result<CoordAnswer, Problem>,
)
    requires
        coord_requests::answers_coordination(
            v,
            w,
            me,
            ControlRequest::CoordWhoAmI,
            around,
            valid,
            r,
        ),
    ensures
        w == v,
        r matches Ok(CoordAnswer::WhoAmI(who)) && who@.protocol == "akson_byom_exchange_v1"@
            && who@.protocol_version == 1 && who@.issuer == me.issuer && who@.agent == me.agent
            && who@.root_thumbprint == me.root && who@.interface_url == me.interface_url
            && who@.endpoint_fingerprint == "sha256:"@ + me.fingerprint && who@.features.len() == 8
            && who@.features.contains("coord_whoami"@) && who@.features.contains("peer_show"@)
            && who@.features.contains("stage"@) && who@.features.contains("stage_show"@)
            && who@.features.contains("dispatch"@) && who@.features.contains("task_status"@)
            && who@.features.contains("events_read"@) && who@.features.contains(
            "capability_evidence"@,
        ) && who@.unimplemented.len() == 0 && who@.partial.len() == 0,
{
    let f = coord_peers::coord_features();
    assert(f[0] == "coord_whoami"@ && f[1] == "peer_show"@ && f[2] == "stage"@ && f[3] == "stage_show"@
        && f[4] == "dispatch"@ && f[5] == "task_status"@ && f[6] == "events_read"@ && f[7]
        == "capability_evidence"@);
}

/// What is shown of a named peer is what is pinned under the root behind the label: each of its
/// facts, and nothing of a peer that was not introduced.
pub proof fn a_peer_is_shown_as_it_is_pinned(
    v: StoreView,
    label: Seq<char>,
    import: PeerImportView,
    i: int,
)
    ensures
        ({
            let shown = coord_peers::shown_peer(v, label, import);
            let root = import.root_thumbprint;
            let id = v.peers[root].peer.identity;
            &&& shown.label == label
            &&& shown.root_thumbprint == root
            &&& shown.verified <==> v.peers.contains_key(root)
            &&& shown.details is Some <==> v.peers.contains_key(root)
            &&& !v.peers.contains_key(root) ==> shown.status == "imported"@
            &&& v.peers.contains_key(root) ==> shown.status == v.peers[root].status.column()
            &&& (shown.details matches Some(d) ==> d.issuer == id.issuer && d.agent_id == id.agent_id
                && d.endpoint_id == id.endpoint_id && d.tls_certificate_sha256 == id.tls_cert.value
                && d.agent_card_thumbprint == id.agent_card_key.value && d.security_projection_digest
                == id.security_projection_digest.value && d.full_card_digest
                == id.full_card_digest.value && d.endpoint_hint == import.endpoint_hint
                && d.key_purposes.len() == id.key_bindings.len() && (0 <= i < id.key_bindings.len()
                ==> d.key_purposes[i] == id.key_bindings[i].purpose))
        }),
{
}

/// A peer is shown exactly where the label is one and a live relationship has it; and it is the
/// peer of that relationship that is shown.
pub proof fn a_peer_is_shown_under_its_label(
    v: StoreView,
    w: StoreView,
    me: EndpointView,
    label: String,
    around: Surroundings,
    valid: bool,
    r: Result<CoordAnswer, Problem>,
    root: Seq<char>,
)
    requires
        v.consistent(),
        coord_requests::answers_coordination(
            v,
            w,
            me,
            ControlRequest::PeerShow { label },
            around,
            valid,
            r,
        ),
        v.imports.contains_key(root),
        v.imports[root].label == Some(label@),
        address::is_label(label@),
    ensures
        w == v,
        r matches Ok(CoordAnswer::Peer(shown)) && shown@.label == label@ && shown@.root_thumbprint
            == root && (shown@.verified <==> v.peers.contains_key(root)),
{
    assert(imports::holds_label(v, root, label@));
    imports::lemma_labelled(v, root, label@);
}

/// What is claimed of a peer: under the digest of its root, in seven dimensions, each with its
/// source. Only the card and the expiry of keys are the peer's own word.
pub proof fn a_claim_says_where_it_comes_from(
    v: StoreView,
    label: Seq<char>,
    import: PeerImportView,
    report: Seq<FeatureReportView>,
    schemas: EvidenceSchemasView,
)
    ensures
        ({
            let claim: CapabilityClaimView = coord_peers::claim_of(v, label, import, report, schemas);
            let d = claim.predicate.dimensions;
            &&& claim.label == label
            &&& claim.root_thumbprint == import.root_thumbprint
            &&& claim.subject_name == "peer/"@ + label
            &&& claim.subject_sha256 == numerals::hex_of(
                outside::sha256_of(encode_utf8(import.root_thumbprint)),
            )
            &&& claim.predicate.schema_version == 1
            &&& claim.predicate.protocol == "akson_byom_exchange_v1"@
            &&& claim.predicate.label == label
            &&& claim.predicate.root_thumbprint == import.root_thumbprint
            &&& d.len() == 7
            &&& d[0].dimension == "peer_identity"@ && d[0].source is LocallyObserved
            &&& d[1].dimension == "card_claims"@ && d[1].source is PeerAsserted
            &&& d[2].dimension == "key_expiry"@ && d[2].source is PeerAsserted && d[2].state
                == "not_retained"@
            &&& d[3].dimension == "rollback_detection"@ && d[3].source is LocallyObserved
            &&& d[4].dimension == "confinement"@ && d[4].source is LocallyObserved
            &&& d[5].dimension == "budget"@ && d[5].source is LocallyObserved
            &&& d[6].dimension == "evidence_schemas"@ && d[6].source is LocallyObserved
            &&& d[6].state == (if schemas.provisional {
                "provisional_media_types"@
            } else {
                "registered"@
            })
            &&& d[6].facts == FactsView::Schemas(schemas)
        }),
{
}

/// The identity that is claimed is the one that is pinned; where none is, that is what is said.
pub proof fn the_claimed_identity_is_the_pinned_one(v: StoreView, import: PeerImportView, i: int)
    ensures
        ({
            let root = import.root_thumbprint;
            let id = v.peers[root].peer.identity;
            let known = v.peers.contains_key(root);
            let claim = coord_peers::identity_claim(v, import);
            let card = coord_peers::card_claim(v, root);
            &&& claim.state == (if known {
                "verified"@
            } else {
                "unverified"@
            })
            &&& card.state == (if known {
                "pinned"@
            } else {
                "absent"@
            })
            &&& known ==> (claim.facts matches FactsView::Identity(f) && f.root_thumbprint == root
                && f.issuer == id.issuer && f.agent_id == id.agent_id && f.endpoint_id == id.endpoint_id
                && f.tls_certificate_sha256 == id.tls_cert.value && f.agent_card_thumbprint
                == id.agent_card_key.value && f.relationship == v.peers[root].status.column() && f.epoch
                == import.epoch)
            &&& !known ==> (claim.facts matches FactsView::NotIntroduced(f) && f.root_thumbprint == root
                && f.relationship == "imported"@ && f.epoch == import.epoch)
            &&& known ==> (card.facts matches FactsView::Card(f) && f.security_projection_digest
                == id.security_projection_digest.value && f.full_card_digest
                == id.full_card_digest.value && f.key_purposes.len() == id.key_bindings.len() && (0 <= i
                < id.key_bindings.len() ==> f.key_purposes[i] == id.key_bindings[i].purpose))
        }),
{
}

/// What is claimed of rollback is how the state was found: only a checkpoint that agrees makes it
/// detectable, and only one that disagrees takes the authority away.
pub proof fn rollback_is_claimed_as_it_was_found(v: StoreView)
    ensures
        ({
            let claim = coord_peers::rollback_claim(v);
            &&& claim.state == (match v.recovery {
                Recovery::Normal => "normal"@,
                Recovery::RollbackDetectionUnavailable => "detection_unavailable"@,
                Recovery::Recovery(_) => "recovery"@,
            })
            &&& (claim.facts matches FactsView::Rollback(f) && (f.detectable <==> v.recovery is Normal)
                && (f.automatic_authority <==> !(v.recovery is Recovery)) && f.state_generation
                == v.state_generation && f.trusted_time_floor == v.trusted_time)
        }),
{
}

/// Confinement is claimed to be ready exactly where every required means of it is available; and
/// those that are missing are named.
pub proof fn confinement_is_ready_where_nothing_is_missing(report: Seq<FeatureReportView>, i: int)
    ensures
        ({
            let claim = coord_peers::confinement_claim(report);
            let missing = coord_peers::missing_features(report);
            let ready = forall|j: int|
                0 <= j < report.len() ==> (#[trigger] report[j]).available || !report[j].required;
            &&& claim.state == (if ready {
                "ready"@
            } else {
                "degraded"@
            })
            &&& (claim.facts matches FactsView::Confinement(f) && f.sandbox_ready == ready
                && f.unavailable_required == missing)
            &&& 0 <= i < report.len() && report[i].required && !report[i].available ==> missing.contains(
                report[i].feature,
            )
        }),
        forall|name: Seq<char>| #[trigger]
            coord_peers::missing_features(report).contains(name) ==> exists|j: int|
                0 <= j < report.len() && (#[trigger] report[j]).feature == name && report[j].required
                    && !report[j].available,
{
    let pred = |f: FeatureReportView| f.required && !f.available;
    let kept = report.filter(pred);
    let missing = coord_peers::missing_features(report);
    assert(missing == kept.map_values(|f: FeatureReportView| f.feature));
    broadcast use vstd::seq_lib::group_filter_ensures;

    assert forall|j: int|
        0 <= j < report.len() && (#[trigger] report[j]).required && !report[j].available implies missing.contains(
        report[j].feature,
    ) by {
        assert(pred(report[j]));
        assert(kept.contains(report[j]));
        let k = choose|k: int| 0 <= k < kept.len() && kept[k] == report[j];
        assert(missing[k] == report[j].feature);
    }
    assert forall|name: Seq<char>| #[trigger] missing.contains(name) implies exists|j: int|
        0 <= j < report.len() && (#[trigger] report[j]).feature == name && report[j].required
            && !report[j].available by {
        let k = choose|k: int| 0 <= k < missing.len() && missing[k] == name;
        assert(pred(kept[k]));
        assert(kept.contains(kept[k]));
        report.lemma_filter_contains_rev(pred, kept[k]);
        let j = choose|j: int| 0 <= j < report.len() && report[j] == kept[k];
        assert(report[j].feature == name);
    }
    if missing.len() > 0 {
        assert(missing.contains(missing[0]));
    }
}

/// The budget that is claimed is the standing approval for the root, or to be asked always; and
/// no more than 524288 bytes are staged.
pub proof fn the_claimed_budget_is_the_standing_one(v: StoreView, root: Seq<char>)
    ensures
        ({
            let claim = coord_peers::budget_claim(v, root);
            let standing = v.auto_approve.contains_key(root);
            &&& claim.state == (if standing {
                "standing_policy"@
            } else {
                "always_ask"@
            })
            &&& (claim.facts matches FactsView::Budget(f) && f.max_staged_payload_bytes == 524288
                && f.standing_approval == (if standing {
                Some(peers::policy_of(v.auto_approve[root]))
            } else {
                None
            }))
        }),
{
}

/// Reading changes nothing: only staging, a consent and a dispatch leave a trace.
pub proof fn reading_changes_nothing(
    v: StoreView,
    w: StoreView,
    me: EndpointView,
    request: ControlRequest,
    around: Surroundings,
    valid: bool,
    r: Result<CoordAnswer, Problem>,
)
    requires
        coord_requests::answers_coordination(v, w, me, request, around, valid, r),
        !(request is Stage),
        !(request is StageConsent),
        !(request is Dispatch),
    ensures
        w == v,
{
}

/// Requests of a driver are handed on as they were made: what is staged is what was asked for,
/// and a receipt is named after fresh randomness.
pub proof fn a_drivers_request_is_handed_on(
    v: StoreView,
    w: StoreView,
    me: EndpointView,
    request: ControlRequest,
    around: Surroundings,
    valid: bool,
    r: Result<CoordAnswer, Problem>,
)
    requires
        coord_requests::answers_coordination(v, w, me, request, around, valid, r),
    ensures
        (request matches ControlRequest::StageShow { stage_ref } ==> match r {
            Ok(CoordAnswer::Shown(shown)) => v.stages.contains_key(stage_ref@) && shown.staged@.stage_ref
                == stage_ref@ && shown.staged@.staged_digest == v.stages[stage_ref@].staged_digest && (
            shown.consent matches Some(c) ==> c@.stage_ref == stage_ref@ && c@.uses < c@.max_uses
                && v.receipts.contains_key(c@.receipt_id)),
            Err(p) => !v.stages.contains_key(stage_ref@) && p@.status == 404,
            _ => false,
        }),
        (request matches ControlRequest::StageConsent { stage_ref } ==> (r matches Ok(
            CoordAnswer::Consent(reply),
        ) ==> reply.receipt@.receipt_id == "consent-"@ + around.nonce@ && reply.receipt@.stage_ref
            == stage_ref@)),
        (request matches ControlRequest::EventsRead { cursor, limit } ==> (cursor is None ==> (
        r matches Ok(CoordAnswer::Events(page)) && coord_stage::is_page(page, v, 0, limit)))),
        (request matches ControlRequest::EventsRead { cursor: Some(c), limit } ==> (
        crate::coord::cursor_position(c@) is None ==> (r matches Err(p) && p@.status == 400))),
        (request matches ControlRequest::CapabilityEvidence { label } ==> (r matches Ok(
            CoordAnswer::Evidence(claim),
        ) ==> claim@.label == label@ && address::is_label(label@))),
{
}

/// What is no request of this surface is a 400, and nothing happens.
pub proof fn other_requests_are_refused(
    v: StoreView,
    w: StoreView,
    me: EndpointView,
    request: ControlRequest,
    around: Surroundings,
    valid: bool,
    r: Result<CoordAnswer, Problem>,
)
    requires
        coord_requests::answers_coordination(v, w, me, request, around, valid, r),
        !(request is CoordWhoAmI),
        !(request is PeerShow),
        !(request is Stage),
        !(request is StageShow),
        !(request is EventsRead),
        !(request is StageConsent),
        !(request is Dispatch),
        !(request is TaskStatus),
        !(request is CapabilityEvidence),
    ensures
        w == v,
        r matches Err(p) && p@.status == 400 && p@.type_ == "urn:akson:error:"@
            + "unsupported-operation"@,
{
}

} // verus!
