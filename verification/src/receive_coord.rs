//! Who sent a request, and taking a coordination dispatch that arrived: it passes the
//! gates once, is verified, acknowledged, and recorded with its acknowledgement.
use crate::clock::trusted_now;
use crate::clock;
use crate::control::{Problem, ProblemView};
use crate::control;
use crate::coord::COORD_PROTOCOL;
use crate::coord_egress::{
    Acknowledgement, AcknowledgementView, CoordEnvelope, CoordReject, Part, ReceivedDispatchView,
    acknowledgement, verify,
};
use crate::coord_egress;
use crate::delivery::{CoveredValues, CoveredValuesView};
use crate::identity::PeerStatus;
use crate::ingress::{Admit, Ingress, admit_request};
use crate::ingress;
use crate::receive_http::{
    HttpResponse, HttpResponseView, answer_result, problem_response, reject_to_http,
};
use crate::receive_http;
use crate::store::imports;
use crate::store::inbox;
use crate::store::{Store, StoreView};
use crate::table;
use crate::text::{chars_of, same_ignoring_case};
use crate::text;
use vstd::prelude::*;

verus! {

/// Under this class the response to a dispatch is recorded.
pub const COORDINATION_CLASS: &'static str = "coordination";

/// The purpose of the key that a sender is known by.
pub const SENDER_KEY_PURPOSE: &'static str = "contract-proposal";

/// The root of the active peer that presents a certificate, if there is one: a key of the
/// peer was kept under the fingerprint of the certificate.
pub open spec fn sender_of(v: StoreView, certificate: Seq<char>) -> Option<Seq<char>> {
    let at = (certificate, SENDER_KEY_PURPOSE@);
    if v.peer_keys.contains_key(at) {
        let root = v.peer_keys[at].root_thumbprint;
        if v.peers.contains_key(root) && v.peers[root].status is Active {
            Some(root)
        } else {
            None
        }
    } else {
        None
    }
}

/// Finds who presents a certificate. Whoever was removed has no key any more, and whoever
/// is suspended is not active: neither is found.
pub fn resolve_sender(store: &Store, certificate: &str) -> (r: Option<String>)
    requires
        store.wf(),
    ensures
        text::view_option(r) == sender_of(store@, certificate@),
{
    match store.peer_key(certificate, SENDER_KEY_PURPOSE) {
        Ok(Some(key)) => match store.peer_status_by_root(&key.root_thumbprint) {
            Ok(Some(PeerStatus::Active)) => Some(key.root_thumbprint),
            _ => None,
        },
        _ => None,
    }
}

/// What is acknowledged of a dispatch that was verified.
pub open spec fn acknowledged(
    received: ReceivedDispatchView,
    local_root: Seq<char>,
    at: i64,
) -> AcknowledgementView {
    AcknowledgementView {
        coordination: "acknowledged"@,
        protocol: COORD_PROTOCOL@,
        staged_digest: received.staged_digest,
        payload_sha256: received.payload_sha256,
        recipient_root: local_root,
        received_at: at,
    }
}

/// The one refusal of a dispatch that is not what it says. It does not tell the sender
/// which check found that out.
pub open spec fn not_admitted() -> ProblemView {
    control::problem_of(
        400,
        "coordination-refused"@,
        "the coordination dispatch was not admitted"@,
    )
}

/// What comes of a dispatch that was not seen before. One that is not what it says is
/// refused and not recorded, so that it can be sent again as it should be. Any other is
/// recorded with its acknowledgement before that leaves: `write` puts it in bytes.
pub open spec fn takes_fresh<W: Fn(&Acknowledgement) -> Vec<u8>>(
    v: StoreView,
    w: StoreView,
    covered: CoveredValuesView,
    body: Seq<u8>,
    worth: Result<ReceivedDispatchView, CoordReject>,
    local_root: Seq<char>,
    write: W,
    wall: i64,
    r: HttpResponseView,
) -> bool {
    let t = clock::timed(v, wall);
    match worth {
        Err(_) => w == v && r == receive_http::refused_with(not_admitted()),
        Ok(received) => match clock::time_now(v, wall) {
            Err(q) => w == t && r == receive_http::refused_with(q),
            Ok(now) => exists|a: Acknowledgement, bytes: Vec<u8>|
                a@ == acknowledged(received, local_root, now) && #[trigger] call_ensures(
                    write,
                    (&a,),
                    bytes,
                ) && w == inbox::with_request(
                    t,
                    covered,
                    body,
                    bytes@,
                    None,
                    COORDINATION_CLASS@,
                    now,
                ) && r == receive_http::ok_with(bytes@),
        },
    }
}

/// What comes of a dispatch, by what the gates and the inbox say of it. A repetition
/// gets the acknowledgement that was recorded.
pub open spec fn takes_admitted<W: Fn(&Acknowledgement) -> Vec<u8>>(
    a: Admit,
    v: StoreView,
    w: StoreView,
    body: Seq<u8>,
    worth: Result<ReceivedDispatchView, CoordReject>,
    local_root: Seq<char>,
    write: W,
    wall: i64,
    r: HttpResponseView,
) -> bool {
    match a {
        Admit::Accept(covered) => takes_fresh(
            v,
            w,
            covered@,
            body,
            worth,
            local_root,
            write,
            wall,
            r,
        ),
        Admit::Duplicate { response, .. } => w == v && r == receive_http::ok_with(response@),
        Admit::Conflict => w == v && r == receive_http::refused_with(
            control::problem_of(409, "conflict"@, "a covered value changed for this Message id"@),
        ),
        Admit::Rejected(_) => false,
    }
}

/// What comes of a coordination dispatch that arrived. `worth` is what it is worth to
/// this endpoint, from the peer that was authenticated.
pub open spec fn takes_dispatch<W: Fn(&Acknowledgement) -> Vec<u8>>(
    v: StoreView,
    w: StoreView,
    required: Seq<Seq<char>>,
    req: Ingress<'_>,
    worth: Result<ReceivedDispatchView, CoordReject>,
    local_root: Seq<char>,
    write: W,
    wall: i64,
    r: HttpResponseView,
) -> bool {
    if text::lowered(req.method@) != text::lowered("POST"@) {
        w == v && r == receive_http::refused_with(
            control::problem_of(405, "method-not-allowed"@, "only POST is supported"@),
        )
    } else {
        match ingress::refusal(required, req) {
            Some(reject) => w == v && r == receive_http::refused_with(
                receive_http::gate_problem(reject),
            ),
            None => exists|a: Admit|
                (forall|c: CoveredValuesView|
                    ingress::covers(c, req) ==> #[trigger] ingress::admitted(a, v, c)) && (match a {
                    Admit::Accept(covered) => ingress::covers(covered@, req),
                    _ => true,
                }) && #[trigger] takes_admitted(
                    a,
                    v,
                    w,
                    req.body@,
                    worth,
                    local_root,
                    write,
                    wall,
                    r,
                ),
        }
    }
}

fn take_fresh<W: Fn(&Acknowledgement) -> Vec<u8>>(
    store: &mut Store,
    covered: &CoveredValues,
    req: &Ingress<'_>,
    envelope: &Option<CoordEnvelope>,
    parts: &[Part],
    local_root: &str,
    write: W,
    wall: i64,
) -> (r: HttpResponse)
    requires
        old(store).wf(),
        inbox::receipt_of(old(store)@, covered@) is Fresh,
        forall|a: &Acknowledgement| #[trigger] call_requires(write, (a,)),
    ensures
        final(store).wf(),
        takes_fresh(
            old(store)@,
            final(store)@,
            covered@,
            req.body@,
            coord_egress::dispatch_worth(
                coord_egress::view_envelope(*envelope),
                coord_egress::payload_in(table::seen(parts@)),
                req.peer@,
                local_root@,
            ),
            local_root@,
            write,
            wall,
            r@,
        ),
{
    let received = match verify(envelope, parts, req.peer, local_root) {
        Ok(received) => received,
        Err(_) => {
            return problem_response(
                Problem::new(
                    400,
                    "coordination-refused",
                    "the coordination dispatch was not admitted",
                ),
            );
        },
    };
    let now = match trusted_now(store, wall) {
        Ok(now) => now,
        Err(p) => {
            return problem_response(p);
        },
    };
    let a = acknowledgement(&received, local_root, now);
    let bytes = write(&a);
    match store.receive_request(covered, req.body, &bytes, None, COORDINATION_CLASS, now) {
        Ok(_) => answer_result(Ok(bytes)),
        Err(_) => problem_response(Problem::internal()),
    }
}

/// Takes a coordination dispatch that arrived: through the gates, then verified against
/// the authenticated sender and this endpoint, then acknowledged and recorded. `write`
/// puts the acknowledgement in bytes.
pub fn take_dispatch<W: Fn(&Acknowledgement) -> Vec<u8>>(
    store: &mut Store,
    required_extensions: &[String],
    req: &Ingress<'_>,
    envelope: &Option<CoordEnvelope>,
    parts: &[Part],
    local_root: &str,
    write: W,
    wall: i64,
) -> (r: HttpResponse)
    requires
        old(store).wf(),
        forall|a: &Acknowledgement| #[trigger] call_requires(write, (a,)),
    ensures
        final(store).wf(),
        takes_dispatch(
            old(store)@,
            final(store)@,
            text::views(required_extensions@),
            *req,
            coord_egress::dispatch_worth(
                coord_egress::view_envelope(*envelope),
                coord_egress::payload_in(table::seen(parts@)),
                req.peer@,
                local_root@,
            ),
            local_root@,
            write,
            wall,
            r@,
        ),
{
    if !same_ignoring_case(&chars_of(req.method), &chars_of("POST")) {
        return problem_response(Problem::new(405, "method-not-allowed", "only POST is supported"));
    }
    let admission = match admit_request(store, required_extensions, req) {
        Ok(admission) => admission,
        Err(_) => {
            return problem_response(Problem::internal());
        },
    };
    let ghost seen = admission;
    let ghost worth = coord_egress::dispatch_worth(
        coord_egress::view_envelope(*envelope),
        coord_egress::payload_in(table::seen(parts@)),
        req.peer@,
        local_root@,
    );
    match admission {
        Admit::Accept(covered) => {
            assert(ingress::admitted(seen, store@, covered@));
            let r = take_fresh(
                store,
                &covered,
                req,
                envelope,
                parts,
                local_root,
                write,
                wall,
            );
            assert(takes_admitted(
                seen,
                old(store)@,
                store@,
                req.body@,
                worth,
                local_root@,
                write,
                wall,
                r@,
            ));
            r
        },
        Admit::Duplicate { task_id, response } => {
            let r = answer_result(Ok(response));
            assert(takes_admitted(
                seen,
                old(store)@,
                store@,
                req.body@,
                worth,
                local_root@,
                write,
                wall,
                r@,
            ));
            r
        },
        Admit::Conflict => {
            let r = problem_response(
                Problem::new(409, "conflict", "a covered value changed for this Message id"),
            );
            assert(takes_admitted(
                seen,
                old(store)@,
                store@,
                req.body@,
                worth,
                local_root@,
                write,
                wall,
                r@,
            ));
            r
        },
        Admit::Rejected(reject) => reject_to_http(&reject),
    }
}

/// A relationship that was removed sends nothing: its certificate leads to nobody.
pub proof fn whoever_was_removed_is_not_found(
    v: StoreView,
    root: Seq<char>,
    certificate: Seq<char>,
    now: i64,
)
    requires
        sender_of(v, certificate) == Some(root),
        root.len() > 0,
    ensures
        sender_of(imports::without_relationship(v, root, now), certificate) is None,
{
}

/// A dispatch that is not what it says changes nothing, whatever is wrong with it. The
/// sender is told the same for every defect: with another one in its place, the answer
/// could have been this one.
pub proof fn refused_dispatches_leave_no_trace<W: Fn(&Acknowledgement) -> Vec<u8>>(
    v: StoreView,
    w: StoreView,
    required: Seq<Seq<char>>,
    req: Ingress<'_>,
    worth: Result<ReceivedDispatchView, CoordReject>,
    other: CoordReject,
    local_root: Seq<char>,
    write: W,
    wall: i64,
    r: HttpResponseView,
)
    requires
        takes_dispatch(v, w, required, req, worth, local_root, write, wall, r),
        worth is Err,
    ensures
        w == v,
        takes_dispatch(
            v,
            w,
            required,
            req,
            Err::<ReceivedDispatchView, CoordReject>(other),
            local_root,
            write,
            wall,
            r,
        ),
{
    let swapped = Err::<ReceivedDispatchView, CoordReject>(other);
    if text::lowered(req.method@) == text::lowered("POST"@) && ingress::refusal(required, req) is None {
        let a = choose|a: Admit|
            (forall|c: CoveredValuesView|
                ingress::covers(c, req) ==> #[trigger] ingress::admitted(a, v, c)) && (match a {
                Admit::Accept(covered) => ingress::covers(covered@, req),
                _ => true,
            }) && #[trigger] takes_admitted(a, v, w, req.body@, worth, local_root, write, wall, r);
        assert(takes_admitted(a, v, w, req.body@, swapped, local_root, write, wall, r));
    }
}

} // verus!
