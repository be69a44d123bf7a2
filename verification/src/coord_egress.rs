//! Carrying a consented dispatch to its recipient, and receiving one.
//!
//! What goes out is an envelope that says what was consented to, and the staged
//! bytes. It is not a contract. The recipient trusts nothing in it: the sender must
//! be the one that the transport authenticated, the recipient must be itself, the
//! bytes must have the digest that the envelope gives, and that digest with the
//! recipient's label and the task type must give the staged digest.
use crate::address::parse_endpoint;
use crate::address;
use crate::control::{Problem, ProblemView};
use crate::control;
use crate::coord::{COORD_PROTOCOL, StageReferenceView, stage_reference};
use crate::coord;
use crate::identity::PeerStatus;
use crate::numerals::decimal_u64;
use crate::numerals;
use crate::outside::{json_text_member, lossy_text};
use crate::outside;
use crate::store::imports;
use crate::store::staging::{StagedContract, StagedContractView};
use crate::store::staging;
use crate::store::{Store, StoreView};
use crate::table::Record;
use crate::table;
use crate::text::{bytes_of, chars_of, control_char, same_text};
use crate::text;
use vstd::prelude::*;
use vstd::string::*;

verus! {

/// The media type of the part that holds the envelope.
pub const COORD_DISPATCH_MEDIA_TYPE: &'static str = "application/vnd.akson-dev.coord-dispatch.v1+json";

/// The media type of the part that holds the envelope.
pub fn coord_dispatch_media_type() -> (r: String)
    ensures
        r@ == COORD_DISPATCH_MEDIA_TYPE@,
{
    COORD_DISPATCH_MEDIA_TYPE.to_owned()
}

/// The media type of the part that holds the staged bytes. They are opaque.
pub const COORD_PAYLOAD_MEDIA_TYPE: &'static str = "application/octet-stream";

/// How much of a peer's answer is kept, in characters.
pub const MAX_SUMMARY_CHARS: usize = 200;

/// A recipient, with all that is needed to reach exactly this one.
#[derive(Debug, Clone, PartialEq, Eq)]
pub struct CoordRoute {
    /// The label that was staged for.
    pub label: String,
    /// The root of the relationship.
    pub root: String,
    /// The URL that was pinned at the introduction.
    pub endpoint: String,
    /// The certificate that was pinned at the introduction.
    pub tls_fingerprint: String,
}

/// The view of [`CoordRoute`].
#[verifier::ext_equal]
pub struct CoordRouteView {
    pub label: Seq<char>,
    pub root: Seq<char>,
    pub endpoint: Seq<char>,
    pub tls_fingerprint: Seq<char>,
}

impl View for CoordRoute {
    type V = CoordRouteView;

    open spec fn view(&self) -> CoordRouteView {
        CoordRouteView {
            label: self.label@,
            root: self.root@,
            endpoint: self.endpoint@,
            tls_fingerprint: self.tls_fingerprint@,
        }
    }
}

impl Record for CoordRoute {
    fn dup(&self) -> (r: Self) {
        let r = CoordRoute {
            label: self.label.clone(),
            root: self.root.clone(),
            endpoint: self.endpoint.clone(),
            tls_fingerprint: self.tls_fingerprint.clone(),
        };
        r
    }
}

/// What is said of a dispatch: what was staged, for whom, by whom, and the receipt of
/// the consent.
#[derive(Debug, Clone, PartialEq, Eq)]
pub struct CoordEnvelope {
    pub schema_version: u32,
    pub protocol: String,
    pub task_type: String,
    pub recipient_label: String,
    pub recipient_root: String,
    pub sender_root: String,
    pub payload_sha256: String,
    pub staged_digest: String,
    pub consent_receipt: String,
}

/// The view of [`CoordEnvelope`].
#[verifier::ext_equal]
pub struct CoordEnvelopeView {
    pub schema_version: u32,
    pub protocol: Seq<char>,
    pub task_type: Seq<char>,
    pub recipient_label: Seq<char>,
    pub recipient_root: Seq<char>,
    pub sender_root: Seq<char>,
    pub payload_sha256: Seq<char>,
    pub staged_digest: Seq<char>,
    pub consent_receipt: Seq<char>,
}

impl View for CoordEnvelope {
    type V = CoordEnvelopeView;

    open spec fn view(&self) -> CoordEnvelopeView {
        CoordEnvelopeView {
            schema_version: self.schema_version,
            protocol: self.protocol@,
            task_type: self.task_type@,
            recipient_label: self.recipient_label@,
            recipient_root: self.recipient_root@,
            sender_root: self.sender_root@,
            payload_sha256: self.payload_sha256@,
            staged_digest: self.staged_digest@,
            consent_receipt: self.consent_receipt@,
        }
    }
}

impl Record for CoordEnvelope {
    fn dup(&self) -> (r: Self) {
        let r = CoordEnvelope {
            schema_version: self.schema_version,
            protocol: self.protocol.clone(),
            task_type: self.task_type.clone(),
            recipient_label: self.recipient_label.clone(),
            recipient_root: self.recipient_root.clone(),
            sender_root: self.sender_root.clone(),
            payload_sha256: self.payload_sha256.clone(),
            staged_digest: self.staged_digest.clone(),
            consent_receipt: self.consent_receipt.clone(),
        };
        r
    }
}

/// What the schema says of an envelope: `validate` answers for it.
pub open spec fn schema_says<V: Fn(&CoordEnvelope) -> bool>(
    validate: V,
    e: CoordEnvelopeView,
    ok: bool,
) -> bool {
    exists|x: CoordEnvelope| x@ == e && #[trigger] call_ensures(validate, (&x,), ok)
}

/// Nothing can be disclosed to the staged recipient.
pub open spec fn unroutable_problem(detail: Seq<char>) -> ProblemView {
    ProblemView {
        type_: "urn:akson:error:unroutable-recipient"@,
        title: "the staged recipient cannot receive a disclosure"@,
        status: 409,
        detail: Some(detail),
    }
}

/// The route to the staged recipient: a relationship with this label, introduced,
/// active, and pinned at a usable URL; or why there is none.
pub open spec fn route_of(v: StoreView, performer: Seq<char>) -> Result<CoordRouteView, ProblemView> {
    if performer.len() == 0 {
        Err(
            unroutable_problem(
                "this staging named no recipient, so there is nowhere to disclose it"@,
            ),
        )
    } else {
        match imports::labelled(v, performer) {
            None => Err(
                unroutable_problem("that recipient label no longer names an imported peer"@),
            ),
            Some(import) => {
                let root = import.root_thumbprint;
                if !v.peers.contains_key(root) {
                    Err(
                        unroutable_problem(
                            "that recipient has never been introduced, so no endpoint is pinned"@,
                        ),
                    )
                } else if !(v.peers[root].status is Active) {
                    Err(
                        unroutable_problem(
                            "that recipient is not an active peer (suspended or removed)"@,
                        ),
                    )
                } else if address::endpoint_of(v.peers[root].peer.identity.endpoint_id) is None {
                    Err(
                        unroutable_problem(
                            "that recipient's pinned endpoint is not a usable https URL"@,
                        ),
                    )
                } else {
                    Ok(
                        CoordRouteView {
                            label: performer,
                            root,
                            endpoint: v.peers[root].peer.identity.endpoint_id,
                            tls_fingerprint: v.peers[root].peer.identity.tls_cert.value,
                        },
                    )
                }
            },
        }
    }
}

fn unroutable(detail: &str) -> (p: Problem)
    ensures
        p@ == unroutable_problem(detail@),
{
    Problem {
        type_: "urn:akson:error:unroutable-recipient".to_owned(),
        title: "the staged recipient cannot receive a disclosure".to_owned(),
        status: 409,
        detail: Some(detail.to_owned()),
    }
}

/// Finds the route to the staged recipient. It is asked for before a consent is
/// spent.
pub fn resolve_route(store: &Store, staged: &StagedContract) -> (r: Result<CoordRoute, Problem>)
    requires
        store.wf(),
    ensures
        match r {
            Ok(route) => route_of(store@, staged@.performer) == Ok::<CoordRouteView, ProblemView>(
                route@,
            ),
            Err(p) => route_of(store@, staged@.performer) == Err::<CoordRouteView, ProblemView>(p@),
        },
{
    if staged.performer.as_str().is_empty() {
        return Err(
            unroutable("this staging named no recipient, so there is nowhere to disclose it"),
        );
    }
    let import = match store.peer_import_by_label(&staged.performer) {
        Ok(Some(import)) => import,
        _ => {
            return Err(unroutable("that recipient label no longer names an imported peer"));
        },
    };
    let peer = match store.get_peer_by_root(&import.root_thumbprint) {
        Ok(Some(peer)) => peer,
        _ => {
            return Err(
                unroutable("that recipient has never been introduced, so no endpoint is pinned"),
            );
        },
    };
    match store.peer_status_by_root(&import.root_thumbprint) {
        Ok(Some(PeerStatus::Active)) => {},
        _ => {
            return Err(unroutable("that recipient is not an active peer (suspended or removed)"));
        },
    }
    if parse_endpoint(&peer.identity.endpoint_id).is_none() {
        return Err(unroutable("that recipient's pinned endpoint is not a usable https URL"));
    }
    Ok(
        CoordRoute {
            label: staged.performer.clone(),
            root: import.root_thumbprint,
            endpoint: peer.identity.endpoint_id,
            tls_fingerprint: peer.identity.tls_cert.value,
        },
    )
}

/// The envelope of a dispatch.
pub open spec fn envelope_of(
    staged: StagedContractView,
    route: CoordRouteView,
    sender_root: Seq<char>,
    consent_receipt: Seq<char>,
) -> CoordEnvelopeView {
    CoordEnvelopeView {
        schema_version: 1,
        protocol: COORD_PROTOCOL@,
        task_type: staged.task_type,
        recipient_label: route.label,
        recipient_root: route.root,
        sender_root,
        payload_sha256: staged.payload_sha256,
        staged_digest: staged.staged_digest,
        consent_receipt,
    }
}

/// The schema refuses the envelope.
pub open spec fn bad_envelope() -> ProblemView {
    control::problem_of(
        500,
        "bad-envelope"@,
        "the coordination envelope does not conform to its own schema"@,
    )
}

/// Builds the envelope of a dispatch. One that its schema refuses is not given out:
/// `validate` holds an envelope against the schema.
pub fn envelope<V: Fn(&CoordEnvelope) -> bool>(
    staged: &StagedContract,
    route: &CoordRoute,
    sender_root: &str,
    consent_receipt: &str,
    validate: V,
) -> (r: Result<CoordEnvelope, Problem>)
    requires
        forall|e: &CoordEnvelope| #[trigger] call_requires(validate, (e,)),
    ensures
        schema_says(
            validate,
            envelope_of(staged@, route@, sender_root@, consent_receipt@),
            r is Ok,
        ),
        match r {
            Ok(e) => e@ == envelope_of(staged@, route@, sender_root@, consent_receipt@),
            Err(p) => p@ == bad_envelope(),
        },
{
    let e = CoordEnvelope {
        schema_version: 1,
        protocol: COORD_PROTOCOL.to_owned(),
        task_type: staged.task_type.clone(),
        recipient_label: route.label.clone(),
        recipient_root: route.root.clone(),
        sender_root: sender_root.to_owned(),
        payload_sha256: staged.payload_sha256.clone(),
        staged_digest: staged.staged_digest.clone(),
        consent_receipt: consent_receipt.to_owned(),
    };
    let ok = validate(&e);
    if ok {
        Ok(e)
    } else {
        Err(
            Problem::new(
                500,
                "bad-envelope",
                "the coordination envelope does not conform to its own schema",
            ),
        )
    }
}

/// What a part of a message holds.
#[derive(Debug, Clone, PartialEq, Eq)]
pub enum PartContent {
    /// Data: an envelope that its schema admits, or none where it refuses the data.
    Data(Option<CoordEnvelope>),
    /// Bytes.
    Raw(Vec<u8>),
    /// Anything else.
    Other,
}

/// The view of [`PartContent`].
pub enum PartContentView {
    Data(Option<CoordEnvelopeView>),
    Raw(Seq<u8>),
    Other,
}

impl View for PartContent {
    type V = PartContentView;

    open spec fn view(&self) -> PartContentView {
        match self {
            PartContent::Data(Some(e)) => PartContentView::Data(Some(e@)),
            PartContent::Data(None) => PartContentView::Data(None),
            PartContent::Raw(bytes) => PartContentView::Raw(bytes@),
            PartContent::Other => PartContentView::Other,
        }
    }
}

/// One part of a message.
#[derive(Debug, Clone, PartialEq, Eq)]
pub struct Part {
    pub filename: String,
    pub media_type: String,
    pub content: PartContent,
}

/// The view of [`Part`].
pub struct PartView {
    pub filename: Seq<char>,
    pub media_type: Seq<char>,
    pub content: PartContentView,
}

impl View for Part {
    type V = PartView;

    open spec fn view(&self) -> PartView {
        PartView {
            filename: self.filename@,
            media_type: self.media_type@,
            content: self.content@,
        }
    }
}

/// A message: its id, its context and its parts.
#[derive(Debug, Clone, PartialEq, Eq)]
pub struct Message {
    pub message_id: String,
    pub context_id: String,
    pub parts: Vec<Part>,
}

/// The view of [`Message`].
pub struct MessageView {
    pub message_id: Seq<char>,
    pub context_id: Seq<char>,
    pub parts: Seq<PartView>,
}

impl View for Message {
    type V = MessageView;

    open spec fn view(&self) -> MessageView {
        MessageView {
            message_id: self.message_id@,
            context_id: self.context_id@,
            parts: table::seen(self.parts@),
        }
    }
}

/// The message of a dispatch: the envelope, then the bytes under the name of their
/// digest. Its id is the dispatch receipt, so that carried twice it is one message.
pub open spec fn message_of(
    e: CoordEnvelopeView,
    payload: Seq<u8>,
    dispatch_receipt: Seq<char>,
    stage_ref: Seq<char>,
) -> MessageView {
    MessageView {
        message_id: dispatch_receipt,
        context_id: stage_ref,
        parts: seq![
            PartView {
                filename: Seq::empty(),
                media_type: COORD_DISPATCH_MEDIA_TYPE@,
                content: PartContentView::Data(Some(e)),
            },
            PartView {
                filename: e.payload_sha256,
                media_type: COORD_PAYLOAD_MEDIA_TYPE@,
                content: PartContentView::Raw(payload),
            },
        ],
    }
}

/// Builds the message of a dispatch.
pub fn message_body(
    envelope: &CoordEnvelope,
    payload: &[u8],
    dispatch_receipt: &str,
    stage_ref: &str,
) -> (r: Message)
    ensures
        r@ == message_of(envelope@, payload@, dispatch_receipt@, stage_ref@),
{
    let none = String::new();
    assert(none@ =~= Seq::<char>::empty());
    let first = Part {
        filename: none,
        media_type: COORD_DISPATCH_MEDIA_TYPE.to_owned(),
        content: PartContent::Data(Some(envelope.dup())),
    };
    let second = Part {
        filename: envelope.payload_sha256.clone(),
        media_type: COORD_PAYLOAD_MEDIA_TYPE.to_owned(),
        content: PartContent::Raw(bytes_of(payload)),
    };
    let ghost a = first@;
    let ghost b = second@;
    let mut parts: Vec<Part> = Vec::new();
    parts.push(first);
    parts.push(second);
    assert(table::seen(parts@) =~= seq![a, b]);
    Message {
        message_id: dispatch_receipt.to_owned(),
        context_id: stage_ref.to_owned(),
        parts,
    }
}

/// How an attempt to carry a dispatch ended.
#[derive(Debug, Clone, PartialEq, Eq)]
pub enum Carriage {
    /// The recipient named the staged digest that it received.
    Acknowledged { detail: String },
    /// It did not. The consent stays spent, and the dispatch can be carried again.
    Failed { detail: String },
}

/// The view of [`Carriage`].
pub enum CarriageView {
    Acknowledged { detail: Seq<char> },
    Failed { detail: Seq<char> },
}

impl View for Carriage {
    type V = CarriageView;

    open spec fn view(&self) -> CarriageView {
        match self {
            Carriage::Acknowledged { detail } => CarriageView::Acknowledged { detail: detail@ },
            Carriage::Failed { detail } => CarriageView::Failed { detail: detail@ },
        }
    }
}

/// The printable characters of a text, up to a number.
pub open spec fn summary(text: Seq<char>, max: nat) -> Seq<char> {
    staging::at_most(text.filter(|c: char| !text::is_control_char(c)), max)
}

/// The first printable characters of a text. A peer must not write control
/// characters to a terminal, nor without bound to a record.
pub fn summarize(text: &str, max: usize) -> (r: String)
    ensures
        r@ == summary(text@, max as nat),
{
    let v = chars_of(text);
    let ghost keep = |c: char| !text::is_control_char(c);
    let mut r = String::new();
    let mut count: usize = 0;
    let mut i: usize = 0;
    proof {
        reveal(Seq::filter);
        assert(r@ =~= Seq::<char>::empty());
        assert(v@.take(0).filter(keep) =~= Seq::<char>::empty());
    }
    while i < v.len()
        invariant
            v@ == text@,
            keep == (|c: char| !text::is_control_char(c)),
            i <= v@.len(),
            count == r@.len(),
            count <= max,
            r@ == staging::at_most(v@.take(i as int).filter(keep), max as nat),
        decreases v@.len() - i,
    {
        let ghost had = v@.take(i as int).filter(keep);
        proof {
            reveal(Seq::filter);
            assert(v@.take(i + 1).drop_last() =~= v@.take(i as int));
            assert(v@.take(i + 1).last() == v@[i as int]);
        }
        if !control_char(v[i]) {
            proof {
                let more = v@.take(i + 1).filter(keep);
                assert(more =~= had.push(v@[i as int]));
                if had.len() >= max {
                    assert(more.take(max as int) =~= had.take(max as int));
                    if had.len() == max {
                        assert(had.take(max as int) =~= had);
                    }
                }
            }
            if count < max {
                r.push(v[i]);
                count = count + 1;
            }
        }
        i = i + 1;
    }
    assert(v@.take(i as int) =~= v@);
    r
}

/// How a carriage that got an answer ended: the recipient must answer with success
/// and name the very digest that was sent.
pub open spec fn carriage_by_answer(
    status: u16,
    text: Seq<char>,
    named_digest: Option<Seq<char>>,
    root: Seq<char>,
    staged_digest: Seq<char>,
) -> CarriageView {
    if status != 200 {
        CarriageView::Failed {
            detail: "the recipient answered "@ + numerals::decimal(status as int) + ": "@ + summary(
                text,
                MAX_SUMMARY_CHARS as nat,
            ),
        }
    } else if named_digest == Some(staged_digest) {
        CarriageView::Acknowledged { detail: "acknowledged by "@ + root }
    } else {
        CarriageView::Failed {
            detail: "the recipient answered 200 without acknowledging this staged digest"@,
        }
    }
}

/// How a carriage that got no answer ended.
pub open spec fn carriage_by_problem(p: ProblemView) -> CarriageView {
    CarriageView::Failed {
        detail: p.type_ + ": "@ + match p.detail {
            Some(detail) => detail,
            None => p.title,
        },
    }
}

/// Judges the answer of a recipient. `text` is the answer as text, and
/// `named_digest` the staged digest that it names.
pub fn judge_answer(
    status: u16,
    text: &str,
    named_digest: Option<String>,
    root: &str,
    staged_digest: &str,
) -> (r: Carriage)
    ensures
        r@ == carriage_by_answer(
            status,
            text@,
            text::view_option(named_digest),
            root@,
            staged_digest@,
        ),
{
    if status != 200 {
        let number = decimal_u64(status as u64);
        let rest = summarize(text, MAX_SUMMARY_CHARS);
        return Carriage::Failed {
            detail: "the recipient answered ".to_owned().concat(&number).concat(": ").concat(&rest),
        };
    }
    let acknowledged = match &named_digest {
        Some(d) => same_text(d, staged_digest),
        None => false,
    };
    if acknowledged {
        Carriage::Acknowledged { detail: "acknowledged by ".to_owned().concat(root) }
    } else {
        Carriage::Failed {
            detail: "the recipient answered 200 without acknowledging this staged digest".to_owned(),
        }
    }
}

/// How a carriage ended, given what the attempt came back with: an answer with its
/// status and body, or a problem on the way.
pub open spec fn carriage_of(
    answer: Result<(u16, Vec<u8>), Problem>,
    root: Seq<char>,
    staged_digest: Seq<char>,
) -> CarriageView {
    match answer {
        Ok((status, body)) => carriage_by_answer(
            status,
            outside::lossy_utf8_of(body@),
            outside::json_text_of(body@, "staged_digest"@),
            root,
            staged_digest,
        ),
        Err(p) => carriage_by_problem(p@),
    }
}

/// Judges what an attempt to carry a dispatch came back with.
pub fn judge_carriage(answer: &Result<(u16, Vec<u8>), Problem>, root: &str, staged_digest: &str) -> (r:
    Carriage)
    ensures
        r@ == carriage_of(*answer, root@, staged_digest@),
{
    match answer {
        Ok((status, body)) => {
            let text = lossy_text(body);
            let named_digest = json_text_member(body, "staged_digest");
            judge_answer(*status, &text, named_digest, root, staged_digest)
        },
        Err(p) => {
            let rest = match &p.detail {
                Some(detail) => detail.clone(),
                None => p.title.clone(),
            };
            Carriage::Failed { detail: p.type_.clone().concat(": ").concat(&rest) }
        },
    }
}

/// A received dispatch, after every check.
#[derive(Debug, Clone, PartialEq, Eq)]
pub struct ReceivedDispatch {
    pub staged_digest: String,
    pub payload_sha256: String,
    pub task_type: String,
    pub recipient_label: String,
    pub sender_root: String,
    pub consent_receipt: String,
    pub byte_length: usize,
}

/// The view of [`ReceivedDispatch`].
#[verifier::ext_equal]
pub struct ReceivedDispatchView {
    pub staged_digest: Seq<char>,
    pub payload_sha256: Seq<char>,
    pub task_type: Seq<char>,
    pub recipient_label: Seq<char>,
    pub sender_root: Seq<char>,
    pub consent_receipt: Seq<char>,
    pub byte_length: usize,
}

impl View for ReceivedDispatch {
    type V = ReceivedDispatchView;

    open spec fn view(&self) -> ReceivedDispatchView {
        ReceivedDispatchView {
            staged_digest: self.staged_digest@,
            payload_sha256: self.payload_sha256@,
            task_type: self.task_type@,
            recipient_label: self.recipient_label@,
            sender_root: self.sender_root@,
            consent_receipt: self.consent_receipt@,
            byte_length: self.byte_length,
        }
    }
}

impl Record for ReceivedDispatch {
    fn dup(&self) -> (r: Self) {
        let r = ReceivedDispatch {
            staged_digest: self.staged_digest.clone(),
            payload_sha256: self.payload_sha256.clone(),
            task_type: self.task_type.clone(),
            recipient_label: self.recipient_label.clone(),
            sender_root: self.sender_root.clone(),
            consent_receipt: self.consent_receipt.clone(),
            byte_length: self.byte_length,
        };
        r
    }
}

/// Why a received dispatch is refused.
#[derive(Debug, Clone, Copy, PartialEq, Eq, Structural)]
pub enum CoordReject {
    /// The envelope is not of its shape.
    Malformed,
    /// The sender is not the one that the transport authenticated.
    SenderMismatch,
    /// The recipient is another endpoint.
    NotTheRecipient,
    /// There are no bytes, or they have another digest.
    PayloadDigest,
    /// The bytes do not give the staged digest.
    StagedDigest,
}

impl CoordReject {
    /// The name of a reason.
    pub open spec fn name(self) -> Seq<char> {
        match self {
            CoordReject::Malformed => "malformed-envelope"@,
            CoordReject::SenderMismatch => "sender-mismatch"@,
            CoordReject::NotTheRecipient => "not-the-recipient"@,
            CoordReject::PayloadDigest => "payload-digest"@,
            CoordReject::StagedDigest => "staged-digest"@,
        }
    }

    /// The name of this reason.
    pub fn reason(self) -> (r: &'static str)
        ensures
            r@ == self.name(),
    {
        match self {
            CoordReject::Malformed => "malformed-envelope",
            CoordReject::SenderMismatch => "sender-mismatch",
            CoordReject::NotTheRecipient => "not-the-recipient",
            CoordReject::PayloadDigest => "payload-digest",
            CoordReject::StagedDigest => "staged-digest",
        }
    }
}

/// The part is an envelope, or data in its place.
pub open spec fn is_envelope_part(p: PartView) -> bool {
    p.media_type == COORD_DISPATCH_MEDIA_TYPE@ && p.content is Data
}

/// The part holds the bytes of a dispatch.
pub open spec fn is_payload_part(p: PartView) -> bool {
    p.media_type == COORD_PAYLOAD_MEDIA_TYPE@ && p.content is Raw
}

/// The first envelope among the parts of a message, if it is a dispatch.
pub open spec fn envelope_in(parts: Seq<PartView>) -> Option<Option<CoordEnvelopeView>>
    decreases parts.len(),
{
    if parts.len() == 0 {
        None
    } else if is_envelope_part(parts[0]) {
        Some(parts[0].content->Data_0)
    } else {
        envelope_in(parts.drop_first())
    }
}

/// The first bytes among the parts of a message.
pub open spec fn payload_in(parts: Seq<PartView>) -> Option<Seq<u8>>
    decreases parts.len(),
{
    if parts.len() == 0 {
        None
    } else if is_payload_part(parts[0]) {
        Some(parts[0].content->Raw_0)
    } else {
        payload_in(parts.drop_first())
    }
}

/// The view of the data of an envelope part.
pub open spec fn view_envelope(e: Option<CoordEnvelope>) -> Option<CoordEnvelopeView> {
    match e {
        Some(e) => Some(e@),
        None => None,
    }
}

/// The envelope of a message, if the message is a dispatch. Nothing in it is trusted
/// yet.
pub fn coord_dispatch_envelope(parts: &[Part]) -> (r: Option<&Option<CoordEnvelope>>)
    ensures
        match r {
            Some(e) => envelope_in(table::seen(parts@)) == Some(view_envelope(*e)),
            None => envelope_in(table::seen(parts@)) is None,
        },
{
    let ghost all = table::seen(parts@);
    let mut i: usize = 0;
    assert(all.skip(0) =~= all);
    while i < parts.len()
        invariant
            all == table::seen(parts@),
            i <= all.len(),
            envelope_in(all) == envelope_in(all.skip(i as int)),
        decreases all.len() - i,
    {
        proof {
            assert(all[i as int] == parts@[i as int]@);
            assert(all.skip(i as int).drop_first() =~= all.skip(i + 1));
        }
        if same_text(&parts[i].media_type, COORD_DISPATCH_MEDIA_TYPE) {
            match &parts[i].content {
                PartContent::Data(e) => {
                    return Some(e);
                },
                _ => {},
            }
        }
        i = i + 1;
    }
    None
}

/// The bytes that a message carries.
fn coord_payload(parts: &[Part]) -> (r: Option<&Vec<u8>>)
    ensures
        match r {
            Some(bytes) => payload_in(table::seen(parts@)) == Some(bytes@),
            None => payload_in(table::seen(parts@)) is None,
        },
{
    let ghost all = table::seen(parts@);
    let mut i: usize = 0;
    assert(all.skip(0) =~= all);
    while i < parts.len()
        invariant
            all == table::seen(parts@),
            i <= all.len(),
            payload_in(all) == payload_in(all.skip(i as int)),
        decreases all.len() - i,
    {
        proof {
            assert(all[i as int] == parts@[i as int]@);
            assert(all.skip(i as int).drop_first() =~= all.skip(i + 1));
        }
        if same_text(&parts[i].media_type, COORD_PAYLOAD_MEDIA_TYPE) {
            match &parts[i].content {
                PartContent::Raw(bytes) => {
                    return Some(bytes);
                },
                _ => {},
            }
        }
        i = i + 1;
    }
    None
}

/// What a received dispatch is worth, given the reference that its bytes, its label
/// and its task type come to.
pub open spec fn dispatch_judged(
    e: CoordEnvelopeView,
    payload: Seq<u8>,
    derived: Option<StageReferenceView>,
) -> Result<ReceivedDispatchView, CoordReject> {
    match derived {
        None => Err(CoordReject::Malformed),
        Some(derived) => if derived.payload_sha256 != e.payload_sha256 {
            Err(CoordReject::PayloadDigest)
        } else if derived.staged_digest != e.staged_digest {
            Err(CoordReject::StagedDigest)
        } else {
            Ok(
                ReceivedDispatchView {
                    staged_digest: e.staged_digest,
                    payload_sha256: e.payload_sha256,
                    task_type: e.task_type,
                    recipient_label: e.recipient_label,
                    sender_root: e.sender_root,
                    consent_receipt: e.consent_receipt,
                    byte_length: payload.len() as usize,
                },
            )
        },
    }
}

/// What a received dispatch is worth: its schema must admit its envelope, which must name the
/// authenticated sender and this endpoint, and describe the bytes that came with it.
pub open spec fn dispatch_worth(
    e: Option<CoordEnvelopeView>,
    payload: Option<Seq<u8>>,
    sender_root: Seq<char>,
    local_root: Seq<char>,
) -> Result<ReceivedDispatchView, CoordReject> {
    match e {
        None => Err(CoordReject::Malformed),
        Some(e) => if e.sender_root != sender_root {
            Err(CoordReject::SenderMismatch)
        } else if e.recipient_root != local_root {
            Err(CoordReject::NotTheRecipient)
        } else {
            match payload {
                None => Err(CoordReject::PayloadDigest),
                Some(payload) => dispatch_judged(
                    e,
                    payload,
                    coord::reference_of(payload, e.recipient_label, e.task_type),
                ),
            }
        },
    }
}

/// A result of a check and the result that is stated say the same.
pub open spec fn says(
    r: Result<ReceivedDispatch, CoordReject>,
    s: Result<ReceivedDispatchView, CoordReject>,
) -> bool {
    match (r, s) {
        (Ok(x), Ok(y)) => x@ == y,
        (Err(p), Err(q)) => p == q,
        _ => false,
    }
}

/// Judges a dispatch by the reference that its bytes come to.
pub fn judge_dispatch(
    e: &CoordEnvelope,
    payload: &Vec<u8>,
    derived: Option<(String, String, String)>,
) -> (r: Result<ReceivedDispatch, CoordReject>)
    ensures
        says(
            r,
            dispatch_judged(
                e@,
                payload@,
                match derived {
                    Some(d) => Some(coord::named(d)),
                    None => None,
                },
            ),
        ),
{
    let (_, staged_digest, payload_sha256) = match derived {
        Some(d) => d,
        None => {
            return Err(CoordReject::Malformed);
        },
    };
    if !same_text(&payload_sha256, &e.payload_sha256) {
        return Err(CoordReject::PayloadDigest);
    }
    if !same_text(&staged_digest, &e.staged_digest) {
        return Err(CoordReject::StagedDigest);
    }
    Ok(
        ReceivedDispatch {
            staged_digest: e.staged_digest.clone(),
            payload_sha256: e.payload_sha256.clone(),
            task_type: e.task_type.clone(),
            recipient_label: e.recipient_label.clone(),
            sender_root: e.sender_root.clone(),
            consent_receipt: e.consent_receipt.clone(),
            byte_length: payload.len(),
        },
    )
}

/// Checks a received dispatch. `sender_root` is the root that the transport
/// authenticated, and `local_root` that of this endpoint.
pub fn verify(
    envelope: &Option<CoordEnvelope>,
    parts: &[Part],
    sender_root: &str,
    local_root: &str,
) -> (r: Result<ReceivedDispatch, CoordReject>)
    ensures
        says(
            r,
            dispatch_worth(
                view_envelope(*envelope),
                payload_in(table::seen(parts@)),
                sender_root@,
                local_root@,
            ),
        ),
{
    let e = match envelope {
        Some(e) => e,
        None => {
            return Err(CoordReject::Malformed);
        },
    };
    if !same_text(&e.sender_root, sender_root) {
        return Err(CoordReject::SenderMismatch);
    }
    if !same_text(&e.recipient_root, local_root) {
        return Err(CoordReject::NotTheRecipient);
    }
    let payload = match coord_payload(parts) {
        Some(payload) => payload,
        None => {
            return Err(CoordReject::PayloadDigest);
        },
    };
    let derived = match stage_reference(payload, &e.recipient_label, &e.task_type) {
        Ok(derived) => Some(derived),
        Err(_) => None,
    };
    judge_dispatch(e, payload, derived)
}

/// The answer to a dispatch that arrived and was verified. It promises nothing more.
#[derive(Debug, Clone, PartialEq, Eq)]
pub struct Acknowledgement {
    pub coordination: String,
    pub protocol: String,
    pub staged_digest: String,
    pub payload_sha256: String,
    pub recipient_root: String,
    pub received_at: i64,
}

/// The view of [`Acknowledgement`].
#[verifier::ext_equal]
pub struct AcknowledgementView {
    pub coordination: Seq<char>,
    pub protocol: Seq<char>,
    pub staged_digest: Seq<char>,
    pub payload_sha256: Seq<char>,
    pub recipient_root: Seq<char>,
    pub received_at: i64,
}

impl View for Acknowledgement {
    type V = AcknowledgementView;

    open spec fn view(&self) -> AcknowledgementView {
        AcknowledgementView {
            coordination: self.coordination@,
            protocol: self.protocol@,
            staged_digest: self.staged_digest@,
            payload_sha256: self.payload_sha256@,
            recipient_root: self.recipient_root@,
            received_at: self.received_at,
        }
    }
}

impl Record for Acknowledgement {
    fn dup(&self) -> (r: Self) {
        let r = Acknowledgement {
            coordination: self.coordination.clone(),
            protocol: self.protocol.clone(),
            staged_digest: self.staged_digest.clone(),
            payload_sha256: self.payload_sha256.clone(),
            recipient_root: self.recipient_root.clone(),
            received_at: self.received_at,
        };
        r
    }
}

/// Acknowledges a received dispatch by naming its staged digest.
pub fn acknowledgement(received: &ReceivedDispatch, local_root: &str, at: i64) -> (r:
    Acknowledgement)
    ensures
        r@ == (AcknowledgementView {
            coordination: "acknowledged"@,
            protocol: COORD_PROTOCOL@,
            staged_digest: received@.staged_digest,
            payload_sha256: received@.payload_sha256,
            recipient_root: local_root@,
            received_at: at,
        }),
{
    Acknowledgement {
        coordination: "acknowledged".to_owned(),
        protocol: COORD_PROTOCOL.to_owned(),
        staged_digest: received.staged_digest.clone(),
        payload_sha256: received.payload_sha256.clone(),
        recipient_root: local_root.to_owned(),
        received_at: at,
    }
}

/// What a sender builds, the recipient admits: it reads the same digests, the same
/// receipt and the number of the bytes, and the message is a dispatch.
pub proof fn a_built_dispatch_is_admitted(
    staged: StagedContractView,
    route: CoordRouteView,
    sender_root: Seq<char>,
    consent_receipt: Seq<char>,
    payload: Seq<u8>,
    dispatch_receipt: Seq<char>,
)
    requires
        match coord::reference_of(payload, route.label, staged.task_type) {
            Some(r) => r.staged_digest == staged.staged_digest && r.payload_sha256
                == staged.payload_sha256,
            None => false,
        },
    ensures
        ({
            let e = envelope_of(staged, route, sender_root, consent_receipt);
            let m = message_of(e, payload, dispatch_receipt, staged.stage_ref);
            let worth = dispatch_worth(Some(e), payload_in(m.parts), sender_root, route.root);
            &&& envelope_in(m.parts) == Some(Some(e))
            &&& worth is Ok
            &&& worth->Ok_0.staged_digest == staged.staged_digest
            &&& worth->Ok_0.payload_sha256 == staged.payload_sha256
            &&& worth->Ok_0.consent_receipt == consent_receipt
            &&& worth->Ok_0.byte_length == payload.len() as usize
        }),
{
    let e = envelope_of(staged, route, sender_root, consent_receipt);
    let m = message_of(e, payload, dispatch_receipt, staged.stage_ref);
    reveal_strlit("application/vnd.akson-dev.coord-dispatch.v1+json");
    reveal_strlit("application/octet-stream");
    assert(COORD_DISPATCH_MEDIA_TYPE@.len() != COORD_PAYLOAD_MEDIA_TYPE@.len());
    assert(m.parts.drop_first()[0] == m.parts[1]);
    assert(payload_in(m.parts) == payload_in(m.parts.drop_first()));
}

/// A dispatch is admitted only from the authenticated sender, only at its
/// recipient, and only with the bytes that the staged digest was taken of.
pub proof fn only_the_consented_bytes_are_admitted(
    e: Option<CoordEnvelopeView>,
    payload: Option<Seq<u8>>,
    sender_root: Seq<char>,
    local_root: Seq<char>,
)
    requires
        dispatch_worth(e, payload, sender_root, local_root) is Ok,
    ensures
        ({
            let received = dispatch_worth(e, payload, sender_root, local_root)->Ok_0;
            &&& received.sender_root == sender_root
            &&& e->0.recipient_root == local_root
            &&& payload is Some
            &&& received.payload_sha256 == coord::sha256_hex(payload->0)
            &&& coord::reference_of(payload->0, received.recipient_label, received.task_type) is Some
            &&& received.staged_digest == coord::reference_of(
                payload->0,
                received.recipient_label,
                received.task_type,
            )->0.staged_digest
        }),
{
}

} // verus!
