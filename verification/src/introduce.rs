//! First contact between two endpoints that have each other's identity token.
//!
//! The order of disclosure is the point. The side that dials says hello with
//! thumbprints and a nonce only. The side that answers proves itself first; the dialer
//! can already hold that against the root it imported. Only then does the dialer
//! disclose and prove. Whoever is not imported is refused before any signature is
//! made, always in the same words, and noted in a log.
use crate::control::{Problem, ProblemView};
use crate::control;
use crate::identity::{PeerIdentity, PeerIdentityView, StoredPeer, StoredPeerView};
use crate::numerals::{decimal_u64, parse_u16};
use crate::numerals;
use crate::outside::{base64url_encode, debug_quote};
use crate::outside;
use crate::store::imports::{IntroCommitOutcome, IntroCommitOutcomeView, PeerImport, PeerImportView};
use crate::store::imports;
use crate::store::{Store, StoreView};
use crate::table::Record;
use crate::text::{chars_of, find_last, same_text, text_of};
use crate::text;
use vstd::prelude::*;
use vstd::string::*;

verus! {

/// The keys that this endpoint presents are valid from this instant on.
pub const NOT_BEFORE: &'static str = "2020-01-01T00:00:00Z";

/// The keys that this endpoint presents are valid up to this instant.
pub const NOT_AFTER: &'static str = "2035-01-01T00:00:00Z";

/// How long an introduction may take, in seconds.
pub const INTRODUCTION_SECS: u64 = 20;

/// A side of an introduction.
#[derive(Debug, Clone, Copy, PartialEq, Eq, Structural)]
pub enum Role {
    Dialer,
    Responder,
}

/// What the two sides have to agree on.
#[derive(Debug, Clone, PartialEq, Eq)]
pub struct IntroTerms {
    pub protocol_version: u32,
    pub token_version: u32,
    pub hello_path: String,
    pub complete_path: String,
    pub media_type: String,
}

/// The view of [`IntroTerms`].
#[verifier::ext_equal]
pub struct IntroTermsView {
    pub protocol_version: u32,
    pub token_version: u32,
    pub hello_path: Seq<char>,
    pub complete_path: Seq<char>,
    pub media_type: Seq<char>,
}

impl View for IntroTerms {
    type V = IntroTermsView;

    open spec fn view(&self) -> IntroTermsView {
        IntroTermsView {
            protocol_version: self.protocol_version,
            token_version: self.token_version,
            hello_path: self.hello_path@,
            complete_path: self.complete_path@,
            media_type: self.media_type@,
        }
    }
}

impl Record for IntroTerms {
    fn dup(&self) -> (r: Self) {
        let r = IntroTerms {
            protocol_version: self.protocol_version,
            token_version: self.token_version,
            hello_path: self.hello_path.clone(),
            complete_path: self.complete_path.clone(),
            media_type: self.media_type.clone(),
        };
        r
    }
}

/// What this endpoint is in an introduction.
#[derive(Debug, Clone, PartialEq, Eq)]
pub struct IntroIdentity {
    /// The thumbprint of its root key.
    pub own_root: String,
    /// The fingerprint of its certificate.
    pub tls_sha256: String,
    pub issuer: String,
    pub agent: String,
}

/// The view of [`IntroIdentity`].
#[verifier::ext_equal]
pub struct IntroIdentityView {
    pub own_root: Seq<char>,
    pub tls_sha256: Seq<char>,
    pub issuer: Seq<char>,
    pub agent: Seq<char>,
}

impl View for IntroIdentity {
    type V = IntroIdentityView;

    open spec fn view(&self) -> IntroIdentityView {
        IntroIdentityView {
            own_root: self.own_root@,
            tls_sha256: self.tls_sha256@,
            issuer: self.issuer@,
            agent: self.agent@,
        }
    }
}

impl Record for IntroIdentity {
    fn dup(&self) -> (r: Self) {
        let r = IntroIdentity {
            own_root: self.own_root.clone(),
            tls_sha256: self.tls_sha256.clone(),
            issuer: self.issuer.clone(),
            agent: self.agent.clone(),
        };
        r
    }
}

/// The first flight: who is asked for, and who claims to ask.
#[derive(Debug, Clone, PartialEq, Eq)]
pub struct Hello {
    pub protocol_version: u32,
    pub token_version: u32,
    pub target_root: String,
    pub claimed_root: String,
    pub nonce: String,
}

/// The view of [`Hello`].
#[verifier::ext_equal]
pub struct HelloView {
    pub protocol_version: u32,
    pub token_version: u32,
    pub target_root: Seq<char>,
    pub claimed_root: Seq<char>,
    pub nonce: Seq<char>,
}

impl View for Hello {
    type V = HelloView;

    open spec fn view(&self) -> HelloView {
        HelloView {
            protocol_version: self.protocol_version,
            token_version: self.token_version,
            target_root: self.target_root@,
            claimed_root: self.claimed_root@,
            nonce: self.nonce@,
        }
    }
}

impl Record for Hello {
    fn dup(&self) -> (r: Self) {
        let r = Hello {
            protocol_version: self.protocol_version,
            token_version: self.token_version,
            target_root: self.target_root.clone(),
            claimed_root: self.claimed_root.clone(),
            nonce: self.nonce.clone(),
        };
        r
    }
}

/// A hello that was admitted, and waits for the proof of the dialer: with it, the epoch
/// of the relationship at which it was admitted.
#[derive(Debug, Clone, PartialEq, Eq)]
pub struct PendingIntro {
    pub hello: Hello,
    pub epoch: u64,
}

/// The view of [`PendingIntro`].
#[verifier::ext_equal]
pub struct PendingIntroView {
    pub hello: HelloView,
    pub epoch: u64,
}

impl View for PendingIntro {
    type V = PendingIntroView;

    open spec fn view(&self) -> PendingIntroView {
        PendingIntroView { hello: self.hello@, epoch: self.epoch }
    }
}

/// What a proof is made over: both roots, both certificates, and the connection.
#[derive(Debug, Clone, PartialEq, Eq)]
pub struct IntroTranscript {
    pub protocol_version: u32,
    pub token_version: u32,
    pub role: Role,
    pub dialer_root: String,
    pub responder_root: String,
    pub dialer_tls_sha256: String,
    pub responder_tls_sha256: String,
    pub tls_exporter: String,
    pub nonce: String,
    /// Empty: whoever makes or checks a proof binds the record that is presented.
    pub key_binding_sha256: String,
}

/// The view of [`IntroTranscript`].
#[verifier::ext_equal]
pub struct IntroTranscriptView {
    pub protocol_version: u32,
    pub token_version: u32,
    pub role: Role,
    pub dialer_root: Seq<char>,
    pub responder_root: Seq<char>,
    pub dialer_tls_sha256: Seq<char>,
    pub responder_tls_sha256: Seq<char>,
    pub tls_exporter: Seq<char>,
    pub nonce: Seq<char>,
    pub key_binding_sha256: Seq<char>,
}

impl View for IntroTranscript {
    type V = IntroTranscriptView;

    open spec fn view(&self) -> IntroTranscriptView {
        IntroTranscriptView {
            protocol_version: self.protocol_version,
            token_version: self.token_version,
            role: self.role,
            dialer_root: self.dialer_root@,
            responder_root: self.responder_root@,
            dialer_tls_sha256: self.dialer_tls_sha256@,
            responder_tls_sha256: self.responder_tls_sha256@,
            tls_exporter: self.tls_exporter@,
            nonce: self.nonce@,
            key_binding_sha256: self.key_binding_sha256@,
        }
    }
}

impl Record for IntroTranscript {
    fn dup(&self) -> (r: Self) {
        let r = IntroTranscript {
            protocol_version: self.protocol_version,
            token_version: self.token_version,
            role: self.role,
            dialer_root: self.dialer_root.clone(),
            responder_root: self.responder_root.clone(),
            dialer_tls_sha256: self.dialer_tls_sha256.clone(),
            responder_tls_sha256: self.responder_tls_sha256.clone(),
            tls_exporter: self.tls_exporter.clone(),
            nonce: self.nonce.clone(),
            key_binding_sha256: self.key_binding_sha256.clone(),
        };
        r
    }
}

/// A key of a verified peer, as far as it can be read.
#[derive(Debug, Clone, PartialEq, Eq)]
pub struct KeyReading {
    pub purpose: String,
    pub key: Option<[u8; 32]>,
}

/// A peer whose proof was verified: its identity, or why its card gives none, and
/// its keys.
#[derive(Debug, PartialEq, Eq)]
pub struct VerifiedPeer {
    pub identity: Result<PeerIdentity, String>,
    pub keys: Vec<KeyReading>,
}

/// The keys that could be read, in their order.
pub open spec fn usable_keys(keys: Seq<KeyReading>) -> Seq<(Seq<char>, Seq<u8>)>
    decreases keys.len(),
{
    if keys.len() == 0 {
        Seq::empty()
    } else {
        let before = usable_keys(keys.drop_last());
        match keys.last().key {
            Some(key) => before.push((keys.last().purpose@, key@)),
            None => before,
        }
    }
}

/// The keys that could be read.
pub fn binding_keys(keys: &Vec<KeyReading>) -> (r: Vec<(String, [u8; 32])>)
    ensures
        imports::key_views(r@) == usable_keys(keys@),
{
    let mut r: Vec<(String, [u8; 32])> = Vec::new();
    let mut i: usize = 0;
    proof {
        assert(keys@.take(0) =~= Seq::<KeyReading>::empty());
        assert(imports::key_views(r@) =~= usable_keys(keys@.take(0)));
    }
    while i < keys.len()
        invariant
            i <= keys@.len(),
            imports::key_views(r@) == usable_keys(keys@.take(i as int)),
        decreases keys@.len() - i,
    {
        let ghost had = imports::key_views(r@);
        proof {
            assert(keys@.take(i + 1).drop_last() =~= keys@.take(i as int));
            assert(keys@.take(i + 1).last() == keys@[i as int]);
        }
        match keys[i].key {
            Some(key) => {
                r.push((keys[i].purpose.clone(), key));
                assert(imports::key_views(r@) =~= had.push((keys@[i as int].purpose@, key@)));
            },
            None => {},
        }
        i = i + 1;
    }
    assert(keys@.take(i as int) =~= keys@);
    r
}

/// The transcript of one side.
pub open spec fn transcript_of(
    terms: IntroTermsView,
    role: Role,
    dialer_root: Seq<char>,
    responder_root: Seq<char>,
    dialer_tls: Seq<char>,
    responder_tls: Seq<char>,
    exporter: Seq<u8>,
    nonce: Seq<char>,
) -> IntroTranscriptView {
    IntroTranscriptView {
        protocol_version: terms.protocol_version,
        token_version: terms.token_version,
        role,
        dialer_root,
        responder_root,
        dialer_tls_sha256: dialer_tls,
        responder_tls_sha256: responder_tls,
        tls_exporter: outside::base64url_of(exporter),
        nonce,
        key_binding_sha256: Seq::empty(),
    }
}

/// Writes the transcript of one side.
pub fn transcript(
    terms: &IntroTerms,
    role: Role,
    dialer_root: &str,
    responder_root: &str,
    dialer_tls_sha256: &str,
    responder_tls_sha256: &str,
    exporter: &[u8; 32],
    nonce: &str,
) -> (r: IntroTranscript)
    ensures
        r@ == transcript_of(
            terms@,
            role,
            dialer_root@,
            responder_root@,
            dialer_tls_sha256@,
            responder_tls_sha256@,
            exporter@,
            nonce@,
        ),
{
    let unbound = String::new();
    assert(unbound@ =~= Seq::<char>::empty());
    IntroTranscript {
        protocol_version: terms.protocol_version,
        token_version: terms.token_version,
        role,
        dialer_root: dialer_root.to_owned(),
        responder_root: responder_root.to_owned(),
        dialer_tls_sha256: dialer_tls_sha256.to_owned(),
        responder_tls_sha256: responder_tls_sha256.to_owned(),
        tls_exporter: base64url_encode(exporter.as_slice()),
        nonce: nonce.to_owned(),
        key_binding_sha256: unbound,
    }
}

/// What a response carries.
#[derive(Debug, Clone, PartialEq, Eq)]
pub enum IntroContent {
    Problem(Problem),
    /// The proof of this endpoint.
    Material(Vec<u8>),
    /// The introduction is done.
    Acknowledged,
}

/// The response to a flight.
#[derive(Debug, Clone, PartialEq, Eq)]
pub struct IntroResponse {
    pub status: u16,
    pub content: IntroContent,
}

/// The view of [`IntroContent`].
pub enum IntroContentView {
    Problem(ProblemView),
    Material(Seq<u8>),
    Acknowledged,
}

/// The view of [`IntroResponse`].
pub struct IntroResponseView {
    pub status: u16,
    pub content: IntroContentView,
}

impl View for IntroContent {
    type V = IntroContentView;

    open spec fn view(&self) -> IntroContentView {
        match self {
            IntroContent::Problem(p) => IntroContentView::Problem(p@),
            IntroContent::Material(bytes) => IntroContentView::Material(bytes@),
            IntroContent::Acknowledged => IntroContentView::Acknowledged,
        }
    }
}

impl View for IntroResponse {
    type V = IntroResponseView;

    open spec fn view(&self) -> IntroResponseView {
        IntroResponseView { status: self.status, content: self.content@ }
    }
}

/// A response that is a problem.
pub open spec fn problem_response(p: ProblemView) -> IntroResponseView {
    IntroResponseView { status: p.status, content: IntroContentView::Problem(p) }
}

/// The one refusal for everything that fails before a proof was verified.
pub open spec fn refusal() -> IntroResponseView {
    problem_response(
        control::problem_of(403, "introduction-refused"@, "the introduction was refused"@),
    )
}

/// The response that something went wrong here.
pub open spec fn internal_response() -> IntroResponseView {
    problem_response(control::internal_problem())
}

fn refused() -> (r: IntroResponse)
    ensures
        r@ == refusal(),
{
    IntroResponse {
        status: 403,
        content: IntroContent::Problem(
            Problem::new(403, "introduction-refused", "the introduction was refused"),
        ),
    }
}

fn internal() -> (r: IntroResponse)
    ensures
        r@ == internal_response(),
{
    IntroResponse { status: 500, content: IntroContent::Problem(Problem::internal()) }
}

/// Why a hello is not admitted, if it is not: the class under which it is noted.
pub open spec fn knock_class(
    me: IntroIdentityView,
    terms: IntroTermsView,
    v: StoreView,
    hello: HelloView,
) -> Option<Seq<char>> {
    if hello.protocol_version != terms.protocol_version || hello.token_version
        != terms.token_version {
        Some("bad-version"@)
    } else if hello.target_root != me.own_root {
        Some("wrong-target"@)
    } else if !imports::is_live(v, hello.claimed_root) {
        Some("not-imported"@)
    } else {
        None
    }
}

/// The view of an optional hello.
pub open spec fn view_hello(h: Option<Hello>) -> Option<HelloView> {
    match h {
        Some(h) => Some(h@),
        None => None,
    }
}

/// The view of an optional hello that was admitted.
pub open spec fn view_pending(p: Option<PendingIntro>) -> Option<PendingIntroView> {
    match p {
        Some(p) => Some(p@),
        None => None,
    }
}

/// What comes of a hello. There is one for a connection. A hello that is admitted is
/// answered with the proof of this endpoint, and waits for the other side's.
pub open spec fn greets<B: Fn(&IntroTranscript) -> Option<Vec<u8>>>(
    me: IntroIdentityView,
    terms: IntroTermsView,
    v: StoreView,
    w: StoreView,
    before: Option<PendingIntroView>,
    after: Option<PendingIntroView>,
    source: Seq<char>,
    dialer_tls: Seq<char>,
    exporter: Seq<u8>,
    hello: Option<HelloView>,
    build: B,
    now: i64,
    r: IntroResponseView,
) -> bool {
    match (before, hello) {
        (None, Some(h)) => match knock_class(me, terms, v, h) {
            Some(class) => w == imports::with_knock(v, (h.claimed_root, source, class), now) && after
                == before && r == refusal(),
            None => w == v && exists|t: IntroTranscript, material: Option<Vec<u8>>|
                t@ == transcript_of(
                    terms,
                    Role::Responder,
                    h.claimed_root,
                    me.own_root,
                    dialer_tls,
                    me.tls_sha256,
                    exporter,
                    h.nonce,
                ) && #[trigger] call_ensures(build, (&t,), material) && match material {
                    Some(bytes) => after == Some(
                        PendingIntroView { hello: h, epoch: v.imports[h.claimed_root].epoch },
                    ) && r == (IntroResponseView {
                        status: 200,
                        content: IntroContentView::Material(bytes@),
                    }),
                    None => after == before && r == internal_response(),
                },
        },
        _ => w == v && after == before && r == refusal(),
    }
}

/// What is pinned of a peer whose identity was verified.
pub open spec fn pinned(identity: PeerIdentityView) -> StoredPeerView {
    StoredPeerView { identity, local_note: Seq::empty() }
}

/// The response to a proof that was verified, by what became of pinning the peer.
pub open spec fn commit_response(outcome: IntroCommitOutcomeView, unusable: bool) -> IntroResponseView {
    match outcome {
        IntroCommitOutcomeView::Suspended(_) => problem_response(
            control::problem_of(
                409,
                "peer-suspended"@,
                "pinned identity material changed; operator review required"@,
            ),
        ),
        IntroCommitOutcomeView::NotImported => refusal(),
        IntroCommitOutcomeView::EpochChanged => refusal(),
        _ => if unusable {
            internal_response()
        } else {
            IntroResponseView { status: 200, content: IntroContentView::Acknowledged }
        },
    }
}

/// The peer cannot be pinned: its root has no name.
pub open spec fn is_unusable(peer: StoredPeerView) -> bool {
    peer.identity.agent_card_key.value.len() == 0
}

/// The state after a verified proof.
pub open spec fn committed_state(
    v: StoreView,
    root: Seq<char>,
    epoch: u64,
    peer: StoredPeerView,
    keys: Seq<(Seq<char>, Seq<u8>)>,
    now: i64,
) -> StoreView {
    let outcome = imports::intro_verdict(v, root, epoch, peer);
    if (outcome is Committed || outcome is AlreadyActive) && is_unusable(peer) {
        v
    } else {
        imports::after_introduction(v, root, epoch, peer, keys, now)
    }
}

/// What comes of the second flight: the hello is used up, the proof is verified, and
/// the peer is pinned under the relationship as it was at the hello. Where it was
/// removed since, nothing is pinned.
pub open spec fn completes<V: Fn(&str, &IntroTranscript, &str) -> Option<VerifiedPeer>>(
    me: IntroIdentityView,
    terms: IntroTermsView,
    v: StoreView,
    w: StoreView,
    before: Option<PendingIntroView>,
    after: Option<PendingIntroView>,
    source: Seq<char>,
    dialer_tls: Seq<char>,
    exporter: Seq<u8>,
    is_material: bool,
    verify: V,
    now: i64,
    r: IntroResponseView,
) -> bool {
    after is None && match before {
        None => w == v && r == refusal(),
        Some(PendingIntroView { hello: h, epoch }) => if !is_material {
            w == v && r == refusal()
        } else if !imports::is_live(v, h.claimed_root) {
            w == imports::with_knock(v, (h.claimed_root, source, "not-imported"@), now) && r == refusal()
        } else {
            exists|root: &str, t: IntroTranscript, tls: &str, found: Option<VerifiedPeer>|
                root@ == h.claimed_root && t@ == transcript_of(
                    terms,
                    Role::Dialer,
                    h.claimed_root,
                    me.own_root,
                    dialer_tls,
                    me.tls_sha256,
                    exporter,
                    h.nonce,
                ) && tls@ == dialer_tls && #[trigger] call_ensures(verify, (root, &t, tls), found)
                    && match found {
                    None => w == imports::with_knock(v, (h.claimed_root, source, "bad-proof"@), now) && r
                        == refusal(),
                    Some(peer) => match peer.identity {
                        Err(_) => w == v && r == refusal(),
                        Ok(identity) => {
                            let stored = pinned(identity@);
                            &&& w == committed_state(
                                v,
                                h.claimed_root,
                                epoch,
                                stored,
                                usable_keys(peer.keys@),
                                now,
                            )
                            &&& r == commit_response(
                                imports::intro_verdict(v, h.claimed_root, epoch, stored),
                                is_unusable(stored),
                            )
                        },
                    },
                }
        },
    }
}

/// Answers the first flight. `build` makes the proof of this endpoint over a
/// transcript.
pub fn answer_hello<B: Fn(&IntroTranscript) -> Option<Vec<u8>>>(
    me: &IntroIdentity,
    terms: &IntroTerms,
    store: &mut Store,
    pending: &mut Option<PendingIntro>,
    source: &str,
    dialer_tls: &str,
    exporter: &[u8; 32],
    hello: &Option<Hello>,
    build: B,
    now: i64,
) -> (r: IntroResponse)
    requires
        old(store).wf(),
        forall|t: &IntroTranscript| call_requires(build, (t,)),
    ensures
        final(store).wf(),
        greets(
            me@,
            terms@,
            old(store)@,
            final(store)@,
            view_pending(*old(pending)),
            view_pending(*final(pending)),
            source@,
            dialer_tls@,
            exporter@,
            view_hello(*hello),
            build,
            now,
            r@,
        ),
{
    if pending.is_some() {
        return refused();
    }
    let h = match hello {
        Some(h) => h,
        None => {
            return refused();
        },
    };
    if h.protocol_version != terms.protocol_version || h.token_version != terms.token_version {
        let _ = store.record_knock(&h.claimed_root, source, "bad-version", now);
        return refused();
    }
    if !same_text(&h.target_root, &me.own_root) {
        let _ = store.record_knock(&h.claimed_root, source, "wrong-target", now);
        return refused();
    }
    let import = match store.peer_import(&h.claimed_root) {
        Ok(Some(import)) => import,
        _ => {
            let _ = store.record_knock(&h.claimed_root, source, "not-imported", now);
            return refused();
        },
    };
    let t = transcript(
        terms,
        Role::Responder,
        &h.claimed_root,
        &me.own_root,
        dialer_tls,
        &me.tls_sha256,
        exporter,
        &h.nonce,
    );
    match build(&t) {
        Some(bytes) => {
            *pending = Some(PendingIntro { hello: h.dup(), epoch: import.epoch });
            IntroResponse { status: 200, content: IntroContent::Material(bytes) }
        },
        None => internal(),
    }
}

/// Answers the second flight. `verify` holds the proof that was sent against a root,
/// a transcript and the certificate of the connection.
pub fn answer_complete<V: Fn(&str, &IntroTranscript, &str) -> Option<VerifiedPeer>>(
    me: &IntroIdentity,
    terms: &IntroTerms,
    store: &mut Store,
    pending: &mut Option<PendingIntro>,
    source: &str,
    dialer_tls: &str,
    exporter: &[u8; 32],
    is_material: bool,
    verify: V,
    now: i64,
) -> (r: IntroResponse)
    requires
        old(store).wf(),
        forall|root: &str, t: &IntroTranscript, tls: &str| call_requires(verify, (root, t, tls)),
    ensures
        final(store).wf(),
        completes(
            me@,
            terms@,
            old(store)@,
            final(store)@,
            view_pending(*old(pending)),
            view_pending(*final(pending)),
            source@,
            dialer_tls@,
            exporter@,
            is_material,
            verify,
            now,
            r@,
        ),
{
    let PendingIntro { hello: h, epoch } = match pending.take() {
        Some(p) => p,
        None => {
            return refused();
        },
    };
    if !is_material {
        return refused();
    }
    match store.peer_import(&h.claimed_root) {
        Ok(Some(_)) => {},
        _ => {
            let _ = store.record_knock(&h.claimed_root, source, "not-imported", now);
            return refused();
        },
    }
    let t = transcript(
        terms,
        Role::Dialer,
        &h.claimed_root,
        &me.own_root,
        dialer_tls,
        &me.tls_sha256,
        exporter,
        &h.nonce,
    );
    let root = h.claimed_root.as_str();
    let found = verify(root, &t, dialer_tls);
    assert(call_ensures(verify, (root, &t, dialer_tls), found));
    let peer = match found {
        Some(peer) => peer,
        None => {
            let _ = store.record_knock(&h.claimed_root, source, "bad-proof", now);
            return refused();
        },
    };
    let identity = match &peer.identity {
        Ok(identity) => identity.dup(),
        Err(_) => {
            return refused();
        },
    };
    let keys = binding_keys(&peer.keys);
    let note = String::new();
    assert(note@ =~= Seq::<char>::empty());
    let stored = StoredPeer { identity, local_note: note };
    match store.commit_introduced_peer(&h.claimed_root, epoch, &stored, &keys, now) {
        Ok(IntroCommitOutcome::Committed) | Ok(IntroCommitOutcome::AlreadyActive) => IntroResponse {
            status: 200,
            content: IntroContent::Acknowledged,
        },
        Ok(IntroCommitOutcome::Suspended(_)) => IntroResponse {
            status: 409,
            content: IntroContent::Problem(
                Problem::new(
                    409,
                    "peer-suspended",
                    "pinned identity material changed; operator review required",
                ),
            ),
        },
        Ok(_) => refused(),
        Err(_) => internal(),
    }
}

/// What a flight says, as far as it can be read.
#[derive(Debug, Clone, PartialEq, Eq)]
pub struct IntroReading {
    /// The hello that the body is, if it is one.
    pub hello: Option<Hello>,
    /// The body is the material of a proof.
    pub is_material: bool,
}

/// What comes of a flight. Without the certificate of the dialer and the binding to
/// the connection, nothing can be verified.
pub open spec fn responds<
    B: Fn(&IntroTranscript) -> Option<Vec<u8>>,
    V: Fn(&str, &IntroTranscript, &str) -> Option<VerifiedPeer>,
>(
    me: IntroIdentityView,
    terms: IntroTermsView,
    v: StoreView,
    w: StoreView,
    before: Option<PendingIntroView>,
    after: Option<PendingIntroView>,
    path: Seq<char>,
    source: Seq<char>,
    dialer_tls: Option<Seq<char>>,
    exporter: Option<Seq<u8>>,
    reading: IntroReading,
    build: B,
    verify: V,
    now: i64,
    r: IntroResponseView,
) -> bool {
    match (dialer_tls, exporter) {
        (Some(tls), Some(binding)) => if path == terms.hello_path {
            greets(
                me,
                terms,
                v,
                w,
                before,
                after,
                source,
                tls,
                binding,
                view_hello(reading.hello),
                build,
                now,
                r,
            )
        } else if path == terms.complete_path {
            completes(
                me,
                terms,
                v,
                w,
                before,
                after,
                source,
                tls,
                binding,
                reading.is_material,
                verify,
                now,
                r,
            )
        } else {
            w == v && after == before && r == refusal()
        },
        _ => w == v && after == before && r == refusal(),
    }
}

/// Answers a flight of an introduction. `pending` is the hello that was admitted on the
/// connection.
pub fn respond_introduction<
    B: Fn(&IntroTranscript) -> Option<Vec<u8>>,
    V: Fn(&str, &IntroTranscript, &str) -> Option<VerifiedPeer>,
>(
    me: &IntroIdentity,
    terms: &IntroTerms,
    store: &mut Store,
    pending: &mut Option<PendingIntro>,
    path: &str,
    source: &str,
    dialer_tls_sha256: Option<&str>,
    exporter: Option<[u8; 32]>,
    reading: &IntroReading,
    build: B,
    verify: V,
    now_unix: i64,
) -> (r: IntroResponse)
    requires
        old(store).wf(),
        forall|t: &IntroTranscript| call_requires(build, (t,)),
        forall|root: &str, t: &IntroTranscript, tls: &str| call_requires(verify, (root, t, tls)),
    ensures
        final(store).wf(),
        responds(
            me@,
            terms@,
            old(store)@,
            final(store)@,
            view_pending(*old(pending)),
            view_pending(*final(pending)),
            path@,
            source@,
            text::view_str(dialer_tls_sha256),
            match exporter {
                Some(binding) => Some(binding@),
                None => None,
            },
            *reading,
            build,
            verify,
            now_unix,
            r@,
        ),
{
    let (tls, binding) = match (dialer_tls_sha256, exporter) {
        (Some(tls), Some(binding)) => (tls, binding),
        _ => {
            return refused();
        },
    };
    if same_text(path, &terms.hello_path) {
        return answer_hello(
            me,
            terms,
            store,
            pending,
            source,
            tls,
            &binding,
            &reading.hello,
            build,
            now_unix,
        );
    }
    if same_text(path, &terms.complete_path) {
        return answer_complete(
            me,
            terms,
            store,
            pending,
            source,
            tls,
            &binding,
            reading.is_material,
            verify,
            now_unix,
        );
    }
    refused()
}

/// Why an introduction that was dialed failed.
#[derive(Debug, Clone, PartialEq, Eq)]
pub enum IntroduceError {
    /// The relationship has no address.
    NoEndpoint,
    /// The address is not one.
    BadEndpoint,
    Tls(String),
    Io(String),
    Http(String),
    /// The other side refused; it does not say why.
    Refused,
    Status(u16),
    /// The proof of the other side did not verify.
    Verify(String),
    Store(String),
    /// The proof verified, and the peer was not pinned.
    NotCommitted(IntroCommitOutcome),
}

/// The view of [`IntroduceError`].
pub enum IntroduceErrorView {
    NoEndpoint,
    BadEndpoint,
    Tls(Seq<char>),
    Io(Seq<char>),
    Http(Seq<char>),
    Refused,
    Status(u16),
    Verify(Seq<char>),
    Store(Seq<char>),
    NotCommitted(IntroCommitOutcomeView),
}

impl View for IntroduceError {
    type V = IntroduceErrorView;

    open spec fn view(&self) -> IntroduceErrorView {
        match self {
            IntroduceError::NoEndpoint => IntroduceErrorView::NoEndpoint,
            IntroduceError::BadEndpoint => IntroduceErrorView::BadEndpoint,
            IntroduceError::Tls(e) => IntroduceErrorView::Tls(e@),
            IntroduceError::Io(e) => IntroduceErrorView::Io(e@),
            IntroduceError::Http(e) => IntroduceErrorView::Http(e@),
            IntroduceError::Refused => IntroduceErrorView::Refused,
            IntroduceError::Status(s) => IntroduceErrorView::Status(*s),
            IntroduceError::Verify(e) => IntroduceErrorView::Verify(e@),
            IntroduceError::Store(e) => IntroduceErrorView::Store(e@),
            IntroduceError::NotCommitted(o) => IntroduceErrorView::NotCommitted(o@),
        }
    }
}

/// How an outcome is named in a message.
pub open spec fn outcome_name(outcome: IntroCommitOutcomeView) -> Seq<char> {
    match outcome {
        IntroCommitOutcomeView::Committed => "Committed"@,
        IntroCommitOutcomeView::AlreadyActive => "AlreadyActive"@,
        IntroCommitOutcomeView::NotImported => "NotImported"@,
        IntroCommitOutcomeView::EpochChanged => "EpochChanged"@,
        IntroCommitOutcomeView::Suspended(why) => "Suspended("@ + outside::quoted(why) + ")"@,
    }
}

/// What the operator is told of a failure. A refusal lists its likely causes, and
/// asserts none.
pub open spec fn error_text(e: IntroduceErrorView) -> Seq<char> {
    match e {
        IntroduceErrorView::NoEndpoint =>
            "the import carries no endpoint hint — re-share it and `peer add --update`"@,
        IntroduceErrorView::BadEndpoint => "the endpoint hint is not host:port"@,
        IntroduceErrorView::Tls(e) => e,
        IntroduceErrorView::Io(e) => "io: "@ + e,
        IntroduceErrorView::Http(e) => "http: "@ + e,
        IntroduceErrorView::Refused =>
            "the peer refused the introduction. Likely causes: they have not run `akson peer add <your token>` yet; a version mismatch; or rate limiting"@,
        IntroduceErrorView::Status(s) => "introduction failed with status "@ + numerals::decimal(s as int),
        IntroduceErrorView::Verify(e) => "the peer's proof failed verification: "@ + e,
        IntroduceErrorView::Store(e) => "committing the peer failed: "@ + e,
        IntroduceErrorView::NotCommitted(o) => "the introduction could not be committed: "@
            + outcome_name(o),
    }
}

/// Names an outcome as messages and replies do.
pub fn name_outcome(outcome: &IntroCommitOutcome) -> (r: String)
    ensures
        r@ == outcome_name(outcome@),
{
    match outcome {
        IntroCommitOutcome::Committed => "Committed".to_owned(),
        IntroCommitOutcome::AlreadyActive => "AlreadyActive".to_owned(),
        IntroCommitOutcome::NotImported => "NotImported".to_owned(),
        IntroCommitOutcome::EpochChanged => "EpochChanged".to_owned(),
        IntroCommitOutcome::Suspended(why) => {
            let quoted_why = debug_quote(why);
            "Suspended(".to_owned().concat(&quoted_why).concat(")")
        },
    }
}

impl IntroduceError {
    /// What the operator is told.
    pub fn message(&self) -> (r: String)
        ensures
            r@ == error_text(self@),
    {
        match self {
            IntroduceError::NoEndpoint =>
                "the import carries no endpoint hint — re-share it and `peer add --update`".to_owned(),
            IntroduceError::BadEndpoint => "the endpoint hint is not host:port".to_owned(),
            IntroduceError::Tls(e) => e.clone(),
            IntroduceError::Io(e) => "io: ".to_owned().concat(e),
            IntroduceError::Http(e) => "http: ".to_owned().concat(e),
            IntroduceError::Refused =>
                "the peer refused the introduction. Likely causes: they have not run `akson peer add <your token>` yet; a version mismatch; or rate limiting".to_owned(),
            IntroduceError::Status(s) => {
                let number = decimal_u64(*s as u64);
                "introduction failed with status ".to_owned().concat(&number)
            },
            IntroduceError::Verify(e) => "the peer's proof failed verification: ".to_owned().concat(
                e,
            ),
            IntroduceError::Store(e) => "committing the peer failed: ".to_owned().concat(e),
            IntroduceError::NotCommitted(o) => {
                let name = name_outcome(o);
                "the introduction could not be committed: ".to_owned().concat(&name)
            },
        }
    }
}

/// The problem that a failure is, for the operator.
pub open spec fn introduction_failure(e: IntroduceErrorView) -> ProblemView {
    match e {
        IntroduceErrorView::Refused => control::problem_of(403, "introduction-refused"@, error_text(e)),
        IntroduceErrorView::NoEndpoint => control::problem_of(400, "no-endpoint"@, error_text(e)),
        _ => control::problem_of(502, "introduction-failed"@, error_text(e)),
    }
}

/// The problem that a failure is, for the operator.
pub fn introduction_problem(e: &IntroduceError) -> (p: Problem)
    ensures
        p@ == introduction_failure(e@),
{
    let text = e.message();
    match e {
        IntroduceError::Refused => Problem::new(403, "introduction-refused", &text),
        IntroduceError::NoEndpoint => Problem::new(400, "no-endpoint", &text),
        _ => Problem::new(502, "introduction-failed", &text),
    }
}

/// Where a hint leads: the host, and the port behind its last colon.
pub open spec fn target_of(hint: Seq<char>) -> Result<(Seq<char>, u16), IntroduceErrorView> {
    let at = text::last_of(hint, ':');
    if hint.len() == 0 {
        Err(IntroduceErrorView::NoEndpoint)
    } else if at < 0 {
        Err(IntroduceErrorView::BadEndpoint)
    } else {
        match numerals::unsigned_value(hint.skip(at + 1)) {
            Some(n) => if n <= u16::MAX {
                Ok((hint.take(at), n as u16))
            } else {
                Err(IntroduceErrorView::BadEndpoint)
            },
            None => Err(IntroduceErrorView::BadEndpoint),
        }
    }
}

/// Where the endpoint of a relationship is dialed.
pub fn dial_target(import: &PeerImport) -> (r: Result<(String, u16), IntroduceError>)
    ensures
        match (r, target_of(import@.endpoint_hint)) {
            (Ok((host, port)), Ok((h, p))) => host@ == h && port == p,
            (Err(e), Err(f)) => e@ == f,
            _ => false,
        },
{
    let v = chars_of(&import.endpoint_hint);
    if v.len() == 0 {
        return Err(IntroduceError::NoEndpoint);
    }
    let at = match find_last(&v, ':') {
        Some(at) => at,
        None => {
            return Err(IntroduceError::BadEndpoint);
        },
    };
    let host = text_of(&v, 0, at);
    let port_text = text_of(&v, at + 1, v.len());
    proof {
        assert(v@.subrange(0, at as int) =~= v@.take(at as int));
        assert(v@.subrange(at + 1, v@.len() as int) =~= v@.skip(at + 1));
    }
    match parse_u16(&chars_of(&port_text)) {
        Some(port) => Ok((host, port)),
        None => Err(IntroduceError::BadEndpoint),
    }
}

/// An introduction that is being dialed.
#[derive(Debug, Clone, PartialEq, Eq)]
pub struct Dial {
    /// The root that was imported.
    pub root: String,
    /// The epoch of the relationship when the dial began.
    pub epoch: u64,
    pub hello: Hello,
    pub responder_tls: String,
    /// What the other side proves itself over.
    pub their_transcript: IntroTranscript,
    /// What this side proves itself over.
    pub my_transcript: IntroTranscript,
}

/// The view of [`Dial`].
#[verifier::ext_equal]
pub struct DialView {
    pub root: Seq<char>,
    pub epoch: u64,
    pub hello: HelloView,
    pub responder_tls: Seq<char>,
    pub their_transcript: IntroTranscriptView,
    pub my_transcript: IntroTranscriptView,
}

impl View for Dial {
    type V = DialView;

    open spec fn view(&self) -> DialView {
        DialView {
            root: self.root@,
            epoch: self.epoch,
            hello: self.hello@,
            responder_tls: self.responder_tls@,
            their_transcript: self.their_transcript@,
            my_transcript: self.my_transcript@,
        }
    }
}

impl Record for Dial {
    fn dup(&self) -> (r: Self) {
        let r = Dial {
            root: self.root.clone(),
            epoch: self.epoch,
            hello: self.hello.dup(),
            responder_tls: self.responder_tls.clone(),
            their_transcript: self.their_transcript.dup(),
            my_transcript: self.my_transcript.dup(),
        };
        r
    }
}

/// The dial that a connection opens.
pub open spec fn dial_of(
    me: IntroIdentityView,
    terms: IntroTermsView,
    import: PeerImportView,
    responder_tls: Seq<char>,
    exporter: Seq<u8>,
    nonce: Seq<u8>,
) -> DialView {
    let root = import.root_thumbprint;
    let text = outside::base64url_of(nonce);
    DialView {
        root,
        epoch: import.epoch,
        hello: HelloView {
            protocol_version: terms.protocol_version,
            token_version: terms.token_version,
            target_root: root,
            claimed_root: me.own_root,
            nonce: text,
        },
        responder_tls,
        their_transcript: transcript_of(
            terms,
            Role::Responder,
            me.own_root,
            root,
            me.tls_sha256,
            responder_tls,
            exporter,
            text,
        ),
        my_transcript: transcript_of(
            terms,
            Role::Dialer,
            me.own_root,
            root,
            me.tls_sha256,
            responder_tls,
            exporter,
            text,
        ),
    }
}

/// Begins an introduction over a connection, of which the certificate of the other
/// side and the binding are known. `nonce` is fresh.
pub fn open_dial(
    me: &IntroIdentity,
    terms: &IntroTerms,
    import: &PeerImport,
    responder_tls: Option<&str>,
    exporter: Option<[u8; 32]>,
    nonce: &[u8; 32],
) -> (r: Result<Dial, IntroduceError>)
    ensures
        match r {
            Ok(dial) => responder_tls is Some && exporter is Some && dial@ == dial_of(
                me@,
                terms@,
                import@,
                responder_tls->Some_0@,
                exporter->Some_0@,
                nonce@,
            ),
            Err(e) => if responder_tls is None {
                e@ == IntroduceErrorView::Http("no server certificate"@)
            } else {
                exporter is None && e@ == IntroduceErrorView::Http("no channel binding"@)
            },
        },
{
    let tls = match responder_tls {
        Some(tls) => tls,
        None => {
            return Err(IntroduceError::Http("no server certificate".to_owned()));
        },
    };
    let binding = match exporter {
        Some(binding) => binding,
        None => {
            return Err(IntroduceError::Http("no channel binding".to_owned()));
        },
    };
    let text = base64url_encode(nonce.as_slice());
    let their_transcript = transcript(
        terms,
        Role::Responder,
        &me.own_root,
        &import.root_thumbprint,
        &me.tls_sha256,
        tls,
        &binding,
        &text,
    );
    let my_transcript = transcript(
        terms,
        Role::Dialer,
        &me.own_root,
        &import.root_thumbprint,
        &me.tls_sha256,
        tls,
        &binding,
        &text,
    );
    Ok(
        Dial {
            root: import.root_thumbprint.clone(),
            epoch: import.epoch,
            hello: Hello {
                protocol_version: terms.protocol_version,
                token_version: terms.token_version,
                target_root: import.root_thumbprint.clone(),
                claimed_root: me.own_root.clone(),
                nonce: text,
            },
            responder_tls: tls.to_owned(),
            their_transcript,
            my_transcript,
        },
    )
}

/// The answer to a flight.
#[derive(Debug, Clone, PartialEq, Eq)]
pub enum FlightAnswer {
    /// None came; this is why.
    Broken(String),
    /// A response with a body that is too large to be read.
    TooLarge { status: u16 },
    /// A response, and whether its body is what is expected.
    Response { status: u16, readable: bool },
}

/// What an answer to a flight comes to. `fault` is what an unreadable body is.
pub open spec fn flight_error(answer: FlightAnswer, fault: Seq<char>) -> Option<IntroduceErrorView> {
    match answer {
        FlightAnswer::Broken(why) => Some(IntroduceErrorView::Http(why@)),
        FlightAnswer::TooLarge { status } => if status == 403 {
            Some(IntroduceErrorView::Refused)
        } else if status != 200 {
            Some(IntroduceErrorView::Status(status))
        } else {
            Some(IntroduceErrorView::Http("response too large"@))
        },
        FlightAnswer::Response { status, readable } => if status == 403 {
            Some(IntroduceErrorView::Refused)
        } else if status != 200 {
            Some(IntroduceErrorView::Status(status))
        } else if !readable {
            Some(IntroduceErrorView::Verify(fault))
        } else {
            None
        },
    }
}

fn judge_flight(answer: &FlightAnswer, fault: &str) -> (r: Result<(), IntroduceError>)
    ensures
        match r {
            Ok(()) => flight_error(*answer, fault@) is None,
            Err(e) => flight_error(*answer, fault@) == Some(e@),
        },
{
    match answer {
        FlightAnswer::Broken(why) => Err(IntroduceError::Http(why.clone())),
        FlightAnswer::TooLarge { status } => if *status == 403 {
            Err(IntroduceError::Refused)
        } else if *status != 200 {
            Err(IntroduceError::Status(*status))
        } else {
            Err(IntroduceError::Http("response too large".to_owned()))
        },
        FlightAnswer::Response { status, readable } => if *status == 403 {
            Err(IntroduceError::Refused)
        } else if *status != 200 {
            Err(IntroduceError::Status(*status))
        } else if !*readable {
            Err(IntroduceError::Verify(fault.to_owned()))
        } else {
            Ok(())
        },
    }
}

/// Takes the answer to the hello: the proof of the other side, which is then to be
/// held against the root, the other side's transcript and its certificate.
pub fn hear_proof(answer: &FlightAnswer) -> (r: Result<(), IntroduceError>)
    ensures
        match r {
            Ok(()) => flight_error(*answer, "malformed"@) is None,
            Err(e) => flight_error(*answer, "malformed"@) == Some(e@),
        },
{
    judge_flight(answer, "malformed")
}

/// A peer that proved itself, and what may now be disclosed to it.
#[derive(Debug, PartialEq, Eq)]
pub struct Disclosure {
    pub transcript: IntroTranscript,
    pub peer: VerifiedPeer,
}

/// Takes the verdict on the proof of the other side. Only if it holds is there
/// anything to disclose: the proof of this side over its own transcript.
pub fn hear_verdict(dial: &Dial, verdict: Result<VerifiedPeer, String>) -> (r: Result<
    Disclosure,
    IntroduceError,
>)
    ensures
        match (r, verdict) {
            (Ok(d), Ok(peer)) => d.transcript@ == dial@.my_transcript && d.peer == peer,
            (Err(e), Err(why)) => e@ == IntroduceErrorView::Verify(why@),
            _ => false,
        },
{
    match verdict {
        Ok(peer) => Ok(Disclosure { transcript: dial.my_transcript.dup(), peer }),
        Err(why) => Err(IntroduceError::Verify(why)),
    }
}

/// What comes of the end of a dial, once the other side has acknowledged.
pub open spec fn dialed(
    v: StoreView,
    w: StoreView,
    dial: DialView,
    peer: VerifiedPeer,
    now: i64,
    r: Result<(PeerIdentity, IntroCommitOutcome), IntroduceError>,
) -> bool {
    match peer.identity {
        Err(why) => w == v && match r {
            Err(e) => e@ == IntroduceErrorView::Verify(why@),
            Ok(_) => false,
        },
        Ok(identity) => {
            let stored = pinned(identity@);
            let outcome = imports::intro_verdict(v, dial.root, dial.epoch, stored);
            let done = outcome is Committed || outcome is AlreadyActive;
            &&& w == committed_state(
                v,
                dial.root,
                dial.epoch,
                stored,
                usable_keys(peer.keys@),
                now,
            )
            &&& match r {
                Ok((i, o)) => done && !is_unusable(stored) && i@ == identity@ && o@ == outcome,
                Err(e) => if done {
                    is_unusable(stored) && e@ == IntroduceErrorView::Store(
                        "corrupt store state"@,
                    )
                } else {
                    e@ == IntroduceErrorView::NotCommitted(outcome)
                },
            }
        },
    }
}

/// Ends an introduction that was dialed: takes the acknowledgement, and pins the peer
/// under the epoch at which the dial began. A removal in the meantime is not undone.
pub fn finish_dial(
    store: &mut Store,
    dial: &Dial,
    peer: &VerifiedPeer,
    answer: &FlightAnswer,
    now: i64,
) -> (r: Result<(PeerIdentity, IntroCommitOutcome), IntroduceError>)
    requires
        old(store).wf(),
    ensures
        final(store).wf(),
        match flight_error(*answer, "bad ack"@) {
            Some(e) => final(store)@ == old(store)@ && match r {
                Err(f) => f@ == e,
                Ok(_) => false,
            },
            None => dialed(old(store)@, final(store)@, dial@, *peer, now, r),
        },
{
    match judge_flight(answer, "bad ack") {
        Ok(()) => {},
        Err(e) => {
            return Err(e);
        },
    }
    let identity = match &peer.identity {
        Ok(identity) => identity.dup(),
        Err(why) => {
            return Err(IntroduceError::Verify(why.clone()));
        },
    };
    let keys = binding_keys(&peer.keys);
    let note = String::new();
    assert(note@ =~= Seq::<char>::empty());
    let stored = StoredPeer { identity: identity.dup(), local_note: note };
    match store.commit_introduced_peer(&dial.root, dial.epoch, &stored, &keys, now) {
        Ok(IntroCommitOutcome::Committed) => Ok((identity, IntroCommitOutcome::Committed)),
        Ok(IntroCommitOutcome::AlreadyActive) => Ok((identity, IntroCommitOutcome::AlreadyActive)),
        Ok(other) => Err(IntroduceError::NotCommitted(other)),
        Err(_) => Err(IntroduceError::Store("corrupt store state".to_owned())),
    }
}

/// A hello that is not admitted gets the one refusal, whatever was wrong with it, and
/// no proof is made.
pub proof fn refusals_tell_nothing<B: Fn(&IntroTranscript) -> Option<Vec<u8>>>(
    me: IntroIdentityView,
    terms: IntroTermsView,
    v: StoreView,
    w: StoreView,
    after: Option<PendingIntroView>,
    source: Seq<char>,
    dialer_tls: Seq<char>,
    exporter: Seq<u8>,
    hello: HelloView,
    build: B,
    now: i64,
    r: IntroResponseView,
)
    requires
        greets(
            me,
            terms,
            v,
            w,
            None,
            after,
            source,
            dialer_tls,
            exporter,
            Some(hello),
            build,
            now,
            r,
        ),
        knock_class(me, terms, v, hello) is Some,
    ensures
        r == refusal(),
        after is None,
{
}

/// A hello pins nothing: the peers and the relationships stay as they are, and only
/// the log of those who were refused can grow.
pub proof fn a_hello_pins_nothing<B: Fn(&IntroTranscript) -> Option<Vec<u8>>>(
    me: IntroIdentityView,
    terms: IntroTermsView,
    v: StoreView,
    w: StoreView,
    before: Option<PendingIntroView>,
    after: Option<PendingIntroView>,
    source: Seq<char>,
    dialer_tls: Seq<char>,
    exporter: Seq<u8>,
    hello: Option<HelloView>,
    build: B,
    now: i64,
    r: IntroResponseView,
)
    requires
        greets(
            me,
            terms,
            v,
            w,
            before,
            after,
            source,
            dialer_tls,
            exporter,
            hello,
            build,
            now,
            r,
        ),
    ensures
        w == (StoreView { knocks: w.knocks, ..v }),
{
}

/// A hello serves once: after a second flight there is none, so another second flight
/// on the connection is refused.
pub proof fn a_hello_serves_once<V: Fn(&str, &IntroTranscript, &str) -> Option<VerifiedPeer>>(
    me: IntroIdentityView,
    terms: IntroTermsView,
    v: StoreView,
    w: StoreView,
    x: StoreView,
    before: Option<PendingIntroView>,
    between: Option<PendingIntroView>,
    after: Option<PendingIntroView>,
    source: Seq<char>,
    dialer_tls: Seq<char>,
    exporter: Seq<u8>,
    verify: V,
    now: i64,
    first: IntroResponseView,
    second: IntroResponseView,
)
    requires
        completes(
            me,
            terms,
            v,
            w,
            before,
            between,
            source,
            dialer_tls,
            exporter,
            true,
            verify,
            now,
            first,
        ),
        completes(
            me,
            terms,
            w,
            x,
            between,
            after,
            source,
            dialer_tls,
            exporter,
            true,
            verify,
            now,
            second,
        ),
    ensures
        second == refusal(),
        x == w,
{
}

/// Where the relationship was removed in the meantime, a verified introduction
/// changes nothing.
pub proof fn removals_outrun_introductions(
    v: StoreView,
    root: Seq<char>,
    epoch: u64,
    peer: StoredPeerView,
    keys: Seq<(Seq<char>, Seq<u8>)>,
    now: i64,
)
    requires
        !imports::is_live(v, root) || v.imports[root].epoch != epoch,
    ensures
        committed_state(v, root, epoch, peer, keys, now) == v,
        !is_unusable(peer) ==> commit_response(
            imports::intro_verdict(v, root, epoch, peer),
            is_unusable(peer),
        ) == refusal(),
{
}

/// An introduction that began before a removal never commits: where the relationship
/// is not the one at which the hello was admitted, the proof is refused as anything else
/// is, and nobody is pinned, even if the same root was agreed to again.
pub proof fn a_removal_since_the_hello_refuses<
    B: Fn(&IntroTranscript) -> Option<Vec<u8>>,
    V: Fn(&str, &IntroTranscript, &str) -> Option<VerifiedPeer>,
>(
    me: IntroIdentityView,
    terms: IntroTermsView,
    v: StoreView,
    w: StoreView,
    hello: HelloView,
    pending: PendingIntroView,
    x: StoreView,
    y: StoreView,
    after: Option<PendingIntroView>,
    source: Seq<char>,
    dialer_tls: Seq<char>,
    exporter: Seq<u8>,
    is_material: bool,
    build: B,
    verify: V,
    greeted_at: i64,
    now: i64,
    greeting: IntroResponseView,
    r: IntroResponseView,
)
    requires
        greets(
            me,
            terms,
            v,
            w,
            None,
            Some(pending),
            source,
            dialer_tls,
            exporter,
            Some(hello),
            build,
            greeted_at,
            greeting,
        ),
        !imports::is_live(x, hello.claimed_root) || x.imports[hello.claimed_root].epoch
            != v.imports[hello.claimed_root].epoch,
        completes(
            me,
            terms,
            x,
            y,
            Some(pending),
            after,
            source,
            dialer_tls,
            exporter,
            is_material,
            verify,
            now,
            r,
        ),
    ensures
        r == refusal(),
        y == (StoreView { knocks: y.knocks, ..x }),
{
}

} // verus!
