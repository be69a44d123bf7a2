//! Introductions: who is let in, what each side proves, what is pinned, and what a change of an
//! identity leads to.
use crate::identity::{PeerIdentityView, PeerStatus, StoredPeerView, SuspendReason};
use crate::introduce::{
    DialView, FlightAnswer, HelloView, IntroContentView, IntroIdentityView, IntroResponseView,
    IntroTermsView, IntroTranscript, IntroduceErrorView, PendingIntroView, Role, VerifiedPeer,
};
use crate::introduce;
use crate::laws::lists;
use crate::outside;
use crate::store::imports::{KnockView, PeerImportView};
use crate::store::imports;
use crate::store::peers::PeerSummaryView;
use crate::store::peers;
use crate::store::rows::{ImportRowView, KnockRowView, PeerKeyRowView, PeerRowView};
use crate::store::StoreView;
use crate::text;
use vstd::prelude::*;

verus! {

/// A presented identity is the pinned one exactly where nothing differs but the part of the card
/// that carries no security claim. A name that differs alone is told apart from any other change.
pub proof fn any_change_of_an_identity_counts(pinned: PeerIdentityView, presented: PeerIdentityView)
    ensures
        (imports::suspension(pinned, presented) is None) <==> presented == (PeerIdentityView {
            full_card_digest: presented.full_card_digest,
            ..pinned
        }),
        (imports::suspension(pinned, presented) == Some(SuspendReason::SubjectChanged)) <==> (
        pinned.agent_id != presented.agent_id && presented == (PeerIdentityView {
            full_card_digest: presented.full_card_digest,
            agent_id: presented.agent_id,
            ..pinned
        })),
{
}

proof fn lemma_key_is_pinned(
    m: Map<(Seq<char>, Seq<char>), PeerKeyRowView>,
    keys: Seq<(Seq<char>, Seq<u8>)>,
    peer: StoredPeerView,
    root: Seq<char>,
    now: i64,
    i: int,
)
    requires
        0 <= i < keys.len(),
        forall|j: int| i < j < keys.len() ==> (#[trigger] keys[j]).0 != keys[i].0,
    ensures
        ({
            let at = (peer.identity.tls_cert.value, keys[i].0);
            let row = imports::with_keys(m, keys, peer, root, now)[at];
            &&& imports::with_keys(m, keys, peer, root, now).contains_key(at)
            &&& row.public_key == keys[i].1
            &&& row.root_thumbprint == root
            &&& row.agent_id == peer.identity.agent_id
            &&& peer.identity.issuer is Some ==> row.issuer == peer.identity.issuer->0
            &&& row.updated_at == now
        }),
    decreases keys.len(),
{
    if i < keys.len() - 1 {
        let before = keys.drop_last();
        assert(keys[keys.len() - 1].0 != keys[i].0);
        assert forall|j: int| i < j < before.len() implies (#[trigger] before[j]).0 != before[i].0 by {
            assert(before[j] == keys[j]);
        }
        lemma_key_is_pinned(m, before, peer, root, now, i);
    }
}

proof fn lemma_key_stays(
    m: Map<(Seq<char>, Seq<char>), PeerKeyRowView>,
    keys: Seq<(Seq<char>, Seq<u8>)>,
    peer: StoredPeerView,
    root: Seq<char>,
    now: i64,
    at: (Seq<char>, Seq<char>),
)
    requires
        at.0 != peer.identity.tls_cert.value,
    ensures
        imports::with_keys(m, keys, peer, root, now).contains_key(at) <==> m.contains_key(at),
        m.contains_key(at) ==> imports::with_keys(m, keys, peer, root, now)[at] == m[at],
    decreases keys.len(),
{
    if keys.len() > 0 {
        lemma_key_stays(m, keys.drop_last(), peer, root, now, at);
    }
}

/// A verified introduction under a live relationship, at the epoch at which it began, pins the
/// identity that was proved and its keys, under the root and the certificate they were proved
/// for, and makes the peer active; nothing else about any peer changes.
pub proof fn an_introduction_pins_who_was_proved(
    v: StoreView,
    root: Seq<char>,
    epoch: u64,
    peer: StoredPeerView,
    keys: Seq<(Seq<char>, Seq<u8>)>,
    now: i64,
)
    requires
        v.imports.contains_key(root),
        v.imports[root].tombstoned_at is None,
        v.imports[root].epoch == epoch,
        peer.identity.agent_card_key.value == root,
        v.peers.contains_key(root) ==> v.peers[root].status is Active && peer.identity == (
        PeerIdentityView {
            full_card_digest: peer.identity.full_card_digest,
            ..v.peers[root].peer.identity
        }),
    ensures
        ({
            let w = imports::after_introduction(v, root, epoch, peer, keys, now);
            let outcome = imports::intro_verdict(v, root, epoch, peer);
            &&& (outcome is Committed) <==> !v.peers.contains_key(root)
            &&& (outcome is AlreadyActive) <==> v.peers.contains_key(root)
            &&& w.peers.contains_key(root)
            &&& w.peers[root].peer == peer
            &&& w.peers[root].status is Active
            &&& forall|other: Seq<char>|
                other != root ==> (#[trigger] w.peers.contains_key(other) == v.peers.contains_key(
                    other,
                )) && (v.peers.contains_key(other) ==> w.peers[other] == v.peers[other])
            &&& forall|i: int|
                0 <= i < keys.len() && (forall|j: int|
                    i < j < keys.len() ==> keys[j].0 != keys[i].0) ==> {
                    let at = (peer.identity.tls_cert.value, (#[trigger] keys[i]).0);
                    let row = w.peer_keys[at];
                    &&& w.peer_keys.contains_key(at)
                    &&& row.public_key == keys[i].1
                    &&& row.root_thumbprint == root
                    &&& row.agent_id == peer.identity.agent_id
                    &&& peer.identity.issuer is Some ==> row.issuer == peer.identity.issuer->0
                }
            &&& forall|at: (Seq<char>, Seq<char>)|
                at.0 != peer.identity.tls_cert.value ==> (#[trigger] w.peer_keys.contains_key(at)
                    <==> v.peer_keys.contains_key(at)) && (v.peer_keys.contains_key(at)
                    ==> w.peer_keys[at] == v.peer_keys[at])
            &&& w.imports == v.imports
            &&& w.auto_approve == v.auto_approve
        }),
{
    let w = imports::after_introduction(v, root, epoch, peer, keys, now);
    assert(w.peer_keys == imports::with_keys(v.peer_keys, keys, peer, root, now));
    assert forall|i: int|
        0 <= i < keys.len() && (forall|j: int| i < j < keys.len() ==> keys[j].0 != keys[i].0) implies {
        let at = (peer.identity.tls_cert.value, (#[trigger] keys[i]).0);
        let row = w.peer_keys[at];
        &&& w.peer_keys.contains_key(at)
        &&& row.public_key == keys[i].1
        &&& row.root_thumbprint == root
        &&& row.agent_id == peer.identity.agent_id
        &&& peer.identity.issuer is Some ==> row.issuer == peer.identity.issuer->0
    } by {
        lemma_key_is_pinned(v.peer_keys, keys, peer, root, now, i);
    }
    assert forall|at: (Seq<char>, Seq<char>)| at.0 != peer.identity.tls_cert.value implies (
    #[trigger] w.peer_keys.contains_key(at) <==> v.peer_keys.contains_key(at)) && (
    v.peer_keys.contains_key(at) ==> w.peer_keys[at] == v.peer_keys[at]) by {
        lemma_key_stays(v.peer_keys, keys, peer, root, now, at);
    }
}

/// An identity that is not the pinned one replaces nothing: the peer stays pinned as it was and
/// is suspended, and so it stays, whoever is introduced afterwards.
pub proof fn a_changed_identity_replaces_nothing(
    v: StoreView,
    root: Seq<char>,
    epoch: u64,
    peer: StoredPeerView,
    keys: Seq<(Seq<char>, Seq<u8>)>,
    now: i64,
)
    requires
        v.imports.contains_key(root),
        v.imports[root].tombstoned_at is None,
        v.imports[root].epoch == epoch,
        v.peers.contains_key(root),
        v.peers[root].status is Suspended || peer.identity != (PeerIdentityView {
            full_card_digest: peer.identity.full_card_digest,
            ..v.peers[root].peer.identity
        }),
    ensures
        ({
            let w = imports::after_introduction(v, root, epoch, peer, keys, now);
            &&& imports::intro_verdict(v, root, epoch, peer) is Suspended
            &&& w.peers[root].peer == v.peers[root].peer
            &&& w.peers[root].status is Suspended
            &&& w.peers.dom() == v.peers.dom()
            &&& forall|other: Seq<char>| other != root ==> #[trigger] w.peers[other] == v.peers[other]
            &&& w.peer_keys == v.peer_keys
            &&& w.imports == v.imports
        }),
{
    assert(imports::after_introduction(v, root, epoch, peer, keys, now).peers.dom() =~= v.peers.dom());
}

/// Without a live relationship at the epoch at which the introduction began nothing is written.
pub proof fn nobody_is_pinned_without_a_relationship(
    v: StoreView,
    root: Seq<char>,
    epoch: u64,
    peer: StoredPeerView,
    keys: Seq<(Seq<char>, Seq<u8>)>,
    now: i64,
)
    requires
        !v.imports.contains_key(root) || v.imports[root].tombstoned_at is Some
            || v.imports[root].epoch != epoch,
    ensures
        imports::after_introduction(v, root, epoch, peer, keys, now) == v,
        (imports::intro_verdict(v, root, epoch, peer) is EpochChanged) <==> (v.imports.contains_key(root)
            && v.imports[root].tombstoned_at is None),
        (imports::intro_verdict(v, root, epoch, peer) is NotImported) <==> !(v.imports.contains_key(root)
            && v.imports[root].tombstoned_at is None),
{
}

/// A refused call is noted under who claimed to call, from where and why, and counted; the log
/// takes no more than 1024 of them, and nothing else changes.
pub proof fn a_refused_call_is_counted(
    v: StoreView,
    claimed: Seq<char>,
    source: Seq<char>,
    class: Seq<char>,
    now: i64,
)
    ensures
        ({
            let k = (claimed, source, class);
            let w = imports::with_knock(v, k, now);
            let known = v.knocks.contains_key(k);
            let room = v.knocks.dom().len() < 1024;
            &&& w == (StoreView { knocks: w.knocks, ..v })
            &&& w.knocks.contains_key(k) <==> known || room
            &&& known ==> w.knocks[k].first_at == v.knocks[k].first_at && w.knocks[k].last_at == now
                && (v.knocks[k].count < u64::MAX ==> w.knocks[k].count == v.knocks[k].count + 1)
            &&& !known && room ==> w.knocks[k].first_at == now && w.knocks[k].last_at == now
                && w.knocks[k].count == 1
            &&& forall|other: (Seq<char>, Seq<char>, Seq<char>)|
                other != k ==> (#[trigger] w.knocks.contains_key(other) == v.knocks.contains_key(other))
                    && w.knocks[other] == v.knocks[other]
        }),
{
}

/// A hello is answered with a proof exactly where the versions agree, it asks for this endpoint
/// and there is a live relationship with who claims to call; any other is refused with a 403
/// that says nothing, and is noted for what was wrong with it.
pub proof fn a_hello_is_answered_where_it_is_expected<B: Fn(&IntroTranscript) -> Option<Vec<u8>>>(
    me: IntroIdentityView,
    terms: IntroTermsView,
    v: StoreView,
    w: StoreView,
    after: Option<PendingIntroView>,
    source: Seq<char>,
    dialer_tls: Seq<char>,
    exporter: Seq<u8>,
    hello: HelloView,
    build: B,
    now: i64,
    r: IntroResponseView,
)
    requires
        introduce::greets(
            me,
            terms,
            v,
            w,
            None,
            after,
            source,
            dialer_tls,
            exporter,
            Some(hello),
            build,
            now,
            r,
        ),
    ensures
        ({
            let versions = hello.protocol_version == terms.protocol_version && hello.token_version
                == terms.token_version;
            let known = v.imports.contains_key(hello.claimed_root)
                && v.imports[hello.claimed_root].tombstoned_at is None;
            let expected = versions && hello.target_root == me.own_root && known;
            &&& !expected ==> after is None && r.status == 403 && (r.content matches IntroContentView::Problem(
                p,
            ) && p.type_ == "urn:akson:error:"@ + "introduction-refused"@ && p.title
                == "the introduction was refused"@ && p.detail is None && p.status == 403)
            &&& !versions ==> w == imports::with_knock(
                v,
                (hello.claimed_root, source, "bad-version"@),
                now,
            )
            &&& versions && hello.target_root != me.own_root ==> w == imports::with_knock(
                v,
                (hello.claimed_root, source, "wrong-target"@),
                now,
            )
            &&& versions && hello.target_root == me.own_root && !known ==> w == imports::with_knock(
                v,
                (hello.claimed_root, source, "not-imported"@),
                now,
            )
            &&& expected ==> w == v && (r.status == 200 || r.status == 500)
            &&& expected && r.status == 200 ==> r.content is Material && after == Some(
                PendingIntroView { hello, epoch: v.imports[hello.claimed_root].epoch },
            )
            &&& expected && r.status == 500 ==> after is None && r.content is Problem
        }),
{
}

/// The proof that answers a hello is made over both roots, both certificates, the connection and
/// the nonce of the hello, as the one of the two who answers.
pub proof fn an_answer_is_proved_over_the_connection<B: Fn(&IntroTranscript) -> Option<Vec<u8>>>(
    me: IntroIdentityView,
    terms: IntroTermsView,
    v: StoreView,
    w: StoreView,
    after: Option<PendingIntroView>,
    source: Seq<char>,
    dialer_tls: Seq<char>,
    exporter: Seq<u8>,
    hello: HelloView,
    build: B,
    now: i64,
    r: IntroResponseView,
) -> (made: (IntroTranscript, Vec<u8>))
    requires
        introduce::greets(
            me,
            terms,
            v,
            w,
            None,
            after,
            source,
            dialer_tls,
            exporter,
            Some(hello),
            build,
            now,
            r,
        ),
        r.status == 200,
    ensures
        call_ensures(build, (&made.0,), Some(made.1)),
        r.content == IntroContentView::Material(made.1@),
        made.0.role is Responder,
        made.0.dialer_root@ == hello.claimed_root,
        made.0.responder_root@ == me.own_root,
        made.0.dialer_tls_sha256@ == dialer_tls,
        made.0.responder_tls_sha256@ == me.tls_sha256,
        made.0.tls_exporter@ == outside::base64url_of(exporter),
        made.0.nonce@ == hello.nonce,
        made.0.protocol_version == terms.protocol_version,
        made.0.token_version == terms.token_version,
        made.0.key_binding_sha256@.len() == 0,
{
    assert(introduce::knock_class(me, terms, v, hello) is None);
    let (t, material) = choose|t: IntroTranscript, material: Option<Vec<u8>>|
        t@ == introduce::transcript_of(
            terms,
            Role::Responder,
            hello.claimed_root,
            me.own_root,
            dialer_tls,
            me.tls_sha256,
            exporter,
            hello.nonce,
        ) && #[trigger] call_ensures(build, (&t,), material) && match material {
            Some(bytes) => after == Some(
                PendingIntroView { hello, epoch: v.imports[hello.claimed_root].epoch },
            ) && r == (IntroResponseView {
                status: 200,
                content: IntroContentView::Material(bytes@),
            }),
            None => after is None && r == introduce::internal_response(),
        };
    assert(material is Some);
    (t, material->0)
}

/// The second flight is verified against the root of the hello and the certificate of the
/// connection, over both roots, both certificates, the connection and the nonce, as the one of
/// the two who calls; and whoever is pinned by it is who was verified.
pub proof fn a_caller_is_verified_over_the_connection<
    V: Fn(&str, &IntroTranscript, &str) -> Option<VerifiedPeer>,
>(
    me: IntroIdentityView,
    terms: IntroTermsView,
    v: StoreView,
    w: StoreView,
    hello: HelloView,
    epoch: u64,
    after: Option<PendingIntroView>,
    source: Seq<char>,
    dialer_tls: Seq<char>,
    exporter: Seq<u8>,
    verify: V,
    now: i64,
    r: IntroResponseView,
) -> (made: (&'static str, IntroTranscript, &'static str, Option<VerifiedPeer>))
    requires
        introduce::completes(
            me,
            terms,
            v,
            w,
            Some(PendingIntroView { hello, epoch }),
            after,
            source,
            dialer_tls,
            exporter,
            true,
            verify,
            now,
            r,
        ),
        v.imports.contains_key(hello.claimed_root),
        v.imports[hello.claimed_root].tombstoned_at is None,
    ensures
        after is None,
        call_ensures(verify, (made.0, &made.1, made.2), made.3),
        made.0@ == hello.claimed_root,
        made.2@ == dialer_tls,
        made.1.role is Dialer,
        made.1.dialer_root@ == hello.claimed_root,
        made.1.responder_root@ == me.own_root,
        made.1.dialer_tls_sha256@ == dialer_tls,
        made.1.responder_tls_sha256@ == me.tls_sha256,
        made.1.tls_exporter@ == outside::base64url_of(exporter),
        made.1.nonce@ == hello.nonce,
        made.3 is None ==> r.status == 403 && w == imports::with_knock(
            v,
            (hello.claimed_root, source, "bad-proof"@),
            now,
        ),
        (made.3 matches Some(found) ==> match found.identity {
            Err(_) => r.status == 403 && w == v,
            Ok(identity) => {
                let outcome = imports::intro_verdict(
                    v,
                    hello.claimed_root,
                    epoch,
                    StoredPeerView { identity: identity@, local_note: Seq::empty() },
                );
                let named = identity@.agent_card_key.value.len() > 0;
                &&& (r.status == 200 && r.content is Acknowledged) <==> named && (outcome is Committed
                    || outcome is AlreadyActive)
                &&& (r.status == 409) <==> outcome is Suspended
                &&& (r.status == 403) <==> outcome is NotImported || outcome is EpochChanged
                &&& r.status == 500 ==> w == v
                &&& r.status == 200 ==> w == imports::after_introduction(
                    v,
                    hello.claimed_root,
                    epoch,
                    StoredPeerView { identity: identity@, local_note: Seq::empty() },
                    introduce::usable_keys(found.keys@),
                    now,
                )
            },
        }),
{
    let (root, t, tls, found) = choose|root: &str, t: IntroTranscript, tls: &str, found: Option<VerifiedPeer>|
        root@ == hello.claimed_root && t@ == introduce::transcript_of(
            terms,
            Role::Dialer,
            hello.claimed_root,
            me.own_root,
            dialer_tls,
            me.tls_sha256,
            exporter,
            hello.nonce,
        ) && tls@ == dialer_tls && #[trigger] call_ensures(verify, (root, &t, tls), found) && match found {
            None => w == imports::with_knock(v, (hello.claimed_root, source, "bad-proof"@), now) && r
                == introduce::refusal(),
            Some(peer) => match peer.identity {
                Err(_) => w == v && r == introduce::refusal(),
                Ok(identity) => {
                    let stored = introduce::pinned(identity@);
                    &&& w == introduce::committed_state(
                        v,
                        hello.claimed_root,
                        epoch,
                        stored,
                        introduce::usable_keys(peer.keys@),
                        now,
                    )
                    &&& r == introduce::commit_response(
                        imports::intro_verdict(v, hello.claimed_root, epoch, stored),
                        introduce::is_unusable(stored),
                    )
                },
            },
        };
    (root, t, tls, found)
}

/// The two sides of a connection mean the same: what the one who calls holds the answer against
/// is what the one who answers proves, and what the caller proves is what is verified of it.
pub proof fn both_sides_mean_the_same(
    caller: IntroIdentityView,
    called: IntroIdentityView,
    terms: IntroTermsView,
    import: PeerImportView,
    exporter: Seq<u8>,
    nonce: Seq<u8>,
)
    requires
        import.root_thumbprint == called.own_root,
    ensures
        ({
            let dial = introduce::dial_of(
                caller,
                terms,
                import,
                called.tls_sha256,
                exporter,
                nonce,
            );
            &&& dial.root == import.root_thumbprint
            &&& dial.epoch == import.epoch
            &&& dial.hello.target_root == called.own_root
            &&& dial.hello.claimed_root == caller.own_root
            &&& dial.hello.nonce == outside::base64url_of(nonce)
            &&& dial.hello.protocol_version == terms.protocol_version
            &&& dial.hello.token_version == terms.token_version
            &&& dial.responder_tls == called.tls_sha256
            &&& dial.their_transcript == introduce::transcript_of(
                terms,
                Role::Responder,
                dial.hello.claimed_root,
                called.own_root,
                caller.tls_sha256,
                called.tls_sha256,
                exporter,
                dial.hello.nonce,
            )
            &&& dial.my_transcript == introduce::transcript_of(
                terms,
                Role::Dialer,
                dial.hello.claimed_root,
                called.own_root,
                caller.tls_sha256,
                called.tls_sha256,
                exporter,
                dial.hello.nonce,
            )
            &&& dial.my_transcript.role is Dialer
            &&& dial.their_transcript.role is Responder
        }),
{
}

/// An answer to a flight is good exactly where its status is 200 and its body can be read; a 403
/// is a refusal, and any other status is named.
pub proof fn a_flight_is_judged_by_its_status(answer: FlightAnswer, fault: Seq<char>)
    ensures
        ({
            let e = introduce::flight_error(answer, fault);
            match answer {
                FlightAnswer::Broken(why) => e == Some(IntroduceErrorView::Http(why@)),
                FlightAnswer::TooLarge { status } => {
                    &&& e is Some
                    &&& (e->0 is Refused) <==> status == 403
                    &&& (e->0 is Status) <==> status != 403 && status != 200
                    &&& (e->0 matches IntroduceErrorView::Status(s) ==> s == status)
                    &&& status == 200 ==> e == Some(IntroduceErrorView::Http("response too large"@))
                },
                FlightAnswer::Response { status, readable } => {
                    &&& e is None <==> status == 200 && readable
                    &&& status == 403 ==> e == Some(IntroduceErrorView::Refused)
                    &&& status != 403 && status != 200 ==> e == Some(IntroduceErrorView::Status(status))
                    &&& status == 200 && !readable ==> e == Some(IntroduceErrorView::Verify(fault))
                },
            }
        }),
{
}

/// What the operator is told of an introduction that failed: a refusal is a 403, a relationship
/// without an address a 400, anything else a 502.
pub proof fn a_failed_introduction_is_told(e: IntroduceErrorView)
    ensures
        ({
            let p = introduce::introduction_failure(e);
            &&& (p.status == 403) <==> e is Refused
            &&& (p.status == 400) <==> e is NoEndpoint
            &&& p.status == 403 || p.status == 400 || p.status == 502
            &&& e is Refused ==> p.type_ == "urn:akson:error:"@ + "introduction-refused"@
            &&& e is NoEndpoint ==> p.type_ == "urn:akson:error:"@ + "no-endpoint"@
            &&& p.status == 502 ==> p.type_ == "urn:akson:error:"@ + "introduction-failed"@
            &&& p.title == introduce::error_text(e)
            &&& (e matches IntroduceErrorView::Status(s) ==> p.title == "introduction failed with status "@
                + crate::numerals::decimal(s as int))
            &&& (e matches IntroduceErrorView::Verify(why) ==> p.title
                == "the peer's proof failed verification: "@ + why)
            &&& (e matches IntroduceErrorView::Io(why) ==> p.title == "io: "@ + why)
            &&& (e matches IntroduceErrorView::Http(why) ==> p.title == "http: "@ + why)
            &&& (e matches IntroduceErrorView::Store(why) ==> p.title == "committing the peer failed: "@ + why)
            &&& (e matches IntroduceErrorView::Tls(why) ==> p.title == why)
            &&& (e matches IntroduceErrorView::NotCommitted(o) ==> p.title
                == "the introduction could not be committed: "@ + introduce::outcome_name(o))
        }),
{
}

/// Every live relationship is listed, under its label, with its root, address, epoch and day; and
/// nothing else is.
pub proof fn relationships_are_listed(v: StoreView, list: Seq<PeerImportView>, root: Seq<char>, i: int)
    requires
        imports::imports_listed(v, list),
    ensures
        v.imports.contains_key(root) && v.imports[root].tombstoned_at is None ==> exists|j: int|
            0 <= j < list.len() && (#[trigger] list[j]).root_thumbprint == root
                && list[j].endpoint_hint == v.imports[root].endpoint_hint && list[j].epoch
                == v.imports[root].epoch && list[j].added_at == v.imports[root].added_at && (
            v.imports[root].label matches Some(label) ==> list[j].label == label),
        0 <= i < list.len() ==> v.imports.contains_key(list[i].root_thumbprint)
            && v.imports[list[i].root_thumbprint].tombstoned_at is None
            && v.imports[list[i].root_thumbprint].epoch == list[i].epoch,
        forall|a: int, b: int|
            0 <= a < b < list.len() ==> text::text_le((#[trigger] list[a]).label, (#[trigger] list[b]).label),
{
    if v.imports.contains_key(root) && v.imports[root].tombstoned_at is None {
        let j = lists::every_row_is_listed(
            list,
            v.imports,
            |k: Seq<char>, row: ImportRowView| row.tombstoned_at is None,
            |k: Seq<char>, row: ImportRowView| imports::import_shown(k, row),
            |a: (Seq<char>, ImportRowView), b: (Seq<char>, ImportRowView)| imports::by_label(a, b),
            root,
        );
        assert(list[j].root_thumbprint == root);
    }
    if 0 <= i < list.len() {
        let k = lists::what_is_listed_is_a_row(
            list,
            v.imports,
            |k: Seq<char>, row: ImportRowView| row.tombstoned_at is None,
            |k: Seq<char>, row: ImportRowView| imports::import_shown(k, row),
            |a: (Seq<char>, ImportRowView), b: (Seq<char>, ImportRowView)| imports::by_label(a, b),
            i,
        );
        assert(list[i].root_thumbprint == k);
    }
    assert forall|a: int, b: int| 0 <= a < b < list.len() implies text::text_le(
        (#[trigger] list[a]).label,
        (#[trigger] list[b]).label,
    ) by {
        let ks = lists::a_list_is_in_order(
            list,
            v.imports,
            |k: Seq<char>, row: ImportRowView| row.tombstoned_at is None,
            |k: Seq<char>, row: ImportRowView| imports::import_shown(k, row),
            |a: (Seq<char>, ImportRowView), b: (Seq<char>, ImportRowView)| imports::by_label(a, b),
            a,
            b,
        );
    }
}

/// Every pinned peer is listed, with its name, its endpoint and where it stands; and nothing else
/// is.
pub proof fn peers_are_listed(v: StoreView, list: Seq<PeerSummaryView>, root: Seq<char>, i: int)
    requires
        peers::peers_listed(v, list),
    ensures
        v.peers.contains_key(root) ==> exists|j: int|
            0 <= j < list.len() && (#[trigger] list[j]).agent_id == v.peers[root].peer.identity.agent_id
                && list[j].endpoint_id == v.peers[root].peer.identity.endpoint_id && list[j].status == (
            match v.peers[root].status {
                PeerStatus::Pending => "pending"@,
                PeerStatus::Active => "active"@,
                PeerStatus::Suspended(_) => "suspended"@,
            }),
        0 <= i < list.len() ==> exists|k: Seq<char>| #[trigger]
            v.peers.contains_key(k) && v.peers[k].peer.identity.agent_id == list[i].agent_id
                && v.peers[k].peer.identity.endpoint_id == list[i].endpoint_id,
{
    if v.peers.contains_key(root) {
        let j = lists::every_row_is_listed(
            list,
            v.peers,
            |k: Seq<char>, row: PeerRowView| true,
            |k: Seq<char>, row: PeerRowView| peers::peer_summary(k, row),
            |a: (Seq<char>, PeerRowView), b: (Seq<char>, PeerRowView)| peers::by_name(a, b),
            root,
        );
        assert(list[j].agent_id == v.peers[root].peer.identity.agent_id);
    }
    if 0 <= i < list.len() {
        let k = lists::what_is_listed_is_a_row(
            list,
            v.peers,
            |k: Seq<char>, row: PeerRowView| true,
            |k: Seq<char>, row: PeerRowView| peers::peer_summary(k, row),
            |a: (Seq<char>, PeerRowView), b: (Seq<char>, PeerRowView)| peers::by_name(a, b),
            i,
        );
        assert(v.peers.contains_key(k));
    }
}

/// Every refused call that was noted is listed, with who claimed to call, from where, why it was
/// refused, when first and last, and how often; and nothing else is.
pub proof fn refused_calls_are_listed(
    v: StoreView,
    list: Seq<KnockView>,
    k: (Seq<char>, Seq<char>, Seq<char>),
    i: int,
)
    requires
        imports::knocks_listed(v, list),
    ensures
        v.knocks.contains_key(k) ==> exists|j: int|
            0 <= j < list.len() && (#[trigger] list[j]).claimed_root == k.0 && list[j].source == k.1
                && list[j].refusal_class == k.2 && list[j].first_at == v.knocks[k].first_at
                && list[j].last_at == v.knocks[k].last_at && list[j].count == v.knocks[k].count,
        0 <= i < list.len() ==> v.knocks.contains_key(
            (list[i].claimed_root, list[i].source, list[i].refusal_class),
        ),
        forall|a: int, b: int|
            0 <= a < b < list.len() ==> (#[trigger] list[a]).last_at >= (#[trigger] list[b]).last_at,
{
    if v.knocks.contains_key(k) {
        let j = lists::every_row_is_listed(
            list,
            v.knocks,
            |k: (Seq<char>, Seq<char>, Seq<char>), row: KnockRowView| true,
            |k: (Seq<char>, Seq<char>, Seq<char>), row: KnockRowView| imports::knock_shown(k, row),
            |
                a: ((Seq<char>, Seq<char>, Seq<char>), KnockRowView),
                b: ((Seq<char>, Seq<char>, Seq<char>), KnockRowView),
            |
                imports::by_recency(a, b),
            k,
        );
        assert(list[j].claimed_root == k.0);
    }
    if 0 <= i < list.len() {
        let at = lists::what_is_listed_is_a_row(
            list,
            v.knocks,
            |k: (Seq<char>, Seq<char>, Seq<char>), row: KnockRowView| true,
            |k: (Seq<char>, Seq<char>, Seq<char>), row: KnockRowView| imports::knock_shown(k, row),
            |
                a: ((Seq<char>, Seq<char>, Seq<char>), KnockRowView),
                b: ((Seq<char>, Seq<char>, Seq<char>), KnockRowView),
            |
                imports::by_recency(a, b),
            i,
        );
        assert((list[i].claimed_root, list[i].source, list[i].refusal_class) == at);
    }
    assert forall|a: int, b: int| 0 <= a < b < list.len() implies (#[trigger] list[a]).last_at >= (
    #[trigger] list[b]).last_at by {
        let ks = lists::a_list_is_in_order(
            list,
            v.knocks,
            |k: (Seq<char>, Seq<char>, Seq<char>), row: KnockRowView| true,
            |k: (Seq<char>, Seq<char>, Seq<char>), row: KnockRowView| imports::knock_shown(k, row),
            |
                a: ((Seq<char>, Seq<char>, Seq<char>), KnockRowView),
                b: ((Seq<char>, Seq<char>, Seq<char>), KnockRowView),
            |
                imports::by_recency(a, b),
            a,
            b,
        );
    }
}

/// A dial that ends well pins who was verified, under the relationship as it was when the dial
/// began, and says whether it was new; where nothing was pinned, it says why.
pub proof fn a_dial_ends_as_the_pinning_does(
    v: StoreView,
    w: StoreView,
    dial: DialView,
    peer: VerifiedPeer,
    now: i64,
    r: Result<(crate::identity::PeerIdentity, imports::IntroCommitOutcome), introduce::IntroduceError>,
)
    requires
        introduce::dialed(v, w, dial, peer, now, r),
    ensures
        (peer.identity matches Err(why) ==> w == v && (r matches Err(e) && e@
            == IntroduceErrorView::Verify(why@))),
        (peer.identity matches Ok(identity) ==> {
            let stored = StoredPeerView { identity: identity@, local_note: Seq::empty() };
            let outcome = imports::intro_verdict(v, dial.root, dial.epoch, stored);
            let done = outcome is Committed || outcome is AlreadyActive;
            &&& r is Ok <==> done && identity@.agent_card_key.value.len() > 0
            &&& (r matches Ok((i, o)) ==> i@ == identity@ && o@ == outcome && w
                == imports::after_introduction(
                v,
                dial.root,
                dial.epoch,
                stored,
                introduce::usable_keys(peer.keys@),
                now,
            ))
            &&& !done ==> (r matches Err(e) && e@ == IntroduceErrorView::NotCommitted(outcome))
            &&& done && r is Err ==> w == v
        }),
{
}

/// Without the certificate of the caller and the binding to the connection nothing is verified:
/// every flight is refused, and so is one that is none of the two.
pub proof fn a_flight_needs_its_connection<
    B: Fn(&IntroTranscript) -> Option<Vec<u8>>,
    V: Fn(&str, &IntroTranscript, &str) -> Option<VerifiedPeer>,
>(
    me: IntroIdentityView,
    terms: IntroTermsView,
    v: StoreView,
    w: StoreView,
    before: Option<PendingIntroView>,
    after: Option<PendingIntroView>,
    path: Seq<char>,
    source: Seq<char>,
    tls: Option<Seq<char>>,
    exporter: Option<Seq<u8>>,
    reading: introduce::IntroReading,
    build: B,
    verify: V,
    now: i64,
    r: IntroResponseView,
)
    requires
        introduce::responds(
            me,
            terms,
            v,
            w,
            before,
            after,
            path,
            source,
            tls,
            exporter,
            reading,
            build,
            verify,
            now,
            r,
        ),
        tls is None || exporter is None || (path != terms.hello_path && path != terms.complete_path),
    ensures
        w == v,
        after == before,
        r.status == 403,
{
}

/// Every key of a verified peer that could be read is one to be kept, for its purpose; and no
/// other is.
pub proof fn every_readable_key_is_kept(keys: Seq<introduce::KeyReading>, i: int, j: int)
    ensures
        0 <= i < keys.len() ==> (keys[i].key matches Some(key) ==> introduce::usable_keys(keys).contains(
            (keys[i].purpose@, key@),
        )),
        0 <= j < introduce::usable_keys(keys).len() ==> exists|k: int|
            0 <= k < keys.len() && (#[trigger] keys[k]).key is Some && introduce::usable_keys(keys)[j]
                == (keys[k].purpose@, keys[k].key->0@),
    decreases keys.len(),
{
    if keys.len() > 0 {
        let rest = keys.drop_last();
        let before = introduce::usable_keys(rest);
        let all = introduce::usable_keys(keys);
        every_readable_key_is_kept(rest, i, j);
        if 0 <= i < keys.len() {
            if let Some(key) = keys[i].key {
                let want = (keys[i].purpose@, key@);
                if i < rest.len() {
                    assert(rest[i] == keys[i]);
                    let k = choose|k: int| 0 <= k < before.len() && before[k] == want;
                    assert(all[k] == want);
                } else {
                    assert(all[all.len() - 1] == want);
                }
            }
        }
        if 0 <= j < all.len() {
            if j < before.len() {
                let k = choose|k: int|
                    0 <= k < rest.len() && (#[trigger] rest[k]).key is Some && before[j] == (
                        rest[k].purpose@,
                        rest[k].key->0@,
                    );
                assert(keys[k] == rest[k]);
                assert(all[j] == before[j]);
            } else {
                assert(keys[keys.len() - 1].key is Some);
            }
        }
    }
}

} // verus!
