//! Pinned peers, the keys that verify what they send, and standing approvals.
use crate::identity::{PeerStatus, StoredPeer, StoredPeerView};
use crate::store::rows::{
    PeerKeyRow, PeerKeyRowView, PeerRow, PeerRowView, PolicyRow, PolicyRowView,
};
use crate::store::{Store, StoreError, StoreView};
use crate::table::{Pair, Record, pair};
use crate::table;
use crate::text::{copy_texts, is_before, join_lines, read_lines, same_text};
use crate::text;
use vstd::prelude::*;
use vstd::string::*;

verus! {

/// A verification key of a peer, with the identity it belongs to.
#[derive(Debug, Clone, PartialEq, Eq)]
pub struct PeerKey {
    pub agent_id: String,
    pub issuer: String,
    pub public_key: [u8; 32],
    /// The root of the relationship; empty where it is not known.
    pub root_thumbprint: String,
}

/// The view of [`PeerKey`].
#[verifier::ext_equal]
pub struct PeerKeyView {
    pub agent_id: Seq<char>,
    pub issuer: Seq<char>,
    pub public_key: Seq<u8>,
    pub root_thumbprint: Seq<char>,
}

impl View for PeerKey {
    type V = PeerKeyView;

    open spec fn view(&self) -> PeerKeyView {
        PeerKeyView {
            agent_id: self.agent_id@,
            issuer: self.issuer@,
            public_key: self.public_key@,
            root_thumbprint: self.root_thumbprint@,
        }
    }
}

impl Record for PeerKey {
    fn dup(&self) -> (r: Self) {
        let r = PeerKey {
            agent_id: self.agent_id.clone(),
            issuer: self.issuer.clone(),
            public_key: self.public_key,
            root_thumbprint: self.root_thumbprint.clone(),
        };
        r
    }
}

/// A peer in a list.
#[derive(Debug, Clone, PartialEq, Eq)]
pub struct PeerSummary {
    pub agent_id: String,
    pub endpoint_id: String,
    pub status: String,
}

/// The view of [`PeerSummary`].
#[verifier::ext_equal]
pub struct PeerSummaryView {
    pub agent_id: Seq<char>,
    pub endpoint_id: Seq<char>,
    pub status: Seq<char>,
}

impl View for PeerSummary {
    type V = PeerSummaryView;

    open spec fn view(&self) -> PeerSummaryView {
        PeerSummaryView {
            agent_id: self.agent_id@,
            endpoint_id: self.endpoint_id@,
            status: self.status@,
        }
    }
}

impl Record for PeerSummary {
    fn dup(&self) -> (r: Self) {
        let r = PeerSummary {
            agent_id: self.agent_id.clone(),
            endpoint_id: self.endpoint_id.clone(),
            status: self.status.clone(),
        };
        r
    }
}

/// A standing approval: tasks of these types from one peer run without being asked
/// for, up to a size. No type in the list, no approval.
#[derive(Debug, Clone, PartialEq, Eq)]
pub struct AutoApprovePolicy {
    pub task_types: Vec<String>,
    pub max_response_bytes: u64,
}

/// The view of [`AutoApprovePolicy`].
#[verifier::ext_equal]
pub struct AutoApprovePolicyView {
    pub task_types: Seq<Seq<char>>,
    pub max_response_bytes: u64,
}

impl View for AutoApprovePolicy {
    type V = AutoApprovePolicyView;

    open spec fn view(&self) -> AutoApprovePolicyView {
        AutoApprovePolicyView {
            task_types: text::views(self.task_types@),
            max_response_bytes: self.max_response_bytes,
        }
    }
}

impl Record for AutoApprovePolicy {
    fn dup(&self) -> (r: Self) {
        let r = AutoApprovePolicy {
            task_types: copy_texts(&self.task_types),
            max_response_bytes: self.max_response_bytes,
        };
        r
    }
}

/// The state with a peer pinned under its root. A peer that is pinned already
/// keeps its status and the generation in which it came.
pub open spec fn with_peer(v: StoreView, peer: StoredPeerView, status: PeerStatus) -> StoreView {
    let root = peer.identity.agent_card_key.value;
    let row = if v.peers.contains_key(root) {
        PeerRowView { peer, ..v.peers[root] }
    } else {
        PeerRowView { peer, status, created_generation: v.state_generation }
    };
    StoreView { peers: v.peers.insert(root, row), ..v }
}

/// `root` is the first of the roots under which a peer of this name is pinned.
pub open spec fn first_named(
    peers: Map<Seq<char>, PeerRowView>,
    agent_id: Seq<char>,
    root: Seq<char>,
) -> bool {
    &&& is_named(peers, agent_id, root)
    &&& forall|other: Seq<char>| #[trigger]
        is_named(peers, agent_id, other) ==> text::text_le(root, other)
}

/// A peer of this name is pinned under `root`.
pub open spec fn is_named(
    peers: Map<Seq<char>, PeerRowView>,
    agent_id: Seq<char>,
    root: Seq<char>,
) -> bool {
    peers.contains_key(root) && peers[root].peer.identity.agent_id == agent_id
}

/// A verification key of the peer with this issuer and name stands under `k`.
pub open spec fn is_key_of(
    keys: Map<(Seq<char>, Seq<char>), PeerKeyRowView>,
    k: (Seq<char>, Seq<char>),
    issuer: Seq<char>,
    agent_id: Seq<char>,
) -> bool {
    keys.contains_key(k) && keys[k].issuer == issuer && keys[k].agent_id == agent_id
}

/// Some key of the peer with this issuer and name stands under this certificate.
pub open spec fn is_certificate_of(
    keys: Map<(Seq<char>, Seq<char>), PeerKeyRowView>,
    fingerprint: Seq<char>,
    issuer: Seq<char>,
    agent_id: Seq<char>,
) -> bool {
    exists|purpose: Seq<char>| #[trigger] is_key_of(keys, (fingerprint, purpose), issuer, agent_id)
}

/// The state without the peers of a name, their keys and their approvals.
pub open spec fn without_named(v: StoreView, agent_id: Seq<char>) -> StoreView {
    StoreView {
        peers: table::without(
            v.peers,
            |root: Seq<char>, row: PeerRowView| row.peer.identity.agent_id == agent_id,
        ),
        peer_keys: table::without(
            v.peer_keys,
            |k: (Seq<char>, Seq<char>), row: PeerKeyRowView| row.agent_id == agent_id,
        ),
        auto_approve: table::without(
            v.auto_approve,
            |root: Seq<char>, row: PolicyRowView| row.agent_id == agent_id,
        ),
        ..v
    }
}

/// A peer as a list shows it.
pub open spec fn peer_summary(root: Seq<char>, row: PeerRowView) -> PeerSummaryView {
    PeerSummaryView {
        agent_id: row.peer.identity.agent_id,
        endpoint_id: row.peer.identity.endpoint_id,
        status: row.status.column(),
    }
}

/// Peers in the order of their names.
pub open spec fn by_name(a: (Seq<char>, PeerRowView), b: (Seq<char>, PeerRowView)) -> bool {
    text::text_le(a.1.peer.identity.agent_id, b.1.peer.identity.agent_id)
}

/// The largest response that a policy row approves.
pub open spec fn stored_limit(max_response_bytes: u64) -> i64 {
    if max_response_bytes <= i64::MAX {
        max_response_bytes as i64
    } else {
        0
    }
}

/// What a policy row approves.
pub open spec fn policy_of(row: PolicyRowView) -> AutoApprovePolicyView {
    AutoApprovePolicyView {
        task_types: text::kept_lines(row.task_types),
        max_response_bytes: if row.max_response_bytes < 0 {
            0
        } else {
            row.max_response_bytes as u64
        },
    }
}

/// The peers, by name.
pub open spec fn peers_listed(v: StoreView, list: Seq<PeerSummaryView>) -> bool {
    table::lists(
        list,
        v.peers,
        |k: Seq<char>, row: PeerRowView| true,
        |k: Seq<char>, row: PeerRowView| peer_summary(k, row),
        |a: (Seq<char>, PeerRowView), b: (Seq<char>, PeerRowView)| by_name(a, b),
    )
}

impl Store {
    /// Pins a peer that is active at once: a direct act of the operator.
    pub fn put_peer(&mut self, peer: &StoredPeer) -> (r: Result<(), StoreError>)
        requires
            old(self).wf(),
        ensures
            final(self).wf(),
            match r {
                Ok(_) => peer@.identity.agent_card_key.value.len() > 0 && final(self)@ == with_peer(
                    old(self)@,
                    peer@,
                    PeerStatus::Active,
                ),
                Err(e) => peer@.identity.agent_card_key.value.len() == 0 && e is Corrupt
                    && final(self)@ == old(self)@,
            },
    {
        self.put_peer_status(peer, PeerStatus::Active)
    }

    /// Pins a peer with a status, or replaces the identity of one that is pinned
    /// already. A peer without a root is refused.
    pub fn put_peer_status(&mut self, peer: &StoredPeer, status_on_insert: PeerStatus) -> (r:
        Result<(), StoreError>)
        requires
            old(self).wf(),
        ensures
            final(self).wf(),
            match r {
                Ok(_) => peer@.identity.agent_card_key.value.len() > 0 && final(self)@ == with_peer(
                    old(self)@,
                    peer@,
                    status_on_insert,
                ),
                Err(e) => peer@.identity.agent_card_key.value.len() == 0 && e is Corrupt
                    && final(self)@ == old(self)@,
            },
    {
        let root = peer.identity.agent_card_key.value.clone();
        if root.as_str().is_empty() {
            return Err(
                StoreError::Corrupt("a peer must carry an identity root thumbprint".to_owned()),
            );
        }
        let row = match self.peers.get(&root) {
            Some(known) => PeerRow {
                peer: peer.dup(),
                status: known.status,
                created_generation: known.created_generation,
            },
            None => PeerRow {
                peer: peer.dup(),
                status: status_on_insert,
                created_generation: self.state_generation,
            },
        };
        self.peers.put(root, row);
        Ok(())
    }

    /// The position of the first peer of a name, by root.
    fn find_named(&self, agent_id: &str) -> (at: Option<usize>)
        requires
            self.wf(),
        ensures
            match at {
                Some(i) => i < self.peers.entries().len() && first_named(
                    self@.peers,
                    agent_id@,
                    self.peers.entries()[i as int].0,
                ) && self@.peers[self.peers.entries()[i as int].0]
                    == self.peers.entries()[i as int].1,
                None => forall|root: Seq<char>| !#[trigger] is_named(self@.peers, agent_id@, root),
            },
    {
        let ghost name = agent_id@;
        let ghost keep = |k: Seq<char>, v: PeerRowView| v.peer.identity.agent_id == name;
        let ghost le = |a: (Seq<char>, PeerRowView), b: (Seq<char>, PeerRowView)|
            text::text_le(a.0, b.0);
        proof {
            text::lemma_text_le_ranks();
            self.peers.lemma_entries();
        }
        let kept = |k: &String, v: &PeerRow| -> (r: bool)
            ensures (r == (v@.peer.identity.agent_id == agent_id@))
        {
            same_text(&v.peer.identity.agent_id, agent_id)
        };
        let no_later = |k: &String, v: &PeerRow, l: &String, w: &PeerRow| -> (r: bool)
            ensures (r == text::text_le(k@, l@))
        {
            !is_before(l, k)
        };
        let p = self.peers.ordered(kept, no_later, Ghost(keep), Ghost(le));
        let ghost rows = self.peers.entries();
        if p.len() == 0 {
            proof {
                assert forall|root: Seq<char>| !#[trigger] is_named(self@.peers, name, root) by {
                    if is_named(self@.peers, name, root) {
                        let i = choose|i: int|
                            0 <= i < rows.len() && (#[trigger] rows[i]).0 == root && rows[i].1
                                == self@.peers[root];
                        assert(p@.contains(i as usize));
                    }
                }
            }
            None
        } else {
            let i: usize = p[0];
            proof {
                let root = rows[i as int].0;
                assert(keep(rows[p@[0] as int].0, rows[p@[0] as int].1));
                assert forall|other: Seq<char>| #[trigger]
                    is_named(self@.peers, name, other) implies text::text_le(root, other) by {
                    let j = choose|j: int|
                        0 <= j < rows.len() && (#[trigger] rows[j]).0 == other && rows[j].1
                            == self@.peers[other];
                    assert(p@.contains(j as usize));
                    let m = choose|m: int| 0 <= m < p@.len() && p@[m] == j as usize;
                    if m > 0 {
                        assert(le(rows[p@[0] as int], rows[p@[m] as int]));
                    } else {
                        text::lemma_text_before_irreflexive(root);
                    }
                }
            }
            Some(i)
        }
    }

    /// Where the first peer of a name stands.
    pub fn peer_status(&self, agent_id: &str) -> (r: Result<Option<PeerStatus>, StoreError>)
        requires
            self.wf(),
        ensures
            match r {
                Ok(Some(status)) => exists|root: Seq<char>| #[trigger]
                    first_named(self@.peers, agent_id@, root) && status
                        == self@.peers[root].status,
                Ok(None) => forall|root: Seq<char>|
                    !#[trigger] is_named(self@.peers, agent_id@, root),
                Err(_) => false,
            },
    {
        match self.find_named(agent_id) {
            Some(i) => Ok(Some(self.peers.value_at(i).status)),
            None => Ok(None),
        }
    }

    /// Where the peer behind a root stands.
    pub fn peer_status_by_root(&self, root_thumbprint: &str) -> (r: Result<
        Option<PeerStatus>,
        StoreError,
    >)
        requires
            self.wf(),
        ensures
            r == Ok::<Option<PeerStatus>, StoreError>(
                if self@.peers.contains_key(root_thumbprint@) {
                    Some(self@.peers[root_thumbprint@].status)
                } else {
                    None
                },
            ),
    {
        match self.peers.get(&root_thumbprint.to_owned()) {
            Some(row) => Ok(Some(row.status)),
            None => Ok(None),
        }
    }

    /// Forgets the peers of a name, with their keys and standing approvals, and
    /// says whether there was one. The removal is audited.
    pub fn remove_peer(&mut self, agent_id: &str, now: i64) -> (r: Result<bool, StoreError>)
        requires
            old(self).wf(),
        ensures
            final(self).wf(),
            match r {
                Ok(true) => (exists|root: Seq<char>| #[trigger]
                    is_named(old(self)@.peers, agent_id@, root)) && final(self)@ == without_named(
                    old(self)@,
                    agent_id@,
                ).audited(now, "peer.removed"@, agent_id@),
                Ok(false) => (forall|root: Seq<char>|
                    !#[trigger] is_named(old(self)@.peers, agent_id@, root)) && final(self)@
                    == old(self)@,
                Err(_) => false,
            },
    {
        match self.find_named(agent_id) {
            None => {
                return Ok(false);
            },
            Some(i) => {
                assert(is_named(self@.peers, agent_id@, self.peers.entries()[i as int].0));
            },
        }
        let ghost name = agent_id@;
        let ghost hit = |root: Seq<char>, row: PeerRowView| row.peer.identity.agent_id == name;
        let ghost key_hit = |k: (Seq<char>, Seq<char>), row: PeerKeyRowView| row.agent_id == name;
        let ghost policy_hit = |root: Seq<char>, row: PolicyRowView| row.agent_id == name;
        let gone = |k: &String, v: &PeerRow| -> (r: bool)
            ensures (r == (v@.peer.identity.agent_id == agent_id@))
        {
            same_text(&v.peer.identity.agent_id, agent_id)
        };
        let key_gone = |k: &Pair, v: &PeerKeyRow| -> (r: bool)
            ensures (r == (v@.agent_id == agent_id@))
        {
            same_text(&v.agent_id, agent_id)
        };
        let policy_gone = |k: &String, v: &PolicyRow| -> (r: bool)
            ensures (r == (v@.agent_id == agent_id@))
        {
            same_text(&v.agent_id, agent_id)
        };
        let _ = self.peers.remove_where(gone, Ghost(hit));
        let _ = self.peer_keys.remove_where(key_gone, Ghost(key_hit));
        let _ = self.auto_approve.remove_where(policy_gone, Ghost(policy_hit));
        assert(self@ =~= without_named(old(self)@, agent_id@));
        let _ = self.audit.append(now, "peer.removed", agent_id);
        Ok(true)
    }

    /// The first pinned peer of a name, by root.
    pub fn get_peer(&self, agent_id: &str) -> (r: Result<Option<StoredPeer>, StoreError>)
        requires
            self.wf(),
        ensures
            match r {
                Ok(Some(peer)) => exists|root: Seq<char>| #[trigger]
                    first_named(self@.peers, agent_id@, root) && peer@ == self@.peers[root].peer,
                Ok(None) => forall|root: Seq<char>|
                    !#[trigger] is_named(self@.peers, agent_id@, root),
                Err(_) => false,
            },
    {
        match self.find_named(agent_id) {
            Some(i) => Ok(Some(self.peers.value_at(i).peer.dup())),
            None => Ok(None),
        }
    }

    /// The pinned peer behind a root.
    pub fn get_peer_by_root(&self, root_thumbprint: &str) -> (r: Result<
        Option<StoredPeer>,
        StoreError,
    >)
        requires
            self.wf(),
        ensures
            match r {
                Ok(Some(peer)) => self@.peers.contains_key(root_thumbprint@) && peer@
                    == self@.peers[root_thumbprint@].peer,
                Ok(None) => !self@.peers.contains_key(root_thumbprint@),
                Err(_) => false,
            },
    {
        match self.peers.get(&root_thumbprint.to_owned()) {
            Some(row) => Ok(Some(row.peer.dup())),
            None => Ok(None),
        }
    }

    /// The one peer of a name: none where there is no such peer, and none where
    /// there are several.
    pub fn sole_peer_named(&self, agent_id: &str) -> (r: Result<Option<StoredPeer>, StoreError>)
        requires
            self.wf(),
        ensures
            match r {
                Ok(Some(peer)) => exists|root: Seq<char>|
                    (forall|other: Seq<char>| #[trigger]
                        is_named(self@.peers, agent_id@, other) <==> other == root) && peer@ == (
                    #[trigger] self@.peers[root]).peer,
                Ok(None) => forall|root: Seq<char>| #[trigger]
                    is_named(self@.peers, agent_id@, root) ==> exists|other: Seq<char>|
                        other != root && #[trigger] is_named(self@.peers, agent_id@, other),
                Err(_) => false,
            },
    {
        match self.find_named(agent_id) {
            None => Ok(None),
            Some(i) => {
                let root = self.peers.key_at(i);
                match self.peer_named_with_other_root(agent_id, root) {
                    Ok(false) => {
                        proof {
                            let the = root@;
                            assert forall|other: Seq<char>| #[trigger]
                                is_named(self@.peers, agent_id@, other) <==> other == the by {}
                            assert(self@.peers[the].peer == self.peers.entries()[i as int].1.peer);
                        }
                        Ok(Some(self.peers.value_at(i).peer.dup()))
                    },
                    _ => {
                        assert(is_named(self@.peers, agent_id@, root@));
                        Ok(None)
                    },
                }
            },
        }
    }

    /// Whether a peer of this name is pinned under another root.
    pub fn peer_named_with_other_root(&self, agent_id: &str, root_thumbprint: &str) -> (r: Result<
        bool,
        StoreError,
    >)
        requires
            self.wf(),
        ensures
            r == Ok::<bool, StoreError>(
                exists|root: Seq<char>|
                    root != root_thumbprint@ && #[trigger] is_named(self@.peers, agent_id@, root),
            ),
    {
        let ghost name = agent_id@;
        let ghost not_this = root_thumbprint@;
        let ghost hit = |root: Seq<char>, row: PeerRowView|
            root != not_this && row.peer.identity.agent_id == name;
        let found = |k: &String, v: &PeerRow| -> (r: bool)
            ensures (r == (k@ != root_thumbprint@ && v@.peer.identity.agent_id == agent_id@))
        {
            !same_text(k, root_thumbprint) && same_text(&v.peer.identity.agent_id, agent_id)
        };
        match self.peers.find(found, Ghost(hit)) {
            Some(i) => {
                assert(is_named(self@.peers, name, self.peers.entries()[i as int].0));
                Ok(true)
            },
            None => Ok(false),
        }
    }

    /// The pinned peers, by name.
    pub fn list_peers(&self) -> (r: Result<Vec<PeerSummary>, StoreError>)
        requires
            self.wf(),
        ensures
            match r {
                Ok(list) => peers_listed(self@, table::seen(list@)),
                Err(_) => false,
            },
    {
        let ghost keep = |k: Seq<char>, v: PeerRowView| true;
        let ghost show = |k: Seq<char>, v: PeerRowView| peer_summary(k, v);
        let ghost le = |a: (Seq<char>, PeerRowView), b: (Seq<char>, PeerRowView)| by_name(a, b);
        proof {
            text::lemma_text_le_ranks();
            self.peers.lemma_entries();
        }
        let kept = |k: &String, v: &PeerRow| -> (r: bool)
            ensures (r)
        {
            true
        };
        let no_later = |k: &String, v: &PeerRow, l: &String, w: &PeerRow| -> (r: bool)
            ensures (r == by_name((k@, v@), (l@, w@)))
        {
            !is_before(&w.peer.identity.agent_id, &v.peer.identity.agent_id)
        };
        let p = self.peers.ordered(kept, no_later, Ghost(keep), Ghost(le));
        let ghost rows = self.peers.entries();
        let mut list: Vec<PeerSummary> = Vec::new();
        let mut i: usize = 0;
        while i < p.len()
            invariant
                rows == self.peers.entries(),
                table::picks(p@, rows, keep, le),
                i <= p@.len(),
                list@.len() == i,
                forall|j: int|
                    0 <= j < i ==> (#[trigger] list@[j])@ == peer_summary(
                        rows[p@[j] as int].0,
                        rows[p@[j] as int].1,
                    ),
            decreases p@.len() - i,
        {
            assert(p@[i as int] < rows.len());
            let row = self.peers.value_at(p[i]);
            list.push(
                PeerSummary {
                    agent_id: row.peer.identity.agent_id.clone(),
                    endpoint_id: row.peer.identity.endpoint_id.clone(),
                    status: row.status.as_column().to_owned(),
                },
            );
            i = i + 1;
        }
        proof {
            table::lemma_picks_list(p@, rows, keep, le, show, table::seen(list@));
        }
        Ok(list)
    }

    /// Keeps a verification key of a peer, under the fingerprint of its
    /// certificate; a key that stood there is replaced.
    pub fn put_peer_key(
        &mut self,
        tls_fingerprint: &str,
        purpose: &str,
        agent_id: &str,
        issuer: &str,
        public_key: &[u8; 32],
        root_thumbprint: &str,
        now: i64,
    ) -> (r: Result<(), StoreError>)
        requires
            old(self).wf(),
        ensures
            r is Ok,
            final(self).wf(),
            final(self)@ == (StoreView {
                peer_keys: old(self)@.peer_keys.insert(
                    (tls_fingerprint@, purpose@),
                    PeerKeyRowView {
                        agent_id: agent_id@,
                        issuer: issuer@,
                        public_key: public_key@,
                        root_thumbprint: root_thumbprint@,
                        updated_at: now,
                    },
                ),
                ..old(self)@
            }).audited(now, "peer.key_persisted"@, agent_id@ + ":"@ + purpose@),
    {
        self.peer_keys.put(
            pair(tls_fingerprint, purpose),
            PeerKeyRow {
                agent_id: agent_id.to_owned(),
                issuer: issuer.to_owned(),
                public_key: *public_key,
                root_thumbprint: root_thumbprint.to_owned(),
                updated_at: now,
            },
        );
        let detail = agent_id.to_owned().concat(":").concat(purpose);
        let _ = self.audit.append(now, "peer.key_persisted", &detail);
        Ok(())
    }

    /// The key of a peer for a purpose, by the fingerprint of the certificate that
    /// it presented.
    pub fn peer_key(&self, tls_fingerprint: &str, purpose: &str) -> (r: Result<
        Option<PeerKey>,
        StoreError,
    >)
        requires
            self.wf(),
        ensures
            match r {
                Ok(Some(key)) => {
                    let k = (tls_fingerprint@, purpose@);
                    self@.peer_keys.contains_key(k) && key@ == (PeerKeyView {
                        agent_id: self@.peer_keys[k].agent_id,
                        issuer: self@.peer_keys[k].issuer,
                        public_key: self@.peer_keys[k].public_key,
                        root_thumbprint: self@.peer_keys[k].root_thumbprint,
                    })
                },
                Ok(None) => !self@.peer_keys.contains_key((tls_fingerprint@, purpose@)),
                Err(_) => false,
            },
    {
        match self.peer_keys.get(&pair(tls_fingerprint, purpose)) {
            Some(row) => Ok(
                Some(
                    PeerKey {
                        agent_id: row.agent_id.clone(),
                        issuer: row.issuer.clone(),
                        public_key: row.public_key,
                        root_thumbprint: row.root_thumbprint.clone(),
                    },
                ),
            ),
            None => Ok(None),
        }
    }

    /// The fingerprint of a certificate of the peer with this issuer and name.
    pub fn peer_tls_fingerprint(&self, issuer: &str, agent_id: &str) -> (r: Result<
        Option<String>,
        StoreError,
    >)
        requires
            self.wf(),
        ensures
            match r {
                Ok(Some(fingerprint)) => is_certificate_of(
                    self@.peer_keys,
                    fingerprint@,
                    issuer@,
                    agent_id@,
                ),
                Ok(None) => forall|k: (Seq<char>, Seq<char>)|
                    !#[trigger] is_key_of(self@.peer_keys, k, issuer@, agent_id@),
                Err(_) => false,
            },
    {
        let ghost by = issuer@;
        let ghost name = agent_id@;
        let ghost hit = |k: (Seq<char>, Seq<char>), row: PeerKeyRowView|
            row.issuer == by && row.agent_id == name;
        let found = |k: &Pair, v: &PeerKeyRow| -> (r: bool)
            ensures (r == (v@.issuer == issuer@ && v@.agent_id == agent_id@))
        {
            same_text(&v.issuer, issuer) && same_text(&v.agent_id, agent_id)
        };
        match self.peer_keys.find(found, Ghost(hit)) {
            Some(i) => {
                let k = self.peer_keys.key_at(i);
                let fingerprint = k.first.clone();
                proof {
                    assert(hit(k@, self@.peer_keys[k@]));
                    assert(is_key_of(self@.peer_keys, (fingerprint@, k.second@), by, name));
                }
                Ok(Some(fingerprint))
            },
            None => Ok(None),
        }
    }

    /// The name and status of the peer behind a root.
    pub fn peer_by_root(&self, root_thumbprint: &str) -> (r: Result<
        Option<(String, String)>,
        StoreError,
    >)
        requires
            self.wf(),
        ensures
            match r {
                Ok(Some((agent, status))) => self@.peers.contains_key(root_thumbprint@) && agent@
                    == self@.peers[root_thumbprint@].peer.identity.agent_id && status@
                    == self@.peers[root_thumbprint@].status.column(),
                Ok(None) => !self@.peers.contains_key(root_thumbprint@),
                Err(_) => false,
            },
    {
        match self.peers.get(&root_thumbprint.to_owned()) {
            Some(row) => Ok(
                Some((row.peer.identity.agent_id.clone(), row.status.as_column().to_owned())),
            ),
            None => Ok(None),
        }
    }

    /// Sets the standing approval of a peer, in place of the one it had.
    pub fn put_auto_approve(
        &mut self,
        agent_id: &str,
        root_thumbprint: &str,
        policy: &AutoApprovePolicy,
        now: i64,
    ) -> (r: Result<(), StoreError>)
        requires
            old(self).wf(),
        ensures
            r is Ok,
            final(self).wf(),
            final(self)@ == (StoreView {
                auto_approve: old(self)@.auto_approve.insert(
                    root_thumbprint@,
                    PolicyRowView {
                        agent_id: agent_id@,
                        task_types: text::joined(policy@.task_types),
                        max_response_bytes: stored_limit(policy@.max_response_bytes),
                        updated_at: now,
                    },
                ),
                ..old(self)@
            }),
    {
        let limit: i64 = if policy.max_response_bytes <= i64::MAX as u64 {
            policy.max_response_bytes as i64
        } else {
            0
        };
        self.auto_approve.put(
            root_thumbprint.to_owned(),
            PolicyRow {
                agent_id: agent_id.to_owned(),
                task_types: join_lines(&policy.task_types),
                max_response_bytes: limit,
                updated_at: now,
            },
        );
        Ok(())
    }

    /// The standing approval of the peer behind a root; none means: always ask.
    pub fn auto_approve_for_root(&self, root_thumbprint: &str) -> (r: Result<
        Option<AutoApprovePolicy>,
        StoreError,
    >)
        requires
            self.wf(),
        ensures
            match r {
                Ok(Some(policy)) => self@.auto_approve.contains_key(root_thumbprint@) && policy@
                    == policy_of(self@.auto_approve[root_thumbprint@]),
                Ok(None) => !self@.auto_approve.contains_key(root_thumbprint@),
                Err(_) => false,
            },
    {
        match self.auto_approve.get(&root_thumbprint.to_owned()) {
            Some(row) => Ok(
                Some(
                    AutoApprovePolicy {
                        task_types: read_lines(&row.task_types),
                        max_response_bytes: if row.max_response_bytes < 0 {
                            0
                        } else {
                            row.max_response_bytes as u64
                        },
                    },
                ),
            ),
            None => Ok(None),
        }
    }

    /// Removes a standing approval, and says whether there was one.
    pub fn delete_auto_approve(&mut self, root_thumbprint: &str) -> (r: Result<bool, StoreError>)
        requires
            old(self).wf(),
        ensures
            final(self).wf(),
            r == Ok::<bool, StoreError>(old(self)@.auto_approve.contains_key(root_thumbprint@)),
            final(self)@ == (StoreView {
                auto_approve: old(self)@.auto_approve.remove(root_thumbprint@),
                ..old(self)@
            }),
    {
        let there = self.auto_approve.remove(&root_thumbprint.to_owned());
        Ok(there)
    }
}

/// A standing approval is read back as it was set, where each task type fits a
/// line and the limit fits a signed number.
pub proof fn approvals_read_back(policy: AutoApprovePolicyView, row: PolicyRowView)
    requires
        row.task_types == text::joined(policy.task_types),
        row.max_response_bytes == stored_limit(policy.max_response_bytes),
        policy.max_response_bytes <= i64::MAX,
        forall|i: int|
            0 <= i < policy.task_types.len() ==> text::fits_a_line(#[trigger] policy.task_types[i]),
    ensures
        policy_of(row) == policy,
{
    text::lines_read_back(policy.task_types);
}

/// Pinning a peer again never changes where it stands: a relationship that was
/// suspended is not reopened by storing its identity anew.
pub proof fn pinning_again_keeps_the_status(v: StoreView, peer: StoredPeerView, status: PeerStatus)
    requires
        v.peers.contains_key(peer.identity.agent_card_key.value),
    ensures
        with_peer(v, peer, status).peers[peer.identity.agent_card_key.value].status
            == v.peers[peer.identity.agent_card_key.value].status,
{
}

/// After a peer is removed by name, no pinned peer, no key and no approval of
/// that name is left.
pub proof fn removal_leaves_nothing_of_a_name(v: StoreView, agent_id: Seq<char>)
    ensures
        forall|root: Seq<char>| !#[trigger] is_named(
            without_named(v, agent_id).peers,
            agent_id,
            root,
        ),
        forall|k: (Seq<char>, Seq<char>)| #[trigger]
            without_named(v, agent_id).peer_keys.contains_key(k) ==> without_named(
                v,
                agent_id,
            ).peer_keys[k].agent_id != agent_id,
        forall|root: Seq<char>| #[trigger]
            without_named(v, agent_id).auto_approve.contains_key(root) ==> without_named(
                v,
                agent_id,
            ).auto_approve[root].agent_id != agent_id,
{
}

} // verus!
