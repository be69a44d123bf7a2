//! Relationships: whom the operator has agreed to deal with, the introductions
//! that turn such a relationship into a pinned peer, and the ones refused.
use crate::identity::{
    PeerIdentityView, PeerStatus, StoredPeer, StoredPeerView, SuspendReason, detect_change,
};
use crate::identity;
use crate::store::peers;
use crate::store::rows::{
    ImportRow, ImportRowView, KnockRow, KnockRowView, PeerKeyRow, PeerKeyRowView, PeerRow,
    PeerRowView,
};
use crate::store::{KNOCK_LOG_CAP, Store, StoreError, StoreView};
use crate::table::{Pair, Record, Triple, pair};
use crate::table;
use crate::text::{is_before, same_text};
use crate::text;
use vstd::prelude::*;
use vstd::string::*;

verus! {

/// A live relationship: a root that the operator agreed to, under a label of their
/// own, before any contact.
#[derive(Debug, Clone, PartialEq, Eq)]
pub struct PeerImport {
    pub root_thumbprint: String,
    pub label: String,
    /// Where the peer may be reached; nothing vouches for it.
    pub endpoint_hint: String,
    /// Advances when the relationship is removed.
    pub epoch: u64,
    pub added_at: i64,
}

/// The view of [`PeerImport`].
#[verifier::ext_equal]
pub struct PeerImportView {
    pub root_thumbprint: Seq<char>,
    pub label: Seq<char>,
    pub endpoint_hint: Seq<char>,
    pub epoch: u64,
    pub added_at: i64,
}

impl View for PeerImport {
    type V = PeerImportView;

    open spec fn view(&self) -> PeerImportView {
        PeerImportView {
            root_thumbprint: self.root_thumbprint@,
            label: self.label@,
            endpoint_hint: self.endpoint_hint@,
            epoch: self.epoch,
            added_at: self.added_at,
        }
    }
}

impl Record for PeerImport {
    fn dup(&self) -> (r: Self) {
        let r = PeerImport {
            root_thumbprint: self.root_thumbprint.clone(),
            label: self.label.clone(),
            endpoint_hint: self.endpoint_hint.clone(),
            epoch: self.epoch,
            added_at: self.added_at,
        };
        r
    }
}

/// Refused introductions of one kind.
#[derive(Debug, Clone, PartialEq, Eq)]
pub struct Knock {
    pub claimed_root: String,
    pub source: String,
    pub refusal_class: String,
    pub first_at: i64,
    pub last_at: i64,
    pub count: u64,
}

/// The view of [`Knock`].
#[verifier::ext_equal]
pub struct KnockView {
    pub claimed_root: Seq<char>,
    pub source: Seq<char>,
    pub refusal_class: Seq<char>,
    pub first_at: i64,
    pub last_at: i64,
    pub count: u64,
}

impl View for Knock {
    type V = KnockView;

    open spec fn view(&self) -> KnockView {
        KnockView {
            claimed_root: self.claimed_root@,
            source: self.source@,
            refusal_class: self.refusal_class@,
            first_at: self.first_at,
            last_at: self.last_at,
            count: self.count,
        }
    }
}

impl Record for Knock {
    fn dup(&self) -> (r: Self) {
        let r = Knock {
            claimed_root: self.claimed_root.clone(),
            source: self.source.clone(),
            refusal_class: self.refusal_class.clone(),
            first_at: self.first_at,
            last_at: self.last_at,
            count: self.count,
        };
        r
    }
}

/// What came of a change to the relationships.
#[derive(Debug, Clone, Copy, PartialEq, Eq, Structural)]
pub enum ImportOutcome {
    /// The relationship was recorded.
    Added,
    /// The change was made.
    Updated,
    /// There is a live relationship with this root; nothing changed.
    DuplicateRoot,
    /// The label is that of another live relationship; nothing changed.
    LabelTaken,
    /// There is no live relationship with this root; nothing changed.
    UnknownRoot,
}

/// What came of a verified introduction.
#[derive(Debug, Clone, PartialEq, Eq)]
pub enum IntroCommitOutcome {
    /// The identity and its keys are pinned; the peer is active.
    Committed,
    /// The same identity was pinned already.
    AlreadyActive,
    /// There is no live relationship with this root; nothing was written.
    NotImported,
    /// The relationship was removed since the introduction began; nothing was
    /// written.
    EpochChanged,
    /// The peer is suspended, for this reason.
    Suspended(String),
}

/// The view of [`IntroCommitOutcome`].
pub enum IntroCommitOutcomeView {
    Committed,
    AlreadyActive,
    NotImported,
    EpochChanged,
    Suspended(Seq<char>),
}

impl View for IntroCommitOutcome {
    type V = IntroCommitOutcomeView;

    open spec fn view(&self) -> IntroCommitOutcomeView {
        match self {
            IntroCommitOutcome::Committed => IntroCommitOutcomeView::Committed,
            IntroCommitOutcome::AlreadyActive => IntroCommitOutcomeView::AlreadyActive,
            IntroCommitOutcome::NotImported => IntroCommitOutcomeView::NotImported,
            IntroCommitOutcome::EpochChanged => IntroCommitOutcomeView::EpochChanged,
            IntroCommitOutcome::Suspended(why) => IntroCommitOutcomeView::Suspended(why@),
        }
    }
}

/// There is a live relationship with this root.
pub open spec fn is_live(v: StoreView, root: Seq<char>) -> bool {
    v.imports.contains_key(root) && v.imports[root].tombstoned_at is None
}

/// The relationship with this root has this label.
pub open spec fn holds_label(v: StoreView, root: Seq<char>, label: Seq<char>) -> bool {
    v.imports.contains_key(root) && v.imports[root].label == Some(label)
}

/// The relationship with a label. There is at most one.
pub open spec fn labelled(v: StoreView, label: Seq<char>) -> Option<PeerImportView> {
    if exists|root: Seq<char>| #[trigger] holds_label(v, root, label) {
        let root = choose|root: Seq<char>| #[trigger] holds_label(v, root, label);
        Some(import_shown(root, v.imports[root]))
    } else {
        None
    }
}

/// A label names one relationship.
pub proof fn lemma_labelled(v: StoreView, root: Seq<char>, label: Seq<char>)
    requires
        v.consistent(),
        holds_label(v, root, label),
    ensures
        labelled(v, label) == Some(import_shown(root, v.imports[root])),
{
    let other = choose|other: Seq<char>| #[trigger] holds_label(v, other, label);
    assert(v.imports[root].label == v.imports[other].label);
}

/// The label is that of another relationship.
pub open spec fn label_taken(v: StoreView, root: Seq<char>, label: Seq<char>) -> bool {
    exists|other: Seq<char>| other != root && #[trigger] holds_label(v, other, label)
}

/// What comes of recording a relationship.
pub open spec fn add_verdict(v: StoreView, root: Seq<char>, label: Seq<char>) -> ImportOutcome {
    if is_live(v, root) {
        ImportOutcome::DuplicateRoot
    } else if label_taken(v, root, label) {
        ImportOutcome::LabelTaken
    } else {
        ImportOutcome::Added
    }
}

/// The state with a relationship recorded. One that was removed before comes back
/// under the epoch that its removal gave it.
pub open spec fn with_import(
    v: StoreView,
    root: Seq<char>,
    label: Seq<char>,
    endpoint_hint: Seq<char>,
    now: i64,
) -> StoreView {
    let epoch: u64 = if v.imports.contains_key(root) {
        v.imports[root].epoch
    } else {
        1
    };
    StoreView {
        imports: v.imports.insert(
            root,
            ImportRowView {
                label: Some(label),
                endpoint_hint,
                epoch,
                added_at: now,
                tombstoned_at: None,
            },
        ),
        ..v
    }
}

/// What comes of changing the label or the hint of a relationship.
pub open spec fn update_verdict(
    v: StoreView,
    root: Seq<char>,
    new_label: Option<Seq<char>>,
) -> ImportOutcome {
    if !is_live(v, root) {
        ImportOutcome::UnknownRoot
    } else if new_label is Some && label_taken(v, root, new_label.unwrap()) {
        ImportOutcome::LabelTaken
    } else {
        ImportOutcome::Updated
    }
}

/// The state with the label and the hint of a relationship changed.
pub open spec fn with_updated_import(
    v: StoreView,
    root: Seq<char>,
    new_label: Option<Seq<char>>,
    new_endpoint: Option<Seq<char>>,
) -> StoreView {
    let row = v.imports[root];
    StoreView {
        imports: v.imports.insert(
            root,
            ImportRowView {
                label: if new_label is Some {
                    new_label
                } else {
                    row.label
                },
                endpoint_hint: match new_endpoint {
                    Some(e) => e,
                    None => row.endpoint_hint,
                },
                ..row
            },
        ),
        ..v
    }
}

/// The state with a live relationship removed: its epoch advances, and its label
/// is free again.
pub open spec fn without_import(v: StoreView, root: Seq<char>, now: i64) -> StoreView {
    let row = v.imports[root];
    StoreView {
        imports: v.imports.insert(
            root,
            ImportRowView {
                label: None,
                epoch: (row.epoch + 1) as u64,
                tombstoned_at: Some(now),
                ..row
            },
        ),
        ..v
    }
}

/// The state with a whole relationship removed: with it go the pinned peer, its
/// keys and its standing approval.
pub open spec fn without_relationship(v: StoreView, root: Seq<char>, now: i64) -> StoreView {
    let w = without_import(v, root, now);
    if root.len() == 0 {
        w
    } else {
        StoreView {
            peers: w.peers.remove(root),
            peer_keys: table::without(
                w.peer_keys,
                |k: (Seq<char>, Seq<char>), row: PeerKeyRowView| row.root_thumbprint == root,
            ),
            auto_approve: w.auto_approve.remove(root),
            ..w
        }
    }
}

/// The label of a relationship; empty where it has none.
pub open spec fn label_text(row: ImportRowView) -> Seq<char> {
    match row.label {
        Some(l) => l,
        None => Seq::empty(),
    }
}

/// A relationship as callers see it.
pub open spec fn import_shown(root: Seq<char>, row: ImportRowView) -> PeerImportView {
    PeerImportView {
        root_thumbprint: root,
        label: label_text(row),
        endpoint_hint: row.endpoint_hint,
        epoch: row.epoch,
        added_at: row.added_at,
    }
}

/// Relationships in the order of their labels.
pub open spec fn by_label(a: (Seq<char>, ImportRowView), b: (Seq<char>, ImportRowView)) -> bool {
    text::text_le(label_text(a.1), label_text(b.1))
}

/// The state with a refused introduction recorded: one that is known counts up, and
/// a new one is dropped where the log is full.
pub open spec fn with_knock(
    v: StoreView,
    k: (Seq<char>, Seq<char>, Seq<char>),
    now: i64,
) -> StoreView {
    if v.knocks.contains_key(k) {
        let row = v.knocks[k];
        StoreView {
            knocks: v.knocks.insert(
                k,
                KnockRowView {
                    last_at: now,
                    count: if row.count == u64::MAX {
                        u64::MAX
                    } else {
                        (row.count + 1) as u64
                    },
                    ..row
                },
            ),
            ..v
        }
    } else if v.knocks.dom().len() >= KNOCK_LOG_CAP {
        v
    } else {
        StoreView {
            knocks: v.knocks.insert(k, KnockRowView { first_at: now, last_at: now, count: 1 }),
            ..v
        }
    }
}

/// Refused introductions as callers see them.
pub open spec fn knock_shown(
    k: (Seq<char>, Seq<char>, Seq<char>),
    row: KnockRowView,
) -> KnockView {
    KnockView {
        claimed_root: k.0,
        source: k.1,
        refusal_class: k.2,
        first_at: row.first_at,
        last_at: row.last_at,
        count: row.count,
    }
}

/// Refused introductions in their order: the most recent first, then by who
/// claimed to call.
pub open spec fn by_recency(
    a: ((Seq<char>, Seq<char>, Seq<char>), KnockRowView),
    b: ((Seq<char>, Seq<char>, Seq<char>), KnockRowView),
) -> bool {
    a.1.last_at > b.1.last_at || (a.1.last_at == b.1.last_at && text::text_le(a.0.0, b.0.0))
}

/// The keys of an introduction: for which purpose, and which.
pub open spec fn key_views(keys: Seq<(String, [u8; 32])>) -> Seq<(Seq<char>, Seq<u8>)> {
    keys.map_values(|k: (String, [u8; 32])| (k.0@, k.1@))
}

/// The keys with those of an introduction among them.
pub open spec fn with_keys(
    m: Map<(Seq<char>, Seq<char>), PeerKeyRowView>,
    keys: Seq<(Seq<char>, Seq<u8>)>,
    peer: StoredPeerView,
    root: Seq<char>,
    now: i64,
) -> Map<(Seq<char>, Seq<char>), PeerKeyRowView>
    decreases keys.len(),
{
    if keys.len() == 0 {
        m
    } else {
        with_keys(m, keys.drop_last(), peer, root, now).insert(
            (peer.identity.tls_cert.value, keys.last().0),
            PeerKeyRowView {
                agent_id: peer.identity.agent_id,
                issuer: match peer.identity.issuer {
                    Some(i) => i,
                    None => Seq::empty(),
                },
                public_key: keys.last().1,
                root_thumbprint: root,
                updated_at: now,
            },
        )
    }
}

/// Why an introduction suspends a pinned peer.
pub open spec fn suspension(pinned: PeerIdentityView, presented: PeerIdentityView) -> Option<
    SuspendReason,
> {
    match identity::change_of(pinned, presented) {
        Some(reason) => Some(reason),
        None => if pinned.agent_id != presented.agent_id {
            Some(SuspendReason::SubjectChanged)
        } else {
            None
        },
    }
}

/// What comes of a verified introduction.
pub open spec fn intro_verdict(
    v: StoreView,
    root: Seq<char>,
    expected_epoch: u64,
    peer: StoredPeerView,
) -> IntroCommitOutcomeView {
    if !is_live(v, root) {
        IntroCommitOutcomeView::NotImported
    } else if v.imports[root].epoch != expected_epoch {
        IntroCommitOutcomeView::EpochChanged
    } else if !v.peers.contains_key(root) {
        IntroCommitOutcomeView::Committed
    } else {
        match suspension(v.peers[root].peer.identity, peer.identity) {
            Some(reason) => IntroCommitOutcomeView::Suspended(reason.name()),
            None => if v.peers[root].status is Suspended {
                IntroCommitOutcomeView::Suspended("previously-suspended"@)
            } else {
                IntroCommitOutcomeView::AlreadyActive
            },
        }
    }
}

/// The state with the status of a pinned peer changed.
pub open spec fn with_status(v: StoreView, root: Seq<char>, status: PeerStatus) -> StoreView {
    if v.peers.contains_key(root) {
        StoreView {
            peers: v.peers.insert(root, PeerRowView { status, ..v.peers[root] }),
            ..v
        }
    } else {
        v
    }
}

/// The state after a verified introduction.
pub open spec fn after_introduction(
    v: StoreView,
    root: Seq<char>,
    expected_epoch: u64,
    peer: StoredPeerView,
    keys: Seq<(Seq<char>, Seq<u8>)>,
    now: i64,
) -> StoreView {
    match intro_verdict(v, root, expected_epoch, peer) {
        IntroCommitOutcomeView::NotImported | IntroCommitOutcomeView::EpochChanged => v,
        IntroCommitOutcomeView::Suspended(_) => match suspension(
            v.peers[root].peer.identity,
            peer.identity,
        ) {
            Some(reason) => with_status(v, root, PeerStatus::Suspended(reason)).audited(
                now,
                "peer.suspended"@,
                root,
            ),
            None => v,
        },
        IntroCommitOutcomeView::Committed | IntroCommitOutcomeView::AlreadyActive => {
            let w = with_status(peers::with_peer(v, peer, PeerStatus::Active), root, PeerStatus::Active);
            StoreView { peer_keys: with_keys(w.peer_keys, keys, peer, root, now), ..w }.audited(
                now,
                "peer.introduced"@,
                root,
            )
        },
    }
}

/// The live relationships, by label.
pub open spec fn imports_listed(v: StoreView, list: Seq<PeerImportView>) -> bool {
    table::lists(
        list,
        v.imports,
        |k: Seq<char>, row: ImportRowView| row.tombstoned_at is None,
        |k: Seq<char>, row: ImportRowView| import_shown(k, row),
        |a: (Seq<char>, ImportRowView), b: (Seq<char>, ImportRowView)| by_label(a, b),
    )
}

/// The refused introductions, the latest first.
pub open spec fn knocks_listed(v: StoreView, list: Seq<KnockView>) -> bool {
    table::lists(
        list,
        v.knocks,
        |k: (Seq<char>, Seq<char>, Seq<char>), row: KnockRowView| true,
        |k: (Seq<char>, Seq<char>, Seq<char>), row: KnockRowView| knock_shown(k, row),
        |
            a: ((Seq<char>, Seq<char>, Seq<char>), KnockRowView),
            b: ((Seq<char>, Seq<char>, Seq<char>), KnockRowView),
        |
            by_recency(a, b),
    )
}

impl Store {
    /// Whether a label is that of another relationship than the one with `root`.
    fn is_label_taken(&self, root: &str, label: &str) -> (r: bool)
        requires
            self.wf(),
        ensures
            r == label_taken(self@, root@, label@),
    {
        let ghost this = root@;
        let ghost name = label@;
        let ghost hit = |k: Seq<char>, row: ImportRowView| k != this && row.label == Some(name);
        let found = |k: &String, v: &ImportRow| -> (r: bool)
            ensures (r == (k@ != root@ && v@.label == Some(label@)))
        {
            if same_text(k, root) {
                false
            } else {
                match &v.label {
                    Some(l) => same_text(l, label),
                    None => false,
                }
            }
        };
        match self.imports.find(found, Ghost(hit)) {
            Some(i) => {
                assert(holds_label(self@, self.imports.entries()[i as int].0, name));
                true
            },
            None => false,
        }
    }

    /// Records a relationship that the operator agrees to. A live one with the
    /// same root is reported and left as it is, and a label is never taken over.
    pub fn add_peer_import(
        &mut self,
        root_thumbprint: &str,
        label: &str,
        endpoint_hint: &str,
        now: i64,
    ) -> (r: Result<ImportOutcome, StoreError>)
        requires
            old(self).wf(),
        ensures
            final(self).wf(),
            r == Ok::<ImportOutcome, StoreError>(
                add_verdict(old(self)@, root_thumbprint@, label@),
            ),
            final(self)@ == (if add_verdict(old(self)@, root_thumbprint@, label@) is Added {
                with_import(old(self)@, root_thumbprint@, label@, endpoint_hint@, now)
            } else {
                old(self)@
            }),
    {
        let root = root_thumbprint.to_owned();
        let mut epoch: u64 = 1;
        match self.imports.get(&root) {
            Some(row) => {
                if row.tombstoned_at.is_none() {
                    return Ok(ImportOutcome::DuplicateRoot);
                }
                epoch = row.epoch;
            },
            None => {},
        }
        if self.is_label_taken(root_thumbprint, label) {
            return Ok(ImportOutcome::LabelTaken);
        }
        self.imports.put(
            root,
            ImportRow {
                label: Some(label.to_owned()),
                endpoint_hint: endpoint_hint.to_owned(),
                epoch,
                added_at: now,
                tombstoned_at: None,
            },
        );
        proof {
            let v = old(self)@;
            assert(self@ =~= with_import(v, root_thumbprint@, label@, endpoint_hint@, now));
            lemma_labels_stay_unique(v, self@, root_thumbprint@, label@);
        }
        Ok(ImportOutcome::Added)
    }

    /// Changes the label or the hint of a live relationship. The epoch stays.
    pub fn update_peer_import(
        &mut self,
        root_thumbprint: &str,
        new_label: Option<&str>,
        new_endpoint: Option<&str>,
    ) -> (r: Result<ImportOutcome, StoreError>)
        requires
            old(self).wf(),
        ensures
            final(self).wf(),
            r == Ok::<ImportOutcome, StoreError>(
                update_verdict(old(self)@, root_thumbprint@, text::view_str(new_label)),
            ),
            final(self)@ == (if update_verdict(
                old(self)@,
                root_thumbprint@,
                text::view_str(new_label),
            ) is Updated {
                with_updated_import(
                    old(self)@,
                    root_thumbprint@,
                    text::view_str(new_label),
                    text::view_str(new_endpoint),
                )
            } else {
                old(self)@
            }),
    {
        let root = root_thumbprint.to_owned();
        let mut row = match self.imports.get(&root) {
            Some(row) => row.dup(),
            None => {
                return Ok(ImportOutcome::UnknownRoot);
            },
        };
        if row.tombstoned_at.is_some() {
            return Ok(ImportOutcome::UnknownRoot);
        }
        match new_label {
            Some(label) => {
                if self.is_label_taken(root_thumbprint, label) {
                    return Ok(ImportOutcome::LabelTaken);
                }
                row.label = Some(label.to_owned());
            },
            None => {},
        }
        match new_endpoint {
            Some(endpoint) => {
                row.endpoint_hint = endpoint.to_owned();
            },
            None => {},
        }
        let ghost name = row@.label.unwrap();
        self.imports.put(root, row);
        proof {
            let v = old(self)@;
            assert(self@ =~= with_updated_import(
                v,
                root_thumbprint@,
                text::view_str(new_label),
                text::view_str(new_endpoint),
            ));
            lemma_labels_stay_unique(v, self@, root_thumbprint@, name);
        }
        Ok(ImportOutcome::Updated)
    }

    /// Removes a live relationship: its epoch advances, so an introduction that
    /// began before cannot be committed, and its label is free. Says whether there
    /// was one. Where the epoch cannot advance, it refuses.
    pub fn remove_peer_import(&mut self, root_thumbprint: &str, now: i64) -> (r: Result<
        bool,
        StoreError,
    >)
        requires
            old(self).wf(),
        ensures
            final(self).wf(),
            match r {
                Ok(true) => is_live(old(self)@, root_thumbprint@)
                    && old(self)@.imports[root_thumbprint@].epoch < u64::MAX && final(self)@
                    == without_import(old(self)@, root_thumbprint@, now),
                Ok(false) => !is_live(old(self)@, root_thumbprint@) && final(self)@ == old(self)@,
                Err(e) => e is Corrupt && is_live(old(self)@, root_thumbprint@)
                    && old(self)@.imports[root_thumbprint@].epoch == u64::MAX && final(self)@
                    == old(self)@,
            },
    {
        let root = root_thumbprint.to_owned();
        let mut row = match self.imports.get(&root) {
            Some(row) => row.dup(),
            None => {
                return Ok(false);
            },
        };
        if row.tombstoned_at.is_some() {
            return Ok(false);
        }
        if row.epoch == u64::MAX {
            return Err(StoreError::Corrupt("the relationship epoch is exhausted".to_owned()));
        }
        row.epoch = row.epoch + 1;
        row.tombstoned_at = Some(now);
        row.label = None;
        self.imports.put(root, row);
        proof {
            let v = old(self)@;
            let w = self@;
            assert(w =~= without_import(v, root_thumbprint@, now));
            assert forall|a: Seq<char>, b: Seq<char>|
                w.imports.contains_key(a) && w.imports.contains_key(b) && (
                #[trigger] w.imports[a]).label is Some && w.imports[a].label == (
                #[trigger] w.imports[b]).label implies a == b by {
                assert(v.imports[a] == w.imports[a]);
                assert(v.imports[b] == w.imports[b]);
            }
        }
        Ok(true)
    }

    /// Removes a whole relationship in one step, with the pinned peer, its keys
    /// and its standing approval. Says whether there was one; where there was none,
    /// nothing changes.
    pub fn remove_relationship(&mut self, root_thumbprint: &str, now: i64) -> (r: Result<
        bool,
        StoreError,
    >)
        requires
            old(self).wf(),
        ensures
            final(self).wf(),
            match r {
                Ok(true) => is_live(old(self)@, root_thumbprint@)
                    && old(self)@.imports[root_thumbprint@].epoch < u64::MAX && final(self)@
                    == without_relationship(old(self)@, root_thumbprint@, now).audited(
                    now,
                    "peer.removed"@,
                    root_thumbprint@,
                ),
                Ok(false) => !is_live(old(self)@, root_thumbprint@) && final(self)@ == old(self)@,
                Err(e) => e is Corrupt && is_live(old(self)@, root_thumbprint@)
                    && old(self)@.imports[root_thumbprint@].epoch == u64::MAX && final(self)@
                    == old(self)@,
            },
    {
        match self.remove_peer_import(root_thumbprint, now) {
            Ok(true) => {},
            Ok(false) => {
                return Ok(false);
            },
            Err(e) => {
                return Err(e);
            },
        }
        let root = root_thumbprint.to_owned();
        if !root_thumbprint.is_empty() {
            let _ = self.peers.remove(&root);
            let ghost this = root_thumbprint@;
            let ghost hit = |k: (Seq<char>, Seq<char>), row: PeerKeyRowView|
                row.root_thumbprint == this;
            let gone = |k: &Pair, v: &PeerKeyRow| -> (r: bool)
                ensures (r == (v@.root_thumbprint == root_thumbprint@))
            {
                same_text(&v.root_thumbprint, root_thumbprint)
            };
            let _ = self.peer_keys.remove_where(gone, Ghost(hit));
            let _ = self.auto_approve.remove(&root);
        }
        assert(self@ =~= without_relationship(old(self)@, root_thumbprint@, now));
        let _ = self.audit.append(now, "peer.removed", root_thumbprint);
        Ok(true)
    }

    fn show_import(&self, i: usize) -> (r: PeerImport)
        requires
            self.wf(),
            i < self.imports.entries().len(),
            self.imports.entries()[i as int].1.label is Some,
        ensures
            r@ == import_shown(
                self.imports.entries()[i as int].0,
                self.imports.entries()[i as int].1,
            ),
    {
        let row = self.imports.value_at(i);
        let label = match &row.label {
            Some(l) => l.clone(),
            None => String::new(),
        };
        PeerImport {
            root_thumbprint: self.imports.key_at(i).clone(),
            label,
            endpoint_hint: row.endpoint_hint.clone(),
            epoch: row.epoch,
            added_at: row.added_at,
        }
    }

    /// The live relationship with a root.
    pub fn peer_import(&self, root_thumbprint: &str) -> (r: Result<Option<PeerImport>, StoreError>)
        requires
            self.wf(),
        ensures
            match r {
                Ok(Some(import)) => is_live(self@, root_thumbprint@) && import@ == import_shown(
                    root_thumbprint@,
                    self@.imports[root_thumbprint@],
                ),
                Ok(None) => !is_live(self@, root_thumbprint@),
                Err(_) => false,
            },
    {
        let ghost this = root_thumbprint@;
        let ghost hit = |k: Seq<char>, row: ImportRowView|
            k == this && row.tombstoned_at is None;
        let found = |k: &String, v: &ImportRow| -> (r: bool)
            ensures (r == (k@ == root_thumbprint@ && v@.tombstoned_at is None))
        {
            same_text(k, root_thumbprint) && v.tombstoned_at.is_none()
        };
        match self.imports.find(found, Ghost(hit)) {
            Some(i) => Ok(Some(self.show_import(i))),
            None => Ok(None),
        }
    }

    /// The live relationship with a label.
    pub fn peer_import_by_label(&self, label: &str) -> (r: Result<Option<PeerImport>, StoreError>)
        requires
            self.wf(),
        ensures
            match r {
                Ok(Some(import)) => labelled(self@, label@) == Some(import@) && is_live(self@, import@.root_thumbprint) && holds_label(
                    self@,
                    import@.root_thumbprint,
                    label@,
                ) && import@ == import_shown(
                    import@.root_thumbprint,
                    self@.imports[import@.root_thumbprint],
                ),
                Ok(None) => labelled(self@, label@) is None && forall|root: Seq<char>|
                    !#[trigger] holds_label(self@, root, label@),
                Err(_) => false,
            },
    {
        let ghost name = label@;
        let ghost hit = |k: Seq<char>, row: ImportRowView|
            row.label == Some(name) && row.tombstoned_at is None;
        let found = |k: &String, v: &ImportRow| -> (r: bool)
            ensures (r == (v@.label == Some(label@) && v@.tombstoned_at is None))
        {
            if v.tombstoned_at.is_some() {
                false
            } else {
                match &v.label {
                    Some(l) => same_text(l, label),
                    None => false,
                }
            }
        };
        match self.imports.find(found, Ghost(hit)) {
            Some(i) => {
                let import = self.show_import(i);
                proof {
                    lemma_labelled(self@, import@.root_thumbprint, label@);
                }
                Ok(Some(import))
            },
            None => Ok(None),
        }
    }

    /// The live relationships, by label.
    pub fn list_peer_imports(&self) -> (r: Result<Vec<PeerImport>, StoreError>)
        requires
            self.wf(),
        ensures
            match r {
                Ok(list) => imports_listed(self@, table::seen(list@)),
                Err(_) => false,
            },
    {
        let ghost keep = |k: Seq<char>, v: ImportRowView| v.tombstoned_at is None;
        let ghost show = |k: Seq<char>, v: ImportRowView| import_shown(k, v);
        let ghost le = |a: (Seq<char>, ImportRowView), b: (Seq<char>, ImportRowView)|
            by_label(a, b);
        proof {
            text::lemma_text_le_ranks();
            self.imports.lemma_entries();
        }
        let kept = |k: &String, v: &ImportRow| -> (r: bool)
            ensures (r == (v@.tombstoned_at is None))
        {
            v.tombstoned_at.is_none()
        };
        let no_later = |k: &String, v: &ImportRow, l: &String, w: &ImportRow| -> (r: bool)
            ensures (r == by_label((k@, v@), (l@, w@)))
        {
            !is_before(&label_or_empty(w), &label_or_empty(v))
        };
        let p = self.imports.ordered(kept, no_later, Ghost(keep), Ghost(le));
        let ghost rows = self.imports.entries();
        let mut list: Vec<PeerImport> = Vec::new();
        let mut i: usize = 0;
        while i < p.len()
            invariant
                self.wf(),
                rows == self.imports.entries(),
                table::picks(p@, rows, keep, le),
                keep == (|k: Seq<char>, v: ImportRowView| v.tombstoned_at is None),
                forall|i: int|
                    0 <= i < rows.len() ==> self@.imports.contains_key((#[trigger] rows[i]).0)
                        && self@.imports[rows[i].0] == rows[i].1,
                i <= p@.len(),
                list@.len() == i,
                forall|j: int|
                    0 <= j < i ==> (#[trigger] list@[j])@ == import_shown(
                        rows[p@[j] as int].0,
                        rows[p@[j] as int].1,
                    ),
            decreases p@.len() - i,
        {
            assert(p@[i as int] < rows.len());
            assert(rows[p@[i as int] as int].1.tombstoned_at is None);
            list.push(self.show_import(p[i]));
            i = i + 1;
        }
        proof {
            table::lemma_picks_list(p@, rows, keep, le, show, table::seen(list@));
        }
        Ok(list)
    }

    /// Records a refused introduction. A repetition counts up; the log is bounded,
    /// so that whoever calls from ever new places cannot make it grow.
    pub fn record_knock(
        &mut self,
        claimed_root: &str,
        source: &str,
        refusal_class: &str,
        now: i64,
    ) -> (r: Result<(), StoreError>)
        requires
            old(self).wf(),
        ensures
            r is Ok,
            final(self).wf(),
            final(self)@ == with_knock(
                old(self)@,
                (claimed_root@, source@, refusal_class@),
                now,
            ),
    {
        let k = Triple {
            first: claimed_root.to_owned(),
            second: source.to_owned(),
            third: refusal_class.to_owned(),
        };
        let known = match self.knocks.get(&k) {
            Some(row) => Some(
                KnockRow {
                    first_at: row.first_at,
                    last_at: now,
                    count: if row.count == u64::MAX {
                        u64::MAX
                    } else {
                        row.count + 1
                    },
                },
            ),
            None => None,
        };
        match known {
            Some(row) => {
                self.knocks.put(k, row);
            },
            None => {
                if self.knocks.size() as u64 >= KNOCK_LOG_CAP {
                    return Ok(());
                }
                self.knocks.put(k, KnockRow { first_at: now, last_at: now, count: 1 });
            },
        }
        Ok(())
    }

    /// The refused introductions, the most recent first.
    pub fn knocks(&self) -> (r: Result<Vec<Knock>, StoreError>)
        requires
            self.wf(),
        ensures
            match r {
                Ok(list) => knocks_listed(self@, table::seen(list@)),
                Err(_) => false,
            },
    {
        let ghost keep = |k: (Seq<char>, Seq<char>, Seq<char>), v: KnockRowView| true;
        let ghost show = |k: (Seq<char>, Seq<char>, Seq<char>), v: KnockRowView| knock_shown(k, v);
        let ghost le = |
            a: ((Seq<char>, Seq<char>, Seq<char>), KnockRowView),
            b: ((Seq<char>, Seq<char>, Seq<char>), KnockRowView),
        |
            by_recency(a, b);
        proof {
            text::lemma_text_le_ranks();
            self.knocks.lemma_entries();
        }
        let kept = |k: &Triple, v: &KnockRow| -> (r: bool)
            ensures (r)
        {
            true
        };
        let no_later = |k: &Triple, v: &KnockRow, l: &Triple, w: &KnockRow| -> (r: bool)
            ensures (r == by_recency((k@, v@), (l@, w@)))
        {
            v.last_at > w.last_at || (v.last_at == w.last_at && !is_before(&l.first, &k.first))
        };
        let p = self.knocks.ordered(kept, no_later, Ghost(keep), Ghost(le));
        let ghost rows = self.knocks.entries();
        let mut list: Vec<Knock> = Vec::new();
        let mut i: usize = 0;
        while i < p.len()
            invariant
                rows == self.knocks.entries(),
                table::picks(p@, rows, keep, le),
                i <= p@.len(),
                list@.len() == i,
                forall|j: int|
                    0 <= j < i ==> (#[trigger] list@[j])@ == knock_shown(
                        rows[p@[j] as int].0,
                        rows[p@[j] as int].1,
                    ),
            decreases p@.len() - i,
        {
            assert(p@[i as int] < rows.len());
            let k = self.knocks.key_at(p[i]);
            let row = self.knocks.value_at(p[i]);
            list.push(
                Knock {
                    claimed_root: k.first.clone(),
                    source: k.second.clone(),
                    refusal_class: k.third.clone(),
                    first_at: row.first_at,
                    last_at: row.last_at,
                    count: row.count,
                },
            );
            i = i + 1;
        }
        proof {
            table::lemma_picks_list(p@, rows, keep, le, show, table::seen(list@));
        }
        Ok(list)
    }

    /// Commits a verified introduction, if the relationship is live and still in
    /// the epoch in which the introduction began. The same identity again changes
    /// nothing of substance; another identity suspends the peer and pins nothing;
    /// and a suspended peer stays suspended. `keys` are the peer's verification
    /// keys, each with its purpose.
    pub fn commit_introduced_peer(
        &mut self,
        root_thumbprint: &str,
        expected_epoch: u64,
        peer: &StoredPeer,
        keys: &Vec<(String, [u8; 32])>,
        now: i64,
    ) -> (r: Result<IntroCommitOutcome, StoreError>)
        requires
            old(self).wf(),
        ensures
            final(self).wf(),
            match r {
                Ok(outcome) => outcome@ == intro_verdict(
                    old(self)@,
                    root_thumbprint@,
                    expected_epoch,
                    peer@,
                ) && final(self)@ == after_introduction(
                    old(self)@,
                    root_thumbprint@,
                    expected_epoch,
                    peer@,
                    key_views(keys@),
                    now,
                ),
                Err(e) => e is Corrupt && peer@.identity.agent_card_key.value.len() == 0
                    && final(self)@ == old(self)@,
            },
            r is Err ==> (intro_verdict(old(self)@, root_thumbprint@, expected_epoch, peer@)
                is Committed || intro_verdict(
                old(self)@,
                root_thumbprint@,
                expected_epoch,
                peer@,
            ) is AlreadyActive),
            (intro_verdict(old(self)@, root_thumbprint@, expected_epoch, peer@) is Committed
                || intro_verdict(old(self)@, root_thumbprint@, expected_epoch, peer@)
                is AlreadyActive) && peer@.identity.agent_card_key.value.len() == 0 ==> r is Err,
    {
        let root = root_thumbprint.to_owned();
        match self.imports.get(&root) {
            Some(row) => {
                if row.tombstoned_at.is_some() {
                    return Ok(IntroCommitOutcome::NotImported);
                }
                if row.epoch != expected_epoch {
                    return Ok(IntroCommitOutcome::EpochChanged);
                }
            },
            None => {
                return Ok(IntroCommitOutcome::NotImported);
            },
        }
        let mut was_pinned = false;
        let mut suspend: Option<SuspendReason> = None;
        match self.peers.get(&root) {
            Some(known) => {
                was_pinned = true;
                suspend = detect_change(&known.peer.identity, &peer.identity);
                if suspend.is_none() {
                    if !same_text(&known.peer.identity.agent_id, &peer.identity.agent_id) {
                        suspend = Some(SuspendReason::SubjectChanged);
                    } else {
                        match known.status {
                            PeerStatus::Suspended(_) => {
                                return Ok(
                                    IntroCommitOutcome::Suspended(
                                        "previously-suspended".to_owned(),
                                    ),
                                );
                            },
                            _ => {},
                        }
                    }
                }
            },
            None => {},
        }
        match suspend {
            Some(reason) => {
                self.set_status(&root, PeerStatus::Suspended(reason));
                let _ = self.audit.append(now, "peer.suspended", root_thumbprint);
                return Ok(IntroCommitOutcome::Suspended(reason.as_str().to_owned()));
            },
            None => {},
        }
        match self.put_peer_status(peer, PeerStatus::Active) {
            Ok(_) => {},
            Err(e) => {
                return Err(e);
            },
        }
        self.set_status(&root, PeerStatus::Active);
        self.put_keys(&root, peer, keys, now);
        let _ = self.audit.append(now, "peer.introduced", root_thumbprint);
        Ok(
            if was_pinned {
                IntroCommitOutcome::AlreadyActive
            } else {
                IntroCommitOutcome::Committed
            },
        )
    }

    /// Sets the status of a pinned peer.
    fn set_status(&mut self, root: &String, status: PeerStatus)
        requires
            old(self).wf(),
        ensures
            final(self).wf(),
            final(self)@ == with_status(old(self)@, root@, status),
    {
        let row = match self.peers.get(root) {
            Some(known) => Some(
                PeerRow {
                    peer: known.peer.dup(),
                    status,
                    created_generation: known.created_generation,
                },
            ),
            None => None,
        };
        match row {
            Some(row) => {
                self.peers.put(root.clone(), row);
            },
            None => {},
        }
    }

    /// Puts the keys of an introduction among the verification keys.
    fn put_keys(
        &mut self,
        root: &String,
        peer: &StoredPeer,
        keys: &Vec<(String, [u8; 32])>,
        now: i64,
    )
        requires
            old(self).wf(),
        ensures
            final(self).wf(),
            final(self)@ == (StoreView {
                peer_keys: with_keys(
                    old(self)@.peer_keys,
                    key_views(keys@),
                    peer@,
                    root@,
                    now,
                ),
                ..old(self)@
            }),
    {
        let mut i: usize = 0;
        let ghost all = key_views(keys@);
        assert(with_keys(self@.peer_keys, all.take(0), peer@, root@, now) == self@.peer_keys);
        while i < keys.len()
            invariant
                all == key_views(keys@),
                i <= keys@.len(),
                old(self).wf(),
                self.wf(),
                self@ == (StoreView {
                    peer_keys: with_keys(
                        old(self)@.peer_keys,
                        all.take(i as int),
                        peer@,
                        root@,
                        now,
                    ),
                    ..old(self)@
                }),
            decreases keys@.len() - i,
        {
            let issuer = match &peer.identity.issuer {
                Some(x) => x.clone(),
                None => String::new(),
            };
            assert(peer@.identity.issuer is None ==> issuer@ =~= Seq::<char>::empty());
            assert(all[i as int] == (keys@[i as int].0@, keys@[i as int].1@));
            self.peer_keys.put(
                pair(&peer.identity.tls_cert.value, &keys[i].0),
                PeerKeyRow {
                    agent_id: peer.identity.agent_id.clone(),
                    issuer,
                    public_key: keys[i].1,
                    root_thumbprint: root.clone(),
                    updated_at: now,
                },
            );
            assert(all.take(i + 1).drop_last() =~= all.take(i as int));
            i = i + 1;
        }
        assert(all.take(i as int) =~= all);
    }
}

/// The label of a relationship; empty where it has none.
fn label_or_empty(row: &ImportRow) -> (l: String)
    ensures
        l@ == label_text(row@),
{
    match &row.label {
        Some(l) => l.clone(),
        None => {
            let none = String::new();
            assert(none@ =~= Seq::<char>::empty());
            none
        },
    }
}

proof fn lemma_labels_stay_unique(v: StoreView, w: StoreView, root: Seq<char>, label: Seq<char>)
    requires
        v.consistent(),
        !label_taken(v, root, label),
        w.imports.contains_key(root),
        w.imports[root].label == Some(label),
        w.imports[root].tombstoned_at is None,
        forall|k: Seq<char>| #[trigger]
            w.imports.contains_key(k) && k != root ==> v.imports.contains_key(k) && w.imports[k]
                == v.imports[k],
        w == (StoreView { imports: w.imports, ..v }),
    ensures
        w.consistent(),
{
    assert forall|a: Seq<char>, b: Seq<char>|
        w.imports.contains_key(a) && w.imports.contains_key(b) && (
        #[trigger] w.imports[a]).label is Some && w.imports[a].label == (
        #[trigger] w.imports[b]).label implies a == b by {
        if a != root && b != root {
            assert(v.imports[a].label == v.imports[b].label);
        } else if a != root {
            assert(holds_label(v, a, label));
        } else if b != root {
            assert(holds_label(v, b, label));
        }
    }
}

/// A removed relationship is dead to every introduction that began before: none
/// can be committed while it is removed, and none after it is agreed to again.
pub proof fn removal_bars_earlier_introductions(
    v: StoreView,
    root: Seq<char>,
    removed_at: i64,
    peer: StoredPeerView,
    label: Seq<char>,
    endpoint_hint: Seq<char>,
    added_at: i64,
)
    requires
        is_live(v, root),
        v.imports[root].epoch < u64::MAX,
    ensures
        ({
            let epoch = v.imports[root].epoch;
            let gone = without_relationship(v, root, removed_at);
            let back = with_import(gone, root, label, endpoint_hint, added_at);
            &&& !is_live(gone, root)
            &&& intro_verdict(gone, root, epoch, peer) is NotImported
            &&& is_live(back, root)
            &&& back.imports[root].epoch > epoch
            &&& intro_verdict(back, root, epoch, peer) is EpochChanged
        }),
{
}

/// A relationship that is agreed to again inherits nothing: no pinned peer, no
/// key, and no standing approval of the one that was removed.
pub proof fn a_new_relationship_inherits_nothing(
    v: StoreView,
    root: Seq<char>,
    removed_at: i64,
    label: Seq<char>,
    endpoint_hint: Seq<char>,
    added_at: i64,
)
    requires
        is_live(v, root),
        root.len() > 0,
    ensures
        ({
            let back = with_import(
                without_relationship(v, root, removed_at),
                root,
                label,
                endpoint_hint,
                added_at,
            );
            &&& !back.peers.contains_key(root)
            &&& !back.auto_approve.contains_key(root)
            &&& forall|k: (Seq<char>, Seq<char>)| #[trigger]
                back.peer_keys.contains_key(k) ==> back.peer_keys[k].root_thumbprint != root
        }),
{
}

/// Changing a label or a hint touches no trust: the epoch stays.
pub proof fn updates_keep_the_epoch(
    v: StoreView,
    root: Seq<char>,
    new_label: Option<Seq<char>>,
    new_endpoint: Option<Seq<char>>,
)
    requires
        is_live(v, root),
    ensures
        ({
            let w = with_updated_import(v, root, new_label, new_endpoint);
            &&& is_live(w, root)
            &&& w.imports[root].epoch == v.imports[root].epoch
            &&& w.peers == v.peers
        }),
{
}

/// The log of refused introductions stays within its bound, and what it knows it
/// goes on counting even where it is full.
pub proof fn the_knock_log_is_bounded(
    v: StoreView,
    k: (Seq<char>, Seq<char>, Seq<char>),
    now: i64,
)
    requires
        v.knocks.dom().finite(),
        v.knocks.dom().len() <= KNOCK_LOG_CAP,
    ensures
        with_knock(v, k, now).knocks.dom().len() <= KNOCK_LOG_CAP,
        v.knocks.contains_key(k) && v.knocks[k].count < u64::MAX ==> with_knock(v, k, now).knocks[k].count
            == v.knocks[k].count + 1,
{
    if v.knocks.contains_key(k) {
        assert(v.knocks.dom().insert(k) =~= v.knocks.dom());
    }
}

/// A suspended peer is never made active by an introduction.
pub proof fn introductions_never_reinstate(
    v: StoreView,
    root: Seq<char>,
    epoch: u64,
    peer: StoredPeerView,
    keys: Seq<(Seq<char>, Seq<u8>)>,
    now: i64,
)
    requires
        v.peers.contains_key(root),
        v.peers[root].status is Suspended,
    ensures
        after_introduction(v, root, epoch, peer, keys, now).peers.contains_key(root),
        after_introduction(v, root, epoch, peer, keys, now).peers[root].status is Suspended,
{
}

/// An introduction that presents another identity than the pinned one pins
/// nothing: the identity stays, and the peer is suspended.
pub proof fn changed_identities_are_never_pinned(
    v: StoreView,
    root: Seq<char>,
    epoch: u64,
    peer: StoredPeerView,
    keys: Seq<(Seq<char>, Seq<u8>)>,
    now: i64,
)
    requires
        is_live(v, root),
        v.imports[root].epoch == epoch,
        v.peers.contains_key(root),
        suspension(v.peers[root].peer.identity, peer.identity) is Some,
    ensures
        ({
            let w = after_introduction(v, root, epoch, peer, keys, now);
            &&& w.peers[root].peer == v.peers[root].peer
            &&& w.peers[root].status is Suspended
            &&& w.peer_keys == v.peer_keys
        }),
{
}

/// Introducing the same identity twice pins it once: the second introduction finds
/// it active, and the peers are as after the first.
pub proof fn introductions_are_idempotent(
    v: StoreView,
    root: Seq<char>,
    epoch: u64,
    peer: StoredPeerView,
    keys: Seq<(Seq<char>, Seq<u8>)>,
    now: i64,
    later: i64,
)
    requires
        intro_verdict(v, root, epoch, peer) is Committed,
        peer.identity.agent_card_key.value == root,
    ensures
        ({
            let w = after_introduction(v, root, epoch, peer, keys, now);
            &&& intro_verdict(w, root, epoch, peer) is AlreadyActive
            &&& after_introduction(w, root, epoch, peer, keys, later).peers == w.peers
        }),
{
    let w = after_introduction(v, root, epoch, peer, keys, now);
    assert(after_introduction(w, root, epoch, peer, keys, later).peers =~= w.peers);
}

} // verus!
