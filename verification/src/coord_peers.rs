//! What a coordination driver learns of this endpoint and of one named peer.
//!
//! A peer is addressed by its label, one at a time. Every claim of the evidence on a
//! peer says whether this endpoint observed it or the peer asserted it. What the
//! endpoint does not know is said to be unknown.
use crate::address::valid_label;
use crate::address;
use crate::control::Problem;
use crate::coord::{COORD_PROTOCOL, COORD_PROTOCOL_VERSION, MAX_STAGED_PAYLOAD_BYTES};
use crate::coord;
use crate::coord_stage::{events_read, stage, stage_show, unknown_peer};
use crate::coord_stage;
use crate::endpoint::Endpoint;
use crate::identity::{KeyBinding, KeyBindingView, StoredPeer, StoredPeerView};
use crate::numerals::hex;
use crate::outside::sha256;
use crate::store::imports::{PeerImport, PeerImportView};
use crate::store::imports;
use crate::store::peers::{AutoApprovePolicy, AutoApprovePolicyView};
use crate::store::peers;
use crate::store::rows::PeerRowView;
use crate::store::{Recovery, Store, StoreView};
use crate::table::{Record, dup_all, dup_option};
use crate::table;
use crate::text::{copy_option, copy_texts};
use crate::text;
use vstd::prelude::*;
use vstd::string::*;
use vstd::utf8::*;

verus! {

/// Who this endpoint is, and what it speaks. Nothing of its local layout is told.
#[derive(Debug, Clone, PartialEq, Eq)]
pub struct CoordWhoAmI {
    pub protocol: String,
    pub protocol_version: u32,
    pub issuer: String,
    pub agent: String,
    pub root_thumbprint: String,
    pub interface_url: String,
    pub endpoint_fingerprint: String,
    pub features: Vec<String>,
    pub unimplemented: Vec<String>,
    pub partial: Vec<String>,
}

/// The view of [`CoordWhoAmI`].
#[verifier::ext_equal]
pub struct CoordWhoAmIView {
    pub protocol: Seq<char>,
    pub protocol_version: u32,
    pub issuer: Seq<char>,
    pub agent: Seq<char>,
    pub root_thumbprint: Seq<char>,
    pub interface_url: Seq<char>,
    pub endpoint_fingerprint: Seq<char>,
    pub features: Seq<Seq<char>>,
    pub unimplemented: Seq<Seq<char>>,
    pub partial: Seq<Seq<char>>,
}

impl View for CoordWhoAmI {
    type V = CoordWhoAmIView;

    open spec fn view(&self) -> CoordWhoAmIView {
        CoordWhoAmIView {
            protocol: self.protocol@,
            protocol_version: self.protocol_version,
            issuer: self.issuer@,
            agent: self.agent@,
            root_thumbprint: self.root_thumbprint@,
            interface_url: self.interface_url@,
            endpoint_fingerprint: self.endpoint_fingerprint@,
            features: text::views(self.features@),
            unimplemented: text::views(self.unimplemented@),
            partial: text::views(self.partial@),
        }
    }
}

impl Record for CoordWhoAmI {
    fn dup(&self) -> (r: Self) {
        let r = CoordWhoAmI {
            protocol: self.protocol.clone(),
            protocol_version: self.protocol_version,
            issuer: self.issuer.clone(),
            agent: self.agent.clone(),
            root_thumbprint: self.root_thumbprint.clone(),
            interface_url: self.interface_url.clone(),
            endpoint_fingerprint: self.endpoint_fingerprint.clone(),
            features: copy_texts(&self.features),
            unimplemented: copy_texts(&self.unimplemented),
            partial: copy_texts(&self.partial),
        };
        r
    }
}

/// The operations of the surface.
pub open spec fn coord_features() -> Seq<Seq<char>> {
    seq![
        "coord_whoami"@,
        "peer_show"@,
        "stage"@,
        "stage_show"@,
        "dispatch"@,
        "task_status"@,
        "events_read"@,
        "capability_evidence"@,
    ]
}

fn list_features() -> (r: Vec<String>)
    ensures
        text::views(r@) == coord_features(),
{
    let mut r: Vec<String> = Vec::new();
    r.push("coord_whoami".to_owned());
    r.push("peer_show".to_owned());
    r.push("stage".to_owned());
    r.push("stage_show".to_owned());
    r.push("dispatch".to_owned());
    r.push("task_status".to_owned());
    r.push("events_read".to_owned());
    r.push("capability_evidence".to_owned());
    assert(text::views(r@) =~= coord_features());
    r
}

/// The handshake of a driver.
pub fn coord_whoami(me: &Endpoint) -> (r: CoordWhoAmI)
    ensures
        r@ == (CoordWhoAmIView {
            protocol: COORD_PROTOCOL@,
            protocol_version: COORD_PROTOCOL_VERSION,
            issuer: me@.issuer,
            agent: me@.agent,
            root_thumbprint: me@.root,
            interface_url: me@.interface_url,
            endpoint_fingerprint: "sha256:"@ + me@.fingerprint,
            features: coord_features(),
            unimplemented: Seq::empty(),
            partial: Seq::empty(),
        }),
{
    let r = CoordWhoAmI {
        protocol: COORD_PROTOCOL.to_owned(),
        protocol_version: COORD_PROTOCOL_VERSION,
        issuer: me.issuer.clone(),
        agent: me.agent.clone(),
        root_thumbprint: me.root.clone(),
        interface_url: me.interface_url.clone(),
        endpoint_fingerprint: "sha256:".to_owned().concat(&me.fingerprint),
        features: list_features(),
        unimplemented: Vec::new(),
        partial: Vec::new(),
    };
    assert(r@.unimplemented =~= Seq::<Seq<char>>::empty());
    assert(r@.partial =~= Seq::<Seq<char>>::empty());
    r
}

/// The identity of an introduced peer, and what its card claims.
#[derive(Debug, Clone, PartialEq, Eq)]
pub struct PeerDetails {
    pub issuer: Option<String>,
    pub agent_id: String,
    pub endpoint_id: String,
    pub tls_certificate_sha256: String,
    pub agent_card_thumbprint: String,
    pub security_projection_digest: String,
    pub full_card_digest: String,
    pub key_purposes: Vec<String>,
    pub endpoint_hint: String,
}

/// The view of [`PeerDetails`].
#[verifier::ext_equal]
pub struct PeerDetailsView {
    pub issuer: Option<Seq<char>>,
    pub agent_id: Seq<char>,
    pub endpoint_id: Seq<char>,
    pub tls_certificate_sha256: Seq<char>,
    pub agent_card_thumbprint: Seq<char>,
    pub security_projection_digest: Seq<char>,
    pub full_card_digest: Seq<char>,
    pub key_purposes: Seq<Seq<char>>,
    pub endpoint_hint: Seq<char>,
}

impl View for PeerDetails {
    type V = PeerDetailsView;

    open spec fn view(&self) -> PeerDetailsView {
        PeerDetailsView {
            issuer: text::view_option(self.issuer),
            agent_id: self.agent_id@,
            endpoint_id: self.endpoint_id@,
            tls_certificate_sha256: self.tls_certificate_sha256@,
            agent_card_thumbprint: self.agent_card_thumbprint@,
            security_projection_digest: self.security_projection_digest@,
            full_card_digest: self.full_card_digest@,
            key_purposes: text::views(self.key_purposes@),
            endpoint_hint: self.endpoint_hint@,
        }
    }
}

impl Record for PeerDetails {
    fn dup(&self) -> (r: Self) {
        let r = PeerDetails {
            issuer: copy_option(&self.issuer),
            agent_id: self.agent_id.clone(),
            endpoint_id: self.endpoint_id.clone(),
            tls_certificate_sha256: self.tls_certificate_sha256.clone(),
            agent_card_thumbprint: self.agent_card_thumbprint.clone(),
            security_projection_digest: self.security_projection_digest.clone(),
            full_card_digest: self.full_card_digest.clone(),
            key_purposes: copy_texts(&self.key_purposes),
            endpoint_hint: self.endpoint_hint.clone(),
        };
        r
    }
}

/// A named peer. One that was not introduced has no details.
#[derive(Debug, Clone, PartialEq, Eq)]
pub struct PeerShown {
    pub label: String,
    pub root_thumbprint: String,
    pub verified: bool,
    pub status: String,
    pub details: Option<PeerDetails>,
}

/// The view of [`PeerShown`].
#[verifier::ext_equal]
pub struct PeerShownView {
    pub label: Seq<char>,
    pub root_thumbprint: Seq<char>,
    pub verified: bool,
    pub status: Seq<char>,
    pub details: Option<PeerDetailsView>,
}

impl View for PeerShown {
    type V = PeerShownView;

    open spec fn view(&self) -> PeerShownView {
        PeerShownView {
            label: self.label@,
            root_thumbprint: self.root_thumbprint@,
            verified: self.verified,
            status: self.status@,
            details: match self.details {
                Some(x) => Some(x@),
                None => None,
            },
        }
    }
}

impl Record for PeerShown {
    fn dup(&self) -> (r: Self) {
        let r = PeerShown {
            label: self.label.clone(),
            root_thumbprint: self.root_thumbprint.clone(),
            verified: self.verified,
            status: self.status.clone(),
            details: dup_option(&self.details),
        };
        r
    }
}

/// The purposes of the pinned keys.
pub open spec fn purposes_of(bindings: Seq<KeyBindingView>) -> Seq<Seq<char>> {
    bindings.map_values(|b: KeyBindingView| b.purpose)
}

/// How the relationship with a root stands.
pub open spec fn relationship_status(v: StoreView, root: Seq<char>) -> Seq<char> {
    if v.peers.contains_key(root) {
        v.peers[root].status.column()
    } else {
        "imported"@
    }
}

/// What is shown of a named peer.
pub open spec fn shown_peer(v: StoreView, label: Seq<char>, import: PeerImportView) -> PeerShownView {
    let root = import.root_thumbprint;
    PeerShownView {
        label,
        root_thumbprint: root,
        verified: v.peers.contains_key(root),
        status: relationship_status(v, root),
        details: if v.peers.contains_key(root) {
            let id = v.peers[root].peer.identity;
            Some(
                PeerDetailsView {
                    issuer: id.issuer,
                    agent_id: id.agent_id,
                    endpoint_id: id.endpoint_id,
                    tls_certificate_sha256: id.tls_cert.value,
                    agent_card_thumbprint: id.agent_card_key.value,
                    security_projection_digest: id.security_projection_digest.value,
                    full_card_digest: id.full_card_digest.value,
                    key_purposes: purposes_of(id.key_bindings),
                    endpoint_hint: import.endpoint_hint,
                },
            )
        } else {
            None
        },
    }
}

fn list_purposes(bindings: &Vec<KeyBinding>) -> (r: Vec<String>)
    ensures
        text::views(r@) == purposes_of(table::seen(bindings@)),
{
    let mut r: Vec<String> = Vec::new();
    let mut i: usize = 0;
    while i < bindings.len()
        invariant
            i <= bindings@.len(),
            r@.len() == i,
            forall|j: int| 0 <= j < i ==> (#[trigger] r@[j])@ == bindings@[j]@.purpose,
        decreases bindings@.len() - i,
    {
        r.push(bindings[i].purpose.clone());
        i = i + 1;
    }
    assert(text::views(r@) =~= purposes_of(table::seen(bindings@)));
    r
}

fn status_by_root(store: &Store, root: &str) -> (r: String)
    requires
        store.wf(),
    ensures
        r@ == relationship_status(store@, root@),
{
    match store.peer_by_root(root) {
        Ok(Some((_, status))) => status,
        _ => "imported".to_owned(),
    }
}

fn import_named(store: &Store, label: &str) -> (r: Result<PeerImport, Problem>)
    requires
        store.wf(),
    ensures
        match r {
            Ok(import) => address::is_label(label@) && imports::labelled(store@, label@) == Some(import@),
            Err(p) => (!address::is_label(label@) || imports::labelled(store@, label@) is None) && p@
                == coord_stage::unknown_peer_problem(),
        },
{
    if !valid_label(label) {
        return Err(unknown_peer());
    }
    match store.peer_import_by_label(label) {
        Ok(Some(import)) => Ok(import),
        _ => Err(unknown_peer()),
    }
}

/// Shows one named peer. The operator's note on it is not shown, and nothing is said
/// of any other peer.
pub fn peer_show(store: &Store, label: &str) -> (r: Result<PeerShown, Problem>)
    requires
        store.wf(),
    ensures
        match r {
            Ok(shown) => address::is_label(label@) && match imports::labelled(store@, label@) {
                Some(import) => shown@ == shown_peer(store@, label@, import),
                None => false,
            },
            Err(p) => (!address::is_label(label@) || imports::labelled(store@, label@) is None) && p@
                == coord_stage::unknown_peer_problem(),
        },
{
    let import = match import_named(store, label) {
        Ok(import) => import,
        Err(p) => {
            return Err(p);
        },
    };
    let status = status_by_root(store, &import.root_thumbprint);
    let details = match store.get_peer_by_root(&import.root_thumbprint) {
        Ok(Some(peer)) => Some(
            PeerDetails {
                issuer: copy_option(&peer.identity.issuer),
                agent_id: peer.identity.agent_id.clone(),
                endpoint_id: peer.identity.endpoint_id.clone(),
                tls_certificate_sha256: peer.identity.tls_cert.value.clone(),
                agent_card_thumbprint: peer.identity.agent_card_key.value.clone(),
                security_projection_digest: peer.identity.security_projection_digest.value.clone(),
                full_card_digest: peer.identity.full_card_digest.value.clone(),
                key_purposes: list_purposes(&peer.identity.key_bindings),
                endpoint_hint: import.endpoint_hint.clone(),
            },
        ),
        _ => None,
    };
    Ok(
        PeerShown {
            label: label.to_owned(),
            root_thumbprint: import.root_thumbprint,
            verified: details.is_some(),
            status,
            details,
        },
    )
}

/// Whether a claim was observed here or asserted by the peer.
#[derive(Debug, Clone, Copy, PartialEq, Eq, Structural)]
pub enum Source {
    LocallyObserved,
    PeerAsserted,
}

/// The identity of an introduced peer.
#[derive(Debug, Clone, PartialEq, Eq)]
pub struct IdentityFacts {
    pub root_thumbprint: String,
    pub issuer: Option<String>,
    pub agent_id: String,
    pub endpoint_id: String,
    pub tls_certificate_sha256: String,
    pub agent_card_thumbprint: String,
    pub relationship: String,
    pub epoch: u64,
}

/// The view of [`IdentityFacts`].
#[verifier::ext_equal]
pub struct IdentityFactsView {
    pub root_thumbprint: Seq<char>,
    pub issuer: Option<Seq<char>>,
    pub agent_id: Seq<char>,
    pub endpoint_id: Seq<char>,
    pub tls_certificate_sha256: Seq<char>,
    pub agent_card_thumbprint: Seq<char>,
    pub relationship: Seq<char>,
    pub epoch: u64,
}

impl View for IdentityFacts {
    type V = IdentityFactsView;

    open spec fn view(&self) -> IdentityFactsView {
        IdentityFactsView {
            root_thumbprint: self.root_thumbprint@,
            issuer: text::view_option(self.issuer),
            agent_id: self.agent_id@,
            endpoint_id: self.endpoint_id@,
            tls_certificate_sha256: self.tls_certificate_sha256@,
            agent_card_thumbprint: self.agent_card_thumbprint@,
            relationship: self.relationship@,
            epoch: self.epoch,
        }
    }
}

impl Record for IdentityFacts {
    fn dup(&self) -> (r: Self) {
        let r = IdentityFacts {
            root_thumbprint: self.root_thumbprint.clone(),
            issuer: copy_option(&self.issuer),
            agent_id: self.agent_id.clone(),
            endpoint_id: self.endpoint_id.clone(),
            tls_certificate_sha256: self.tls_certificate_sha256.clone(),
            agent_card_thumbprint: self.agent_card_thumbprint.clone(),
            relationship: self.relationship.clone(),
            epoch: self.epoch,
        };
        r
    }
}

/// A peer that was not introduced.
#[derive(Debug, Clone, PartialEq, Eq)]
pub struct NotIntroduced {
    pub root_thumbprint: String,
    pub relationship: String,
    pub epoch: u64,
    pub reason: String,
}

/// The view of [`NotIntroduced`].
#[verifier::ext_equal]
pub struct NotIntroducedView {
    pub root_thumbprint: Seq<char>,
    pub relationship: Seq<char>,
    pub epoch: u64,
    pub reason: Seq<char>,
}

impl View for NotIntroduced {
    type V = NotIntroducedView;

    open spec fn view(&self) -> NotIntroducedView {
        NotIntroducedView {
            root_thumbprint: self.root_thumbprint@,
            relationship: self.relationship@,
            epoch: self.epoch,
            reason: self.reason@,
        }
    }
}

impl Record for NotIntroduced {
    fn dup(&self) -> (r: Self) {
        let r = NotIntroduced {
            root_thumbprint: self.root_thumbprint.clone(),
            relationship: self.relationship.clone(),
            epoch: self.epoch,
            reason: self.reason.clone(),
        };
        r
    }
}

/// What the card of a peer claims.
#[derive(Debug, Clone, PartialEq, Eq)]
pub struct CardFacts {
    pub security_projection_digest: String,
    pub full_card_digest: String,
    pub key_purposes: Vec<String>,
}

/// The view of [`CardFacts`].
#[verifier::ext_equal]
pub struct CardFactsView {
    pub security_projection_digest: Seq<char>,
    pub full_card_digest: Seq<char>,
    pub key_purposes: Seq<Seq<char>>,
}

impl View for CardFacts {
    type V = CardFactsView;

    open spec fn view(&self) -> CardFactsView {
        CardFactsView {
            security_projection_digest: self.security_projection_digest@,
            full_card_digest: self.full_card_digest@,
            key_purposes: text::views(self.key_purposes@),
        }
    }
}

impl Record for CardFacts {
    fn dup(&self) -> (r: Self) {
        let r = CardFacts {
            security_projection_digest: self.security_projection_digest.clone(),
            full_card_digest: self.full_card_digest.clone(),
            key_purposes: copy_texts(&self.key_purposes),
        };
        r
    }
}

/// Whether an older copy of the state would be found out.
#[derive(Debug, Clone, PartialEq, Eq)]
pub struct RollbackFacts {
    pub detectable: bool,
    pub automatic_authority: bool,
    pub state_generation: u64,
    pub trusted_time_floor: i64,
    pub detail: String,
}

/// The view of [`RollbackFacts`].
#[verifier::ext_equal]
pub struct RollbackFactsView {
    pub detectable: bool,
    pub automatic_authority: bool,
    pub state_generation: u64,
    pub trusted_time_floor: i64,
    pub detail: Seq<char>,
}

impl View for RollbackFacts {
    type V = RollbackFactsView;

    open spec fn view(&self) -> RollbackFactsView {
        RollbackFactsView {
            detectable: self.detectable,
            automatic_authority: self.automatic_authority,
            state_generation: self.state_generation,
            trusted_time_floor: self.trusted_time_floor,
            detail: self.detail@,
        }
    }
}

impl Record for RollbackFacts {
    fn dup(&self) -> (r: Self) {
        let r = RollbackFacts {
            detectable: self.detectable,
            automatic_authority: self.automatic_authority,
            state_generation: self.state_generation,
            trusted_time_floor: self.trusted_time_floor,
            detail: self.detail.clone(),
        };
        r
    }
}

/// Whether work can be confined here.
#[derive(Debug, Clone, PartialEq, Eq)]
pub struct ConfinementFacts {
    pub sandbox_ready: bool,
    pub unavailable_required: Vec<String>,
}

/// The view of [`ConfinementFacts`].
#[verifier::ext_equal]
pub struct ConfinementFactsView {
    pub sandbox_ready: bool,
    pub unavailable_required: Seq<Seq<char>>,
}

impl View for ConfinementFacts {
    type V = ConfinementFactsView;

    open spec fn view(&self) -> ConfinementFactsView {
        ConfinementFactsView {
            sandbox_ready: self.sandbox_ready,
            unavailable_required: text::views(self.unavailable_required@),
        }
    }
}

impl Record for ConfinementFacts {
    fn dup(&self) -> (r: Self) {
        let r = ConfinementFacts {
            sandbox_ready: self.sandbox_ready,
            unavailable_required: copy_texts(&self.unavailable_required),
        };
        r
    }
}

/// What is allowed without asking, and how much can be staged.
#[derive(Debug, Clone, PartialEq, Eq)]
pub struct BudgetFacts {
    pub standing_approval: Option<AutoApprovePolicy>,
    pub max_staged_payload_bytes: usize,
}

/// The view of [`BudgetFacts`].
#[verifier::ext_equal]
pub struct BudgetFactsView {
    pub standing_approval: Option<AutoApprovePolicyView>,
    pub max_staged_payload_bytes: usize,
}

impl View for BudgetFacts {
    type V = BudgetFactsView;

    open spec fn view(&self) -> BudgetFactsView {
        BudgetFactsView {
            standing_approval: match self.standing_approval {
                Some(x) => Some(x@),
                None => None,
            },
            max_staged_payload_bytes: self.max_staged_payload_bytes,
        }
    }
}

impl Record for BudgetFacts {
    fn dup(&self) -> (r: Self) {
        let r = BudgetFacts {
            standing_approval: dup_option(&self.standing_approval),
            max_staged_payload_bytes: self.max_staged_payload_bytes,
        };
        r
    }
}

/// The schemas that evidence is given in.
#[derive(Debug, Clone, PartialEq, Eq)]
pub struct EvidenceSchemas {
    /// Whether the media types are provisional.
    pub provisional: bool,
    pub statement_type: String,
    pub payload_type: String,
    pub envelope_media_type: String,
    pub schemas: Vec<String>,
}

/// The view of [`EvidenceSchemas`].
#[verifier::ext_equal]
pub struct EvidenceSchemasView {
    pub provisional: bool,
    pub statement_type: Seq<char>,
    pub payload_type: Seq<char>,
    pub envelope_media_type: Seq<char>,
    pub schemas: Seq<Seq<char>>,
}

impl View for EvidenceSchemas {
    type V = EvidenceSchemasView;

    open spec fn view(&self) -> EvidenceSchemasView {
        EvidenceSchemasView {
            provisional: self.provisional,
            statement_type: self.statement_type@,
            payload_type: self.payload_type@,
            envelope_media_type: self.envelope_media_type@,
            schemas: text::views(self.schemas@),
        }
    }
}

impl Record for EvidenceSchemas {
    fn dup(&self) -> (r: Self) {
        let r = EvidenceSchemas {
            provisional: self.provisional,
            statement_type: self.statement_type.clone(),
            payload_type: self.payload_type.clone(),
            envelope_media_type: self.envelope_media_type.clone(),
            schemas: copy_texts(&self.schemas),
        };
        r
    }
}

/// Whether a means of confinement is available, and whether it is required.
#[derive(Debug, Clone, PartialEq, Eq)]
pub struct FeatureReport {
    pub feature: String,
    pub available: bool,
    pub required: bool,
}

/// The view of [`FeatureReport`].
#[verifier::ext_equal]
pub struct FeatureReportView {
    pub feature: Seq<char>,
    pub available: bool,
    pub required: bool,
}

impl View for FeatureReport {
    type V = FeatureReportView;

    open spec fn view(&self) -> FeatureReportView {
        FeatureReportView {
            feature: self.feature@,
            available: self.available,
            required: self.required,
        }
    }
}

impl Record for FeatureReport {
    fn dup(&self) -> (r: Self) {
        let r = FeatureReport {
            feature: self.feature.clone(),
            available: self.available,
            required: self.required,
        };
        r
    }
}

/// The facts behind a claim.
#[derive(Debug, Clone, PartialEq, Eq)]
pub enum Facts {
    Identity(IdentityFacts),
    NotIntroduced(NotIntroduced),
    Card(CardFacts),
    Reason(String),
    Rollback(RollbackFacts),
    Confinement(ConfinementFacts),
    Budget(BudgetFacts),
    Schemas(EvidenceSchemas),
}

/// The view of [`Facts`].
pub enum FactsView {
    Identity(IdentityFactsView),
    NotIntroduced(NotIntroducedView),
    Card(CardFactsView),
    Reason(Seq<char>),
    Rollback(RollbackFactsView),
    Confinement(ConfinementFactsView),
    Budget(BudgetFactsView),
    Schemas(EvidenceSchemasView),
}

impl View for Facts {
    type V = FactsView;

    open spec fn view(&self) -> FactsView {
        match self {
            Facts::Identity(f) => FactsView::Identity(f@),
            Facts::NotIntroduced(f) => FactsView::NotIntroduced(f@),
            Facts::Card(f) => FactsView::Card(f@),
            Facts::Reason(f) => FactsView::Reason(f@),
            Facts::Rollback(f) => FactsView::Rollback(f@),
            Facts::Confinement(f) => FactsView::Confinement(f@),
            Facts::Budget(f) => FactsView::Budget(f@),
            Facts::Schemas(f) => FactsView::Schemas(f@),
        }
    }
}

impl Record for Facts {
    fn dup(&self) -> (r: Self) {
        match self {
            Facts::Identity(f) => Facts::Identity(f.dup()),
            Facts::NotIntroduced(f) => Facts::NotIntroduced(f.dup()),
            Facts::Card(f) => Facts::Card(f.dup()),
            Facts::Reason(f) => Facts::Reason(f.dup()),
            Facts::Rollback(f) => Facts::Rollback(f.dup()),
            Facts::Confinement(f) => Facts::Confinement(f.dup()),
            Facts::Budget(f) => Facts::Budget(f.dup()),
            Facts::Schemas(f) => Facts::Schemas(f.dup()),
        }
    }
}

/// One claim: what it is about, where it comes from, how it stands, and the facts.
#[derive(Debug, Clone, PartialEq, Eq)]
pub struct Dimension {
    pub dimension: String,
    pub source: Source,
    pub state: String,
    pub facts: Facts,
}

/// The view of [`Dimension`].
#[verifier::ext_equal]
pub struct DimensionView {
    pub dimension: Seq<char>,
    pub source: Source,
    pub state: Seq<char>,
    pub facts: FactsView,
}

impl View for Dimension {
    type V = DimensionView;

    open spec fn view(&self) -> DimensionView {
        DimensionView {
            dimension: self.dimension@,
            source: self.source,
            state: self.state@,
            facts: self.facts@,
        }
    }
}

impl Record for Dimension {
    fn dup(&self) -> (r: Self) {
        let r = Dimension {
            dimension: self.dimension.clone(),
            source: self.source,
            state: self.state.clone(),
            facts: self.facts.dup(),
        };
        r
    }
}

/// What is claimed of a peer.
#[derive(Debug, Clone, PartialEq, Eq)]
pub struct CapabilityPredicate {
    pub schema_version: u32,
    pub protocol: String,
    pub label: String,
    pub root_thumbprint: String,
    pub dimensions: Vec<Dimension>,
}

/// The view of [`CapabilityPredicate`].
#[verifier::ext_equal]
pub struct CapabilityPredicateView {
    pub schema_version: u32,
    pub protocol: Seq<char>,
    pub label: Seq<char>,
    pub root_thumbprint: Seq<char>,
    pub dimensions: Seq<DimensionView>,
}

impl View for CapabilityPredicate {
    type V = CapabilityPredicateView;

    open spec fn view(&self) -> CapabilityPredicateView {
        CapabilityPredicateView {
            schema_version: self.schema_version,
            protocol: self.protocol@,
            label: self.label@,
            root_thumbprint: self.root_thumbprint@,
            dimensions: table::seen(self.dimensions@),
        }
    }
}

impl Record for CapabilityPredicate {
    fn dup(&self) -> (r: Self) {
        let r = CapabilityPredicate {
            schema_version: self.schema_version,
            protocol: self.protocol.clone(),
            label: self.label.clone(),
            root_thumbprint: self.root_thumbprint.clone(),
            dimensions: dup_all(&self.dimensions),
        };
        r
    }
}

/// A claim to be signed: about which relationship, and what.
#[derive(Debug, Clone, PartialEq, Eq)]
pub struct CapabilityClaim {
    pub label: String,
    pub root_thumbprint: String,
    pub subject_name: String,
    pub subject_sha256: String,
    pub predicate: CapabilityPredicate,
}

/// The view of [`CapabilityClaim`].
#[verifier::ext_equal]
pub struct CapabilityClaimView {
    pub label: Seq<char>,
    pub root_thumbprint: Seq<char>,
    pub subject_name: Seq<char>,
    pub subject_sha256: Seq<char>,
    pub predicate: CapabilityPredicateView,
}

impl View for CapabilityClaim {
    type V = CapabilityClaimView;

    open spec fn view(&self) -> CapabilityClaimView {
        CapabilityClaimView {
            label: self.label@,
            root_thumbprint: self.root_thumbprint@,
            subject_name: self.subject_name@,
            subject_sha256: self.subject_sha256@,
            predicate: self.predicate@,
        }
    }
}

impl Record for CapabilityClaim {
    fn dup(&self) -> (r: Self) {
        let r = CapabilityClaim {
            label: self.label.clone(),
            root_thumbprint: self.root_thumbprint.clone(),
            subject_name: self.subject_name.clone(),
            subject_sha256: self.subject_sha256.clone(),
            predicate: self.predicate.dup(),
        };
        r
    }
}

/// The claim on the identity of a peer.
pub open spec fn identity_claim(v: StoreView, import: PeerImportView) -> DimensionView {
    let root = import.root_thumbprint;
    if v.peers.contains_key(root) {
        let id = v.peers[root].peer.identity;
        DimensionView {
            dimension: "peer_identity"@,
            source: Source::LocallyObserved,
            state: "verified"@,
            facts: FactsView::Identity(
                IdentityFactsView {
                    root_thumbprint: root,
                    issuer: id.issuer,
                    agent_id: id.agent_id,
                    endpoint_id: id.endpoint_id,
                    tls_certificate_sha256: id.tls_cert.value,
                    agent_card_thumbprint: id.agent_card_key.value,
                    relationship: relationship_status(v, root),
                    epoch: import.epoch,
                },
            ),
        }
    } else {
        DimensionView {
            dimension: "peer_identity"@,
            source: Source::LocallyObserved,
            state: "unverified"@,
            facts: FactsView::NotIntroduced(
                NotIntroducedView {
                    root_thumbprint: root,
                    relationship: relationship_status(v, root),
                    epoch: import.epoch,
                    reason: "no introduction has committed the §8.1 identity tuple"@,
                },
            ),
        }
    }
}

/// The claim on the card of a peer.
pub open spec fn card_claim(v: StoreView, root: Seq<char>) -> DimensionView {
    if v.peers.contains_key(root) {
        let id = v.peers[root].peer.identity;
        DimensionView {
            dimension: "card_claims"@,
            source: Source::PeerAsserted,
            state: "pinned"@,
            facts: FactsView::Card(
                CardFactsView {
                    security_projection_digest: id.security_projection_digest.value,
                    full_card_digest: id.full_card_digest.value,
                    key_purposes: purposes_of(id.key_bindings),
                },
            ),
        }
    } else {
        DimensionView {
            dimension: "card_claims"@,
            source: Source::PeerAsserted,
            state: "absent"@,
            facts: FactsView::Reason(
                "the peer has asserted no Agent Card to this endpoint yet"@,
            ),
        }
    }
}

/// The claim on the expiry of keys, which this endpoint does not keep.
pub open spec fn expiry_claim() -> DimensionView {
    DimensionView {
        dimension: "key_expiry"@,
        source: Source::PeerAsserted,
        state: "not_retained"@,
        facts: FactsView::Reason(
            "akson pins key thumbprints at introduction and does not retain the card's not_before/not_after"@,
        ),
    }
}

/// The claim on the detection of rollback.
pub open spec fn rollback_claim(v: StoreView) -> DimensionView {
    DimensionView {
        dimension: "rollback_detection"@,
        source: Source::LocallyObserved,
        state: match v.recovery {
            Recovery::Normal => "normal"@,
            Recovery::RollbackDetectionUnavailable => "detection_unavailable"@,
            Recovery::Recovery(_) => "recovery"@,
        },
        facts: FactsView::Rollback(
            RollbackFactsView {
                detectable: v.recovery is Normal,
                automatic_authority: !(v.recovery is Recovery),
                state_generation: v.state_generation,
                trusted_time_floor: v.trusted_time,
                detail: match v.recovery {
                    Recovery::Normal => "the checkpoint agrees with the database"@,
                    Recovery::RollbackDetectionUnavailable => "no independent rollback counter exists (interim custody, §15.5)"@,
                    Recovery::Recovery(_) => "the database disagrees with the checkpoint; automatic authority is disabled"@,
                },
            },
        ),
    }
}

/// The required means of confinement that are not available.
pub open spec fn missing_features(report: Seq<FeatureReportView>) -> Seq<Seq<char>> {
    report.filter(|f: FeatureReportView| f.required && !f.available).map_values(
        |f: FeatureReportView| f.feature,
    )
}

/// The claim on confinement.
pub open spec fn confinement_claim(report: Seq<FeatureReportView>) -> DimensionView {
    let ready = missing_features(report).len() == 0;
    DimensionView {
        dimension: "confinement"@,
        source: Source::LocallyObserved,
        state: if ready {
            "ready"@
        } else {
            "degraded"@
        },
        facts: FactsView::Confinement(
            ConfinementFactsView {
                sandbox_ready: ready,
                unavailable_required: missing_features(report),
            },
        ),
    }
}

/// The claim on budgets.
pub open spec fn budget_claim(v: StoreView, root: Seq<char>) -> DimensionView {
    let standing = v.auto_approve.contains_key(root);
    DimensionView {
        dimension: "budget"@,
        source: Source::LocallyObserved,
        state: if standing {
            "standing_policy"@
        } else {
            "always_ask"@
        },
        facts: FactsView::Budget(
            BudgetFactsView {
                standing_approval: if standing {
                    Some(peers::policy_of(v.auto_approve[root]))
                } else {
                    None
                },
                max_staged_payload_bytes: MAX_STAGED_PAYLOAD_BYTES,
            },
        ),
    }
}

/// The claim on schemas.
pub open spec fn schema_claim(schemas: EvidenceSchemasView) -> DimensionView {
    DimensionView {
        dimension: "evidence_schemas"@,
        source: Source::LocallyObserved,
        state: if schemas.provisional {
            "provisional_media_types"@
        } else {
            "registered"@
        },
        facts: FactsView::Schemas(schemas),
    }
}

/// All that is claimed of a peer.
pub open spec fn predicate_of(
    v: StoreView,
    label: Seq<char>,
    import: PeerImportView,
    report: Seq<FeatureReportView>,
    schemas: EvidenceSchemasView,
) -> CapabilityPredicateView {
    let root = import.root_thumbprint;
    CapabilityPredicateView {
        schema_version: 1,
        protocol: COORD_PROTOCOL@,
        label,
        root_thumbprint: root,
        dimensions: seq![
            identity_claim(v, import),
            card_claim(v, root),
            expiry_claim(),
            rollback_claim(v),
            confinement_claim(report),
            budget_claim(v, root),
            schema_claim(schemas),
        ],
    }
}

fn claim_identity(store: &Store, import: &PeerImport, peer: &Option<StoredPeer>) -> (r: Dimension)
    requires
        store.wf(),
        match *peer {
            Some(p) => store@.peers.contains_key(import@.root_thumbprint) && p@
                == store@.peers[import@.root_thumbprint].peer,
            None => !store@.peers.contains_key(import@.root_thumbprint),
        },
    ensures
        r@ == identity_claim(store@, import@),
{
    let relationship = status_by_root(store, &import.root_thumbprint);
    match peer {
        Some(p) => Dimension {
            dimension: "peer_identity".to_owned(),
            source: Source::LocallyObserved,
            state: "verified".to_owned(),
            facts: Facts::Identity(
                IdentityFacts {
                    root_thumbprint: import.root_thumbprint.clone(),
                    issuer: copy_option(&p.identity.issuer),
                    agent_id: p.identity.agent_id.clone(),
                    endpoint_id: p.identity.endpoint_id.clone(),
                    tls_certificate_sha256: p.identity.tls_cert.value.clone(),
                    agent_card_thumbprint: p.identity.agent_card_key.value.clone(),
                    relationship,
                    epoch: import.epoch,
                },
            ),
        },
        None => Dimension {
            dimension: "peer_identity".to_owned(),
            source: Source::LocallyObserved,
            state: "unverified".to_owned(),
            facts: Facts::NotIntroduced(
                NotIntroduced {
                    root_thumbprint: import.root_thumbprint.clone(),
                    relationship,
                    epoch: import.epoch,
                    reason: "no introduction has committed the §8.1 identity tuple".to_owned(),
                },
            ),
        },
    }
}

fn claim_card(store: &Store, root: &str, peer: &Option<StoredPeer>) -> (r: Dimension)
    requires
        match *peer {
            Some(p) => store@.peers.contains_key(root@) && p@ == store@.peers[root@].peer,
            None => !store@.peers.contains_key(root@),
        },
    ensures
        r@ == card_claim(store@, root@),
{
    match peer {
        Some(p) => Dimension {
            dimension: "card_claims".to_owned(),
            source: Source::PeerAsserted,
            state: "pinned".to_owned(),
            facts: Facts::Card(
                CardFacts {
                    security_projection_digest: p.identity.security_projection_digest.value.clone(),
                    full_card_digest: p.identity.full_card_digest.value.clone(),
                    key_purposes: list_purposes(&p.identity.key_bindings),
                },
            ),
        },
        None => Dimension {
            dimension: "card_claims".to_owned(),
            source: Source::PeerAsserted,
            state: "absent".to_owned(),
            facts: Facts::Reason(
                "the peer has asserted no Agent Card to this endpoint yet".to_owned(),
            ),
        },
    }
}

fn claim_expiry() -> (r: Dimension)
    ensures
        r@ == expiry_claim(),
{
    Dimension {
        dimension: "key_expiry".to_owned(),
        source: Source::PeerAsserted,
        state: "not_retained".to_owned(),
        facts: Facts::Reason(
            "akson pins key thumbprints at introduction and does not retain the card's not_before/not_after".to_owned(),
        ),
    }
}

fn claim_rollback(store: &Store) -> (r: Dimension)
    ensures
        r@ == rollback_claim(store@),
{
    let (state, detail, detectable) = match store.recovery() {
        Recovery::Normal => ("normal", "the checkpoint agrees with the database", true),
        Recovery::RollbackDetectionUnavailable => (
            "detection_unavailable",
            "no independent rollback counter exists (interim custody, §15.5)",
            false,
        ),
        Recovery::Recovery(_) => (
            "recovery",
            "the database disagrees with the checkpoint; automatic authority is disabled",
            false,
        ),
    };
    let state_generation: u64 = match store.state_generation() {
        Ok(n) => n,
        Err(_) => 0,
    };
    let trusted_time_floor: i64 = match store.trusted_time_floor() {
        Ok(n) => n,
        Err(_) => 0,
    };
    Dimension {
        dimension: "rollback_detection".to_owned(),
        source: Source::LocallyObserved,
        state: state.to_owned(),
        facts: Facts::Rollback(
            RollbackFacts {
                detectable,
                automatic_authority: store.recovery().automatic_authority_enabled(),
                state_generation,
                trusted_time_floor,
                detail: detail.to_owned(),
            },
        ),
    }
}

fn list_missing(report: &Vec<FeatureReport>) -> (r: Vec<String>)
    ensures
        text::views(r@) == missing_features(table::seen(report@)),
{
    let ghost all = table::seen(report@);
    let ghost keep = |f: FeatureReportView| f.required && !f.available;
    let ghost name = |f: FeatureReportView| f.feature;
    let mut r: Vec<String> = Vec::new();
    let mut i: usize = 0;
    proof {
        reveal(Seq::filter);
        assert(text::views(r@) =~= all.take(0).filter(keep).map_values(name));
    }
    while i < report.len()
        invariant
            all == table::seen(report@),
            keep == (|f: FeatureReportView| f.required && !f.available),
            name == (|f: FeatureReportView| f.feature),
            i <= all.len(),
            text::views(r@) == all.take(i as int).filter(keep).map_values(name),
        decreases all.len() - i,
    {
        let ghost had = text::views(r@);
        proof {
            reveal(Seq::filter);
            assert(all.take(i + 1).drop_last() =~= all.take(i as int));
            assert(all.take(i + 1).last() == report@[i as int]@);
        }
        if report[i].required && !report[i].available {
            r.push(report[i].feature.clone());
            proof {
                let before = all.take(i as int).filter(keep);
                assert(all.take(i + 1).filter(keep) =~= before.push(all[i as int]));
                assert(before.push(all[i as int]).map_values(name) =~= before.map_values(name).push(
                    all[i as int].feature,
                ));
                assert(text::views(r@) =~= had.push(all[i as int].feature));
            }
        }
        i = i + 1;
    }
    assert(all.take(i as int) =~= all);
    r
}

fn claim_confinement(report: &Vec<FeatureReport>) -> (r: Dimension)
    ensures
        r@ == confinement_claim(table::seen(report@)),
{
    let unavailable_required = list_missing(report);
    assert(text::views(unavailable_required@).len() == unavailable_required@.len());
    let ready = unavailable_required.len() == 0;
    Dimension {
        dimension: "confinement".to_owned(),
        source: Source::LocallyObserved,
        state: if ready {
            "ready".to_owned()
        } else {
            "degraded".to_owned()
        },
        facts: Facts::Confinement(ConfinementFacts { sandbox_ready: ready, unavailable_required }),
    }
}

fn claim_budget(store: &Store, root: &str) -> (r: Dimension)
    requires
        store.wf(),
    ensures
        r@ == budget_claim(store@, root@),
{
    let standing_approval = match store.auto_approve_for_root(root) {
        Ok(policy) => policy,
        Err(_) => None,
    };
    Dimension {
        dimension: "budget".to_owned(),
        source: Source::LocallyObserved,
        state: if standing_approval.is_some() {
            "standing_policy".to_owned()
        } else {
            "always_ask".to_owned()
        },
        facts: Facts::Budget(
            BudgetFacts {
                standing_approval,
                max_staged_payload_bytes: MAX_STAGED_PAYLOAD_BYTES,
            },
        ),
    }
}

fn claim_schemas(schemas: &EvidenceSchemas) -> (r: Dimension)
    ensures
        r@ == schema_claim(schemas@),
{
    Dimension {
        dimension: "evidence_schemas".to_owned(),
        source: Source::LocallyObserved,
        state: if schemas.provisional {
            "provisional_media_types".to_owned()
        } else {
            "registered".to_owned()
        },
        facts: Facts::Schemas(schemas.dup()),
    }
}

/// All that is claimed of an imported peer. `report` is what was found of the means
/// of confinement.
pub fn capability_predicate(
    store: &Store,
    label: &str,
    import: &PeerImport,
    report: &Vec<FeatureReport>,
    schemas: &EvidenceSchemas,
) -> (r: CapabilityPredicate)
    requires
        store.wf(),
    ensures
        r@ == predicate_of(store@, label@, import@, table::seen(report@), schemas@),
{
    let peer = match store.get_peer_by_root(&import.root_thumbprint) {
        Ok(peer) => peer,
        Err(_) => None,
    };
    let mut dimensions: Vec<Dimension> = Vec::new();
    dimensions.push(claim_identity(store, import, &peer));
    dimensions.push(claim_card(store, &import.root_thumbprint, &peer));
    dimensions.push(claim_expiry());
    dimensions.push(claim_rollback(store));
    dimensions.push(claim_confinement(report));
    dimensions.push(claim_budget(store, &import.root_thumbprint));
    dimensions.push(claim_schemas(schemas));
    assert(table::seen(dimensions@) =~= predicate_of(
        store@,
        label@,
        import@,
        table::seen(report@),
        schemas@,
    ).dimensions);
    CapabilityPredicate {
        schema_version: 1,
        protocol: COORD_PROTOCOL.to_owned(),
        label: label.to_owned(),
        root_thumbprint: import.root_thumbprint.clone(),
        dimensions,
    }
}

/// The claim about a named peer. Its subject is the digest of the pinned root, so
/// that it can be matched without the label.
pub open spec fn claim_of(
    v: StoreView,
    label: Seq<char>,
    import: PeerImportView,
    report: Seq<FeatureReportView>,
    schemas: EvidenceSchemasView,
) -> CapabilityClaimView {
    CapabilityClaimView {
        label,
        root_thumbprint: import.root_thumbprint,
        subject_name: "peer/"@ + label,
        subject_sha256: coord::sha256_hex(encode_utf8(import.root_thumbprint)),
        predicate: predicate_of(v, label, import, report, schemas),
    }
}

/// The evidence on a named peer, to be signed. An unknown label is refused before
/// anything is claimed.
pub fn capability_evidence(
    store: &Store,
    label: &str,
    report: &Vec<FeatureReport>,
    schemas: &EvidenceSchemas,
) -> (r: Result<CapabilityClaim, Problem>)
    requires
        store.wf(),
    ensures
        match r {
            Ok(claim) => address::is_label(label@) && match imports::labelled(store@, label@) {
                Some(import) => claim@ == claim_of(
                    store@,
                    label@,
                    import,
                    table::seen(report@),
                    schemas@,
                ),
                None => false,
            },
            Err(p) => (!address::is_label(label@) || imports::labelled(store@, label@) is None) && p@
                == coord_stage::unknown_peer_problem(),
        },
{
    let import = match import_named(store, label) {
        Ok(import) => import,
        Err(p) => {
            return Err(p);
        },
    };
    let predicate = capability_predicate(store, label, &import, report, schemas);
    let digest = sha256(import.root_thumbprint.as_str().as_bytes());
    Ok(
        CapabilityClaim {
            label: label.to_owned(),
            root_thumbprint: import.root_thumbprint,
            subject_name: "peer/".to_owned().concat(label),
            subject_sha256: hex(&digest),
            predicate,
        },
    )
}

/// The operator's note on a peer never crosses this surface: whatever it says, the
/// same is shown and claimed of the peer.
pub proof fn notes_stay_private(
    v: StoreView,
    root: Seq<char>,
    note: Seq<char>,
    label: Seq<char>,
    import: PeerImportView,
    report: Seq<FeatureReportView>,
    schemas: EvidenceSchemasView,
)
    requires
        v.peers.contains_key(root),
    ensures
        ({
            let row = v.peers[root];
            let w = StoreView {
                peers: v.peers.insert(
                    root,
                    PeerRowView { peer: StoredPeerView { local_note: note, ..row.peer }, ..row },
                ),
                ..v
            };
            &&& shown_peer(w, label, import) == shown_peer(v, label, import)
            &&& claim_of(w, label, import, report, schemas) == claim_of(
                v,
                label,
                import,
                report,
                schemas,
            )
        }),
{
}

} // verus!
