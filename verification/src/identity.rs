//! Who a peer is: the identity that was pinned for it, and what a change of that
//! identity means.
use crate::table::{Record, dup_all};
use crate::table;
use crate::text::{copy_option, same_option, same_text};
use crate::text;
use vstd::prelude::*;

verus! {

/// What a fingerprint is taken of.
#[derive(Debug, Clone, Copy, PartialEq, Eq, Structural)]
pub enum FingerprintKind {
    /// A certificate, by SHA-256.
    CertSha256,
    /// A public key, by its RFC 7638 thumbprint.
    Jwk7638,
    /// A JSON document, by SHA-256.
    JsonSha256,
}

/// A fingerprint.
#[derive(Debug, Clone, PartialEq, Eq)]
pub struct Fingerprint {
    pub kind: FingerprintKind,
    pub value: String,
}

/// The view of [`Fingerprint`].
#[verifier::ext_equal]
pub struct FingerprintView {
    pub kind: FingerprintKind,
    pub value: Seq<char>,
}

impl View for Fingerprint {
    type V = FingerprintView;

    open spec fn view(&self) -> FingerprintView {
        FingerprintView {
            kind: self.kind,
            value: self.value@,
        }
    }
}

impl Record for Fingerprint {
    fn dup(&self) -> (r: Self) {
        let r = Fingerprint {
            kind: self.kind,
            value: self.value.clone(),
        };
        r
    }
}

/// A key that a peer uses for one purpose.
#[derive(Debug, Clone, PartialEq, Eq)]
pub struct KeyBinding {
    pub purpose: String,
    pub thumbprint: String,
}

/// The view of [`KeyBinding`].
#[verifier::ext_equal]
pub struct KeyBindingView {
    pub purpose: Seq<char>,
    pub thumbprint: Seq<char>,
}

impl View for KeyBinding {
    type V = KeyBindingView;

    open spec fn view(&self) -> KeyBindingView {
        KeyBindingView {
            purpose: self.purpose@,
            thumbprint: self.thumbprint@,
        }
    }
}

impl Record for KeyBinding {
    fn dup(&self) -> (r: Self) {
        let r = KeyBinding {
            purpose: self.purpose.clone(),
            thumbprint: self.thumbprint.clone(),
        };
        r
    }
}

/// The pinned identity of a peer.
#[derive(Debug, Clone, PartialEq, Eq)]
pub struct PeerIdentity {
    pub issuer: Option<String>,
    pub agent_id: String,
    pub workload_id: Option<String>,
    pub endpoint_id: String,
    pub tls_cert: Fingerprint,
    /// The identity root: the key that signs the agent card.
    pub agent_card_key: Fingerprint,
    pub key_bindings: Vec<KeyBinding>,
    pub security_projection_digest: Fingerprint,
    pub full_card_digest: Fingerprint,
}

/// The view of [`PeerIdentity`].
#[verifier::ext_equal]
pub struct PeerIdentityView {
    pub issuer: Option<Seq<char>>,
    pub agent_id: Seq<char>,
    pub workload_id: Option<Seq<char>>,
    pub endpoint_id: Seq<char>,
    pub tls_cert: FingerprintView,
    pub agent_card_key: FingerprintView,
    pub key_bindings: Seq<KeyBindingView>,
    pub security_projection_digest: FingerprintView,
    pub full_card_digest: FingerprintView,
}

impl View for PeerIdentity {
    type V = PeerIdentityView;

    open spec fn view(&self) -> PeerIdentityView {
        PeerIdentityView {
            issuer: text::view_option(self.issuer),
            agent_id: self.agent_id@,
            workload_id: text::view_option(self.workload_id),
            endpoint_id: self.endpoint_id@,
            tls_cert: self.tls_cert@,
            agent_card_key: self.agent_card_key@,
            key_bindings: table::seen(self.key_bindings@),
            security_projection_digest: self.security_projection_digest@,
            full_card_digest: self.full_card_digest@,
        }
    }
}

impl Record for PeerIdentity {
    fn dup(&self) -> (r: Self) {
        let r = PeerIdentity {
            issuer: copy_option(&self.issuer),
            agent_id: self.agent_id.clone(),
            workload_id: copy_option(&self.workload_id),
            endpoint_id: self.endpoint_id.clone(),
            tls_cert: self.tls_cert.dup(),
            agent_card_key: self.agent_card_key.dup(),
            key_bindings: dup_all(&self.key_bindings),
            security_projection_digest: self.security_projection_digest.dup(),
            full_card_digest: self.full_card_digest.dup(),
        };
        r
    }
}

/// A pinned peer, with a note of the operator that no other party sees.
#[derive(Debug, Clone, PartialEq, Eq)]
pub struct StoredPeer {
    pub identity: PeerIdentity,
    pub local_note: String,
}

/// The view of [`StoredPeer`].
#[verifier::ext_equal]
pub struct StoredPeerView {
    pub identity: PeerIdentityView,
    pub local_note: Seq<char>,
}

impl View for StoredPeer {
    type V = StoredPeerView;

    open spec fn view(&self) -> StoredPeerView {
        StoredPeerView {
            identity: self.identity@,
            local_note: self.local_note@,
        }
    }
}

impl Record for StoredPeer {
    fn dup(&self) -> (r: Self) {
        let r = StoredPeer {
            identity: self.identity.dup(),
            local_note: self.local_note.clone(),
        };
        r
    }
}

/// Why a peer is suspended.
#[derive(Debug, Clone, Copy, PartialEq, Eq, Structural)]
pub enum SuspendReason {
    /// Something else than the agent's name is not as it was pinned.
    MaterialChanged,
    /// The agent goes by another name.
    SubjectChanged,
}

impl SuspendReason {
    /// The name of the reason.
    pub open spec fn name(self) -> Seq<char> {
        match self {
            SuspendReason::MaterialChanged => "MaterialChanged"@,
            SuspendReason::SubjectChanged => "SubjectChanged"@,
        }
    }

    /// The name of the reason.
    pub fn as_str(&self) -> (s: &'static str)
        ensures
            s@ == self.name(),
    {
        match self {
            SuspendReason::MaterialChanged => "MaterialChanged",
            SuspendReason::SubjectChanged => "SubjectChanged",
        }
    }
}

/// Where a peer stands.
#[derive(Debug, Clone, Copy, PartialEq, Eq, Structural)]
pub enum PeerStatus {
    Pending,
    Active,
    Suspended(SuspendReason),
}

impl PeerStatus {
    /// The status as the operator reads it.
    pub open spec fn column(self) -> Seq<char> {
        match self {
            PeerStatus::Pending => "pending"@,
            PeerStatus::Active => "active"@,
            PeerStatus::Suspended(_) => "suspended"@,
        }
    }

    /// The status as the operator reads it.
    pub fn as_column(&self) -> (s: &'static str)
        ensures
            s@ == self.column(),
    {
        match self {
            PeerStatus::Pending => "pending",
            PeerStatus::Active => "active",
            PeerStatus::Suspended(_) => "suspended",
        }
    }
}

/// A presented identity is what was pinned: the certificate, the root, the keys, the
/// endpoint, the security part of the card, and who vouches for it. The agent's name and
/// the part of the card that carries no security claim do not count.
pub open spec fn same_material(pinned: PeerIdentityView, presented: PeerIdentityView) -> bool {
    &&& pinned.tls_cert == presented.tls_cert
    &&& pinned.agent_card_key == presented.agent_card_key
    &&& pinned.key_bindings == presented.key_bindings
    &&& pinned.endpoint_id == presented.endpoint_id
    &&& pinned.security_projection_digest == presented.security_projection_digest
    &&& pinned.issuer == presented.issuer
    &&& pinned.workload_id == presented.workload_id
}

/// Why a presented identity suspends the pinned one, apart from the agent's name.
pub open spec fn change_of(pinned: PeerIdentityView, presented: PeerIdentityView) -> Option<
    SuspendReason,
> {
    if same_material(pinned, presented) {
        None
    } else {
        Some(SuspendReason::MaterialChanged)
    }
}

/// Whether two fingerprints are the same.
pub fn same_fingerprint(a: &Fingerprint, b: &Fingerprint) -> (r: bool)
    ensures
        r == (a@ == b@),
{
    a.kind == b.kind && same_text(&a.value, &b.value)
}

fn same_bindings(a: &Vec<KeyBinding>, b: &Vec<KeyBinding>) -> (r: bool)
    ensures
        r == (table::seen(a@) == table::seen(b@)),
{
    let ghost x = table::seen(a@);
    let ghost y = table::seen(b@);
    assert(x.len() == a@.len() && y.len() == b@.len());
    if a.len() != b.len() {
        return false;
    }
    let mut i: usize = 0;
    while i < a.len()
        invariant
            x == table::seen(a@),
            y == table::seen(b@),
            i <= a@.len(),
            a@.len() == b@.len(),
            forall|j: int| 0 <= j < i ==> x[j] == y[j],
        decreases a@.len() - i,
    {
        assert(x[i as int] == a@[i as int]@ && y[i as int] == b@[i as int]@);
        if !same_text(&a[i].purpose, &b[i].purpose) || !same_text(
            &a[i].thumbprint,
            &b[i].thumbprint,
        ) {
            return false;
        }
        i = i + 1;
    }
    assert(x =~= y);
    true
}

/// Finds whether a presented identity changes what was pinned. What counts is a rule of
/// this module, called from no outside crate.
pub fn detect_change(pinned: &PeerIdentity, presented: &PeerIdentity) -> (r: Option<SuspendReason>)
    ensures
        r == change_of(pinned@, presented@),
{
    if same_fingerprint(&pinned.tls_cert, &presented.tls_cert) && same_fingerprint(
        &pinned.agent_card_key,
        &presented.agent_card_key,
    ) && same_bindings(&pinned.key_bindings, &presented.key_bindings) && same_text(
        &pinned.endpoint_id,
        &presented.endpoint_id,
    ) && same_fingerprint(
        &pinned.security_projection_digest,
        &presented.security_projection_digest,
    ) && same_option(&pinned.issuer, &presented.issuer) && same_option(
        &pinned.workload_id,
        &presented.workload_id,
    ) {
        None
    } else {
        Some(SuspendReason::MaterialChanged)
    }
}

} // verus!
