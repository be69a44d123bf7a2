//! Exporting the signed result of a task as a bundle that anyone can check offline.
//!
//! Only the side that performed the task can export it: the signed manifest is kept
//! there. A bundle that this endpoint cannot verify itself is never given out.
use crate::contract::{Identity, IdentityView};
use crate::control::{Problem, ProblemView};
use crate::control;
use crate::numerals::hex;
use crate::numerals;
use crate::store::attempts;
use crate::store::requests::TaskOutputView;
use crate::store::requests;
use crate::store::rows::OutcomeRowView;
use crate::store::{Store, StoreView};
use crate::table::{Record, dup_all};
use crate::table;
use crate::text::{copy_bytes, same_text};
use vstd::prelude::*;

verus! {

/// An output in a bundle.
#[derive(Debug, Clone, PartialEq, Eq)]
pub struct BundleOutput {
    pub artifact_id: String,
    pub role: String,
    pub media_type: String,
    pub payload: Vec<u8>,
}

/// The view of [`BundleOutput`].
#[verifier::ext_equal]
pub struct BundleOutputView {
    pub artifact_id: Seq<char>,
    pub role: Seq<char>,
    pub media_type: Seq<char>,
    pub payload: Seq<u8>,
}

impl View for BundleOutput {
    type V = BundleOutputView;

    open spec fn view(&self) -> BundleOutputView {
        BundleOutputView {
            artifact_id: self.artifact_id@,
            role: self.role@,
            media_type: self.media_type@,
            payload: self.payload@,
        }
    }
}

impl Record for BundleOutput {
    fn dup(&self) -> (r: Self) {
        let r = BundleOutput {
            artifact_id: self.artifact_id.clone(),
            role: self.role.clone(),
            media_type: self.media_type.clone(),
            payload: copy_bytes(&self.payload),
        };
        r
    }
}

/// Who signed the manifest, and under which key.
#[derive(Debug, Clone, PartialEq, Eq)]
pub struct SignerHint {
    pub issuer: String,
    pub agent: String,
    pub root_thumbprint: String,
    pub task_result_public_key_hex: String,
    pub task_result_thumbprint: String,
}

/// The view of [`SignerHint`].
#[verifier::ext_equal]
pub struct SignerHintView {
    pub issuer: Seq<char>,
    pub agent: Seq<char>,
    pub root_thumbprint: Seq<char>,
    pub task_result_public_key_hex: Seq<char>,
    pub task_result_thumbprint: Seq<char>,
}

impl View for SignerHint {
    type V = SignerHintView;

    open spec fn view(&self) -> SignerHintView {
        SignerHintView {
            issuer: self.issuer@,
            agent: self.agent@,
            root_thumbprint: self.root_thumbprint@,
            task_result_public_key_hex: self.task_result_public_key_hex@,
            task_result_thumbprint: self.task_result_thumbprint@,
        }
    }
}

impl Record for SignerHint {
    fn dup(&self) -> (r: Self) {
        let r = SignerHint {
            issuer: self.issuer.clone(),
            agent: self.agent.clone(),
            root_thumbprint: self.root_thumbprint.clone(),
            task_result_public_key_hex: self.task_result_public_key_hex.clone(),
            task_result_thumbprint: self.task_result_thumbprint.clone(),
        };
        r
    }
}

/// What a bundle is made of.
#[derive(Debug, Clone, PartialEq, Eq)]
pub struct BundleDraft {
    pub task_id: String,
    /// The signed manifest, as it was kept.
    pub manifest: Vec<u8>,
    pub outputs: Vec<BundleOutput>,
    pub signer: SignerHint,
}

/// The view of [`BundleDraft`].
#[verifier::ext_equal]
pub struct BundleDraftView {
    pub task_id: Seq<char>,
    pub manifest: Seq<u8>,
    pub outputs: Seq<BundleOutputView>,
    pub signer: SignerHintView,
}

impl View for BundleDraft {
    type V = BundleDraftView;

    open spec fn view(&self) -> BundleDraftView {
        BundleDraftView {
            task_id: self.task_id@,
            manifest: self.manifest@,
            outputs: table::seen(self.outputs@),
            signer: self.signer@,
        }
    }
}

impl Record for BundleDraft {
    fn dup(&self) -> (r: Self) {
        let r = BundleDraft {
            task_id: self.task_id.clone(),
            manifest: copy_bytes(&self.manifest),
            outputs: dup_all(&self.outputs),
            signer: self.signer.dup(),
        };
        r
    }
}

/// An exported bundle.
#[derive(Debug, Clone, PartialEq, Eq)]
pub struct ExportReply {
    pub task_id: String,
    pub bundle_digest: String,
    pub outputs: u64,
    pub payload_bytes: u64,
    pub signer_task_result_public_key_hex: String,
    pub signer_task_result_thumbprint: String,
    pub bundle: Vec<u8>,
}

/// The view of [`ExportReply`].
#[verifier::ext_equal]
pub struct ExportReplyView {
    pub task_id: Seq<char>,
    pub bundle_digest: Seq<char>,
    pub outputs: u64,
    pub payload_bytes: u64,
    pub signer_task_result_public_key_hex: Seq<char>,
    pub signer_task_result_thumbprint: Seq<char>,
    pub bundle: Seq<u8>,
}

impl View for ExportReply {
    type V = ExportReplyView;

    open spec fn view(&self) -> ExportReplyView {
        ExportReplyView {
            task_id: self.task_id@,
            bundle_digest: self.bundle_digest@,
            outputs: self.outputs,
            payload_bytes: self.payload_bytes,
            signer_task_result_public_key_hex: self.signer_task_result_public_key_hex@,
            signer_task_result_thumbprint: self.signer_task_result_thumbprint@,
            bundle: self.bundle@,
        }
    }
}

impl Record for ExportReply {
    fn dup(&self) -> (r: Self) {
        let r = ExportReply {
            task_id: self.task_id.clone(),
            bundle_digest: self.bundle_digest.clone(),
            outputs: self.outputs,
            payload_bytes: self.payload_bytes,
            signer_task_result_public_key_hex: self.signer_task_result_public_key_hex.clone(),
            signer_task_result_thumbprint: self.signer_task_result_thumbprint.clone(),
            bundle: copy_bytes(&self.bundle),
        };
        r
    }
}

/// What came of assembling a bundle and verifying it under the key of this endpoint.
#[derive(Debug, Clone, PartialEq, Eq)]
pub enum BundleVerdict {
    /// The manifest that was kept cannot be read.
    Unreadable,
    /// The bundle does not verify; this is why.
    Refused(String),
    /// The bundle verifies. The bytes are absent where it could not be written.
    Verified { bundle_digest: String, outputs: u64, payload_bytes: u64, bundle: Option<Vec<u8>> },
}

/// The result that is kept of a task, if it was performed here: the digest of its
/// bundle, and its manifest.
pub open spec fn is_result_of(
    v: StoreView,
    task_id: Seq<char>,
    found: Option<(Seq<char>, Seq<u8>)>,
) -> bool {
    if exists|id: Seq<char>| #[trigger] attempts::is_attempt_at(v, id, task_id) {
        exists|id: Seq<char>| #[trigger]
            attempts::is_attempt_at(v, id, task_id) && found == if v.results.contains_key(id) {
                Some((v.results[id].bundle_digest, v.results[id].manifest))
            } else {
                None
            }
    } else {
        found is None
    }
}

/// The outcome under a digest is that of a task.
pub open spec fn is_outcome_of(v: StoreView, digest: Seq<char>, task_id: Seq<char>) -> bool {
    v.outcomes.contains_key(digest) && v.outcomes[digest].task_id == task_id
}

/// Why there is nothing to export. Whoever received the result keeps its outputs and
/// its own outcome, and not the manifest of the performer; it is told so.
pub open spec fn nothing_to_export(v: StoreView, task_id: Seq<char>) -> ProblemView {
    if exists|digest: Seq<char>| #[trigger] is_outcome_of(v, digest, task_id) {
        control::problem_of(
            409,
            "not-the-performer"@,
            "this endpoint received this result; it validated the performer's signed manifest at delivery and keeps the verified outputs and its own outcome, but not the performer's envelope — export the bundle on the performer's endpoint"@,
        )
    } else {
        control::problem_of(404, "no-result"@, "no completed result for the task on this endpoint"@)
    }
}

/// An output as it goes into a bundle.
pub open spec fn bundle_output(o: TaskOutputView) -> BundleOutputView {
    BundleOutputView {
        artifact_id: o.artifact_id,
        role: o.role,
        media_type: o.media_type,
        payload: o.payload,
    }
}

/// The draft is that of a task: its manifest, its outputs in their order, and the
/// signer.
pub open spec fn is_draft_of(
    v: StoreView,
    draft: BundleDraftView,
    exporter: IdentityView,
    root_thumbprint: Seq<char>,
    public_key: Seq<u8>,
    thumbprint: Seq<char>,
    task_id: Seq<char>,
    manifest: Seq<u8>,
) -> bool {
    &&& draft.task_id == task_id
    &&& draft.manifest == manifest
    &&& exists|list: Seq<TaskOutputView>| #[trigger]
        requests::outputs_listed(v, task_id, list) && draft.outputs == list.map_values(
            |o: TaskOutputView| bundle_output(o),
        )
    &&& draft.signer == SignerHintView {
        issuer: exporter.issuer,
        agent: exporter.agent,
        root_thumbprint,
        task_result_public_key_hex: numerals::hex_of(public_key),
        task_result_thumbprint: thumbprint,
    }
}

/// What is given out, by the verdict on the bundle and the digest that was kept.
pub open spec fn export_verdict(
    task_id: Seq<char>,
    signer: SignerHintView,
    stored_digest: Seq<char>,
    verdict: BundleVerdict,
) -> Result<ExportReplyView, ProblemView> {
    match verdict {
        BundleVerdict::Unreadable => Err(
            control::problem_of(
                500,
                "corrupt-result"@,
                "the stored result manifest could not be parsed"@,
            ),
        ),
        BundleVerdict::Refused(why) => Err(
            ProblemView {
                detail: Some(why@),
                ..control::problem_of(
                    500,
                    "export-invalid"@,
                    "the assembled bundle does not verify; refusing to export it"@,
                )
            },
        ),
        BundleVerdict::Verified { bundle_digest, outputs, payload_bytes, bundle } => if bundle_digest@
            != stored_digest {
            Err(
                control::problem_of(
                    500,
                    "export-invalid"@,
                    "the assembled bundle's digest does not match the stored bundle digest"@,
                ),
            )
        } else {
            match bundle {
                None => Err(control::internal_problem()),
                Some(bytes) => Ok(
                    ExportReplyView {
                        task_id,
                        bundle_digest: bundle_digest@,
                        outputs,
                        payload_bytes,
                        signer_task_result_public_key_hex: signer.task_result_public_key_hex,
                        signer_task_result_thumbprint: signer.task_result_thumbprint,
                        bundle: bytes@,
                    },
                ),
            }
        },
    }
}

fn find_result(store: &Store, task_id: &str) -> (r: Option<(String, Vec<u8>)>)
    requires
        store.wf(),
    ensures
        is_result_of(
            store@,
            task_id@,
            match r {
                Some((digest, manifest)) => Some((digest@, manifest@)),
                None => None,
            },
        ),
{
    match store.attempt_for_task(task_id) {
        Ok(Some(id)) => match store.result_manifest(&id) {
            Ok(found) => {
                assert(attempts::is_attempt_at(store@, id@, task_id@));
                found
            },
            Err(_) => None,
        },
        _ => None,
    }
}

fn was_received(store: &Store, task_id: &str) -> (r: bool)
    requires
        store.wf(),
    ensures
        r == exists|digest: Seq<char>| #[trigger] is_outcome_of(store@, digest, task_id@),
{
    let list = match store.list_outcomes() {
        Ok(list) => list,
        Err(_) => Vec::new(),
    };
    let ghost v = store@;
    let ghost all = table::seen(list@);
    let ghost keep = |k: Seq<char>, row: OutcomeRowView| true;
    let ghost le = |a: (Seq<char>, OutcomeRowView), b: (Seq<char>, OutcomeRowView)|
        requests::by_recorded(a, b);
    let ghost keys = choose|ks: Seq<Seq<char>>| #[trigger]
        table::listing_keys(ks, v.outcomes, keep, le) && all =~= Seq::new(
            ks.len(),
            |i: int| requests::outcome_shown(ks[i], v.outcomes[ks[i]]),
        );
    proof {
        assert(requests::outcomes_listed(v, all));
        assert(table::listing_keys(keys, v.outcomes, keep, le));
    }
    let mut i: usize = 0;
    while i < list.len()
        invariant
            v == store@,
            all == table::seen(list@),
            i <= all.len(),
            table::listing_keys(keys, v.outcomes, keep, le),
            all == Seq::new(keys.len(), |i: int| requests::outcome_shown(keys[i], v.outcomes[keys[i]])),
            forall|j: int| 0 <= j < i ==> (#[trigger] all[j]).task_id != task_id@,
        decreases all.len() - i,
    {
        assert(all[i as int] == list@[i as int]@);
        if same_text(&list[i].task_id, task_id) {
            assert(is_outcome_of(v, keys[i as int], task_id@)) by {
                assert(keys.contains(keys[i as int]));
            }
            return true;
        }
        i = i + 1;
    }
    proof {
        assert forall|digest: Seq<char>| !#[trigger] is_outcome_of(v, digest, task_id@) by {
            if is_outcome_of(v, digest, task_id@) {
                assert(keep(digest, v.outcomes[digest]));
                assert(keys.contains(digest));
                let j = choose|j: int| 0 <= j < keys.len() && keys[j] == digest;
                assert(all[j].task_id != task_id@);
            }
        }
    }
    false
}

fn draft_outputs(store: &Store, task_id: &str) -> (r: Vec<BundleOutput>)
    requires
        store.wf(),
    ensures
        exists|list: Seq<TaskOutputView>| #[trigger]
            requests::outputs_listed(store@, task_id@, list) && table::seen(r@) == list.map_values(
                |o: TaskOutputView| bundle_output(o),
            ),
{
    let list = match store.list_task_outputs(task_id) {
        Ok(list) => list,
        Err(_) => Vec::new(),
    };
    let mut r: Vec<BundleOutput> = Vec::new();
    let mut i: usize = 0;
    while i < list.len()
        invariant
            i <= list@.len(),
            r@.len() == i,
            forall|j: int| 0 <= j < i ==> (#[trigger] r@[j])@ == bundle_output(list@[j]@),
        decreases list@.len() - i,
    {
        r.push(
            BundleOutput {
                artifact_id: list[i].artifact_id.clone(),
                role: list[i].role.clone(),
                media_type: list[i].media_type.clone(),
                payload: copy_bytes(&list[i].payload),
            },
        );
        i = i + 1;
    }
    assert(table::seen(r@) =~= table::seen(list@).map_values(|o: TaskOutputView| bundle_output(o)));
    r
}

/// Decides what is given out, by the verdict on the bundle and the digest that was
/// kept.
pub fn judge_bundle(
    task_id: &str,
    signer: &SignerHint,
    stored_digest: &str,
    verdict: BundleVerdict,
) -> (r: Result<ExportReply, Problem>)
    ensures
        match (r, export_verdict(task_id@, signer@, stored_digest@, verdict)) {
            (Ok(x), Ok(y)) => x@ == y,
            (Err(p), Err(q)) => p@ == q,
            _ => false,
        },
{
    match verdict {
        BundleVerdict::Unreadable => Err(
            Problem::new(500, "corrupt-result", "the stored result manifest could not be parsed"),
        ),
        BundleVerdict::Refused(why) => {
            let mut p = Problem::new(
                500,
                "export-invalid",
                "the assembled bundle does not verify; refusing to export it",
            );
            p.detail = Some(why);
            Err(p)
        },
        BundleVerdict::Verified { bundle_digest, outputs, payload_bytes, bundle } => {
            if !same_text(&bundle_digest, stored_digest) {
                return Err(
                    Problem::new(
                        500,
                        "export-invalid",
                        "the assembled bundle's digest does not match the stored bundle digest",
                    ),
                );
            }
            match bundle {
                None => Err(Problem::internal()),
                Some(bytes) => Ok(
                    ExportReply {
                        task_id: task_id.to_owned(),
                        bundle_digest,
                        outputs,
                        payload_bytes,
                        signer_task_result_public_key_hex: signer.task_result_public_key_hex.clone(),
                        signer_task_result_thumbprint: signer.task_result_thumbprint.clone(),
                        bundle: bytes,
                    },
                ),
            }
        },
    }
}

/// What comes of exporting a task.
pub open spec fn exports<F: Fn(&BundleDraft) -> BundleVerdict>(
    v: StoreView,
    exporter: IdentityView,
    root_thumbprint: Seq<char>,
    public_key: Seq<u8>,
    thumbprint: Seq<char>,
    task_id: Seq<char>,
    assemble: F,
    r: Result<ExportReply, Problem>,
) -> bool {
    exists|found: Option<(Seq<char>, Seq<u8>)>| #[trigger]
        is_result_of(v, task_id, found) && match found {
            None => match r {
                Err(p) => p@ == nothing_to_export(v, task_id),
                Ok(_) => false,
            },
            Some((digest, manifest)) => exists|draft: BundleDraft, verdict: BundleVerdict|
                is_draft_of(
                    v,
                    draft@,
                    exporter,
                    root_thumbprint,
                    public_key,
                    thumbprint,
                    task_id,
                    manifest,
                ) && #[trigger] call_ensures(assemble, (&draft,), verdict) && match (
                    r,
                    export_verdict(task_id, draft@.signer, digest, verdict),
                ) {
                    (Ok(x), Ok(y)) => x@ == y,
                    (Err(p), Err(q)) => p@ == q,
                    _ => false,
                },
        }
}

/// Exports the result of a task that was performed here. `assemble` makes the bundle
/// and verifies it under the key of this endpoint.
pub fn export_result_bundle<F: Fn(&BundleDraft) -> BundleVerdict>(
    store: &Store,
    exporter: &Identity,
    root_thumbprint: &str,
    task_result_public_key: &Vec<u8>,
    task_result_thumbprint: &str,
    task_id: &str,
    assemble: F,
) -> (r: Result<ExportReply, Problem>)
    requires
        store.wf(),
        forall|d: &BundleDraft| call_requires(assemble, (d,)),
    ensures
        exports(
            store@,
            exporter@,
            root_thumbprint@,
            task_result_public_key@,
            task_result_thumbprint@,
            task_id@,
            assemble,
            r,
        ),
{
    let (stored_digest, manifest) = match find_result(store, task_id) {
        Some(found) => found,
        None => {
            assert(is_result_of(store@, task_id@, None));
            return Err(
                if was_received(store, task_id) {
                    Problem::new(
                        409,
                        "not-the-performer",
                        "this endpoint received this result; it validated the performer's signed manifest at delivery and keeps the verified outputs and its own outcome, but not the performer's envelope — export the bundle on the performer's endpoint",
                    )
                } else {
                    Problem::new(
                        404,
                        "no-result",
                        "no completed result for the task on this endpoint",
                    )
                },
            );
        },
    };
    let ghost bytes = manifest@;
    assert(is_result_of(store@, task_id@, Some((stored_digest@, bytes))));
    let signer = SignerHint {
        issuer: exporter.issuer.clone(),
        agent: exporter.agent.clone(),
        root_thumbprint: root_thumbprint.to_owned(),
        task_result_public_key_hex: hex(task_result_public_key),
        task_result_thumbprint: task_result_thumbprint.to_owned(),
    };
    let draft = BundleDraft {
        task_id: task_id.to_owned(),
        manifest,
        outputs: draft_outputs(store, task_id),
        signer: signer.dup(),
    };
    let verdict = assemble(&draft);
    assert(call_ensures(assemble, (&draft,), verdict));
    judge_bundle(task_id, &signer, &stored_digest, verdict)
}

/// Nothing is given out that does not verify, or whose digest is not the one that was
/// kept when the task was completed.
pub proof fn only_sound_bundles_are_exported(
    task_id: Seq<char>,
    signer: SignerHintView,
    stored_digest: Seq<char>,
    verdict: BundleVerdict,
)
    requires
        export_verdict(task_id, signer, stored_digest, verdict) is Ok,
    ensures
        verdict is Verified,
        verdict->bundle_digest@ == stored_digest,
        export_verdict(task_id, signer, stored_digest, verdict)->Ok_0.bundle_digest
            == stored_digest,
{
}

} // verus!
