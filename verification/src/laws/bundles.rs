//! A bundle holds the outputs that the store holds of the task, and what is given out is what
//! verified.
use crate::contract::IdentityView;
use crate::export::{BundleDraftView, BundleVerdict, SignerHintView};
use crate::export;
use crate::store::attempts;
use crate::store::requests::TaskOutputView;
use crate::store::requests;
use crate::store::rows::OutputRowView;
use crate::store::StoreView;
use crate::table;
use vstd::prelude::*;

verus! {

/// The rows that a list of the outputs of a task shows: all of the task, each once, in their
/// order.
pub proof fn rows_of_outputs(v: StoreView, task_id: Seq<char>, list: Seq<TaskOutputView>) -> (ks: Seq<
    (Seq<char>, Seq<char>),
>)
    requires
        requests::outputs_listed(v, task_id, list),
    ensures
        ks.len() == list.len(),
        ks.no_duplicates(),
        forall|k: (Seq<char>, Seq<char>)| #[trigger]
            ks.contains(k) <==> v.task_outputs.contains_key(k) && k.0 == task_id,
        forall|i: int|
            0 <= i < ks.len() ==> #[trigger] list[i] == requests::output_shown(
                ks[i],
                v.task_outputs[ks[i]],
            ),
        forall|i: int, j: int|
            0 <= i < j < ks.len() ==> v.task_outputs[#[trigger] ks[i]].ordinal
                <= v.task_outputs[#[trigger] ks[j]].ordinal,
{
    let m = v.task_outputs;
    let (keep, show, le) = choose|
        keep: spec_fn((Seq<char>, Seq<char>), OutputRowView) -> bool,
        show: spec_fn((Seq<char>, Seq<char>), OutputRowView) -> TaskOutputView,
        le: spec_fn(
            ((Seq<char>, Seq<char>), OutputRowView),
            ((Seq<char>, Seq<char>), OutputRowView),
        ) -> bool,
    |
        #[trigger] table::lists(list, m, keep, show, le) && (forall|
            k: (Seq<char>, Seq<char>),
            row: OutputRowView,
        | #[trigger]
            keep(k, row) == (k.0 == task_id)) && (forall|
            k: (Seq<char>, Seq<char>),
            row: OutputRowView,
        | #[trigger]
            show(k, row) == requests::output_shown(k, row)) && (forall|
            a: ((Seq<char>, Seq<char>), OutputRowView),
            b: ((Seq<char>, Seq<char>), OutputRowView),
        | #[trigger]
            le(a, b) == (a.1.ordinal <= b.1.ordinal));
    let ks = choose|ks: Seq<(Seq<char>, Seq<char>)>| #[trigger]
        table::listing_keys(ks, m, keep, le) && list =~= Seq::new(
            ks.len(),
            |i: int| show(ks[i], m[ks[i]]),
        );
    assert forall|i: int, j: int| 0 <= i < j < ks.len() implies m[#[trigger] ks[i]].ordinal
        <= m[#[trigger] ks[j]].ordinal by {
        assert(le((ks[i], m[ks[i]]), (ks[j], m[ks[j]])));
    }
    ks
}

/// Every output of a draft is one that the store holds of the task, under its own id: its role,
/// its media type and its bytes are those of the stored row.
pub proof fn every_output_of_a_draft_is_stored(
    v: StoreView,
    draft: BundleDraftView,
    exporter: IdentityView,
    root_thumbprint: Seq<char>,
    public_key: Seq<u8>,
    thumbprint: Seq<char>,
    task_id: Seq<char>,
    manifest: Seq<u8>,
    i: int,
)
    requires
        export::is_draft_of(
            v,
            draft,
            exporter,
            root_thumbprint,
            public_key,
            thumbprint,
            task_id,
            manifest,
        ),
        0 <= i < draft.outputs.len(),
    ensures
        ({
            let out = draft.outputs[i];
            let at = (task_id, out.artifact_id);
            &&& v.task_outputs.contains_key(at)
            &&& out.role == v.task_outputs[at].role
            &&& out.media_type == v.task_outputs[at].media_type
            &&& out.payload == v.task_outputs[at].payload
        }),
{
    let list = choose|list: Seq<TaskOutputView>| #[trigger]
        requests::outputs_listed(v, task_id, list) && draft.outputs == list.map_values(
            |o: TaskOutputView| export::bundle_output(o),
        );
    let ks = rows_of_outputs(v, task_id, list);
    assert(ks.contains(ks[i]));
    let k = ks[i];
    assert(list[i] == requests::output_shown(k, v.task_outputs[k]));
    assert(k == (task_id, draft.outputs[i].artifact_id));
}

/// Every output that the store holds of the task is in the draft.
pub proof fn every_stored_output_is_drafted(
    v: StoreView,
    draft: BundleDraftView,
    exporter: IdentityView,
    root_thumbprint: Seq<char>,
    public_key: Seq<u8>,
    thumbprint: Seq<char>,
    task_id: Seq<char>,
    manifest: Seq<u8>,
    artifact_id: Seq<char>,
)
    requires
        export::is_draft_of(
            v,
            draft,
            exporter,
            root_thumbprint,
            public_key,
            thumbprint,
            task_id,
            manifest,
        ),
        v.task_outputs.contains_key((task_id, artifact_id)),
    ensures
        exists|i: int|
            0 <= i < draft.outputs.len() && (#[trigger] draft.outputs[i]).artifact_id == artifact_id,
{
    let list = choose|list: Seq<TaskOutputView>| #[trigger]
        requests::outputs_listed(v, task_id, list) && draft.outputs == list.map_values(
            |o: TaskOutputView| export::bundle_output(o),
        );
    let ks = rows_of_outputs(v, task_id, list);
    assert(ks.contains((task_id, artifact_id)));
    let i = choose|i: int| 0 <= i < ks.len() && ks[i] == (task_id, artifact_id);
    assert(draft.outputs[i].artifact_id == artifact_id);
}

/// The outputs of a draft are in the order of the manifest.
pub proof fn a_draft_keeps_the_order(
    v: StoreView,
    draft: BundleDraftView,
    exporter: IdentityView,
    root_thumbprint: Seq<char>,
    public_key: Seq<u8>,
    thumbprint: Seq<char>,
    task_id: Seq<char>,
    manifest: Seq<u8>,
    i: int,
    j: int,
)
    requires
        export::is_draft_of(
            v,
            draft,
            exporter,
            root_thumbprint,
            public_key,
            thumbprint,
            task_id,
            manifest,
        ),
        0 <= i < j < draft.outputs.len(),
    ensures
        draft.outputs[i].artifact_id != draft.outputs[j].artifact_id,
        v.task_outputs[(task_id, draft.outputs[i].artifact_id)].ordinal
            <= v.task_outputs[(task_id, draft.outputs[j].artifact_id)].ordinal,
{
    let list = choose|list: Seq<TaskOutputView>| #[trigger]
        requests::outputs_listed(v, task_id, list) && draft.outputs == list.map_values(
            |o: TaskOutputView| export::bundle_output(o),
        );
    let ks = rows_of_outputs(v, task_id, list);
    assert(ks.contains(ks[i]) && ks.contains(ks[j]));
    assert(ks[i] == (task_id, draft.outputs[i].artifact_id));
    assert(ks[j] == (task_id, draft.outputs[j].artifact_id));
}

/// A draft names its task, the manifest as it was kept, and the signer: who exports, the root,
/// and the key of results with its thumbprint.
pub proof fn a_draft_names_its_signer(
    v: StoreView,
    draft: BundleDraftView,
    exporter: IdentityView,
    root_thumbprint: Seq<char>,
    public_key: Seq<u8>,
    thumbprint: Seq<char>,
    task_id: Seq<char>,
    manifest: Seq<u8>,
)
    requires
        export::is_draft_of(
            v,
            draft,
            exporter,
            root_thumbprint,
            public_key,
            thumbprint,
            task_id,
            manifest,
        ),
    ensures
        draft.task_id == task_id,
        draft.manifest == manifest,
        draft.signer.issuer == exporter.issuer,
        draft.signer.agent == exporter.agent,
        draft.signer.root_thumbprint == root_thumbprint,
        draft.signer.task_result_public_key_hex == crate::numerals::hex_of(public_key),
        draft.signer.task_result_public_key_hex.len() == 2 * public_key.len(),
        draft.signer.task_result_thumbprint == thumbprint,
{
    crate::numerals::lemma_hex_len(public_key);
}

/// A result that is found for a task is that of an attempt at it, with the digest and the
/// manifest that were kept when it was completed.
pub proof fn a_found_result_is_of_the_task(
    v: StoreView,
    task_id: Seq<char>,
    found: Option<(Seq<char>, Seq<u8>)>,
)
    requires
        export::is_result_of(v, task_id, found),
        found is Some,
    ensures
        exists|id: Seq<char>| #[trigger]
            v.results.contains_key(id) && v.attempts.contains_key(id) && v.attempts[id].task_id
                == task_id && found == Some((v.results[id].bundle_digest, v.results[id].manifest)),
{
    let id = choose|id: Seq<char>| #[trigger]
        attempts::is_attempt_at(v, id, task_id) && found == if v.results.contains_key(id) {
            Some((v.results[id].bundle_digest, v.results[id].manifest))
        } else {
            None
        };
    assert(v.results.contains_key(id));
}

/// A result that was completed is found, where the task had no other attempt.
pub proof fn a_completed_result_is_found(
    v: StoreView,
    task_id: Seq<char>,
    id: Seq<char>,
    found: Option<(Seq<char>, Seq<u8>)>,
)
    requires
        export::is_result_of(v, task_id, found),
        v.attempts.contains_key(id),
        v.attempts[id].task_id == task_id,
        v.results.contains_key(id),
        forall|other: Seq<char>| #[trigger]
            v.attempts.contains_key(other) && v.attempts[other].task_id == task_id ==> other == id,
    ensures
        found == Some((v.results[id].bundle_digest, v.results[id].manifest)),
{
    assert(attempts::is_attempt_at(v, id, task_id));
}

/// What is given out says what the bundle says of itself: its digest, which is the one that was
/// kept, how many outputs and bytes it has, its bytes, and the key that it verifies under. It is
/// given out wherever it verifies under the kept digest and could be written.
pub proof fn what_is_given_out_is_what_verified(
    task_id: Seq<char>,
    signer: SignerHintView,
    stored_digest: Seq<char>,
    verdict: BundleVerdict,
)
    ensures
        match (verdict, export::export_verdict(task_id, signer, stored_digest, verdict)) {
            (BundleVerdict::Verified { bundle_digest, outputs, payload_bytes, bundle }, Ok(reply)) => {
                &&& bundle_digest@ == stored_digest
                &&& bundle is Some
                &&& reply.task_id == task_id
                &&& reply.bundle_digest == bundle_digest@
                &&& reply.outputs == outputs
                &&& reply.payload_bytes == payload_bytes
                &&& reply.bundle == bundle->0@
                &&& reply.signer_task_result_public_key_hex == signer.task_result_public_key_hex
                &&& reply.signer_task_result_thumbprint == signer.task_result_thumbprint
            },
            (BundleVerdict::Verified { bundle_digest, outputs, payload_bytes, bundle }, Err(p)) => {
                &&& p.status == 500
                &&& bundle_digest@ != stored_digest || bundle is None
            },
            (BundleVerdict::Refused(why), Err(p)) => p.status == 500 && p.detail == Some(why@),
            (BundleVerdict::Unreadable, Err(p)) => p.status == 500,
            (_, Ok(_)) => false,
        },
{
}

/// Where nothing can be exported, whoever received the result is told that the performer has it,
/// and everyone else that there is none.
pub proof fn the_receiver_is_told_who_has_the_result(v: StoreView, task_id: Seq<char>)
    ensures
        ({
            let received = exists|digest: Seq<char>| #[trigger]
                export::is_outcome_of(v, digest, task_id);
            &&& export::nothing_to_export(v, task_id).status == (if received {
                409u16
            } else {
                404u16
            })
            &&& export::nothing_to_export(v, task_id).type_ == "urn:akson:error:"@ + (if received {
                "not-the-performer"@
            } else {
                "no-result"@
            })
        }),
        forall|digest: Seq<char>|
            v.outcomes.contains_key(digest) && v.outcomes[digest].task_id == task_id
                ==> #[trigger] export::is_outcome_of(v, digest, task_id),
{
}

} // verus!
