//! What callers see: what a call gives back, said of what is stored and of the arguments alone.
use crate::authority::{GrantView, WorkOrder};
use crate::broker::ProcessorConfig;
use crate::contract::{Capability, Identity};
use crate::control::Problem;
use crate::coord_egress::CoordRoute;
use crate::coord_egress;
use crate::export::{BundleDraft, BundleVerdict, ExportReply};
use crate::export;
use crate::identity::Fingerprint;
use crate::identity;
use crate::inert::NotInert;
use crate::inert;
use crate::issue::IssueConfig;
use crate::issue;
use crate::laws::bundles;
use crate::laws::dispatches;
use crate::laws::markup;
use crate::laws::orders;
use crate::operator::Reply;
use crate::operator;
use crate::store::rows::EgressState;
use crate::store::staging::{DispatchRecord, StagedContract};
use crate::store::{Store, StoreError};
use crate::text;
use vstd::prelude::*;
use vstd::utf8::*;

verus! {

/// Whoever resolves the route of what was staged is given the endpoint and the certificate that
/// the active peer behind the label was pinned with.
pub proof fn a_resolved_route_is_the_pinned_one(
    store: &Store,
    staged: &StagedContract,
    r: Result<CoordRoute, Problem>,
)
    requires
        store@.consistent(),
        call_ensures(coord_egress::resolve_route, (store, staged), r),
    ensures
        (r matches Ok(route) ==> {
            let root = route@.root;
            let pinned = store@.peers[root].peer.identity;
            &&& store@.imports.contains_key(root)
            &&& store@.imports[root].label == Some(staged@.performer)
            &&& store@.imports[root].tombstoned_at is None
            &&& store@.peers.contains_key(root)
            &&& store@.peers[root].status is Active
            &&& route@.label == staged@.performer
            &&& route@.endpoint == pinned.endpoint_id
            &&& route@.tls_fingerprint == pinned.tls_cert.value
        }),
{
    if coord_egress::route_of(store@, staged@.performer) is Ok {
        dispatches::a_route_leads_to_what_was_pinned(store@, staged@.performer);
    }
}

/// An artifact of markup that embeds or runs something is not let through.
pub proof fn embedding_markup_is_not_let_through(
    media_type: &str,
    bytes: &[u8],
    before: Seq<char>,
    marker: Seq<char>,
    after: Seq<char>,
    r: Result<(), NotInert>,
)
    requires
        inert::renders(media_type@),
        !decode_utf8(bytes@).contains('&'),
        text::lowered(decode_utf8(bytes@)) == before + marker + after,
        marker == "<script"@ || marker == "<iframe"@ || marker == "<object"@ || marker == "<embed"@
            || marker == "<foreignobject"@ || marker == "<applet"@ || marker == "<meta http-equiv"@
            || marker == "<!entity"@ || marker == "<!doctype"@ || marker == "<?xml-stylesheet"@,
        call_ensures(inert::check_inert, (media_type, bytes), r),
    ensures
        (r matches Err(e) && e.media_type@ == media_type@),
{
    markup::embedding_markup_is_refused(media_type@, bytes@, before, marker, after);
}

/// What is not shown as markup is let through, whatever it holds; and what is shown is not where
/// it is no clean text.
pub proof fn data_is_let_through(media_type: &str, bytes: &[u8], r: Result<(), NotInert>)
    requires
        call_ensures(inert::check_inert, (media_type, bytes), r),
    ensures
        !inert::renders(media_type@) ==> r is Ok,
        inert::renders(media_type@) && (bytes@.contains(0) || !valid_utf8(bytes@)) ==> (r matches Err(
            e,
        ) && e.reason@ == "is not clean UTF-8 text (may hide active content)"@),
{
}

/// A processor is found as it was added: it is local where it was added as local and nowhere
/// else, and is of the provider, the origin and the certificate that were given.
pub proof fn a_processor_is_found_as_it_was_added(
    store: &mut Store,
    processor_id: &str,
    provider: &str,
    origin_host: &str,
    origin_port: u16,
    local: bool,
    certificate: &Option<String>,
    path: &Option<String>,
    auth: &Option<String>,
    headers: &Vec<String>,
    wall: i64,
    r: Result<Reply, Problem>,
    found: Result<Option<ProcessorConfig>, StoreError>,
    config: ProcessorConfig,
    is_local: bool,
)
    requires
        call_ensures(
            operator::processor_add,
            (
                store,
                processor_id,
                provider,
                origin_host,
                origin_port,
                local,
                certificate,
                path,
                auth,
                headers,
                wall,
            ),
            r,
        ),
        call_ensures(Store::get_processor, (&*final(store), processor_id), found),
        found == Ok::<Option<ProcessorConfig>, StoreError>(Some(config)),
        call_ensures(ProcessorConfig::is_local, (&config,), is_local),
    ensures
        is_local == local,
        !local ==> (config@.disclosure matches crate::broker::DisclosureView::Remote { recipient, region }
            && recipient == provider@ && region == "configured"@),
        config@.processor_id == processor_id@,
        (r matches Ok(Reply::ProcessorAdded { processor_id: id }) && id@ == processor_id@),
{
}

/// The order that is drafted bounds each response by what the contract allows a response, and
/// each input by what the contract names.
pub proof fn a_drafted_order_is_bounded(
    store: &Store,
    task_id: &str,
    config: &IssueConfig<'_>,
    now: i64,
    r: Result<WorkOrder, Problem>,
    i: int,
)
    requires
        call_ensures(issue::draft_order, (store, task_id, config, now), r),
        r is Ok,
        0 <= i < r->Ok_0@.capabilities.grants.len(),
    ensures
        ({
            let order = r->Ok_0@;
            let head = store@.heads[task_id@];
            let c = store@.contracts[head.digest].contract->0;
            &&& store@.heads.contains_key(task_id@)
            &&& head.locked
            &&& match order.capabilities.grants[i] {
                GrantView::Respond(s) => s.max_bytes == c.max_response_bytes && s.max_responses == 1
                    && s.message_id == c.message_id && s.task_id == task_id@ && s.deadline
                    == order.deadline && c.requested_capabilities.contains(Capability::Respond),
                GrantView::ReadSuppliedInputs(s) => s.input_ids == c.input_ids && s.contract_digest
                    == head.digest && c.requested_capabilities.contains(
                    Capability::ReadSuppliedInputs,
                ),
                GrantView::ProcessorUse(s) => s.max_bytes == c.max_response_bytes && s.input_ids
                    == c.input_ids && c.requested_capabilities.contains(Capability::ProcessorUse),
                GrantView::ArtifactExport(s) => s.max_bytes == c.max_response_bytes && s.task_id
                    == task_id@ && c.requested_capabilities.contains(Capability::ArtifactExport),
            }
        }),
{
    orders::every_grant_is_bounded_by_the_contract(
        store@,
        task_id@,
        *config,
        now,
        r->Ok_0@,
        i,
    );
}

/// What is exported was assembled from a draft of the task whose outputs are those that the store
/// holds: each under its own id, with its role, its media type and its bytes.
pub proof fn what_is_exported_was_stored<F: Fn(&BundleDraft) -> BundleVerdict>(
    store: &Store,
    exporter: &Identity,
    root_thumbprint: &str,
    public_key: &Vec<u8>,
    thumbprint: &str,
    task_id: &str,
    assemble: F,
    r: Result<ExportReply, Problem>,
)
    requires
        export::exports(
            store@,
            exporter@,
            root_thumbprint@,
            public_key@,
            thumbprint@,
            task_id@,
            assemble,
            r,
        ),
        r is Ok,
    ensures
        exists|draft: BundleDraft, verdict: BundleVerdict| #[trigger]
            call_ensures(assemble, (&draft,), verdict) && draft@.task_id == task_id@ && (forall|i: int|
                0 <= i < draft@.outputs.len() ==> {
                    let out = #[trigger] draft@.outputs[i];
                    let row = store@.task_outputs[(task_id@, out.artifact_id)];
                    &&& store@.task_outputs.contains_key((task_id@, out.artifact_id))
                    &&& out.role == row.role
                    &&& out.media_type == row.media_type
                    &&& out.payload == row.payload
                }),
{
    let found = choose|found: Option<(Seq<char>, Seq<u8>)>| #[trigger]
        export::is_result_of(store@, task_id@, found) && match found {
            None => match r {
                Err(p) => p@ == export::nothing_to_export(store@, task_id@),
                Ok(_) => false,
            },
            Some((digest, manifest)) => exists|draft: BundleDraft, verdict: BundleVerdict|
                export::is_draft_of(
                    store@,
                    draft@,
                    exporter@,
                    root_thumbprint@,
                    public_key@,
                    thumbprint@,
                    task_id@,
                    manifest,
                ) && #[trigger] call_ensures(assemble, (&draft,), verdict) && match (
                    r,
                    export::export_verdict(task_id@, draft@.signer, digest, verdict),
                ) {
                    (Ok(x), Ok(y)) => x@ == y,
                    (Err(p), Err(q)) => p@ == q,
                    _ => false,
                },
        };
    let (digest, manifest) = found->0;
    let (draft, verdict) = choose|draft: BundleDraft, verdict: BundleVerdict|
        export::is_draft_of(
            store@,
            draft@,
            exporter@,
            root_thumbprint@,
            public_key@,
            thumbprint@,
            task_id@,
            manifest,
        ) && #[trigger] call_ensures(assemble, (&draft,), verdict) && match (
            r,
            export::export_verdict(task_id@, draft@.signer, digest, verdict),
        ) {
            (Ok(x), Ok(y)) => x@ == y,
            (Err(p), Err(q)) => p@ == q,
            _ => false,
        };
    assert forall|i: int| 0 <= i < draft@.outputs.len() implies {
        let out = #[trigger] draft@.outputs[i];
        let row = store@.task_outputs[(task_id@, out.artifact_id)];
        &&& store@.task_outputs.contains_key((task_id@, out.artifact_id))
        &&& out.role == row.role
        &&& out.media_type == row.media_type
        &&& out.payload == row.payload
    } by {
        bundles::every_output_of_a_draft_is_stored(
            store@,
            draft@,
            exporter@,
            root_thumbprint@,
            public_key@,
            thumbprint@,
            task_id@,
            manifest,
            i,
        );
    }
    assert(call_ensures(assemble, (&draft,), verdict));
}

/// A task that was reacted to stays so, from when it was first, and nothing else changes.
pub proof fn a_reaction_is_noted_once(
    store: &mut Store,
    task_id: &str,
    now: i64,
    r: Result<(), StoreError>,
    other: Seq<char>,
)
    requires
        call_ensures(Store::mark_task_reacted, (store, task_id, now), r),
    ensures
        ({
            let v = old(store)@;
            let w = final(store)@;
            &&& w.reactions.contains_key(task_id@)
            &&& !v.reactions.contains_key(task_id@) ==> w.reactions[task_id@].reacted_at == now
            &&& v.reactions.contains_key(task_id@) ==> w.reactions[task_id@] == v.reactions[task_id@]
            &&& other != task_id@ ==> w.reactions.contains_key(other) == v.reactions.contains_key(other)
            &&& w.heads == v.heads
            &&& w.audit == v.audit
            &&& w.trusted_time == v.trusted_time
        }),
{
}

/// Bytes may be carried until they are known to have arrived; two fingerprints are the same where
/// they are of a kind and a value; and a dispatch has a media type of its own.
pub proof fn small_questions_are_answered(
    record: &DispatchRecord,
    may: bool,
    a: &Fingerprint,
    b: &Fingerprint,
    same: bool,
    media_type: String,
)
    requires
        call_ensures(DispatchRecord::egress_may_be_attempted, (record,), may),
        call_ensures(identity::same_fingerprint, (a, b), same),
        call_ensures(coord_egress::coord_dispatch_media_type, (), media_type),
    ensures
        may == (record@.egress_state == EgressState::Pending || record@.egress_state
            == EgressState::Failed),
        same == (a.kind == b.kind && a.value@ == b.value@),
        media_type@ == "application/vnd.akson-dev.coord-dispatch.v1+json"@,
{
}

} // verus!
