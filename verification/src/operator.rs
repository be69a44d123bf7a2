//! Answering the requests of the operator.
//!
//! What can be answered from the state is answered. What needs work outside, such as
//! a signature or the network, is given back as an effect, with everything about it
//! decided.
use crate::address::{host_port_of, unknown_label, valid_hint, valid_label};
use crate::address;
use crate::broker::{
    AuthScheme, AuthSchemeView, Disclosure, DisclosureView, Header, HeaderView, Origin, OriginView,
    ProcessorConfig, ProcessorConfigView,
};
use crate::clock::trusted_now;
use crate::clock;
use crate::control::{Problem, ProblemView};
use crate::control;
use crate::control_dispatch::{TaskAnswer, dispatch_control};
use crate::control_dispatch;
use crate::coord_peers::{FeatureReport, FeatureReportView};
use crate::coord_peers;
use crate::endpoint::{Endpoint, EndpointView};
use crate::identity::{PeerIdentity, PeerIdentityView, PeerStatus};
use crate::introduce::name_outcome;
use crate::introduce;
use crate::numerals::decimal_u64;
use crate::numerals;
use crate::outside::{base64_encode, sha256};
use crate::outside;
use crate::request::{ControlRequest, SendSpec, TokenReading};
use crate::store::imports::{
    ImportOutcome, IntroCommitOutcome, IntroCommitOutcomeView, Knock, PeerImport, PeerImportView,
};
use crate::store::imports;
use crate::store::peers::{AutoApprovePolicy, PeerSummary};
use crate::store::peers;
use crate::store::processors;
use crate::store::requests::{OutcomeSummary, SentRequest, TaskOutput, TaskOutputView};
use crate::store::requests;
use crate::store::rows::{CredentialRowView, PolicyRowView, ProcessorRowView};
use crate::store::{Store, StoreView};
use crate::table::{Record, dup_all};
use crate::table;
use crate::text::{chars_of, copy_option, copy_texts, find_first, same_text, text_of, trim};
use crate::text;
use vstd::prelude::*;
use vstd::string::*;
use vstd::utf8::*;

verus! {

/// The health of the daemon and the sandbox.
#[derive(Debug, Clone, PartialEq, Eq)]
pub struct HealthReply {
    pub daemon: String,
    pub sandbox_ready: bool,
    pub capabilities: Vec<FeatureReport>,
}

/// The view of [`HealthReply`].
#[verifier::ext_equal]
pub struct HealthReplyView {
    pub daemon: Seq<char>,
    pub sandbox_ready: bool,
    pub capabilities: Seq<FeatureReportView>,
}

impl View for HealthReply {
    type V = HealthReplyView;

    open spec fn view(&self) -> HealthReplyView {
        HealthReplyView {
            daemon: self.daemon@,
            sandbox_ready: self.sandbox_ready,
            capabilities: table::seen(self.capabilities@),
        }
    }
}

impl Record for HealthReply {
    fn dup(&self) -> (r: Self) {
        let r = HealthReply {
            daemon: self.daemon.clone(),
            sandbox_ready: self.sandbox_ready,
            capabilities: dup_all(&self.capabilities),
        };
        r
    }
}

/// Who this endpoint is, for the operator.
#[derive(Debug, Clone, PartialEq, Eq)]
pub struct WhoAmIReply {
    pub issuer: String,
    pub agent: String,
    pub interface_url: String,
    pub receive_addr: Option<String>,
    pub endpoint_fingerprint: String,
    pub data_dir: String,
}

/// The view of [`WhoAmIReply`].
#[verifier::ext_equal]
pub struct WhoAmIReplyView {
    pub issuer: Seq<char>,
    pub agent: Seq<char>,
    pub interface_url: Seq<char>,
    pub receive_addr: Option<Seq<char>>,
    pub endpoint_fingerprint: Seq<char>,
    pub data_dir: Seq<char>,
}

impl View for WhoAmIReply {
    type V = WhoAmIReplyView;

    open spec fn view(&self) -> WhoAmIReplyView {
        WhoAmIReplyView {
            issuer: self.issuer@,
            agent: self.agent@,
            interface_url: self.interface_url@,
            receive_addr: text::view_option(self.receive_addr),
            endpoint_fingerprint: self.endpoint_fingerprint@,
            data_dir: self.data_dir@,
        }
    }
}

impl Record for WhoAmIReply {
    fn dup(&self) -> (r: Self) {
        let r = WhoAmIReply {
            issuer: self.issuer.clone(),
            agent: self.agent.clone(),
            interface_url: self.interface_url.clone(),
            receive_addr: copy_option(&self.receive_addr),
            endpoint_fingerprint: self.endpoint_fingerprint.clone(),
            data_dir: self.data_dir.clone(),
        };
        r
    }
}

/// A relationship, with how it stands and the name that the peer claims.
#[derive(Debug, Clone, PartialEq, Eq)]
pub struct ImportListed {
    pub label: String,
    pub root_thumbprint: String,
    pub endpoint_hint: String,
    pub status: String,
    pub claims: Option<String>,
}

/// The view of [`ImportListed`].
#[verifier::ext_equal]
pub struct ImportListedView {
    pub label: Seq<char>,
    pub root_thumbprint: Seq<char>,
    pub endpoint_hint: Seq<char>,
    pub status: Seq<char>,
    pub claims: Option<Seq<char>>,
}

impl View for ImportListed {
    type V = ImportListedView;

    open spec fn view(&self) -> ImportListedView {
        ImportListedView {
            label: self.label@,
            root_thumbprint: self.root_thumbprint@,
            endpoint_hint: self.endpoint_hint@,
            status: self.status@,
            claims: text::view_option(self.claims),
        }
    }
}

impl Record for ImportListed {
    fn dup(&self) -> (r: Self) {
        let r = ImportListed {
            label: self.label.clone(),
            root_thumbprint: self.root_thumbprint.clone(),
            endpoint_hint: self.endpoint_hint.clone(),
            status: self.status.clone(),
            claims: copy_option(&self.claims),
        };
        r
    }
}

/// The identity token of this endpoint, and how to hand it out.
#[derive(Debug, Clone, PartialEq, Eq)]
pub struct TokenReply {
    pub token: String,
    pub presentation: String,
    pub root_thumbprint: String,
    pub hint: Option<String>,
}

/// The view of [`TokenReply`].
#[verifier::ext_equal]
pub struct TokenReplyView {
    pub token: Seq<char>,
    pub presentation: Seq<char>,
    pub root_thumbprint: Seq<char>,
    pub hint: Option<Seq<char>>,
}

impl View for TokenReply {
    type V = TokenReplyView;

    open spec fn view(&self) -> TokenReplyView {
        TokenReplyView {
            token: self.token@,
            presentation: self.presentation@,
            root_thumbprint: self.root_thumbprint@,
            hint: text::view_option(self.hint),
        }
    }
}

impl Record for TokenReply {
    fn dup(&self) -> (r: Self) {
        let r = TokenReply {
            token: self.token.clone(),
            presentation: self.presentation.clone(),
            root_thumbprint: self.root_thumbprint.clone(),
            hint: copy_option(&self.hint),
        };
        r
    }
}

/// An imported peer.
#[derive(Debug, Clone, PartialEq, Eq)]
pub struct ImportReply {
    pub label: String,
    pub root_thumbprint: String,
    pub endpoint_hint: Option<String>,
}

/// The view of [`ImportReply`].
#[verifier::ext_equal]
pub struct ImportReplyView {
    pub label: Seq<char>,
    pub root_thumbprint: Seq<char>,
    pub endpoint_hint: Option<Seq<char>>,
}

impl View for ImportReply {
    type V = ImportReplyView;

    open spec fn view(&self) -> ImportReplyView {
        ImportReplyView {
            label: self.label@,
            root_thumbprint: self.root_thumbprint@,
            endpoint_hint: text::view_option(self.endpoint_hint),
        }
    }
}

impl Record for ImportReply {
    fn dup(&self) -> (r: Self) {
        let r = ImportReply {
            label: self.label.clone(),
            root_thumbprint: self.root_thumbprint.clone(),
            endpoint_hint: copy_option(&self.endpoint_hint),
        };
        r
    }
}

/// An output, with its bytes in base64.
#[derive(Debug, Clone, PartialEq, Eq)]
pub struct OutputShown {
    pub artifact_id: String,
    pub role: String,
    pub media_type: String,
    pub byte_length: i64,
    pub sha256: String,
    pub content: String,
}

/// The view of [`OutputShown`].
#[verifier::ext_equal]
pub struct OutputShownView {
    pub artifact_id: Seq<char>,
    pub role: Seq<char>,
    pub media_type: Seq<char>,
    pub byte_length: i64,
    pub sha256: Seq<char>,
    pub content: Seq<char>,
}

impl View for OutputShown {
    type V = OutputShownView;

    open spec fn view(&self) -> OutputShownView {
        OutputShownView {
            artifact_id: self.artifact_id@,
            role: self.role@,
            media_type: self.media_type@,
            byte_length: self.byte_length,
            sha256: self.sha256@,
            content: self.content@,
        }
    }
}

impl Record for OutputShown {
    fn dup(&self) -> (r: Self) {
        let r = OutputShown {
            artifact_id: self.artifact_id.clone(),
            role: self.role.clone(),
            media_type: self.media_type.clone(),
            byte_length: self.byte_length,
            sha256: self.sha256.clone(),
            content: self.content.clone(),
        };
        r
    }
}

/// A configured processor.
#[derive(Debug, Clone, PartialEq, Eq)]
pub struct ProcessorListed {
    pub processor_id: String,
    pub provider: String,
    pub origin: String,
    pub local: bool,
    pub pinned: bool,
}

/// The view of [`ProcessorListed`].
#[verifier::ext_equal]
pub struct ProcessorListedView {
    pub processor_id: Seq<char>,
    pub provider: Seq<char>,
    pub origin: Seq<char>,
    pub local: bool,
    pub pinned: bool,
}

impl View for ProcessorListed {
    type V = ProcessorListedView;

    open spec fn view(&self) -> ProcessorListedView {
        ProcessorListedView {
            processor_id: self.processor_id@,
            provider: self.provider@,
            origin: self.origin@,
            local: self.local,
            pinned: self.pinned,
        }
    }
}

impl Record for ProcessorListed {
    fn dup(&self) -> (r: Self) {
        let r = ProcessorListed {
            processor_id: self.processor_id.clone(),
            provider: self.provider.clone(),
            origin: self.origin.clone(),
            local: self.local,
            pinned: self.pinned,
        };
        r
    }
}

/// A peer that was introduced, and how.
#[derive(Debug, Clone, PartialEq, Eq)]
pub struct IntroducedReply {
    pub introduced: String,
    pub issuer: Option<String>,
    pub agent: String,
    pub root_thumbprint: String,
    pub label: String,
}

/// The view of [`IntroducedReply`].
#[verifier::ext_equal]
pub struct IntroducedReplyView {
    pub introduced: Seq<char>,
    pub issuer: Option<Seq<char>>,
    pub agent: Seq<char>,
    pub root_thumbprint: Seq<char>,
    pub label: Seq<char>,
}

impl View for IntroducedReply {
    type V = IntroducedReplyView;

    open spec fn view(&self) -> IntroducedReplyView {
        IntroducedReplyView {
            introduced: self.introduced@,
            issuer: text::view_option(self.issuer),
            agent: self.agent@,
            root_thumbprint: self.root_thumbprint@,
            label: self.label@,
        }
    }
}

impl Record for IntroducedReply {
    fn dup(&self) -> (r: Self) {
        let r = IntroducedReply {
            introduced: self.introduced.clone(),
            issuer: copy_option(&self.issuer),
            agent: self.agent.clone(),
            root_thumbprint: self.root_thumbprint.clone(),
            label: self.label.clone(),
        };
        r
    }
}

/// A reply.
#[derive(Debug, Clone, PartialEq, Eq)]
pub enum Reply {
    Health(HealthReply),
    WhoAmI(WhoAmIReply),
    Tasks(TaskAnswer),
    Peers { imports: Vec<ImportListed>, peers: Vec<PeerSummary> },
    Token(TokenReply),
    Imported(ImportReply),
    Labelled { label: String },
    Removed { removed: bool, label: String },
    Knocks(Vec<Knock>),
    ApprovalCleared { cleared: bool, label: String },
    ApprovalSet {
        label: String,
        root_thumbprint: String,
        task_types: Vec<String>,
        max_response_bytes: u64,
    },
    Sent(Vec<SentRequest>),
    Outcomes(Vec<OutcomeSummary>),
    Outputs { task_id: String, outputs: Vec<OutputShown> },
    ProcessorAdded { processor_id: String },
    Processors(Vec<ProcessorListed>),
    CredentialSet { processor_id: String },
    Introduced(IntroducedReply),
    Accepted,
}

/// Work that is done outside.
#[derive(Debug, Clone, PartialEq, Eq)]
pub enum Effect {
    /// Introduce this endpoint to a peer; then, if a task is given, send it.
    Introduce { import: PeerImport, send: Option<SendSpec> },
    /// Accept a task and issue its work order.
    Approve { task_id: String, processor: Option<String>, artifacts: bool, now: i64 },
    /// Reject a task.
    Deny { task_id: String, reason: String, now: i64 },
    /// Judge and record the result of a worker.
    SubmitResult { submission: String, now: i64 },
    /// Run the worker of a task.
    RunWorker { task_id: String },
    /// Fulfil a task with given outputs.
    Fulfill { task_id: String, outputs: String },
    /// Deliver the result of a task.
    Deliver { task_id: String },
    /// Send a task to an agent behind a root.
    Send { spec: SendSpec, root: String },
    /// Call a processor.
    CallProcessor { processor_id: String, work_order_id: String, request: String },
}

/// An answer: a reply, or work to be done first.
#[derive(Debug, Clone, PartialEq, Eq)]
pub enum Answer {
    Reply(Reply),
    Perform(Effect),
}

/// The health of the daemon.
pub open spec fn health_of(report: Seq<FeatureReportView>) -> HealthReplyView {
    HealthReplyView {
        daemon: "aksond"@,
        sandbox_ready: forall|i: int|
            0 <= i < report.len() ==> ((#[trigger] report[i]).required ==> report[i].available),
        capabilities: report,
    }
}

/// Reports the health of the daemon.
pub fn diagnose_report(report: &Vec<FeatureReport>) -> (r: HealthReply)
    ensures
        r@ == health_of(table::seen(report@)),
{
    let ghost all = table::seen(report@);
    let mut ready = true;
    let mut i: usize = 0;
    while i < report.len()
        invariant
            all == table::seen(report@),
            i <= all.len(),
            ready == forall|j: int|
                0 <= j < i ==> ((#[trigger] all[j]).required ==> all[j].available),
        decreases all.len() - i,
    {
        assert(all[i as int] == report@[i as int]@);
        if report[i].required && !report[i].available {
            ready = false;
        }
        i = i + 1;
    }
    HealthReply {
        daemon: "aksond".to_owned(),
        sandbox_ready: ready,
        capabilities: dup_all(report),
    }
}

/// Who this endpoint is, for the operator.
pub open spec fn who_of(me: EndpointView) -> WhoAmIReplyView {
    WhoAmIReplyView {
        issuer: me.issuer,
        agent: me.agent,
        interface_url: me.interface_url,
        receive_addr: me.receive_addr,
        endpoint_fingerprint: me.fingerprint,
        data_dir: me.data_dir,
    }
}

fn who_am_i(me: &Endpoint) -> (r: WhoAmIReply)
    ensures
        r@ == who_of(me@),
{
    WhoAmIReply {
        issuer: me.issuer.clone(),
        agent: me.agent.clone(),
        interface_url: me.interface_url.clone(),
        receive_addr: copy_option(&me.receive_addr),
        endpoint_fingerprint: me.fingerprint.clone(),
        data_dir: me.data_dir.clone(),
    }
}

/// A relationship as it is listed.
pub open spec fn import_listed(v: StoreView, import: PeerImportView) -> ImportListedView {
    let root = import.root_thumbprint;
    ImportListedView {
        label: import.label,
        root_thumbprint: root,
        endpoint_hint: import.endpoint_hint,
        status: coord_peers::relationship_status(v, root),
        claims: if v.peers.contains_key(root) {
            Some(v.peers[root].peer.identity.agent_id)
        } else {
            None
        },
    }
}

/// The relationships as they are listed, by label.
pub open spec fn relationships_listed(v: StoreView, list: Seq<ImportListedView>) -> bool {
    exists|base: Seq<PeerImportView>| #[trigger]
        imports::imports_listed(v, base) && list == base.map_values(
            |i: PeerImportView| import_listed(v, i),
        )
}

fn list_relationships(store: &Store) -> (r: Vec<ImportListed>)
    requires
        store.wf(),
    ensures
        relationships_listed(store@, table::seen(r@)),
{
    let base = match store.list_peer_imports() {
        Ok(list) => list,
        Err(_) => Vec::new(),
    };
    let ghost v = store@;
    let mut r: Vec<ImportListed> = Vec::new();
    let mut i: usize = 0;
    while i < base.len()
        invariant
            store.wf(),
            v == store@,
            i <= base@.len(),
            r@.len() == i,
            forall|j: int| 0 <= j < i ==> (#[trigger] r@[j])@ == import_listed(v, base@[j]@),
        decreases base@.len() - i,
    {
        let import = &base[i];
        let (claims, status) = match store.peer_by_root(&import.root_thumbprint) {
            Ok(Some((agent, status))) => (Some(agent), status),
            _ => (None, "imported".to_owned()),
        };
        r.push(
            ImportListed {
                label: import.label.clone(),
                root_thumbprint: import.root_thumbprint.clone(),
                endpoint_hint: import.endpoint_hint.clone(),
                status,
                claims,
            },
        );
        i = i + 1;
    }
    assert(table::seen(r@) =~= table::seen(base@).map_values(|i: PeerImportView| import_listed(v, i)));
    r
}

/// The token of this endpoint, with the hint of where it is reached.
pub open spec fn token_of(me: EndpointView) -> TokenReplyView {
    let hint = address::hint_of(me.interface_url);
    TokenReplyView {
        token: me.token,
        presentation: match hint {
            Some(h) => me.token + "@"@ + h,
            None => me.token,
        },
        root_thumbprint: me.root,
        hint,
    }
}

/// The token of this endpoint, and the line to hand out to a peer.
pub fn token_reply(me: &Endpoint) -> (r: TokenReply)
    ensures
        r@ == token_of(me@),
{
    let hint = host_port_of(&me.interface_url);
    let presentation = match &hint {
        Some(h) => me.token.clone().concat("@").concat(h),
        None => me.token.clone(),
    };
    TokenReply { token: me.token.clone(), presentation, root_thumbprint: me.root.clone(), hint }
}

/// A label that is not one.
pub open spec fn bad_label_problem() -> ProblemView {
    control::problem_of(
        400,
        "bad-label"@,
        "labels are 1-64 chars of [a-z0-9-], no edge or doubled hyphen"@,
    )
}

fn bad_label() -> (p: Problem)
    ensures
        p@ == bad_label_problem(),
{
    Problem::new(
        400,
        "bad-label",
        "labels are 1-64 chars of [a-z0-9-], no edge or doubled hyphen",
    )
}

/// The hint of an imported peer: an explicit endpoint wins over the suffix of the
/// token.
pub open spec fn chosen_hint(endpoint: Option<Seq<char>>, suffix: Option<Seq<char>>) -> Option<
    Seq<char>,
> {
    match endpoint {
        Some(e) => Some(e),
        None => suffix,
    }
}

/// Why a peer is not imported, if it is not, before the state is looked at.
pub open spec fn import_refusal(
    own_root: Seq<char>,
    token: TokenReading,
    label: Seq<char>,
    hint: Option<Seq<char>>,
) -> Option<ProblemView> {
    match token {
        TokenReading::Unreadable(why) => Some(control::problem_of(400, "bad-token"@, why@)),
        TokenReading::Root(root) => if root@ == own_root {
            Some(
                control::problem_of(
                    400,
                    "own-token"@,
                    "this is your own identity token — hand it to a peer instead"@,
                ),
            )
        } else if !address::is_label(label) {
            Some(bad_label_problem())
        } else {
            match hint {
                Some(h) => if address::is_hint(h) {
                    None
                } else {
                    Some(
                        control::problem_of(
                            400,
                            "bad-endpoint"@,
                            "the endpoint hint must be host:port, dialable as written"@,
                        ),
                    )
                },
                None => None,
            }
        },
    }
}

/// What is told of an import that did not come about.
pub open spec fn import_problem(outcome: ImportOutcome) -> ProblemView {
    match outcome {
        ImportOutcome::DuplicateRoot => control::problem_of(
            409,
            "already-imported"@,
            "this identity is already imported — `peer add --update` refreshes its label or endpoint"@,
        ),
        ImportOutcome::LabelTaken => control::problem_of(
            409,
            "label-taken"@,
            "another peer already holds this label — pick a different one"@,
        ),
        _ => control::problem_of(
            404,
            "unknown-peer"@,
            "no live import holds this identity — add it without --update first"@,
        ),
    }
}

/// The optional text, or nothing.
pub open spec fn or_nothing(value: Option<Seq<char>>) -> Seq<char> {
    match value {
        Some(s) => s,
        None => Seq::empty(),
    }
}

/// What comes of importing a peer.
pub open spec fn imports_peer(
    v: StoreView,
    w: StoreView,
    own_root: Seq<char>,
    token: TokenReading,
    suffix: Option<Seq<char>>,
    label: Seq<char>,
    endpoint: Option<Seq<char>>,
    update: bool,
    wall: i64,
    r: Result<Reply, Problem>,
) -> bool {
    let hint = chosen_hint(endpoint, suffix);
    match import_refusal(own_root, token, label, hint) {
        Some(q) => w == v && match r {
            Err(p) => p@ == q,
            Ok(_) => false,
        },
        None => {
            let root = token->Root_0@;
            let outcome = if update {
                imports::update_verdict(v, root, Some(label))
            } else {
                imports::add_verdict(v, root, label)
            };
            let done = outcome is Added || outcome is Updated;
            &&& w == if !done {
                v
            } else if update {
                imports::with_updated_import(v, root, Some(label), hint)
            } else {
                imports::with_import(v, root, label, or_nothing(hint), wall)
            }
            &&& match r {
                Ok(Reply::Imported(reply)) => done && reply@ == (ImportReplyView {
                    label,
                    root_thumbprint: root,
                    endpoint_hint: hint,
                }),
                Err(p) => !done && p@ == import_problem(outcome),
                _ => false,
            }
        },
    }
}

fn problem_of_import(outcome: ImportOutcome) -> (p: Problem)
    ensures
        p@ == import_problem(outcome),
{
    match outcome {
        ImportOutcome::DuplicateRoot => Problem::new(
            409,
            "already-imported",
            "this identity is already imported — `peer add --update` refreshes its label or endpoint",
        ),
        ImportOutcome::LabelTaken => Problem::new(
            409,
            "label-taken",
            "another peer already holds this label — pick a different one",
        ),
        _ => Problem::new(
            404,
            "unknown-peer",
            "no live import holds this identity — add it without --update first",
        ),
    }
}

/// Imports a peer by its token, or changes what is recorded of it.
pub fn peer_add(
    store: &mut Store,
    own_root: &str,
    token: &TokenReading,
    suffix: &Option<String>,
    label: &str,
    endpoint: &Option<String>,
    update: bool,
    wall: i64,
) -> (r: Result<Reply, Problem>)
    requires
        old(store).wf(),
    ensures
        final(store).wf(),
        imports_peer(
            old(store)@,
            final(store)@,
            own_root@,
            *token,
            text::view_option(*suffix),
            label@,
            text::view_option(*endpoint),
            update,
            wall,
            r,
        ),
{
    let root = match token {
        TokenReading::Root(root) => root,
        TokenReading::Unreadable(why) => {
            return Err(Problem::new(400, "bad-token", why));
        },
    };
    if same_text(root, own_root) {
        return Err(
            Problem::new(
                400,
                "own-token",
                "this is your own identity token — hand it to a peer instead",
            ),
        );
    }
    if !valid_label(label) {
        return Err(bad_label());
    }
    let hint = match endpoint {
        Some(e) => Some(e.clone()),
        None => copy_option(suffix),
    };
    match &hint {
        Some(h) => {
            if !valid_hint(h) {
                return Err(
                    Problem::new(
                        400,
                        "bad-endpoint",
                        "the endpoint hint must be host:port, dialable as written",
                    ),
                );
            }
        },
        None => {},
    }
    let outcome = if update {
        let new_endpoint = match &hint {
            Some(h) => Some(h.as_str()),
            None => None,
        };
        store.update_peer_import(root, Some(label), new_endpoint)
    } else {
        let address = match &hint {
            Some(h) => h.clone(),
            None => String::new(),
        };
        assert(address@ =~= or_nothing(text::view_option(hint)));
        store.add_peer_import(root, label, &address, wall)
    };
    match outcome {
        Ok(ImportOutcome::Added) | Ok(ImportOutcome::Updated) => Ok(
            Reply::Imported(
                ImportReply {
                    label: label.to_owned(),
                    root_thumbprint: root.clone(),
                    endpoint_hint: hint,
                },
            ),
        ),
        Ok(outcome) => Err(problem_of_import(outcome)),
        Err(_) => Err(Problem::internal()),
    }
}

/// What comes of changing the label of a peer.
pub open spec fn relabels(
    v: StoreView,
    w: StoreView,
    label: Seq<char>,
    new_label: Seq<char>,
    r: Result<Reply, Problem>,
) -> bool {
    if !address::is_label(new_label) {
        w == v && match r {
            Err(p) => p@ == bad_label_problem(),
            Ok(_) => false,
        }
    } else {
        match imports::labelled(v, label) {
            None => w == v && match r {
                Err(p) => p@ == address::unknown_label_problem(label),
                Ok(_) => false,
            },
            Some(import) => if imports::label_taken(v, import.root_thumbprint, new_label) {
                w == v && match r {
                    Err(p) => p@ == control::problem_of(
                        409,
                        "label-taken"@,
                        "another peer already holds this label"@,
                    ),
                    Ok(_) => false,
                }
            } else {
                w == imports::with_updated_import(v, import.root_thumbprint, Some(new_label), None)
                    && match r {
                    Ok(Reply::Labelled { label: l }) => l@ == new_label,
                    _ => false,
                }
            },
        }
    }
}

/// Changes the label of a peer.
pub fn peer_label(store: &mut Store, label: &str, new_label: &str) -> (r: Result<Reply, Problem>)
    requires
        old(store).wf(),
    ensures
        final(store).wf(),
        relabels(old(store)@, final(store)@, label@, new_label@, r),
{
    if !valid_label(new_label) {
        return Err(bad_label());
    }
    let import = match store.peer_import_by_label(label) {
        Ok(Some(import)) => import,
        _ => {
            return Err(unknown_label(label));
        },
    };
    match store.update_peer_import(&import.root_thumbprint, Some(new_label), None) {
        Ok(ImportOutcome::Updated) => Ok(Reply::Labelled { label: new_label.to_owned() }),
        Ok(ImportOutcome::LabelTaken) => Err(
            Problem::new(409, "label-taken", "another peer already holds this label"),
        ),
        _ => Err(Problem::internal()),
    }
}

/// What comes of removing a relationship. All that is pinned behind its root goes
/// with it, in one step.
pub open spec fn removes_peer(
    v: StoreView,
    w: StoreView,
    label: Seq<char>,
    wall: i64,
    r: Result<Reply, Problem>,
) -> bool {
    match imports::labelled(v, label) {
        None => w == v && match r {
            Err(p) => p@ == address::unknown_label_problem(label),
            Ok(_) => false,
        },
        Some(import) => {
            let root = import.root_thumbprint;
            if import.epoch == u64::MAX {
                w == v && match r {
                    Err(p) => p@ == control::internal_problem(),
                    Ok(_) => false,
                }
            } else {
                w == imports::without_relationship(v, root, wall).audited(wall, "peer.removed"@, root)
                    && match r {
                    Ok(Reply::Removed { removed, label: l }) => removed && l@ == label,
                    _ => false,
                }
            }
        },
    }
}

/// Removes a relationship.
pub fn peer_import_remove(store: &mut Store, label: &str, wall: i64) -> (r: Result<Reply, Problem>)
    requires
        old(store).wf(),
    ensures
        final(store).wf(),
        removes_peer(old(store)@, final(store)@, label@, wall, r),
{
    let import = match store.peer_import_by_label(label) {
        Ok(Some(import)) => import,
        _ => {
            return Err(unknown_label(label));
        },
    };
    match store.remove_relationship(&import.root_thumbprint, wall) {
        Ok(removed) => Ok(Reply::Removed { removed, label: label.to_owned() }),
        Err(_) => Err(Problem::internal()),
    }
}

/// No peer behind a label was introduced.
pub open spec fn not_introduced_problem() -> ProblemView {
    control::problem_of(
        409,
        "not-introduced"@,
        "no introduced peer behind this label yet — `peer ping` it first"@,
    )
}

/// What comes of setting a standing approval. It binds to the introduced root, not
/// to a name. Without task types it is cleared.
pub open spec fn approves_standing(
    v: StoreView,
    w: StoreView,
    label: Seq<char>,
    task_types: Seq<Seq<char>>,
    max_response_bytes: u64,
    wall: i64,
    r: Result<Reply, Problem>,
) -> bool {
    match imports::labelled(v, label) {
        None => w == v && match r {
            Err(p) => p@ == address::unknown_label_problem(label),
            Ok(_) => false,
        },
        Some(import) => {
            let root = import.root_thumbprint;
            if !v.peers.contains_key(root) {
                w == v && match r {
                    Err(p) => p@ == not_introduced_problem(),
                    Ok(_) => false,
                }
            } else if task_types.len() == 0 {
                w == StoreView { auto_approve: v.auto_approve.remove(root), ..v } && match r {
                    Ok(Reply::ApprovalCleared { cleared, label: l }) => cleared
                        == v.auto_approve.contains_key(root) && l@ == label,
                    _ => false,
                }
            } else {
                w == StoreView {
                    auto_approve: v.auto_approve.insert(
                        root,
                        PolicyRowView {
                            agent_id: v.peers[root].peer.identity.agent_id,
                            task_types: text::joined(task_types),
                            max_response_bytes: peers::stored_limit(max_response_bytes),
                            updated_at: wall,
                        },
                    ),
                    ..v
                } && match r {
                    Ok(
                        Reply::ApprovalSet {
                            label: l,
                            root_thumbprint,
                            task_types: types,
                            max_response_bytes: max,
                        },
                    ) => l@ == label && root_thumbprint@ == root && text::views(types@) == task_types
                        && max == max_response_bytes,
                    _ => false,
                }
            }
        },
    }
}

/// Sets or clears the standing approval of a peer.
pub fn peer_auto_approve(
    store: &mut Store,
    label: &str,
    task_types: &Vec<String>,
    max_response_bytes: u64,
    wall: i64,
) -> (r: Result<Reply, Problem>)
    requires
        old(store).wf(),
    ensures
        final(store).wf(),
        approves_standing(
            old(store)@,
            final(store)@,
            label@,
            text::views(task_types@),
            max_response_bytes,
            wall,
            r,
        ),
{
    let import = match store.peer_import_by_label(label) {
        Ok(Some(import)) => import,
        _ => {
            return Err(unknown_label(label));
        },
    };
    let agent_id = match store.peer_by_root(&import.root_thumbprint) {
        Ok(Some((agent_id, _))) => agent_id,
        _ => {
            return Err(
                Problem::new(
                    409,
                    "not-introduced",
                    "no introduced peer behind this label yet — `peer ping` it first",
                ),
            );
        },
    };
    assert(text::views(task_types@).len() == task_types@.len());
    if task_types.len() == 0 {
        let cleared = match store.delete_auto_approve(&import.root_thumbprint) {
            Ok(cleared) => cleared,
            Err(_) => false,
        };
        return Ok(Reply::ApprovalCleared { cleared, label: label.to_owned() });
    }
    let policy = AutoApprovePolicy { task_types: copy_texts(task_types), max_response_bytes };
    let _ = store.put_auto_approve(&agent_id, &import.root_thumbprint, &policy, wall);
    Ok(
        Reply::ApprovalSet {
            label: label.to_owned(),
            root_thumbprint: import.root_thumbprint,
            task_types: copy_texts(task_types),
            max_response_bytes,
        },
    )
}

/// An output as it is shown.
pub open spec fn output_listed(o: TaskOutputView) -> OutputShownView {
    OutputShownView {
        artifact_id: o.artifact_id,
        role: o.role,
        media_type: o.media_type,
        byte_length: o.byte_length,
        sha256: o.sha256,
        content: outside::base64_of(o.payload),
    }
}

/// An output is asked for: it is of the role, where one is given.
pub open spec fn is_asked_for(o: TaskOutputView, role: Option<Seq<char>>) -> bool {
    match role {
        Some(r) => o.role == r,
        None => true,
    }
}

/// The outputs of a task that are asked for, in their order.
pub open spec fn outputs_asked_for(
    v: StoreView,
    task_id: Seq<char>,
    role: Option<Seq<char>>,
    list: Seq<TaskOutputView>,
) -> bool {
    exists|base: Seq<TaskOutputView>| #[trigger]
        requests::outputs_listed(v, task_id, base) && list == base.filter(
            |o: TaskOutputView| is_asked_for(o, role),
        )
}

/// The outputs are of a size that can be encoded.
pub open spec fn can_be_encoded(list: Seq<TaskOutputView>) -> bool {
    forall|i: int| 0 <= i < list.len() ==> (#[trigger] list[i]).payload.len() <= usize::MAX / 4
}

/// What comes of asking for the outputs of a task.
pub open spec fn gives_outputs(
    v: StoreView,
    task_id: Seq<char>,
    role: Option<Seq<char>>,
    r: Result<Reply, Problem>,
) -> bool {
    exists|list: Seq<TaskOutputView>| #[trigger]
        outputs_asked_for(v, task_id, role, list) && match r {
            Ok(Reply::Outputs { task_id: t, outputs }) => can_be_encoded(list) && t@ == task_id
                && table::seen(outputs@) == list.map_values(|o: TaskOutputView| output_listed(o)),
            Err(p) => !can_be_encoded(list) && p@ == control::internal_problem(),
            _ => false,
        }
}

fn select_outputs(store: &Store, task_id: &str, role: &Option<String>) -> (r: Vec<TaskOutput>)
    requires
        store.wf(),
    ensures
        outputs_asked_for(store@, task_id@, text::view_option(*role), table::seen(r@)),
{
    let base = match store.list_task_outputs(task_id) {
        Ok(list) => list,
        Err(_) => Vec::new(),
    };
    let ghost all = table::seen(base@);
    let ghost keep = |o: TaskOutputView| is_asked_for(o, text::view_option(*role));
    let mut r: Vec<TaskOutput> = Vec::new();
    let mut i: usize = 0;
    proof {
        reveal(Seq::filter);
        assert(table::seen(r@) =~= all.take(0).filter(keep));
    }
    while i < base.len()
        invariant
            all == table::seen(base@),
            keep == (|o: TaskOutputView| is_asked_for(o, text::view_option(*role))),
            i <= all.len(),
            table::seen(r@) == all.take(i as int).filter(keep),
        decreases all.len() - i,
    {
        let ghost had = table::seen(r@);
        proof {
            reveal(Seq::filter);
            assert(all.take(i + 1).drop_last() =~= all.take(i as int));
            assert(all.take(i + 1).last() == base@[i as int]@);
        }
        let asked = match role {
            Some(name) => same_text(&base[i].role, name),
            None => true,
        };
        if asked {
            r.push(base[i].dup());
            assert(table::seen(r@) =~= had.push(base@[i as int]@));
        }
        i = i + 1;
    }
    assert(all.take(i as int) =~= all);
    r
}

/// The outputs of a task, with their bytes in base64.
pub fn task_output(store: &Store, task_id: &str, role: &Option<String>) -> (r: Result<Reply, Problem>)
    requires
        store.wf(),
    ensures
        gives_outputs(store@, task_id@, text::view_option(*role), r),
{
    let list = select_outputs(store, task_id, role);
    let ghost all = table::seen(list@);
    let mut outputs: Vec<OutputShown> = Vec::new();
    let mut i: usize = 0;
    while i < list.len()
        invariant
            all == table::seen(list@),
            outputs_asked_for(store@, task_id@, text::view_option(*role), all),
            i <= all.len(),
            outputs@.len() == i,
            forall|j: int| 0 <= j < i ==> (#[trigger] all[j]).payload.len() <= usize::MAX / 4,
            forall|j: int| 0 <= j < i ==> (#[trigger] outputs@[j])@ == output_listed(all[j]),
        decreases all.len() - i,
    {
        let o = &list[i];
        assert(all[i as int] == o@);
        if o.payload.len() > usize::MAX / 4 {
            let r: Result<Reply, Problem> = Err(Problem::internal());
            assert(!can_be_encoded(all));
            return r;
        }
        outputs.push(
            OutputShown {
                artifact_id: o.artifact_id.clone(),
                role: o.role.clone(),
                media_type: o.media_type.clone(),
                byte_length: o.byte_length,
                sha256: o.sha256.clone(),
                content: base64_encode(&o.payload),
            },
        );
        i = i + 1;
    }
    assert(table::seen(outputs@) =~= all.map_values(|o: TaskOutputView| output_listed(o)));
    Ok(Reply::Outputs { task_id: task_id.to_owned(), outputs })
}

/// Who a task goes to.
#[derive(Debug, Clone, PartialEq, Eq)]
pub enum Performer {
    /// An active peer: its root and its name.
    Known { root: String, agent: String },
    /// A relationship that has yet to be introduced.
    FirstContact(PeerImport),
}

/// The view of [`Performer`].
pub enum PerformerView {
    Known { root: Seq<char>, agent: Seq<char> },
    FirstContact(PeerImportView),
}

impl View for Performer {
    type V = PerformerView;

    open spec fn view(&self) -> PerformerView {
        match self {
            Performer::Known { root, agent } => PerformerView::Known { root: root@, agent: agent@ },
            Performer::FirstContact(import) => PerformerView::FirstContact(import@),
        }
    }
}

/// Who a label sends to. Labels are the only address. A label that is also the name
/// of another pinned peer is refused, and so is a peer that is not active.
pub open spec fn performer_of(v: StoreView, label: Seq<char>) -> Result<PerformerView, ProblemView> {
    match imports::labelled(v, label) {
        None => Err(address::unknown_label_problem(label)),
        Some(import) => {
            let root = import.root_thumbprint;
            if exists|other: Seq<char>| other != root && #[trigger] peers::is_named(v.peers, label, other) {
                Err(
                    control::problem_of(
                        409,
                        "ambiguous-performer"@,
                        "this name is both a local label and another peer's agent id — rename the label"@,
                    ),
                )
            } else if !v.peers.contains_key(root) {
                Ok(PerformerView::FirstContact(import))
            } else if v.peers[root].status is Active {
                Ok(
                    PerformerView::Known {
                        root,
                        agent: v.peers[root].peer.identity.agent_id,
                    },
                )
            } else {
                Err(
                    control::problem_of(
                        409,
                        "peer-suspended"@,
                        "this peer is suspended pending review; re-add it to start a fresh relationship"@,
                    ),
                )
            }
        },
    }
}

/// Finds who a label sends to.
pub fn resolve_performer(store: &Store, performer: &str) -> (r: Result<Performer, Problem>)
    requires
        store.wf(),
    ensures
        match (r, performer_of(store@, performer@)) {
            (Ok(x), Ok(y)) => x@ == y,
            (Err(p), Err(q)) => p@ == q,
            _ => false,
        },
{
    let import = match store.peer_import_by_label(performer) {
        Ok(Some(import)) => import,
        _ => {
            return Err(unknown_label(performer));
        },
    };
    match store.peer_named_with_other_root(performer, &import.root_thumbprint) {
        Ok(false) => {},
        _ => {
            return Err(
                Problem::new(
                    409,
                    "ambiguous-performer",
                    "this name is both a local label and another peer's agent id — rename the label",
                ),
            );
        },
    }
    match store.get_peer_by_root(&import.root_thumbprint) {
        Ok(Some(peer)) => match store.peer_status_by_root(&import.root_thumbprint) {
            Ok(Some(PeerStatus::Active)) => Ok(
                Performer::Known { root: import.root_thumbprint, agent: peer.identity.agent_id },
            ),
            _ => Err(
                Problem::new(
                    409,
                    "peer-suspended",
                    "this peer is suspended pending review; re-add it to start a fresh relationship",
                ),
            ),
        },
        _ => Ok(Performer::FirstContact(import)),
    }
}

/// How a processor is authenticated to.
pub open spec fn auth_of(auth: Option<Seq<char>>) -> AuthSchemeView {
    match auth {
        None => AuthSchemeView::Bearer,
        Some(a) => if a == "bearer"@ {
            AuthSchemeView::Bearer
        } else if a == "none"@ {
            AuthSchemeView::Unauthenticated
        } else {
            AuthSchemeView::Header { header: a }
        },
    }
}

/// The header that a line `name:value` denotes: the two sides of its first colon,
/// trimmed. A line without a colon denotes none.
pub open spec fn header_of(line: Seq<char>) -> Option<HeaderView> {
    let at = text::first_of(line, ':');
    if at < line.len() {
        Some(
            HeaderView {
                name: text::trimmed(line.take(at)),
                value: text::trimmed(line.skip(at + 1)),
            },
        )
    } else {
        None
    }
}

/// The headers that lines denote, in their order.
pub open spec fn headers_of(lines: Seq<Seq<char>>) -> Seq<HeaderView>
    decreases lines.len(),
{
    if lines.len() == 0 {
        Seq::empty()
    } else {
        let before = headers_of(lines.drop_last());
        match header_of(lines.last()) {
            Some(h) => before.push(h),
            None => before,
        }
    }
}

fn read_auth(auth: &Option<String>) -> (r: AuthScheme)
    ensures
        r@ == auth_of(text::view_option(*auth)),
{
    match auth {
        None => AuthScheme::Bearer,
        Some(a) => if same_text(a, "bearer") {
            AuthScheme::Bearer
        } else if same_text(a, "none") {
            AuthScheme::Unauthenticated
        } else {
            AuthScheme::Header { header: a.clone() }
        },
    }
}

fn read_header(line: &str) -> (r: Option<Header>)
    ensures
        match r {
            Some(h) => header_of(line@) == Some(h@),
            None => header_of(line@) is None,
        },
{
    let v = chars_of(line);
    let at = find_first(&v, 0, ':');
    proof {
        assert(v@.skip(0) =~= v@);
        text::lemma_first_of(v@, ':');
    }
    if at == v.len() {
        return None;
    }
    let name = trim(&v, 0, at);
    let value = trim(&v, at + 1, v.len());
    proof {
        assert(v@.subrange(0, at as int) =~= line@.take(at as int));
        assert(v@.subrange(at + 1, v@.len() as int) =~= line@.skip(at + 1));
        assert(name@.subrange(0, name@.len() as int) =~= name@);
        assert(value@.subrange(0, value@.len() as int) =~= value@);
    }
    Some(Header { name: text_of(&name, 0, name.len()), value: text_of(&value, 0, value.len()) })
}

fn read_headers(lines: &Vec<String>) -> (r: Vec<Header>)
    ensures
        table::seen(r@) == headers_of(text::views(lines@)),
{
    let ghost all = text::views(lines@);
    let mut r: Vec<Header> = Vec::new();
    let mut i: usize = 0;
    assert(table::seen(r@) =~= headers_of(all.take(0)));
    while i < lines.len()
        invariant
            all == text::views(lines@),
            i <= all.len(),
            table::seen(r@) == headers_of(all.take(i as int)),
        decreases all.len() - i,
    {
        let ghost had = table::seen(r@);
        proof {
            assert(all.take(i + 1).drop_last() =~= all.take(i as int));
            assert(all.take(i + 1).last() == lines@[i as int]@);
        }
        match read_header(&lines[i]) {
            Some(h) => {
                let ghost view = h@;
                r.push(h);
                assert(table::seen(r@) =~= had.push(view));
            },
            None => {},
        }
        i = i + 1;
    }
    assert(all.take(i as int) =~= all);
    r
}

/// The configuration of a processor. A local one discloses nothing; any other
/// discloses to its provider.
pub open spec fn processor_of(
    processor_id: Seq<char>,
    provider: Seq<char>,
    origin_host: Seq<char>,
    origin_port: u16,
    local: bool,
    tls_certificate_sha256: Option<Seq<char>>,
    path: Option<Seq<char>>,
    auth: Option<Seq<char>>,
    headers: Seq<Seq<char>>,
) -> ProcessorConfigView {
    ProcessorConfigView {
        processor_id,
        provider,
        origin: OriginView { host: origin_host, port: origin_port },
        disclosure: if local {
            DisclosureView::Local
        } else {
            DisclosureView::Remote { recipient: provider, region: "configured"@ }
        },
        path: match path {
            Some(p) => p,
            None => "/"@,
        },
        auth: auth_of(auth),
        headers: headers_of(headers),
        config: "{}"@,
        tls_certificate_sha256,
    }
}

/// The state with a processor configured.
pub open spec fn with_processor(v: StoreView, config: ProcessorConfigView, now: i64) -> StoreView {
    StoreView {
        processors: v.processors.insert(
            config.processor_id,
            ProcessorRowView {
                config,
                added_at: if v.processors.contains_key(config.processor_id) {
                    v.processors[config.processor_id].added_at
                } else {
                    now
                },
            },
        ),
        ..v
    }.audited(now, "processor.configured"@, config.processor_id)
}

/// Configures a processor.
pub fn processor_add(
    store: &mut Store,
    processor_id: &str,
    provider: &str,
    origin_host: &str,
    origin_port: u16,
    local: bool,
    tls_certificate_sha256: &Option<String>,
    path: &Option<String>,
    auth: &Option<String>,
    headers: &Vec<String>,
    wall: i64,
) -> (r: Result<Reply, Problem>)
    requires
        old(store).wf(),
    ensures
        final(store).wf(),
        final(store)@ == with_processor(
            old(store)@,
            processor_of(
                processor_id@,
                provider@,
                origin_host@,
                origin_port,
                local,
                text::view_option(*tls_certificate_sha256),
                text::view_option(*path),
                text::view_option(*auth),
                text::views(headers@),
            ),
            wall,
        ),
        match r {
            Ok(Reply::ProcessorAdded { processor_id: id }) => id@ == processor_id@,
            _ => false,
        },
{
    let config = ProcessorConfig {
        processor_id: processor_id.to_owned(),
        provider: provider.to_owned(),
        origin: Origin { host: origin_host.to_owned(), port: origin_port },
        disclosure: if local {
            Disclosure::Local
        } else {
            Disclosure::Remote { recipient: provider.to_owned(), region: "configured".to_owned() }
        },
        path: match path {
            Some(p) => p.clone(),
            None => "/".to_owned(),
        },
        auth: read_auth(auth),
        headers: read_headers(headers),
        config: "{}".to_owned(),
        tls_certificate_sha256: copy_option(tls_certificate_sha256),
    };
    let _ = store.put_processor(&config, wall);
    Ok(Reply::ProcessorAdded { processor_id: processor_id.to_owned() })
}

/// A processor as it is listed.
pub open spec fn processor_listed(c: ProcessorConfigView) -> ProcessorListedView {
    ProcessorListedView {
        processor_id: c.processor_id,
        provider: c.provider,
        origin: "https://"@ + c.origin.host + ":"@ + numerals::decimal(c.origin.port as int),
        local: c.disclosure is Local,
        pinned: c.tls_certificate_sha256 is Some,
    }
}

/// The processors as they are listed, by id.
pub open spec fn processors_shown(v: StoreView, list: Seq<ProcessorListedView>) -> bool {
    exists|base: Seq<ProcessorConfigView>| #[trigger]
        processors::processors_listed(v, base) && list == base.map_values(
            |c: ProcessorConfigView| processor_listed(c),
        )
}

fn list_processors_shown(store: &Store) -> (r: Vec<ProcessorListed>)
    requires
        store.wf(),
    ensures
        processors_shown(store@, table::seen(r@)),
{
    let base = match store.list_processors() {
        Ok(list) => list,
        Err(_) => Vec::new(),
    };
    let mut r: Vec<ProcessorListed> = Vec::new();
    let mut i: usize = 0;
    while i < base.len()
        invariant
            i <= base@.len(),
            r@.len() == i,
            forall|j: int| 0 <= j < i ==> (#[trigger] r@[j])@ == processor_listed(base@[j]@),
        decreases base@.len() - i,
    {
        let c = &base[i];
        let port = decimal_u64(c.origin.port as u64);
        r.push(
            ProcessorListed {
                processor_id: c.processor_id.clone(),
                provider: c.provider.clone(),
                origin: "https://".to_owned().concat(&c.origin.host).concat(":").concat(&port),
                local: c.is_local(),
                pinned: c.tls_certificate_sha256.is_some(),
            },
        );
        i = i + 1;
    }
    assert(table::seen(r@) =~= table::seen(base@).map_values(|c: ProcessorConfigView| processor_listed(c)));
    r
}

/// The effect that is to be performed at the time of a decision.
pub open spec fn performs_in_time(
    v: StoreView,
    w: StoreView,
    wall: i64,
    r: Result<Answer, Problem>,
    is_it: spec_fn(Effect, i64) -> bool,
) -> bool {
    w == clock::timed(v, wall) && match clock::time_now(v, wall) {
        Err(q) => match r {
            Err(p) => p@ == q,
            Ok(_) => false,
        },
        Ok(now) => match r {
            Ok(Answer::Perform(e)) => is_it(e, now),
            _ => false,
        },
    }
}

/// The effect that is to be performed at once.
pub open spec fn performs(
    v: StoreView,
    w: StoreView,
    r: Result<Answer, Problem>,
    is_it: spec_fn(Effect) -> bool,
) -> bool {
    w == v && match r {
        Ok(Answer::Perform(e)) => is_it(e),
        _ => false,
    }
}

/// The reply that is given, and the state stays as it is.
pub open spec fn replies(
    v: StoreView,
    w: StoreView,
    r: Result<Answer, Problem>,
    is_it: spec_fn(Reply) -> bool,
) -> bool {
    w == v && match r {
        Ok(Answer::Reply(reply)) => is_it(reply),
        _ => false,
    }
}

/// The answer as a reply.
pub open spec fn as_reply(r: Result<Answer, Problem>) -> Option<Result<Reply, Problem>> {
    match r {
        Ok(Answer::Reply(reply)) => Some(Ok(reply)),
        Ok(Answer::Perform(_)) => None,
        Err(p) => Some(Err(p)),
    }
}

/// What comes of a request of the operator.
pub open spec fn answers_operator(
    v: StoreView,
    w: StoreView,
    me: EndpointView,
    request: ControlRequest,
    report: Seq<FeatureReportView>,
    wall: i64,
    r: Result<Answer, Problem>,
) -> bool {
    match request {
        ControlRequest::Diagnose => replies(
            v,
            w,
            r,
            |reply: Reply| reply is Health && reply->Health_0@ == health_of(report),
        ),
        ControlRequest::WhoAmI => replies(
            v,
            w,
            r,
            |reply: Reply| reply is WhoAmI && reply->WhoAmI_0@ == who_of(me),
        ),
        ControlRequest::TaskInbox => w == v && match r {
            Ok(Answer::Reply(Reply::Tasks(answer))) => control_dispatch::answers_on_tasks(v, request, Ok(answer)),
            Err(p) => control_dispatch::answers_on_tasks(v, request, Err(p)),
            _ => false,
        },
        ControlRequest::TaskShow { task_id } => w == v && match r {
            Ok(Answer::Reply(Reply::Tasks(answer))) => control_dispatch::answers_on_tasks(v, request, Ok(answer)),
            Err(p) => control_dispatch::answers_on_tasks(v, request, Err(p)),
            _ => false,
        },
        ControlRequest::PeerList => w == v && match r {
            Ok(Answer::Reply(Reply::Peers { imports, peers })) => relationships_listed(
                v,
                table::seen(imports@),
            ) && peers::peers_listed(v, table::seen(peers@)),
            _ => false,
        },
        ControlRequest::Token => replies(
            v,
            w,
            r,
            |reply: Reply| reply is Token && reply->Token_0@ == token_of(me),
        ),
        ControlRequest::PeerAdd { token, suffix, label, endpoint, update } => match as_reply(r) {
            Some(reply) => imports_peer(
                v,
                w,
                me.root,
                token,
                text::view_option(suffix),
                label@,
                text::view_option(endpoint),
                update,
                wall,
                reply,
            ),
            None => false,
        },
        ControlRequest::PeerLabel { label, new_label } => match as_reply(r) {
            Some(reply) => relabels(v, w, label@, new_label@, reply),
            None => false,
        },
        ControlRequest::PeerImportRemove { label } => match as_reply(r) {
            Some(reply) => removes_peer(v, w, label@, wall, reply),
            None => false,
        },
        ControlRequest::PeerKnocks => replies(
            v,
            w,
            r,
            |reply: Reply| reply is Knocks && imports::knocks_listed(v, table::seen(reply->Knocks_0@)),
        ),
        ControlRequest::PeerPing { label } => w == v && match imports::labelled(v, label@) {
            None => match r {
                Err(p) => p@ == address::unknown_label_problem(label@),
                Ok(_) => false,
            },
            Some(import) => match r {
                Ok(Answer::Perform(Effect::Introduce { import: i, send })) => i@ == import
                    && send is None,
                _ => false,
            },
        },
        ControlRequest::PeerAutoApprove {
            label,
            task_types,
            max_response_bytes,
        } => match as_reply(r) {
            Some(reply) => approves_standing(
                v,
                w,
                label@,
                text::views(task_types@),
                max_response_bytes,
                wall,
                reply,
            ),
            None => false,
        },
        ControlRequest::TaskSent => replies(
            v,
            w,
            r,
            |reply: Reply| reply is Sent && requests::sent_listed(v, table::seen(reply->Sent_0@)),
        ),
        ControlRequest::TaskOutcomes => replies(
            v,
            w,
            r,
            |reply: Reply| reply is Outcomes && requests::outcomes_listed(v, table::seen(reply->Outcomes_0@)),
        ),
        ControlRequest::TaskOutput { task_id, role } => w == v && match as_reply(r) {
            Some(reply) => gives_outputs(v, task_id@, text::view_option(role), reply),
            None => false,
        },
        ControlRequest::TaskApprove { task_id, processor, artifacts } => performs_in_time(
            v,
            w,
            wall,
            r,
            |e: Effect, now: i64|
                match e {
                    Effect::Approve { task_id: t, processor: p, artifacts: a, now: n } => t@
                        == task_id@ && text::view_option(p) == text::view_option(processor) && a == artifacts
                        && n == now,
                    _ => false,
                },
        ),
        ControlRequest::TaskDeny { task_id, reason } => performs_in_time(
            v,
            w,
            wall,
            r,
            |e: Effect, now: i64|
                match e {
                    Effect::Deny { task_id: t, reason: why, now: n } => t@ == task_id@ && why@
                        == reason@ && n == now,
                    _ => false,
                },
        ),
        ControlRequest::SubmitResult { submission } => performs_in_time(
            v,
            w,
            wall,
            r,
            |e: Effect, now: i64|
                match e {
                    Effect::SubmitResult { submission: s, now: n } => s@ == submission@ && n == now,
                    _ => false,
                },
        ),
        ControlRequest::TaskRun { task_id } => performs(
            v,
            w,
            r,
            |e: Effect|
                match e {
                    Effect::RunWorker { task_id: t } => t@ == task_id@,
                    _ => false,
                },
        ),
        ControlRequest::TaskFulfill { task_id, outputs } => performs(
            v,
            w,
            r,
            |e: Effect|
                match e {
                    Effect::Fulfill { task_id: t, outputs: o } => t@ == task_id@ && o@ == outputs@,
                    _ => false,
                },
        ),
        ControlRequest::TaskDeliver { task_id } => performs(
            v,
            w,
            r,
            |e: Effect|
                match e {
                    Effect::Deliver { task_id: t } => t@ == task_id@,
                    _ => false,
                },
        ),
        ControlRequest::TaskSend { spec } => w == v && match performer_of(v, spec.performer@) {
            Err(q) => match r {
                Err(p) => p@ == q,
                Ok(_) => false,
            },
            Ok(PerformerView::Known { root, agent }) => match r {
                Ok(Answer::Perform(Effect::Send { spec: s, root: to })) => s.performer@ == agent
                    && s.rest@ == spec.rest@ && to@ == root,
                _ => false,
            },
            Ok(PerformerView::FirstContact(import)) => match r {
                Ok(Answer::Perform(Effect::Introduce { import: i, send: Some(s) })) => i@ == import
                    && s.performer@ == spec.performer@ && s.rest@ == spec.rest@,
                _ => false,
            },
        },
        ControlRequest::RequestProcessorCall {
            processor_id,
            work_order_id,
            request: body,
        } => performs(
            v,
            w,
            r,
            |e: Effect|
                match e {
                    Effect::CallProcessor { processor_id: p, work_order_id: o, request: b } => p@
                        == processor_id@ && o@ == work_order_id@ && b@ == body@,
                    _ => false,
                },
        ),
        ControlRequest::ProcessorAdd {
            processor_id,
            provider,
            origin_host,
            origin_port,
            local,
            tls_certificate_sha256,
            path,
            auth,
            headers,
        } => w == with_processor(
            v,
            processor_of(
                processor_id@,
                provider@,
                origin_host@,
                origin_port,
                local,
                text::view_option(tls_certificate_sha256),
                text::view_option(path),
                text::view_option(auth),
                text::views(headers@),
            ),
            wall,
        ) && match r {
            Ok(Answer::Reply(Reply::ProcessorAdded { processor_id: id })) => id@ == processor_id@,
            _ => false,
        },
        ControlRequest::ProcessorList => replies(
            v,
            w,
            r,
            |reply: Reply| reply is Processors && processors_shown(v, table::seen(reply->Processors_0@)),
        ),
        ControlRequest::ProcessorCredential { processor_id, credential } => w == (StoreView {
            credentials: v.credentials.insert(
                processor_id@,
                CredentialRowView { credential: encode_utf8(credential@), updated_at: wall },
            ),
            ..v
        }).audited(wall, "processor.credential_set"@, processor_id@) && match r {
            Ok(Answer::Reply(Reply::CredentialSet { processor_id: id })) => id@ == processor_id@,
            _ => false,
        },
        ControlRequest::IssueWorkOrder => replies(v, w, r, |reply: Reply| reply is Accepted),
        _ => w == v && match r {
            Err(p) => p@ == control_dispatch::unsupported_problem(),
            Ok(_) => false,
        },
    }
}

fn reply_with(r: Result<Reply, Problem>) -> (a: Result<Answer, Problem>)
    ensures
        as_reply(a) == Some(r),
{
    match r {
        Ok(reply) => Ok(Answer::Reply(reply)),
        Err(p) => Err(p),
    }
}

/// Decides where a task is sent.
fn send_task(store: &Store, spec: &SendSpec) -> (r: Result<Answer, Problem>)
    requires
        store.wf(),
    ensures
        match performer_of(store@, spec.performer@) {
            Err(q) => match r {
                Err(p) => p@ == q,
                Ok(_) => false,
            },
            Ok(PerformerView::Known { root, agent }) => match r {
                Ok(Answer::Perform(Effect::Send { spec: s, root: to })) => s.performer@ == agent
                    && s.rest@ == spec.rest@ && to@ == root,
                _ => false,
            },
            Ok(PerformerView::FirstContact(import)) => match r {
                Ok(Answer::Perform(Effect::Introduce { import: i, send: Some(s) })) => i@ == import
                    && s.performer@ == spec.performer@ && s.rest@ == spec.rest@,
                _ => false,
            },
        },
{
    match resolve_performer(store, &spec.performer) {
        Err(p) => Err(p),
        Ok(Performer::Known { root, agent }) => Ok(
            Answer::Perform(
                Effect::Send { spec: SendSpec { performer: agent, rest: spec.rest.clone() }, root },
            ),
        ),
        Ok(Performer::FirstContact(import)) => Ok(
            Answer::Perform(
                Effect::Introduce {
                    import,
                    send: Some(
                        SendSpec { performer: spec.performer.clone(), rest: spec.rest.clone() },
                    ),
                },
            ),
        ),
    }
}

/// Answers a request that looks things up.
fn dispatch_query(
    store: &Store,
    me: &Endpoint,
    request: &ControlRequest,
    report: &Vec<FeatureReport>,
    wall: i64,
) -> (r: Option<Result<Answer, Problem>>)
    requires
        store.wf(),
    ensures
        match r {
            Some(a) => answers_operator(
                store@,
                store@,
                me@,
                *request,
                table::seen(report@),
                wall,
                a,
            ),
            None => !is_query(*request),
        },
{
    match request {
        ControlRequest::Diagnose => Some(
            Ok(Answer::Reply(Reply::Health(diagnose_report(report)))),
        ),
        ControlRequest::WhoAmI => Some(Ok(Answer::Reply(Reply::WhoAmI(who_am_i(me))))),
        ControlRequest::TaskInbox => match dispatch_control(store, request) {
            Ok(answer) => Some(Ok(Answer::Reply(Reply::Tasks(answer)))),
            Err(p) => Some(Err(p)),
        },
        ControlRequest::TaskShow { .. } => match dispatch_control(store, request) {
            Ok(answer) => Some(Ok(Answer::Reply(Reply::Tasks(answer)))),
            Err(p) => Some(Err(p)),
        },
        ControlRequest::PeerList => {
            let imports = list_relationships(store);
            let peers = match store.list_peers() {
                Ok(peers) => peers,
                Err(_) => Vec::new(),
            };
            Some(Ok(Answer::Reply(Reply::Peers { imports, peers })))
        },
        ControlRequest::Token => Some(Ok(Answer::Reply(Reply::Token(token_reply(me))))),
        ControlRequest::PeerKnocks => {
            let list = match store.knocks() {
                Ok(list) => list,
                Err(_) => Vec::new(),
            };
            Some(Ok(Answer::Reply(Reply::Knocks(list))))
        },
        ControlRequest::PeerPing { label } => match store.peer_import_by_label(label) {
            Ok(Some(import)) => Some(
                Ok(Answer::Perform(Effect::Introduce { import, send: None })),
            ),
            _ => Some(Err(unknown_label(label))),
        },
        ControlRequest::TaskSent => {
            let list = match store.list_sent_requests() {
                Ok(list) => list,
                Err(_) => Vec::new(),
            };
            Some(Ok(Answer::Reply(Reply::Sent(list))))
        },
        ControlRequest::TaskOutcomes => {
            let list = match store.list_outcomes() {
                Ok(list) => list,
                Err(_) => Vec::new(),
            };
            Some(Ok(Answer::Reply(Reply::Outcomes(list))))
        },
        ControlRequest::TaskOutput { task_id, role } => Some(
            reply_with(task_output(store, task_id, role)),
        ),
        ControlRequest::ProcessorList => {
            let list = list_processors_shown(store);
            Some(Ok(Answer::Reply(Reply::Processors(list))))
        },
        ControlRequest::IssueWorkOrder => Some(Ok(Answer::Reply(Reply::Accepted))),
        _ => None,
    }
}

/// The request looks things up, and changes nothing.
pub open spec fn is_query(request: ControlRequest) -> bool {
    match request {
        ControlRequest::Diagnose => true,
        ControlRequest::WhoAmI => true,
        ControlRequest::TaskInbox => true,
        ControlRequest::TaskShow { .. } => true,
        ControlRequest::PeerList => true,
        ControlRequest::Token => true,
        ControlRequest::PeerKnocks => true,
        ControlRequest::PeerPing { .. } => true,
        ControlRequest::TaskSent => true,
        ControlRequest::TaskOutcomes => true,
        ControlRequest::TaskOutput { .. } => true,
        ControlRequest::ProcessorList => true,
        ControlRequest::IssueWorkOrder => true,
        _ => false,
    }
}

/// Answers a request of the operator. The surface was authorized before. `report` is
/// what was found of the means of confinement, and `wall` the wall clock.
pub fn dispatch(
    store: &mut Store,
    me: &Endpoint,
    request: &ControlRequest,
    report: &Vec<FeatureReport>,
    wall: i64,
) -> (r: Result<Answer, Problem>)
    requires
        old(store).wf(),
    ensures
        final(store).wf(),
        answers_operator(
            old(store)@,
            final(store)@,
            me@,
            *request,
            table::seen(report@),
            wall,
            r,
        ),
{
    match dispatch_query(store, me, request, report, wall) {
        Some(answer) => {
            return answer;
        },
        None => {},
    }
    match request {
        ControlRequest::PeerAdd { token, suffix, label, endpoint, update } => reply_with(
            peer_add(store, &me.root, token, suffix, label, endpoint, *update, wall),
        ),
        ControlRequest::PeerLabel { label, new_label } => reply_with(
            peer_label(store, label, new_label),
        ),
        ControlRequest::PeerImportRemove { label } => reply_with(
            peer_import_remove(store, label, wall),
        ),
        ControlRequest::PeerAutoApprove { label, task_types, max_response_bytes } => reply_with(
            peer_auto_approve(store, label, task_types, *max_response_bytes, wall),
        ),
        ControlRequest::TaskApprove { task_id, processor, artifacts } => match trusted_now(
            store,
            wall,
        ) {
            Ok(now) => Ok(
                Answer::Perform(
                    Effect::Approve {
                        task_id: task_id.clone(),
                        processor: copy_option(processor),
                        artifacts: *artifacts,
                        now,
                    },
                ),
            ),
            Err(p) => Err(p),
        },
        ControlRequest::TaskDeny { task_id, reason } => match trusted_now(store, wall) {
            Ok(now) => Ok(
                Answer::Perform(
                    Effect::Deny { task_id: task_id.clone(), reason: reason.clone(), now },
                ),
            ),
            Err(p) => Err(p),
        },
        ControlRequest::SubmitResult { submission } => match trusted_now(store, wall) {
            Ok(now) => Ok(
                Answer::Perform(Effect::SubmitResult { submission: submission.clone(), now }),
            ),
            Err(p) => Err(p),
        },
        ControlRequest::TaskRun { task_id } => Ok(
            Answer::Perform(Effect::RunWorker { task_id: task_id.clone() }),
        ),
        ControlRequest::TaskFulfill { task_id, outputs } => Ok(
            Answer::Perform(
                Effect::Fulfill { task_id: task_id.clone(), outputs: outputs.clone() },
            ),
        ),
        ControlRequest::TaskDeliver { task_id } => Ok(
            Answer::Perform(Effect::Deliver { task_id: task_id.clone() }),
        ),
        ControlRequest::TaskSend { spec } => send_task(store, spec),
        ControlRequest::RequestProcessorCall { processor_id, work_order_id, request: body } => Ok(
            Answer::Perform(
                Effect::CallProcessor {
                    processor_id: processor_id.clone(),
                    work_order_id: work_order_id.clone(),
                    request: body.clone(),
                },
            ),
        ),
        ControlRequest::ProcessorAdd {
            processor_id,
            provider,
            origin_host,
            origin_port,
            local,
            tls_certificate_sha256,
            path,
            auth,
            headers,
        } => reply_with(
            processor_add(
                store,
                processor_id,
                provider,
                origin_host,
                *origin_port,
                *local,
                tls_certificate_sha256,
                path,
                auth,
                headers,
                wall,
            ),
        ),
        ControlRequest::ProcessorCredential { processor_id, credential } => {
            let _ = store.put_credential(processor_id, credential.as_str().as_bytes(), wall);
            Ok(Answer::Reply(Reply::CredentialSet { processor_id: processor_id.clone() }))
        },
        _ => Err(
            Problem::new(
                400,
                "unsupported-operation",
                "this operation is not a store-backed control request",
            ),
        ),
    }
}

/// The reply to a ping, once the introduction is done.
pub open spec fn introduced_of(
    label: Seq<char>,
    peer: PeerIdentityView,
    outcome: IntroCommitOutcomeView,
) -> IntroducedReplyView {
    IntroducedReplyView {
        introduced: introduce::outcome_name(outcome),
        issuer: peer.issuer,
        agent: peer.agent_id,
        root_thumbprint: peer.agent_card_key.value,
        label,
    }
}

/// Answers a ping, once the introduction is done.
pub fn answer_ping(label: &str, peer: &PeerIdentity, outcome: &IntroCommitOutcome) -> (r: Reply)
    ensures
        match r {
            Reply::Introduced(reply) => reply@ == introduced_of(label@, peer@, outcome@),
            _ => false,
        },
{
    Reply::Introduced(
        IntroducedReply {
            introduced: name_outcome(outcome),
            issuer: copy_option(&peer.issuer),
            agent: peer.agent_id.clone(),
            root_thumbprint: peer.agent_card_key.value.clone(),
            label: label.to_owned(),
        },
    )
}

/// Sends a task to a peer that was introduced for it.
pub fn send_introduced(spec: &SendSpec, peer: &PeerIdentity) -> (r: Effect)
    ensures
        match r {
            Effect::Send { spec: s, root } => s.performer@ == peer@.agent_id && s.rest@ == spec.rest@
                && root@ == peer@.agent_card_key.value,
            _ => false,
        },
{
    Effect::Send {
        spec: SendSpec { performer: peer.agent_id.clone(), rest: spec.rest.clone() },
        root: peer.agent_card_key.value.clone(),
    }
}

/// A request that looks things up changes nothing.
pub proof fn queries_change_nothing(
    v: StoreView,
    w: StoreView,
    me: EndpointView,
    request: ControlRequest,
    report: Seq<FeatureReportView>,
    wall: i64,
    r: Result<Answer, Problem>,
)
    requires
        is_query(request),
        answers_operator(v, w, me, request, report, wall, r),
    ensures
        w == v,
{
}

/// A name never sends: where no relationship has the label, the task goes nowhere,
/// even if a pinned peer has that name.
pub proof fn names_do_not_route(v: StoreView, name: Seq<char>)
    requires
        imports::labelled(v, name) is None,
    ensures
        performer_of(v, name) is Err,
{
}

/// A peer that is not active is sent nothing.
pub proof fn only_active_peers_are_sent_to(v: StoreView, label: Seq<char>)
    requires
        performer_of(v, label) is Ok,
    ensures
        match performer_of(v, label)->Ok_0 {
            PerformerView::Known { root, agent } => v.peers.contains_key(root)
                && v.peers[root].status is Active && agent
                == v.peers[root].peer.identity.agent_id,
            PerformerView::FirstContact(import) => !v.peers.contains_key(
                import.root_thumbprint,
            ),
        },
{
}

/// One's own token is not imported.
pub proof fn own_tokens_are_refused(
    own_root: Seq<char>,
    root: String,
    label: Seq<char>,
    hint: Option<Seq<char>>,
)
    requires
        root@ == own_root,
    ensures
        import_refusal(own_root, TokenReading::Root(root), label, hint) is Some,
{
}

} // verus!
