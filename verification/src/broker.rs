//! Processors: the outside models that a task may be allowed to call, and the
//! states through which each call passes.
use crate::table::{Record, dup_all};
use crate::table;
use crate::text::copy_option;
use crate::text;
use vstd::prelude::*;

verus! {

/// Where a processor is reached, over HTTPS.
#[derive(Debug, Clone, PartialEq, Eq)]
pub struct Origin {
    pub host: String,
    pub port: u16,
}

/// The view of [`Origin`].
#[verifier::ext_equal]
pub struct OriginView {
    pub host: Seq<char>,
    pub port: u16,
}

impl View for Origin {
    type V = OriginView;

    open spec fn view(&self) -> OriginView {
        OriginView {
            host: self.host@,
            port: self.port,
        }
    }
}

impl Record for Origin {
    fn dup(&self) -> (r: Self) {
        let r = Origin {
            host: self.host.clone(),
            port: self.port,
        };
        r
    }
}

/// Who learns what is sent to a processor.
#[derive(Debug, Clone, PartialEq, Eq)]
pub enum Disclosure {
    /// The processor runs on this machine.
    Local,
    /// A third party, in a region.
    Remote { recipient: String, region: String },
}

/// The view of [`Disclosure`].
pub enum DisclosureView {
    Local,
    Remote { recipient: Seq<char>, region: Seq<char> },
}

impl View for Disclosure {
    type V = DisclosureView;

    open spec fn view(&self) -> DisclosureView {
        match self {
            Disclosure::Local => DisclosureView::Local,
            Disclosure::Remote { recipient, region } => DisclosureView::Remote {
                recipient: recipient@,
                region: region@,
            },
        }
    }
}

impl Record for Disclosure {
    fn dup(&self) -> (r: Self) {
        match self {
            Disclosure::Local => Disclosure::Local,
            Disclosure::Remote { recipient, region } => Disclosure::Remote {
                recipient: recipient.clone(),
                region: region.clone(),
            },
        }
    }
}

/// How a call presents the processor's credential.
#[derive(Debug, Clone, PartialEq, Eq)]
pub enum AuthScheme {
    Bearer,
    Unauthenticated,
    Header { header: String },
}

/// The view of [`AuthScheme`].
pub enum AuthSchemeView {
    Bearer,
    Unauthenticated,
    Header { header: Seq<char> },
}

impl View for AuthScheme {
    type V = AuthSchemeView;

    open spec fn view(&self) -> AuthSchemeView {
        match self {
            AuthScheme::Bearer => AuthSchemeView::Bearer,
            AuthScheme::Unauthenticated => AuthSchemeView::Unauthenticated,
            AuthScheme::Header { header } => AuthSchemeView::Header { header: header@ },
        }
    }
}

impl Record for AuthScheme {
    fn dup(&self) -> (r: Self) {
        match self {
            AuthScheme::Bearer => AuthScheme::Bearer,
            AuthScheme::Unauthenticated => AuthScheme::Unauthenticated,
            AuthScheme::Header { header } => AuthScheme::Header { header: header.clone() },
        }
    }
}

/// One header that every call to a processor carries.
#[derive(Debug, Clone, PartialEq, Eq)]
pub struct Header {
    pub name: String,
    pub value: String,
}

/// The view of [`Header`].
#[verifier::ext_equal]
pub struct HeaderView {
    pub name: Seq<char>,
    pub value: Seq<char>,
}

impl View for Header {
    type V = HeaderView;

    open spec fn view(&self) -> HeaderView {
        HeaderView {
            name: self.name@,
            value: self.value@,
        }
    }
}

impl Record for Header {
    fn dup(&self) -> (r: Self) {
        let r = Header {
            name: self.name.clone(),
            value: self.value.clone(),
        };
        r
    }
}

/// A configured processor.
#[derive(Debug, Clone, PartialEq, Eq)]
pub struct ProcessorConfig {
    pub processor_id: String,
    pub provider: String,
    pub origin: Origin,
    pub disclosure: Disclosure,
    pub path: String,
    pub auth: AuthScheme,
    pub headers: Vec<Header>,
    /// The provider-specific settings, as JSON.
    pub config: String,
    /// The pinned certificate, if one is pinned.
    pub tls_certificate_sha256: Option<String>,
}

/// The view of [`ProcessorConfig`].
#[verifier::ext_equal]
pub struct ProcessorConfigView {
    pub processor_id: Seq<char>,
    pub provider: Seq<char>,
    pub origin: OriginView,
    pub disclosure: DisclosureView,
    pub path: Seq<char>,
    pub auth: AuthSchemeView,
    pub headers: Seq<HeaderView>,
    pub config: Seq<char>,
    pub tls_certificate_sha256: Option<Seq<char>>,
}

impl View for ProcessorConfig {
    type V = ProcessorConfigView;

    open spec fn view(&self) -> ProcessorConfigView {
        ProcessorConfigView {
            processor_id: self.processor_id@,
            provider: self.provider@,
            origin: self.origin@,
            disclosure: self.disclosure@,
            path: self.path@,
            auth: self.auth@,
            headers: table::seen(self.headers@),
            config: self.config@,
            tls_certificate_sha256: text::view_option(self.tls_certificate_sha256),
        }
    }
}

impl Record for ProcessorConfig {
    fn dup(&self) -> (r: Self) {
        let r = ProcessorConfig {
            processor_id: self.processor_id.clone(),
            provider: self.provider.clone(),
            origin: self.origin.dup(),
            disclosure: self.disclosure.dup(),
            path: self.path.clone(),
            auth: self.auth.dup(),
            headers: dup_all(&self.headers),
            config: self.config.clone(),
            tls_certificate_sha256: copy_option(&self.tls_certificate_sha256),
        };
        r
    }
}

impl ProcessorConfig {
    /// Whether the processor runs on this machine.
    pub fn is_local(&self) -> (r: bool)
        ensures
            r == (self@.disclosure is Local),
    {
        match self.disclosure {
            Disclosure::Local => true,
            Disclosure::Remote { .. } => false,
        }
    }
}

/// One call, as it is recorded before anything is sent.
#[derive(Debug, Clone, PartialEq, Eq)]
pub struct ProcessorCall {
    pub idempotency_key: String,
    pub work_order_id: String,
    pub task_id: String,
    pub processor_id: String,
    pub provider: String,
    pub config_digest: String,
    pub request_digest: String,
    pub origin: Origin,
    pub max_cost_microusd: u64,
    pub max_response_bytes: u64,
    pub deadline: String,
}

/// The view of [`ProcessorCall`].
#[verifier::ext_equal]
pub struct ProcessorCallView {
    pub idempotency_key: Seq<char>,
    pub work_order_id: Seq<char>,
    pub task_id: Seq<char>,
    pub processor_id: Seq<char>,
    pub provider: Seq<char>,
    pub config_digest: Seq<char>,
    pub request_digest: Seq<char>,
    pub origin: OriginView,
    pub max_cost_microusd: u64,
    pub max_response_bytes: u64,
    pub deadline: Seq<char>,
}

impl View for ProcessorCall {
    type V = ProcessorCallView;

    open spec fn view(&self) -> ProcessorCallView {
        ProcessorCallView {
            idempotency_key: self.idempotency_key@,
            work_order_id: self.work_order_id@,
            task_id: self.task_id@,
            processor_id: self.processor_id@,
            provider: self.provider@,
            config_digest: self.config_digest@,
            request_digest: self.request_digest@,
            origin: self.origin@,
            max_cost_microusd: self.max_cost_microusd,
            max_response_bytes: self.max_response_bytes,
            deadline: self.deadline@,
        }
    }
}

impl Record for ProcessorCall {
    fn dup(&self) -> (r: Self) {
        let r = ProcessorCall {
            idempotency_key: self.idempotency_key.clone(),
            work_order_id: self.work_order_id.clone(),
            task_id: self.task_id.clone(),
            processor_id: self.processor_id.clone(),
            provider: self.provider.clone(),
            config_digest: self.config_digest.clone(),
            request_digest: self.request_digest.clone(),
            origin: self.origin.dup(),
            max_cost_microusd: self.max_cost_microusd,
            max_response_bytes: self.max_response_bytes,
            deadline: self.deadline.clone(),
        };
        r
    }
}

/// The states of a call.
#[derive(Debug, Clone, Copy, PartialEq, Eq, Structural)]
pub enum SubAttemptState {
    Prepared,
    Dispatching,
    Completed,
    Failed,
    /// A crash left it open whether anything was sent.
    Ambiguous,
}

/// What can happen to a call.
#[derive(Debug, Clone, Copy, PartialEq, Eq, Structural)]
pub enum SubAttemptEvent {
    Dispatch,
    Complete,
    Fail,
    Crash,
}

/// Why a call does not move.
#[derive(Debug, Clone, Copy, PartialEq, Eq, Structural)]
pub enum CallTransitionError {
    /// The call is over.
    AlreadyTerminal { state: SubAttemptState },
    /// The event does not follow in this state.
    OutOfOrder { state: SubAttemptState, event: SubAttemptEvent },
}

/// The state after an event.
pub open spec fn next_call_state(s: SubAttemptState, e: SubAttemptEvent) -> Result<
    SubAttemptState,
    CallTransitionError,
> {
    match (s, e) {
        (SubAttemptState::Prepared, SubAttemptEvent::Dispatch) => Ok(SubAttemptState::Dispatching),
        (SubAttemptState::Prepared, SubAttemptEvent::Fail) => Ok(SubAttemptState::Failed),
        (SubAttemptState::Dispatching, SubAttemptEvent::Complete) => Ok(SubAttemptState::Completed),
        (SubAttemptState::Dispatching, SubAttemptEvent::Fail) => Ok(SubAttemptState::Failed),
        (SubAttemptState::Dispatching, SubAttemptEvent::Crash) => Ok(SubAttemptState::Ambiguous),
        (SubAttemptState::Prepared, _) | (SubAttemptState::Dispatching, _) => Err(
            CallTransitionError::OutOfOrder { state: s, event: e },
        ),
        _ => Err(CallTransitionError::AlreadyTerminal { state: s }),
    }
}

/// Moves a call by one event. The table of moves is a rule of this module, called from no
/// outside crate.
pub fn next_call(s: SubAttemptState, e: SubAttemptEvent) -> (r: Result<
    SubAttemptState,
    CallTransitionError,
>)
    ensures
        r == next_call_state(s, e),
{
    match (s, e) {
        (SubAttemptState::Prepared, SubAttemptEvent::Dispatch) => Ok(SubAttemptState::Dispatching),
        (SubAttemptState::Prepared, SubAttemptEvent::Fail) => Ok(SubAttemptState::Failed),
        (SubAttemptState::Dispatching, SubAttemptEvent::Complete) => Ok(SubAttemptState::Completed),
        (SubAttemptState::Dispatching, SubAttemptEvent::Fail) => Ok(SubAttemptState::Failed),
        (SubAttemptState::Dispatching, SubAttemptEvent::Crash) => Ok(SubAttemptState::Ambiguous),
        (SubAttemptState::Prepared, _) | (SubAttemptState::Dispatching, _) => Err(
            CallTransitionError::OutOfOrder { state: s, event: e },
        ),
        _ => Err(CallTransitionError::AlreadyTerminal { state: s }),
    }
}

impl SubAttemptState {
    /// The name of the state.
    pub open spec fn name(self) -> Seq<char> {
        match self {
            SubAttemptState::Prepared => "prepared"@,
            SubAttemptState::Dispatching => "dispatching"@,
            SubAttemptState::Completed => "completed"@,
            SubAttemptState::Failed => "failed"@,
            SubAttemptState::Ambiguous => "ambiguous"@,
        }
    }

    /// The name of the state.
    pub fn as_str(&self) -> (s: &'static str)
        ensures
            s@ == self.name(),
    {
        match self {
            SubAttemptState::Prepared => "prepared",
            SubAttemptState::Dispatching => "dispatching",
            SubAttemptState::Completed => "completed",
            SubAttemptState::Failed => "failed",
            SubAttemptState::Ambiguous => "ambiguous",
        }
    }
}

/// A call that is over stays as it is, whatever happens.
pub proof fn finished_calls_stay(s: SubAttemptState, e: SubAttemptEvent)
    requires
        s is Completed || s is Failed || s is Ambiguous,
    ensures
        next_call_state(s, e) is Err,
{
}

} // verus!
