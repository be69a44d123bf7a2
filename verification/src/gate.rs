//! Every output of a worker passes here: only what the work order granted is let out.
use crate::authority::{CapabilityComponent, CapabilityVector, Grant, GrantView};
use crate::authority;
use crate::table::Record;
use crate::table;
use crate::text::same_text;
use crate::text;
use vstd::prelude::*;

verus! {

/// The channel of an output. Each needs a capability of its own.
#[derive(Debug, Clone, Copy, PartialEq, Eq, Structural)]
pub enum OutputChannel {
    /// A response to the requester.
    Response,
    /// An exported artifact.
    Artifact,
}

/// The capability that a channel needs.
pub open spec fn capability_for(channel: OutputChannel) -> CapabilityComponent {
    match channel {
        OutputChannel::Response => CapabilityComponent::Respond,
        OutputChannel::Artifact => CapabilityComponent::ArtifactExport,
    }
}

impl OutputChannel {
    fn component(self) -> (c: CapabilityComponent)
        ensures
            c == capability_for(self),
    {
        match self {
            OutputChannel::Response => CapabilityComponent::Respond,
            OutputChannel::Artifact => CapabilityComponent::ArtifactExport,
        }
    }
}

/// An output that a worker proposes, as far as it is looked at here.
#[derive(Debug, Clone, PartialEq, Eq)]
pub struct ProposedOutput {
    pub channel: OutputChannel,
    pub recipient: String,
    pub media_type: String,
    pub bytes: u64,
}

/// The view of [`ProposedOutput`].
#[verifier::ext_equal]
pub struct ProposedOutputView {
    pub channel: OutputChannel,
    pub recipient: Seq<char>,
    pub media_type: Seq<char>,
    pub bytes: u64,
}

impl View for ProposedOutput {
    type V = ProposedOutputView;

    open spec fn view(&self) -> ProposedOutputView {
        ProposedOutputView {
            channel: self.channel,
            recipient: self.recipient@,
            media_type: self.media_type@,
            bytes: self.bytes,
        }
    }
}

impl Record for ProposedOutput {
    fn dup(&self) -> (r: Self) {
        let r = ProposedOutput {
            channel: self.channel,
            recipient: self.recipient.clone(),
            media_type: self.media_type.clone(),
            bytes: self.bytes,
        };
        r
    }
}


/// Why an output is not let out.
#[derive(Debug, Clone, PartialEq, Eq)]
#[allow(inconsistent_fields)]
pub enum GateReject {
    /// Its channel is not granted.
    NoGrant(CapabilityComponent),
    /// It goes to someone else than the granted recipient.
    Recipient { allowed: String, got: String },
    /// Its media type is not granted.
    MediaType { got: String },
    /// It is larger than the granted budget.
    Size { max: u64, got: u64 },
    /// It is one more than was granted.
    Count { max: u32 },
}

/// The view of [`GateReject`].
#[allow(inconsistent_fields)]
pub enum GateRejectView {
    NoGrant(CapabilityComponent),
    Recipient { allowed: Seq<char>, got: Seq<char> },
    MediaType { got: Seq<char> },
    Size { max: u64, got: u64 },
    Count { max: u32 },
}

impl View for GateReject {
    type V = GateRejectView;

    open spec fn view(&self) -> GateRejectView {
        match self {
            GateReject::NoGrant(c) => GateRejectView::NoGrant(*c),
            GateReject::Recipient { allowed, got } => GateRejectView::Recipient {
                allowed: allowed@,
                got: got@,
            },
            GateReject::MediaType { got } => GateRejectView::MediaType { got: got@ },
            GateReject::Size { max, got } => GateRejectView::Size { max: *max, got: *got },
            GateReject::Count { max } => GateRejectView::Count { max: *max },
        }
    }
}

/// The first output that is not let out, and why.
#[derive(Debug, Clone, PartialEq, Eq)]
pub struct GateError {
    pub index: usize,
    pub reason: GateReject,
}

/// How many of the outputs are on a channel.
pub open spec fn on_channel(outputs: Seq<ProposedOutputView>, channel: OutputChannel) -> nat
    decreases outputs.len(),
{
    if outputs.len() == 0 {
        0
    } else {
        on_channel(outputs.drop_last(), channel) + if outputs.last().channel == channel {
            1nat
        } else {
            0
        }
    }
}

/// Why the output at `i` is not let out, if it is not: its channel must be granted,
/// its recipient the granted one, the media type of an artifact among those granted,
/// its size within the budget, and the outputs on its channel so far, with itself,
/// no more than the granted number.
pub open spec fn rejection(
    grants: Seq<GrantView>,
    outputs: Seq<ProposedOutputView>,
    i: int,
) -> Option<GateRejectView> {
    let out = outputs[i];
    let nth = on_channel(outputs.take(i + 1), out.channel);
    match (out.channel, authority::grant_of(grants, capability_for(out.channel))) {
        (OutputChannel::Response, Some(GrantView::Respond(scope))) => if out.recipient
            != scope.recipient {
            Some(GateRejectView::Recipient { allowed: scope.recipient, got: out.recipient })
        } else if out.bytes > scope.max_bytes {
            Some(GateRejectView::Size { max: scope.max_bytes, got: out.bytes })
        } else if nth > scope.max_responses {
            Some(GateRejectView::Count { max: scope.max_responses })
        } else {
            None
        },
        (OutputChannel::Artifact, Some(GrantView::ArtifactExport(scope))) => if out.recipient
            != scope.recipient {
            Some(GateRejectView::Recipient { allowed: scope.recipient, got: out.recipient })
        } else if !scope.media_types.contains(out.media_type) {
            Some(GateRejectView::MediaType { got: out.media_type })
        } else if out.bytes > scope.max_bytes {
            Some(GateRejectView::Size { max: scope.max_bytes, got: out.bytes })
        } else if nth > scope.max_count {
            Some(GateRejectView::Count { max: scope.max_count })
        } else {
            None
        },
        _ => Some(GateRejectView::NoGrant(capability_for(out.channel))),
    }
}

fn refused(index: usize, reason: GateReject) -> (r: Result<(), GateError>)
    ensures
        match r {
            Ok(()) => false,
            Err(e) => e.index == index && e.reason@ == reason@,
        },
{
    Err(GateError { index, reason })
}

fn has_media_type(media_types: &Vec<String>, media_type: &String) -> (r: bool)
    ensures
        r == text::views(media_types@).contains(media_type@),
{
    let ghost all = text::views(media_types@);
    let mut i: usize = 0;
    while i < media_types.len()
        invariant
            all == text::views(media_types@),
            i <= all.len(),
            forall|j: int| 0 <= j < i ==> (#[trigger] all[j]) != media_type@,
        decreases all.len() - i,
    {
        assert(all[i as int] == media_types@[i as int]@);
        if same_text(&media_types[i], media_type) {
            return true;
        }
        i = i + 1;
    }
    false
}

/// Holds a batch of outputs to the granted capabilities. All of them pass, or the
/// first that does not is named, with the reason.
pub fn gate_outputs(vector: &CapabilityVector, outputs: &[ProposedOutput]) -> (r: Result<
    (),
    GateError,
>)
    ensures
        match r {
            Ok(()) => forall|i: int|
                0 <= i < outputs@.len() ==> (#[trigger] rejection(
                    vector@.grants,
                    table::seen(outputs@),
                    i,
                )) is None,
            Err(e) => e.index < outputs@.len() && rejection(
                vector@.grants,
                table::seen(outputs@),
                e.index as int,
            ) == Some(e.reason@) && forall|i: int|
                0 <= i < e.index ==> (#[trigger] rejection(
                    vector@.grants,
                    table::seen(outputs@),
                    i,
                )) is None,
        },
{
    let ghost all = table::seen(outputs@);
    let mut responses: u32 = 0;
    let mut artifacts: u32 = 0;
    let mut index: usize = 0;
    while index < outputs.len()
        invariant
            all == table::seen(outputs@),
            index <= all.len(),
            responses == on_channel(all.take(index as int), OutputChannel::Response),
            artifacts == on_channel(all.take(index as int), OutputChannel::Artifact),
            forall|i: int|
                0 <= i < index ==> (#[trigger] rejection(vector@.grants, all, i)) is None,
        decreases all.len() - index,
    {
        let out = &outputs[index];
        proof {
            let more = all.take(index + 1);
            assert(more.drop_last() =~= all.take(index as int));
            assert(more.last() == all[index as int]);
            assert(all[index as int] == out@);
        }
        let component = out.channel.component();
        match (out.channel, vector.grant(component)) {
            (OutputChannel::Response, Some(Grant::Respond(scope))) => {
                if !same_text(&out.recipient, &scope.recipient) {
                    return refused(
                        index,
                        GateReject::Recipient {
                            allowed: scope.recipient.clone(),
                            got: out.recipient.clone(),
                        },
                    );
                }
                if out.bytes > scope.max_bytes {
                    return refused(
                        index,
                        GateReject::Size { max: scope.max_bytes, got: out.bytes },
                    );
                }
                if responses >= scope.max_responses {
                    return refused(index, GateReject::Count { max: scope.max_responses });
                }
                responses = responses + 1;
            },
            (OutputChannel::Artifact, Some(Grant::ArtifactExport(scope))) => {
                if !same_text(&out.recipient, &scope.recipient) {
                    return refused(
                        index,
                        GateReject::Recipient {
                            allowed: scope.recipient.clone(),
                            got: out.recipient.clone(),
                        },
                    );
                }
                if !has_media_type(&scope.media_types, &out.media_type) {
                    return refused(index, GateReject::MediaType { got: out.media_type.clone() });
                }
                if out.bytes > scope.max_bytes {
                    return refused(
                        index,
                        GateReject::Size { max: scope.max_bytes, got: out.bytes },
                    );
                }
                if artifacts >= scope.max_count {
                    return refused(index, GateReject::Count { max: scope.max_count });
                }
                artifacts = artifacts + 1;
            },
            _ => {
                return refused(index, GateReject::NoGrant(component));
            },
        }
        index = index + 1;
    }
    Ok(())
}

/// The responses that pass are no more than the grant allows, and without the grant
/// there are none; so it is with artifacts.
pub proof fn the_gate_keeps_the_granted_numbers(
    grants: Seq<GrantView>,
    outputs: Seq<ProposedOutputView>,
)
    requires
        forall|i: int|
            0 <= i < outputs.len() ==> (#[trigger] rejection(grants, outputs, i)) is None,
    ensures
        match authority::grant_of(grants, CapabilityComponent::Respond) {
            Some(GrantView::Respond(scope)) => on_channel(outputs, OutputChannel::Response)
                <= scope.max_responses,
            _ => on_channel(outputs, OutputChannel::Response) == 0,
        },
        match authority::grant_of(grants, CapabilityComponent::ArtifactExport) {
            Some(GrantView::ArtifactExport(scope)) => on_channel(outputs, OutputChannel::Artifact)
                <= scope.max_count,
            _ => on_channel(outputs, OutputChannel::Artifact) == 0,
        },
    decreases outputs.len(),
{
    if outputs.len() > 0 {
        let less = outputs.drop_last();
        let last = outputs.len() - 1;
        assert forall|i: int| 0 <= i < less.len() implies (#[trigger] rejection(
            grants,
            less,
            i,
        )) is None by {
            assert(less.take(i + 1) =~= outputs.take(i + 1));
            assert(rejection(grants, outputs, i) is None);
        }
        the_gate_keeps_the_granted_numbers(grants, less);
        assert(rejection(grants, outputs, last) is None);
        assert(outputs.take(last + 1) =~= outputs);
    }
}

/// What passes goes to the granted recipient and is within the granted size.
pub proof fn the_gate_keeps_recipients_and_sizes(
    grants: Seq<GrantView>,
    outputs: Seq<ProposedOutputView>,
    i: int,
)
    requires
        0 <= i < outputs.len(),
        rejection(grants, outputs, i) is None,
    ensures
        match authority::grant_of(grants, capability_for(outputs[i].channel)) {
            Some(GrantView::Respond(scope)) => outputs[i].recipient == scope.recipient
                && outputs[i].bytes <= scope.max_bytes,
            Some(GrantView::ArtifactExport(scope)) => outputs[i].recipient == scope.recipient
                && outputs[i].bytes <= scope.max_bytes && scope.media_types.contains(
                outputs[i].media_type,
            ),
            _ => false,
        },
{
}

} // verus!
