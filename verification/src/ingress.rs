//! What every authenticated request passes before any operation runs: the gates of
//! the profile, in a fixed order, and then the question whether it was seen before.
//!
//! The media type comes first, then the version, then the digest of the body, then
//! the required extensions. A request that fails one of them is never looked up.
use crate::delivery::{
    CoveredValues, CoveredValuesView, DeliveryError, body_digest, content_digest,
    verify_content_digest,
};
use crate::delivery;
use crate::store::inbox::{Receipt, ReceiptView};
use crate::store::inbox;
use crate::store::{Store, StoreError, StoreView};
use crate::text::{chars_of, media_essence, same_ignoring_case, same_text};
use crate::text;
use vstd::prelude::*;

verus! {

/// The media type of a message.
pub const A2A_MEDIA_TYPE: &'static str = "application/a2a+json";

/// The protocol version that is spoken.
pub const A2A_VERSION: &'static str = "1.0";

/// What is taken from an authenticated request. The peer is the one that was
/// authenticated, not a claim of the body.
#[derive(Debug)]
pub struct Ingress<'a> {
    pub peer: &'a str,
    pub method: &'a str,
    pub content_type: &'a str,
    pub a2a_version: Option<&'a str>,
    pub content_digest: Option<&'a str>,
    pub activated_extensions: &'a [String],
    pub interface_url: &'a str,
    pub tenant: Option<&'a str>,
    pub message_id: &'a str,
    pub body: &'a [u8],
}

/// What comes of a request.
#[derive(Debug)]
pub enum Admit {
    /// It passed every gate and was not seen before. Process it, then record it
    /// under these values before the response leaves.
    Accept(CoveredValues),
    /// A replay: the saved response and task stand.
    Duplicate { task_id: Option<String>, response: Vec<u8> },
    /// The same peer and message id with another value. Nothing happens.
    Conflict,
    /// A gate refused it.
    Rejected(Reject),
}

/// Why a gate refuses a request.
#[derive(Debug)]
pub enum Reject {
    /// The media type is another.
    UnsupportedMediaType,
    /// The version is missing or another.
    BadA2aVersion(String),
    /// The digest of the body is missing, repeated, wrong or of another algorithm.
    ContentDigest(DeliveryError),
    /// Required extensions that were not activated.
    MissingRequiredExtensions(Vec<String>),
}

/// The view of [`Reject`].
pub enum RejectView {
    UnsupportedMediaType,
    BadA2aVersion(Seq<char>),
    ContentDigest(DeliveryError),
    MissingRequiredExtensions(Seq<Seq<char>>),
}

impl View for Reject {
    type V = RejectView;

    open spec fn view(&self) -> RejectView {
        match self {
            Reject::UnsupportedMediaType => RejectView::UnsupportedMediaType,
            Reject::BadA2aVersion(v) => RejectView::BadA2aVersion(v@),
            Reject::ContentDigest(e) => RejectView::ContentDigest(*e),
            Reject::MissingRequiredExtensions(m) => RejectView::MissingRequiredExtensions(
                text::views(m@),
            ),
        }
    }
}

/// An optional text, empty where it is absent.
pub open spec fn or_empty(value: Option<&str>) -> Seq<char> {
    match value {
        Some(s) => s@,
        None => Seq::empty(),
    }
}

/// The required extensions that a request did not activate, in their order.
pub open spec fn missing(required: Seq<Seq<char>>, activated: Seq<Seq<char>>) -> Seq<Seq<char>> {
    required.filter(|r: Seq<char>| !activated.contains(r))
}

/// Which of the gates refuses a request, if one does.
pub open spec fn refusal(required: Seq<Seq<char>>, req: Ingress<'_>) -> Option<RejectView> {
    if text::lowered(text::essence(req.content_type@)) != text::lowered(A2A_MEDIA_TYPE@) {
        Some(RejectView::UnsupportedMediaType)
    } else if text::view_str(req.a2a_version) != Some(A2A_VERSION@) {
        Some(RejectView::BadA2aVersion(or_empty(req.a2a_version)))
    } else {
        match delivery::digest_verdict(or_empty(req.content_digest), req.body@) {
            Err(e) => Some(RejectView::ContentDigest(e)),
            Ok(()) => {
                let absent = missing(required, text::views(req.activated_extensions@));
                if absent.len() > 0 {
                    Some(RejectView::MissingRequiredExtensions(absent))
                } else {
                    None
                }
            },
        }
    }
}

/// The values of a request that decide whether another is the same.
pub open spec fn covers(c: CoveredValuesView, req: Ingress<'_>) -> bool {
    &&& c.peer == req.peer@
    &&& c.message_id == req.message_id@
    &&& c.body_digest == delivery::body_digest_of(req.body@)
    &&& c.interface_url == req.interface_url@
    &&& c.tenant == text::view_str(req.tenant)
    &&& c.a2a_version == A2A_VERSION@
    &&& delivery::is_normal_form(c.extensions, text::views(req.activated_extensions@))
    &&& c.content_type == req.content_type@
    &&& c.http_method == req.method@
}

/// What comes of a request that no gate refuses, given what the store knows of it.
pub open spec fn admitted(a: Admit, v: StoreView, c: CoveredValuesView) -> bool {
    match inbox::receipt_of(v, c) {
        ReceiptView::Fresh => match a {
            Admit::Accept(covered) => covered@ == c,
            _ => false,
        },
        ReceiptView::Duplicate { task_id, response } => match a {
            Admit::Duplicate { task_id: t, response: r } => text::view_option(t) == task_id && r@
                == response,
            _ => false,
        },
        ReceiptView::Conflict => a is Conflict,
    }
}

fn text_or_empty(value: Option<&str>) -> (s: String)
    ensures
        s@ == or_empty(value),
{
    match value {
        Some(s) => s.to_owned(),
        None => {
            let s = String::new();
            assert(s@ =~= Seq::<char>::empty());
            s
        },
    }
}

/// Whether a media type is the expected one, whatever its parameters and its case.
fn media_type_matches(header: &str, expected: &str) -> (r: bool)
    ensures
        r == (text::lowered(text::essence(header@)) == text::lowered(expected@)),
{
    same_ignoring_case(&media_essence(header), &chars_of(expected))
}

fn is_among(list: &[String], text: &String) -> (r: bool)
    ensures
        r == text::views(list@).contains(text@),
{
    let ghost all = text::views(list@);
    let mut i: usize = 0;
    while i < list.len()
        invariant
            all == text::views(list@),
            i <= all.len(),
            forall|j: int| 0 <= j < i ==> (#[trigger] all[j]) != text@,
        decreases all.len() - i,
    {
        assert(all[i as int] == list@[i as int]@);
        if same_text(&list[i], text) {
            return true;
        }
        i = i + 1;
    }
    false
}

fn missing_extensions(required: &[String], activated: &[String]) -> (r: Vec<String>)
    ensures
        text::views(r@) == missing(text::views(required@), text::views(activated@)),
{
    let ghost all = text::views(required@);
    let ghost absent = |r: Seq<char>| !text::views(activated@).contains(r);
    let mut r: Vec<String> = Vec::new();
    let mut i: usize = 0;
    proof {
        reveal(Seq::filter);
        assert(text::views(r@) =~= all.take(0).filter(absent));
    }
    while i < required.len()
        invariant
            all == text::views(required@),
            absent == (|r: Seq<char>| !text::views(activated@).contains(r)),
            i <= all.len(),
            text::views(r@) == all.take(i as int).filter(absent),
        decreases all.len() - i,
    {
        let ghost had = text::views(r@);
        proof {
            reveal(Seq::filter);
            assert(all.take(i + 1).drop_last() =~= all.take(i as int));
            assert(all.take(i + 1).last() == required@[i as int]@);
        }
        if !is_among(activated, &required[i]) {
            r.push(required[i].clone());
            assert(text::views(r@) =~= had.push(required@[i as int]@));
        }
        i = i + 1;
    }
    assert(all.take(i as int) =~= all);
    r
}

fn copies(list: &[String]) -> (r: Vec<String>)
    ensures
        text::views(r@) == text::views(list@),
{
    let mut r: Vec<String> = Vec::new();
    let mut i: usize = 0;
    while i < list.len()
        invariant
            i <= list@.len(),
            r@.len() == i,
            forall|j: int| 0 <= j < i ==> r@[j]@ == list@[j]@,
        decreases list@.len() - i,
    {
        r.push(list[i].clone());
        i = i + 1;
    }
    assert(text::views(r@) =~= text::views(list@));
    r
}

/// Puts a request through the gates, and asks whether it was seen before. Nothing
/// is recorded.
pub fn admit_request(store: &Store, required_extensions: &[String], req: &Ingress<'_>) -> (r: Result<
    Admit,
    StoreError,
>)
    requires
        store.wf(),
    ensures
        match r {
            Ok(Admit::Rejected(reject)) => refusal(text::views(required_extensions@), *req) == Some(
                reject@,
            ),
            Ok(a) => refusal(text::views(required_extensions@), *req) is None && forall|
                c: CoveredValuesView,
            |
                covers(c, *req) ==> #[trigger] admitted(a, store@, c),
            Err(_) => false,
        },
        match r {
            Ok(Admit::Accept(covered)) => covers(covered@, *req),
            _ => true,
        },
{
    if !media_type_matches(req.content_type, A2A_MEDIA_TYPE) {
        return Ok(Admit::Rejected(Reject::UnsupportedMediaType));
    }
    let version_fits = match req.a2a_version {
        Some(v) => same_text(v, A2A_VERSION),
        None => false,
    };
    if !version_fits {
        return Ok(Admit::Rejected(Reject::BadA2aVersion(text_or_empty(req.a2a_version))));
    }
    match verify_content_digest(&text_or_empty(req.content_digest), req.body) {
        Err(e) => {
            return Ok(Admit::Rejected(Reject::ContentDigest(e)));
        },
        Ok(()) => {},
    }
    let absent = missing_extensions(required_extensions, req.activated_extensions);
    assert(text::views(absent@).len() == absent@.len());
    if absent.len() > 0 {
        return Ok(Admit::Rejected(Reject::MissingRequiredExtensions(absent)));
    }
    let covered = CoveredValues {
        peer: req.peer.to_owned(),
        message_id: req.message_id.to_owned(),
        body_digest: body_digest(req.body),
        interface_url: req.interface_url.to_owned(),
        tenant: match req.tenant {
            Some(t) => Some(t.to_owned()),
            None => None,
        },
        a2a_version: A2A_VERSION.to_owned(),
        extensions: copies(req.activated_extensions),
        content_type: req.content_type.to_owned(),
        http_method: req.method.to_owned(),
    }.normalized();
    proof {
        assert(covers(covered@, *req));
        assert forall|c: CoveredValuesView| covers(c, *req) implies c == covered@ by {
            delivery::normal_form_is_unique(c.extensions, covered@.extensions);
            assert(c =~= covered@);
        }
    }
    match store.peek(&covered) {
        Ok(Receipt::Fresh) => Ok(Admit::Accept(covered)),
        Ok(Receipt::Duplicate { task_id, response }) => Ok(Admit::Duplicate { task_id, response }),
        Ok(Receipt::Conflict) => Ok(Admit::Conflict),
        Err(e) => Err(e),
    }
}

/// A request whose body is not the one that its digest was taken of is refused, and
/// so is one of another media type or version, whatever the store holds.
pub proof fn gates_come_before_the_store(required: Seq<Seq<char>>, req: Ingress<'_>)
    ensures
        text::lowered(text::essence(req.content_type@)) != text::lowered(A2A_MEDIA_TYPE@) ==> refusal(
            required,
            req,
        ) is Some,
        text::view_str(req.a2a_version) != Some(A2A_VERSION@) ==> refusal(required, req) is Some,
        delivery::digest_verdict(or_empty(req.content_digest), req.body@) is Err ==> refusal(
            required,
            req,
        ) is Some,
        (exists|i: int|
            0 <= i < required.len() && !text::views(req.activated_extensions@).contains(
                #[trigger] required[i],
            )) ==> refusal(required, req) is Some,
{
    let activated = text::views(req.activated_extensions@);
    if exists|i: int| 0 <= i < required.len() && !activated.contains(#[trigger] required[i]) {
        let i = choose|i: int| 0 <= i < required.len() && !activated.contains(#[trigger] required[i]);
        let absent = |r: Seq<char>| !activated.contains(r);
        required.lemma_filter_contains(absent, i);
        assert(missing(required, activated).len() > 0);
    }
}

/// The order in which a request lists its extensions is no part of its identity:
/// two requests that differ in nothing else are the same to the store.
pub proof fn extension_order_does_not_matter(
    a: CoveredValuesView,
    b: CoveredValuesView,
    one: Ingress<'_>,
    other: Ingress<'_>,
)
    requires
        covers(a, one),
        covers(b, other),
        one.peer@ == other.peer@,
        one.message_id@ == other.message_id@,
        one.body@ == other.body@,
        one.interface_url@ == other.interface_url@,
        text::view_str(one.tenant) == text::view_str(other.tenant),
        one.content_type@ == other.content_type@,
        one.method@ == other.method@,
        forall|x: Seq<char>| #[trigger]
            text::views(one.activated_extensions@).contains(x) <==> text::views(
                other.activated_extensions@,
            ).contains(x),
    ensures
        a == b,
{
    assert forall|x: Seq<char>| #[trigger] a.extensions.contains(x) <==> b.extensions.contains(
        x,
    ) by {
        assert(a.extensions.contains(x) <==> text::views(one.activated_extensions@).contains(x));
    }
    delivery::normal_form_is_unique(a.extensions, b.extensions);
    assert(a =~= b);
}

} // verus!
