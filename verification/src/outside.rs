//! What the endpoint has from outside crates: digests, encodings, canonical
//! JSON, URLs and calendar time. Each function here makes one outside call, and
//! its contract is believed.
use base64::Engine;
use hmac::Mac;
use sha2::Digest;
use vstd::prelude::*;
use vstd::utf8::*;

verus! {

/// The SHA-256 digest of a byte string.
pub uninterp spec fn sha256_of(data: Seq<u8>) -> Seq<u8>;

/// Calls `sha2::Sha256::digest`. The result is the 32-byte SHA-256 digest of
/// `data`, a function of the bytes alone.
#[verifier::external_body]
pub(crate) fn sha256(data: &[u8]) -> (digest: Vec<u8>)
    ensures
        digest@ == sha256_of(data@),
        digest@.len() == 32,
{
    sha2::Sha256::digest(data).to_vec()
}

/// The HMAC-SHA-256 tag of a byte string under a key.
pub uninterp spec fn hmac_sha256_of(key: Seq<u8>, data: Seq<u8>) -> Seq<u8>;

/// Calls `hmac::Hmac::<Sha256>` on `key` and `data`. HMAC takes a key of any
/// length, so the constructor does not fail. The result is the 32-byte tag, a
/// function of the key and the bytes alone.
#[verifier::external_body]
pub(crate) fn hmac_sha256(key: &[u8], data: &[u8]) -> (tag: Vec<u8>)
    ensures
        tag@ == hmac_sha256_of(key@, data@),
        tag@.len() == 32,
{
    let mut mac = <hmac::Hmac<sha2::Sha256>>::new_from_slice(key).expect("HMAC takes any key");
    mac.update(data);
    mac.finalize().into_bytes().to_vec()
}

/// A byte string in standard base64, with padding.
pub uninterp spec fn base64_of(data: Seq<u8>) -> Seq<char>;

/// What a standard base64 text denotes; `None` for a text that is not one.
pub uninterp spec fn base64_value(text: Seq<char>) -> Option<Seq<u8>>;

/// Calls `base64::engine::general_purpose::STANDARD.encode`, which panics only
/// where the length of the result overflows. The result is ASCII without a
/// colon, comma or white space, and decodes to the bytes it was made from.
#[verifier::external_body]
pub(crate) fn base64_encode(data: &[u8]) -> (text: String)
    requires
        data@.len() <= usize::MAX / 4,
    ensures
        text@ == base64_of(data@),
        base64_value(text@) == Some(data@),
        is_ascii_chars(text@),
        forall|i: int|
            0 <= i < text@.len() ==> (#[trigger] text@[i]) != ':' && text@[i] != ','
                && !crate::text::is_white_space(text@[i]),
{
    base64::engine::general_purpose::STANDARD.encode(data)
}

/// Calls `base64::engine::general_purpose::STANDARD.decode`. It accepts a text
/// or refuses it by the text alone.
#[verifier::external_body]
pub(crate) fn base64_decode(text: &str) -> (data: Option<Vec<u8>>)
    ensures
        match data {
            Some(bytes) => base64_value(text@) == Some(bytes@),
            None => base64_value(text@) is None,
        },
{
    base64::engine::general_purpose::STANDARD.decode(text).ok()
}

/// A byte string in URL-safe base64, without padding.
pub uninterp spec fn base64url_of(data: Seq<u8>) -> Seq<char>;

/// What a URL-safe base64 text without padding denotes; `None` for a text that
/// is not one.
pub uninterp spec fn base64url_value(text: Seq<char>) -> Option<Seq<u8>>;

/// Calls `base64::engine::general_purpose::URL_SAFE_NO_PAD.encode`, which panics
/// only where the length of the result overflows. The result decodes to the
/// bytes it was made from.
#[verifier::external_body]
pub(crate) fn base64url_encode(data: &[u8]) -> (text: String)
    requires
        data@.len() <= usize::MAX / 4,
    ensures
        text@ == base64url_of(data@),
        base64url_value(text@) == Some(data@),
{
    base64::engine::general_purpose::URL_SAFE_NO_PAD.encode(data)
}

/// Calls `base64::engine::general_purpose::URL_SAFE_NO_PAD.decode`. It accepts a
/// text or refuses it by the text alone. A text that `encode` gives for some bytes is
/// decoded to those bytes.
#[verifier::external_body]
pub(crate) fn base64url_decode(text: &str) -> (data: Option<Vec<u8>>)
    ensures
        match data {
            Some(bytes) => base64url_value(text@) == Some(bytes@),
            None => base64url_value(text@) is None,
        },
        forall|bytes: Seq<u8>|
            #[trigger] base64url_of(bytes) == text@ && bytes.len() <= usize::MAX / 4 ==> (
            match data {
                Some(d) => d@ == bytes,
                None => false,
            }),
{
    base64::engine::general_purpose::URL_SAFE_NO_PAD.decode(text).ok()
}

/// Calls `String::from_utf8`. It gives the text that the bytes encode, and
/// refuses exactly the bytes that are not UTF-8.
#[verifier::external_body]
pub(crate) fn utf8_text(bytes: Vec<u8>) -> (text: Option<String>)
    ensures
        match text {
            Some(s) => valid_utf8(bytes@) && s@ == decode_utf8(bytes@),
            None => !valid_utf8(bytes@),
        },
{
    String::from_utf8(bytes).ok()
}

/// The text of a byte string, with what is not UTF-8 replaced.
pub uninterp spec fn lossy_utf8_of(bytes: Seq<u8>) -> Seq<char>;

/// Calls `String::from_utf8_lossy`. Bytes that are UTF-8 give the text that they
/// encode. For others the result holds replacement characters, and depends on the
/// bytes alone.
#[verifier::external_body]
pub(crate) fn lossy_text(bytes: &[u8]) -> (text: String)
    ensures
        text@ == lossy_utf8_of(bytes@),
        valid_utf8(bytes@) ==> text@ == decode_utf8(bytes@),
{
    String::from_utf8_lossy(bytes).into_owned()
}

/// A text as `std::fmt::Debug` writes it: in quotes, with escapes.
pub uninterp spec fn quoted(text: Seq<char>) -> Seq<char>;

/// Calls the `Debug` formatting of `str`. The result depends on the text alone.
#[verifier::external_body]
pub(crate) fn debug_quote(text: &str) -> (r: String)
    ensures
        r@ == quoted(text@),
{
    format!("{text:?}")
}

/// The declaration of `serde_json::Value`.
#[verifier::external_type_specification]
#[verifier::external_body]
pub struct ExValue(serde_json::Value);

/// The declaration of `serde_json::Map`.
#[verifier::external_type_specification]
#[verifier::external_body]
#[verifier::reject_recursive_types(K)]
#[verifier::reject_recursive_types(V)]
pub struct ExMap<K, V>(serde_json::Map<K, V>);

/// The value of one member of a JSON object.
pub enum Member {
    /// A string.
    Text(Seq<char>),
    /// An array of strings.
    Texts(Seq<Seq<char>>),
    /// Any other value, in its JSON notation.
    Other(Seq<char>),
}

/// No member at all.
pub open spec fn no_members() -> Map<Seq<char>, Member> {
    Map::empty()
}

/// The members that a JSON object holds.
pub uninterp spec fn members(object: serde_json::Map<String, serde_json::Value>) -> Map<
    Seq<char>,
    Member,
>;

/// Calls `serde_json::Map::new`: an object without members.
#[verifier::external_body]
pub(crate) fn json_object() -> (object: serde_json::Map<String, serde_json::Value>)
    ensures
        members(object) == no_members(),
{
    serde_json::Map::new()
}

/// Calls `serde_json::Map::insert` with a JSON string: the object then holds it
/// under `name`, in place of what it held there, and the other members as before.
#[verifier::external_body]
pub(crate) fn json_insert_text(
    object: &mut serde_json::Map<String, serde_json::Value>,
    name: &str,
    value: &str,
)
    ensures
        members(*final(object)) == members(*old(object)).insert(name@, Member::Text(value@)),
{
    object.insert(name.to_owned(), serde_json::Value::from(value));
}

/// Calls `serde_json::Map::insert` with a JSON array of strings: the object then
/// holds it under `name`, in place of what it held there, and the other members
/// as before.
#[verifier::external_body]
pub(crate) fn json_insert_texts(
    object: &mut serde_json::Map<String, serde_json::Value>,
    name: &str,
    values: Vec<String>,
)
    ensures
        members(*final(object)) == members(*old(object)).insert(
            name@,
            Member::Texts(crate::text::views(values@)),
        ),
{
    object.insert(name.to_owned(), serde_json::Value::from(values));
}

/// The canonical JSON (RFC 8785) of an object with the given members; `None`
/// where there is none.
pub uninterp spec fn canonical_json(members: Map<Seq<char>, Member>) -> Option<Seq<u8>>;

/// No member is anything but a string or an array of strings.
pub open spec fn only_texts(members: Map<Seq<char>, Member>) -> bool {
    forall|k: Seq<char>| #[trigger] members.contains_key(k) ==> !(members[k] is Other)
}

/// Calls `json_canon::to_vec` on an object whose members are strings and arrays of
/// strings: it has a canonical form. The form depends on the members alone, not on the
/// order in which they came into the object. It is JSON, so it is not empty, and no
/// other members of that kind have the same. Numbers and nested values are left out,
/// as it panics on some of them.
#[verifier::external_body]
pub(crate) fn json_canonical(object: &serde_json::Map<String, serde_json::Value>) -> (bytes: Option<
    Vec<u8>,
>)
    requires
        only_texts(members(*object)),
    ensures
        match bytes {
            Some(b) => canonical_json(members(*object)) == Some(b@),
            None => false,
        },
        bytes matches Some(b) ==> b@.len() > 0,
        bytes matches Some(b) ==> forall|m: Map<Seq<char>, Member>|
            m.dom().finite() && only_texts(m) && #[trigger] canonical_json(m) == Some(b@) ==> m
                == members(*object),
{
    json_canon::to_vec(object).ok()
}

/// The text that a JSON document, given as bytes, holds as a member of this name;
/// `None` where it is no document, no object, or holds no text there.
pub uninterp spec fn json_text_of(document: Seq<u8>, name: Seq<char>) -> Option<Seq<char>>;

/// Calls `serde_json::from_slice` and looks up one member of what it gives. The
/// result depends on the bytes and the name alone.
#[verifier::external_body]
pub(crate) fn json_text_member(document: &[u8], name: &str) -> (text: Option<String>)
    ensures
        crate::text::view_option(text) == json_text_of(document@, name@),
{
    let value = serde_json::from_slice::<serde_json::Value>(document).ok()?;
    value.get(name)?.as_str().map(str::to_owned)
}

/// The parts of a URL that the endpoint reads.
pub struct UrlParts {
    pub scheme: String,
    pub host: Option<String>,
    /// The port in the URL, or the one that its scheme is known for.
    pub port: Option<u16>,
    pub path: String,
}

/// The parts of a URL, as texts.
pub struct UrlPartsView {
    pub scheme: Seq<char>,
    pub host: Option<Seq<char>>,
    pub port: Option<u16>,
    pub path: Seq<char>,
}

impl View for UrlParts {
    type V = UrlPartsView;

    open spec fn view(&self) -> UrlPartsView {
        UrlPartsView {
            scheme: self.scheme@,
            host: crate::text::view_option(self.host),
            port: self.port,
            path: self.path@,
        }
    }
}

/// The parts of the URL that a text denotes; `None` for a text that is not one.
pub uninterp spec fn url_parts(text: Seq<char>) -> Option<UrlPartsView>;

/// Calls `url::Url::parse` and reads the scheme, host, port and path of the URL.
/// What it gives depends on the text alone.
#[verifier::external_body]
pub(crate) fn parse_url(text: &str) -> (parts: Option<UrlParts>)
    ensures
        match parts {
            Some(p) => url_parts(text@) == Some(p@),
            None => url_parts(text@) is None,
        },
{
    let url = url::Url::parse(text).ok()?;
    Some(UrlParts {
        scheme: url.scheme().to_owned(),
        host: url.host_str().map(str::to_owned),
        port: url.port_or_known_default(),
        path: url.path().to_owned(),
    })
}

/// The RFC 3339 notation, in UTC, of an instant in seconds since 1970; `None`
/// where the calendar has no such instant.
pub uninterp spec fn rfc3339_of(unix: int) -> Option<Seq<char>>;

/// Calls `time::OffsetDateTime::from_unix_timestamp` and formats what it gives
/// with `time::format_description::well_known::Rfc3339`. The result depends on
/// the number alone, and denotes the instant that it was made from.
#[verifier::external_body]
pub(crate) fn rfc3339(unix: i64) -> (text: Option<String>)
    ensures
        match text {
            Some(s) => rfc3339_of(unix as int) == Some(s@) && rfc3339_value(s@) == Some(unix),
            None => rfc3339_of(unix as int) is None,
        },
{
    let instant = time::OffsetDateTime::from_unix_timestamp(unix).ok()?;
    instant.format(&time::format_description::well_known::Rfc3339).ok()
}

/// The instant, in whole seconds since 1970, that an RFC 3339 text denotes;
/// `None` for a text that is not one.
pub uninterp spec fn rfc3339_value(text: Seq<char>) -> Option<i64>;

/// Calls `time::OffsetDateTime::parse` with
/// `time::format_description::well_known::Rfc3339` and takes the Unix timestamp
/// of what it gives. The result depends on the text alone.
#[verifier::external_body]
pub(crate) fn rfc3339_instant(text: &str) -> (unix: Option<i64>)
    ensures
        unix == rfc3339_value(text@),
{
    let format = time::format_description::well_known::Rfc3339;
    time::OffsetDateTime::parse(text, &format).ok().map(|t| t.unix_timestamp())
}

} // verus!
