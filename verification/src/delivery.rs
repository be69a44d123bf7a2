//! Delivery at least once, with effects at most once: the content digest of a
//! request, the values that make two requests the same, and how long a replay is
//! remembered.
use crate::outside::{
    Member, base64_decode, base64_encode, hmac_sha256, json_canonical, json_insert_text,
    json_insert_texts, json_object, sha256,
};
use crate::outside;
use crate::table::Record;
use crate::text::{
    chars_of, copy_option, copy_texts, find_first, is_before, same_bytes, same_chars, same_text,
    text_of, trim,
};
use crate::text;
use vstd::prelude::*;
use vstd::string::*;

verus! {

/// Why a content digest is refused.
#[derive(Debug, Clone, Copy, PartialEq, Eq, Structural)]
pub enum DeliveryError {
    /// There is none.
    Missing,
    /// There is more than one.
    NotSingle,
    /// It is not by SHA-256.
    Algorithm,
    /// It is not a byte sequence.
    Malformed,
    /// It is not that of the body.
    Mismatch,
}

/// What is said of a refused content digest.
pub open spec fn delivery_text(e: DeliveryError) -> Seq<char> {
    match e {
        DeliveryError::Missing => "Content-Digest is missing"@,
        DeliveryError::NotSingle => "Content-Digest must carry exactly one value"@,
        DeliveryError::Algorithm => "unsupported Content-Digest algorithm (only sha-256)"@,
        DeliveryError::Malformed => "malformed Content-Digest value"@,
        DeliveryError::Mismatch => "Content-Digest does not match the body"@,
    }
}

impl DeliveryError {
    /// What is said of it.
    pub fn message(&self) -> (s: String)
        ensures
            s@ == delivery_text(*self),
    {
        match self {
            DeliveryError::Missing => "Content-Digest is missing".to_owned(),
            DeliveryError::NotSingle => "Content-Digest must carry exactly one value".to_owned(),
            DeliveryError::Algorithm => {
                "unsupported Content-Digest algorithm (only sha-256)".to_owned()
            },
            DeliveryError::Malformed => "malformed Content-Digest value".to_owned(),
            DeliveryError::Mismatch => "Content-Digest does not match the body".to_owned(),
        }
    }
}

/// The base64 SHA-256 digest of a body.
pub open spec fn body_digest_of(body: Seq<u8>) -> Seq<char> {
    outside::base64_of(outside::sha256_of(body))
}

/// The `Content-Digest` field of a body.
pub open spec fn content_digest_of(body: Seq<u8>) -> Seq<char> {
    "sha-256=:"@ + body_digest_of(body) + ":"@
}

/// The base64 SHA-256 digest of `body`.
pub fn body_digest(body: &[u8]) -> (s: String)
    ensures
        s@ == body_digest_of(body@),
{
    let digest = sha256(body);
    base64_encode(&digest)
}

/// The `Content-Digest` field value of `body`: one `sha-256` entry.
pub fn content_digest(body: &[u8]) -> (s: String)
    ensures
        s@ == content_digest_of(body@),
        digest_verdict(s@, body@) == Ok::<(), DeliveryError>(()),
{
    let digest = sha256(body);
    let encoded = base64_encode(&digest);
    let s = "sha-256=:".to_owned().concat(&encoded).concat(":");
    proof {
        lemma_own_digest_verifies(body@, encoded@, s@);
    }
    s
}

/// What a received `Content-Digest` field is worth against a body.
pub open spec fn digest_verdict(header: Seq<char>, body: Seq<u8>) -> Result<(), DeliveryError> {
    let h = text::trimmed(header);
    let at = text::first_of(h, '=');
    let value = text::trimmed(h.skip(at + 1));
    if h.len() == 0 {
        Err(DeliveryError::Missing)
    } else if h.contains(',') {
        Err(DeliveryError::NotSingle)
    } else if at == h.len() {
        Err(DeliveryError::Malformed)
    } else if text::trimmed(h.take(at)) != "sha-256"@ {
        Err(DeliveryError::Algorithm)
    } else if value.len() < 2 || value[0] != ':' || value.last() != ':' {
        Err(DeliveryError::Malformed)
    } else {
        match outside::base64_value(value.subrange(1, value.len() - 1)) {
            None => Err(DeliveryError::Malformed),
            Some(bytes) => if bytes != outside::sha256_of(body) {
                Err(DeliveryError::Mismatch)
            } else {
                Ok(())
            },
        }
    }
}

/// Checks a received `Content-Digest` field against `body`: it passes only where
/// it is one `sha-256` value, and the body's own.
pub fn verify_content_digest(header: &str, body: &[u8]) -> (r: Result<(), DeliveryError>)
    ensures
        r == digest_verdict(header@, body@),
{
    let all = chars_of(header);
    let h = trim(&all, 0, all.len());
    assert(all@.subrange(0, all@.len() as int) =~= all@);
    proof {
        text::lemma_first_of(h@, ',');
        text::lemma_first_of(h@, '=');
        assert(h@.skip(0) =~= h@);
    }
    if h.len() == 0 {
        return Err(DeliveryError::Missing);
    }
    if find_first(&h, 0, ',') < h.len() {
        return Err(DeliveryError::NotSingle);
    }
    let at = find_first(&h, 0, '=');
    if at == h.len() {
        return Err(DeliveryError::Malformed);
    }
    let alg = trim(&h, 0, at);
    assert(h@.subrange(0, at as int) =~= h@.take(at as int));
    let expected = chars_of("sha-256");
    if !same_chars(&alg, &expected) {
        return Err(DeliveryError::Algorithm);
    }
    let value = trim(&h, at + 1, h.len());
    assert(h@.subrange(at + 1, h@.len() as int) =~= h@.skip(at + 1));
    let n = value.len();
    if n < 2 || value[0] != ':' || value[n - 1] != ':' {
        return Err(DeliveryError::Malformed);
    }
    let inner = text_of(&value, 1, n - 1);
    match base64_decode(&inner) {
        None => Err(DeliveryError::Malformed),
        Some(got) => {
            let digest = sha256(body);
            if same_bytes(&got, &digest) {
                Ok(())
            } else {
                Err(DeliveryError::Mismatch)
            }
        },
    }
}

proof fn lemma_own_digest_verifies(body: Seq<u8>, encoded: Seq<char>, s: Seq<char>)
    requires
        s == "sha-256=:"@ + encoded + ":"@,
        encoded == body_digest_of(body),
        outside::base64_value(encoded) == Some(outside::sha256_of(body)),
        forall|i: int|
            0 <= i < encoded.len() ==> (#[trigger] encoded[i]) != ':' && encoded[i] != ','
                && !text::is_white_space(encoded[i]),
    ensures
        digest_verdict(s, body) == Ok::<(), DeliveryError>(()),
{
    reveal_strlit("sha-256=:");
    reveal_strlit(":");
    reveal_strlit("sha-256");
    let n = s.len() as int;
    assert(s[0] == 's');
    assert(s[n - 1] == ':');
    assert(text::trim_front(s) == s);
    assert(text::trim_back(s) == s);
    assert(!s.contains(',')) by {
        if s.contains(',') {
            let i = choose|i: int| 0 <= i < s.len() && s[i] == ',';
            if 9 <= i < n - 1 {
                assert(s[i] == encoded[i - 9]);
            }
        }
    }
    text::lemma_first_of(s, '=');
    let at = text::first_of(s, '=');
    assert(s[7] == '=');
    assert(at == 7) by {
        if at > 7 {
            assert(s[7] != '=');
        }
        if at < 7 {
            assert(s[at] == '=');
            assert(s[at] == "sha-256=:"@[at]);
        }
    }
    assert(s.take(7) =~= "sha-256"@);
    assert(text::trim_front(s.take(7)) == s.take(7));
    assert(text::trim_back(s.take(7)) == s.take(7));
    let value = s.skip(8);
    assert(value[0] == ':');
    assert(value.last() == ':');
    assert(text::trim_front(value) == value);
    assert(text::trim_back(value) == value);
    assert(value.subrange(1, value.len() - 1) =~= encoded);
}

/// The values that make two requests the same. The same peer and message id with
/// any other value changed is a conflict.
#[derive(Debug, Clone, PartialEq, Eq)]
pub struct CoveredValues {
    pub peer: String,
    pub message_id: String,
    /// The base64 SHA-256 digest of the exact body.
    pub body_digest: String,
    pub interface_url: String,
    pub tenant: Option<String>,
    pub a2a_version: String,
    pub extensions: Vec<String>,
    pub content_type: String,
    pub http_method: String,
}

/// The view of [`CoveredValues`].
#[verifier::ext_equal]
pub struct CoveredValuesView {
    pub peer: Seq<char>,
    pub message_id: Seq<char>,
    pub body_digest: Seq<char>,
    pub interface_url: Seq<char>,
    pub tenant: Option<Seq<char>>,
    pub a2a_version: Seq<char>,
    pub extensions: Seq<Seq<char>>,
    pub content_type: Seq<char>,
    pub http_method: Seq<char>,
}

impl View for CoveredValues {
    type V = CoveredValuesView;

    open spec fn view(&self) -> CoveredValuesView {
        CoveredValuesView {
            peer: self.peer@,
            message_id: self.message_id@,
            body_digest: self.body_digest@,
            interface_url: self.interface_url@,
            tenant: text::view_option(self.tenant),
            a2a_version: self.a2a_version@,
            extensions: text::views(self.extensions@),
            content_type: self.content_type@,
            http_method: self.http_method@,
        }
    }
}

impl Record for CoveredValues {
    fn dup(&self) -> (r: Self) {
        let r = CoveredValues {
            peer: self.peer.clone(),
            message_id: self.message_id.clone(),
            body_digest: self.body_digest.clone(),
            interface_url: self.interface_url.clone(),
            tenant: copy_option(&self.tenant),
            a2a_version: self.a2a_version.clone(),
            extensions: copy_texts(&self.extensions),
            content_type: self.content_type.clone(),
            http_method: self.http_method.clone(),
        };
        r
    }
}

/// Strictly ascending: sorted, and nothing twice.
pub open spec fn ascending(s: Seq<Seq<char>>) -> bool {
    forall|i: int, j: int|
        0 <= i < j < s.len() ==> text::text_before(#[trigger] s[i], #[trigger] s[j])
}

/// `n` holds what `s` holds, sorted and once each.
pub open spec fn is_normal_form(n: Seq<Seq<char>>, s: Seq<Seq<char>>) -> bool {
    &&& ascending(n)
    &&& forall|x: Seq<char>| #[trigger] n.contains(x) <==> s.contains(x)
}

/// The members of the canonical JSON of the covered values. A tenant that is
/// absent has no member.
pub open spec fn covered_members(v: CoveredValuesView) -> Map<Seq<char>, Member> {
    let base = outside::no_members().insert("peer"@, Member::Text(v.peer)).insert(
        "message_id"@,
        Member::Text(v.message_id),
    ).insert("body_digest"@, Member::Text(v.body_digest)).insert(
        "interface_url"@,
        Member::Text(v.interface_url),
    ).insert("a2a_version"@, Member::Text(v.a2a_version)).insert(
        "extensions"@,
        Member::Texts(v.extensions),
    ).insert("content_type"@, Member::Text(v.content_type)).insert(
        "http_method"@,
        Member::Text(v.http_method),
    );
    match v.tenant {
        Some(t) => base.insert("tenant"@, Member::Text(t)),
        None => base,
    }
}

/// The canonical bytes of the covered values; none where there is no canonical
/// form.
pub open spec fn covered_bytes(v: CoveredValuesView) -> Seq<u8> {
    match outside::canonical_json(covered_members(v)) {
        Some(b) => b,
        None => Seq::empty(),
    }
}

/// The keyed commitment to the covered values.
pub open spec fn commitment_of(v: CoveredValuesView, key: Seq<u8>) -> Seq<u8> {
    outside::hmac_sha256_of(key, covered_bytes(v))
}

proof fn lemma_first_letters()
    ensures
        "peer"@[0] == 'p',
        "message_id"@[0] == 'm',
        "body_digest"@[0] == 'b',
        "interface_url"@[0] == 'i',
        "a2a_version"@[0] == 'a',
        "extensions"@[0] == 'e',
        "content_type"@[0] == 'c',
        "http_method"@[0] == 'h',
        "tenant"@[0] == 't',
{
    reveal_strlit("peer");
    reveal_strlit("message_id");
    reveal_strlit("body_digest");
    reveal_strlit("interface_url");
    reveal_strlit("a2a_version");
    reveal_strlit("extensions");
    reveal_strlit("content_type");
    reveal_strlit("http_method");
    reveal_strlit("tenant");
}

proof fn lemma_member_of(v: CoveredValuesView)
    ensures
        covered_members(v)["peer"@] == Member::Text(v.peer),
        covered_members(v)["message_id"@] == Member::Text(v.message_id),
        covered_members(v)["body_digest"@] == Member::Text(v.body_digest),
        covered_members(v)["interface_url"@] == Member::Text(v.interface_url),
        covered_members(v)["a2a_version"@] == Member::Text(v.a2a_version),
        covered_members(v)["extensions"@] == Member::Texts(v.extensions),
        covered_members(v)["content_type"@] == Member::Text(v.content_type),
        covered_members(v)["http_method"@] == Member::Text(v.http_method),
        covered_members(v).contains_key("tenant"@) <==> v.tenant is Some,
        v.tenant matches Some(t) ==> covered_members(v)["tenant"@] == Member::Text(t),
        outside::only_texts(covered_members(v)),
        covered_members(v).dom().finite(),
{
    lemma_first_letters();
}

/// Covered values that differ in anything have different members: the tenant that is
/// absent and the tenant that is empty too.
pub proof fn every_covered_value_counts(a: CoveredValuesView, b: CoveredValuesView)
    ensures
        covered_members(a) == covered_members(b) <==> a == b,
{
    lemma_member_of(a);
    lemma_member_of(b);
    if covered_members(a) == covered_members(b) {
        assert(Member::Text(a.peer) == Member::Text(b.peer));
        assert(Member::Text(a.message_id) == Member::Text(b.message_id));
        assert(Member::Text(a.body_digest) == Member::Text(b.body_digest));
        assert(Member::Text(a.interface_url) == Member::Text(b.interface_url));
        assert(Member::Text(a.a2a_version) == Member::Text(b.a2a_version));
        assert(Member::Texts(a.extensions) == Member::Texts(b.extensions));
        assert(Member::Text(a.content_type) == Member::Text(b.content_type));
        assert(Member::Text(a.http_method) == Member::Text(b.http_method));
        assert(a.tenant == b.tenant);
        assert(a =~= b);
    }
}

/// Puts a text in its place in an ascending list that does not hold it yet.
fn insert_ascending(list: &mut Vec<String>, text: &String)
    requires
        ascending(text::views(old(list)@)),
    ensures
        ascending(text::views(final(list)@)),
        forall|x: Seq<char>| #[trigger]
            text::views(final(list)@).contains(x) <==> text::views(old(list)@).contains(x) || x == text@,
{
    let ghost before = text::views(list@);
    let mut at: usize = 0;
    while at < list.len() && is_before(&list[at], text)
        invariant
            before == text::views(list@),
            at <= list@.len(),
            forall|j: int| 0 <= j < at ==> text::text_before(#[trigger] before[j], text@),
        ensures
            at <= list@.len(),
            before == text::views(list@),
            forall|j: int| 0 <= j < at ==> text::text_before(#[trigger] before[j], text@),
            at < list@.len() ==> !text::text_before(before[at as int], text@),
        decreases list@.len() - at,
    {
        assert(before[at as int] == list@[at as int]@);
        at = at + 1;
    }
    if at < list.len() {
        assert(before[at as int] == list@[at as int]@);
        if same_text(&list[at], text) {
            proof {
                assert(before.contains(text@));
            }
            return ;
        }
    }
    list.insert(at, text.clone());
    let ghost after = text::views(list@);
    proof {
        assert(after =~= before.insert(at as int, text@));
        if at < before.len() {
            text::lemma_text_before_total(before[at as int], text@);
        }
        assert forall|i: int, j: int| 0 <= i < j < after.len() implies text::text_before(
            #[trigger] after[i],
            #[trigger] after[j],
        ) by {
            if j < at {
                assert(after[i] == before[i] && after[j] == before[j]);
            } else if j == at {
                assert(after[i] == before[i]);
            } else if i < at {
                assert(after[i] == before[i] && after[j] == before[j - 1]);
            } else if i == at {
                assert(after[j] == before[j - 1]);
                if j - 1 > at {
                    assert(text::text_before(before[at as int], before[j - 1]));
                    text::lemma_text_before_transitive(text@, before[at as int], before[j - 1]);
                }
            } else {
                assert(after[i] == before[i - 1] && after[j] == before[j - 1]);
            }
        }
        assert forall|x: Seq<char>| #[trigger] after.contains(x) <==> before.contains(x) || x
            == text@ by {
            if after.contains(x) {
                let i = choose|i: int| 0 <= i < after.len() && after[i] == x;
                if i < at {
                    assert(before[i] == x);
                } else if i > at {
                    assert(before[i - 1] == x);
                }
            }
            if before.contains(x) {
                let i = choose|i: int| 0 <= i < before.len() && before[i] == x;
                if i < at {
                    assert(after[i] == x);
                } else {
                    assert(after[i + 1] == x);
                }
            }
            if x == text@ {
                assert(after[at as int] == x);
            }
        }
    }
}

/// Sorts a list of texts and drops repetitions.
pub fn normal_form(list: &Vec<String>) -> (r: Vec<String>)
    ensures
        is_normal_form(text::views(r@), text::views(list@)),
{
    let mut r: Vec<String> = Vec::new();
    let mut i: usize = 0;
    let ghost all = text::views(list@);
    while i < list.len()
        invariant
            all == text::views(list@),
            i <= list@.len(),
            ascending(text::views(r@)),
            forall|x: Seq<char>| #[trigger]
                text::views(r@).contains(x) <==> all.take(i as int).contains(x),
        decreases list@.len() - i,
    {
        let ghost had = text::views(r@);
        insert_ascending(&mut r, &list[i]);
        proof {
            assert(all[i as int] == list@[i as int]@);
            assert forall|x: Seq<char>| #[trigger] text::views(r@).contains(x) <==> all.take(
                i + 1,
            ).contains(x) by {
                if had.contains(x) {
                    let k = choose|k: int| 0 <= k < i && all.take(i as int)[k] == x;
                    assert(all.take(i + 1)[k] == x);
                }
                if x == all[i as int] {
                    assert(all.take(i + 1)[i as int] == x);
                }
                let more = all.take(i + 1);
                if more.contains(x) {
                    let k = choose|k: int| 0 <= k < more.len() && more[k] == x;
                    if k < i {
                        assert(all.take(i as int)[k] == x);
                    }
                }
            }
        }
        i = i + 1;
    }
    assert(all.take(i as int) =~= all);
    r
}

impl CoveredValues {
    /// The same values with the extension set sorted and without repetitions, so
    /// that the order in which a request lists its extensions does not matter.
    pub fn normalized(self) -> (r: CoveredValues)
        ensures
            is_normal_form(r@.extensions, self@.extensions),
            r@ == (CoveredValuesView { extensions: r@.extensions, ..self@ }),
    {
        let extensions = normal_form(&self.extensions);
        CoveredValues { extensions, ..self }
    }

    /// The canonical bytes (RFC 8785) that the commitment is taken of. They are those of
    /// these values and of no others.
    pub fn canonical_bytes(&self) -> (b: Vec<u8>)
        ensures
            b@ == covered_bytes(self@),
            forall|other: CoveredValuesView| #[trigger] covered_bytes(other) == b@ <==> other == self@,
    {
        let mut object = json_object();
        json_insert_text(&mut object, "peer", &self.peer);
        json_insert_text(&mut object, "message_id", &self.message_id);
        json_insert_text(&mut object, "body_digest", &self.body_digest);
        json_insert_text(&mut object, "interface_url", &self.interface_url);
        json_insert_text(&mut object, "a2a_version", &self.a2a_version);
        json_insert_texts(&mut object, "extensions", copy_texts(&self.extensions));
        json_insert_text(&mut object, "content_type", &self.content_type);
        json_insert_text(&mut object, "http_method", &self.http_method);
        match &self.tenant {
            Some(t) => json_insert_text(&mut object, "tenant", t),
            None => {},
        }
        proof {
            lemma_member_of(self@);
        }
        match json_canonical(&object) {
            Some(b) => {
                assert forall|other: CoveredValuesView| #[trigger]
                    covered_bytes(other) == b@ implies other == self@ by {
                    lemma_member_of(other);
                    every_covered_value_counts(other, self@);
                    assert(outside::canonical_json(covered_members(other)) == Some(b@));
                }
                b
            },
            None => Vec::new(),
        }
    }

    /// The keyed commitment: HMAC-SHA-256 of the canonical bytes under the local
    /// key. It is not a public content hash.
    pub fn commitment(&self, key: &[u8; 32]) -> (tag: Vec<u8>)
        ensures
            tag@ == commitment_of(self@, key@),
            tag@.len() == 32,
    {
        let bytes = self.canonical_bytes();
        hmac_sha256(key, &bytes)
    }
}

/// The larger of the retention and of what the sender can still retry.
pub open spec fn tombstone_lifetime(retention: int, retry: int, expiry: int) -> int {
    if retention >= retry + expiry {
        retention
    } else {
        retry + expiry
    }
}

/// How long a replay tombstone is kept, in seconds: through the retention of the
/// task, and never less than the sender's retry window plus the contract's expiry.
pub fn tombstone_lifetime_secs(
    task_retention: u64,
    max_retry_window: u64,
    contract_expiry: u64,
) -> (secs: u64)
    requires
        max_retry_window + contract_expiry <= u64::MAX,
    ensures
        secs == tombstone_lifetime(
            task_retention as int,
            max_retry_window as int,
            contract_expiry as int,
        ),
{
    let horizon: u64 = max_retry_window + contract_expiry;
    if task_retention >= horizon {
        task_retention
    } else {
        horizon
    }
}

/// A set of texts has one normal form.
pub proof fn normal_form_is_unique(a: Seq<Seq<char>>, b: Seq<Seq<char>>)
    requires
        ascending(a),
        ascending(b),
        forall|x: Seq<char>| #[trigger] a.contains(x) <==> b.contains(x),
    ensures
        a == b,
    decreases a.len(),
{
    if a.len() == 0 {
        if b.len() > 0 {
            assert(b.contains(b[0]));
            assert(a.contains(b[0]));
        }
        assert(a =~= b);
    } else {
        assert(a.contains(a[0]));
        assert(b.contains(a[0]));
        assert(b.contains(b[0]));
        assert(a.contains(b[0]));
        let i = choose|i: int| 0 <= i < b.len() && b[i] == a[0];
        let j = choose|j: int| 0 <= j < a.len() && a[j] == b[0];
        if i > 0 && j > 0 {
            assert(text::text_before(b[0], b[i]));
            assert(text::text_before(a[0], a[j]));
            text::lemma_text_before_transitive(a[0], b[0], a[0]);
            text::lemma_text_before_irreflexive(a[0]);
        }
        assert(a[0] == b[0]);
        let x = a.drop_first();
        let y = b.drop_first();
        assert forall|t: Seq<char>| #[trigger] x.contains(t) <==> y.contains(t) by {
            if x.contains(t) {
                let k = choose|k: int| 0 <= k < x.len() && x[k] == t;
                assert(a[k + 1] == t);
                assert(a.contains(t));
                assert(b.contains(t));
                let m = choose|m: int| 0 <= m < b.len() && b[m] == t;
                if m == 0 {
                    assert(text::text_before(a[0], a[k + 1]));
                    text::lemma_text_before_irreflexive(t);
                }
                assert(y[m - 1] == t);
            }
            if y.contains(t) {
                let k = choose|k: int| 0 <= k < y.len() && y[k] == t;
                assert(b[k + 1] == t);
                assert(b.contains(t));
                assert(a.contains(t));
                let m = choose|m: int| 0 <= m < a.len() && a[m] == t;
                if m == 0 {
                    assert(text::text_before(b[0], b[k + 1]));
                    text::lemma_text_before_irreflexive(t);
                }
                assert(x[m - 1] == t);
            }
        }
        assert forall|p: int, q: int| 0 <= p < q < x.len() implies text::text_before(
            #[trigger] x[p],
            #[trigger] x[q],
        ) by {
            assert(text::text_before(a[p + 1], a[q + 1]));
        }
        assert forall|p: int, q: int| 0 <= p < q < y.len() implies text::text_before(
            #[trigger] y[p],
            #[trigger] y[q],
        ) by {
            assert(text::text_before(b[p + 1], b[q + 1]));
        }
        normal_form_is_unique(x, y);
        assert(a =~= seq![a[0]] + x);
        assert(b =~= seq![b[0]] + y);
    }
}

/// Two requests that differ only in how they list one set of extensions are the
/// same request: their normalized values, and so their commitments, are equal.
pub proof fn extension_order_is_no_identity(
    a: CoveredValuesView,
    b: CoveredValuesView,
    na: Seq<Seq<char>>,
    nb: Seq<Seq<char>>,
    key: Seq<u8>,
)
    requires
        b == (CoveredValuesView { extensions: b.extensions, ..a }),
        forall|x: Seq<char>| #[trigger] a.extensions.contains(x) <==> b.extensions.contains(x),
        is_normal_form(na, a.extensions),
        is_normal_form(nb, b.extensions),
    ensures
        na == nb,
        commitment_of(CoveredValuesView { extensions: na, ..a }, key) == commitment_of(
            CoveredValuesView { extensions: nb, ..b },
            key,
        ),
{
    assert forall|x: Seq<char>| #[trigger] na.contains(x) <==> nb.contains(x) by {
        assert(a.extensions.contains(x) <==> b.extensions.contains(x));
    }
    normal_form_is_unique(na, nb);
}

/// Normalizing what is normal changes nothing.
pub proof fn normalizing_is_idempotent(n: Seq<Seq<char>>, s: Seq<Seq<char>>, m: Seq<Seq<char>>)
    requires
        is_normal_form(n, s),
        is_normal_form(m, n),
    ensures
        m == n,
{
    normal_form_is_unique(m, n);
}

/// A tombstone outlives both the retention of the task and the sender's whole
/// retry horizon.
pub proof fn tombstones_outlive_retries(retention: int, retry: int, expiry: int)
    ensures
        tombstone_lifetime(retention, retry, expiry) >= retention,
        tombstone_lifetime(retention, retry, expiry) >= retry + expiry,
{
}

} // verus!
