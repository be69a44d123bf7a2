//! The coordination surface: a different local principal stages bytes for a
//! disclosure, and has them dispatched once the operator has consented.
//!
//! To stage is inert: it writes bytes and gives a reference that follows from them.
//! Consent is the operator's: a receipt for one staged digest, good for one
//! dispatch. A dispatch is routed, and its envelope built, before the receipt is
//! spent.
use crate::control::{Problem, ProblemView};
use crate::control;
use crate::numerals::{decimal_i64, hex, parse_i64};
use crate::numerals;
use crate::outside::{
    Member, base64url_decode, base64url_encode, json_canonical, json_insert_text, json_object,
    sha256, utf8_text,
};
use crate::outside;
use crate::text::{chars_of, control_char, matches_at, same_text, text_of, white_space};
use crate::text;
use vstd::prelude::*;
use vstd::string::*;
use vstd::utf8::*;

verus! {

/// The protocol that the surface speaks.
pub const COORD_PROTOCOL: &'static str = "akson_byom_exchange_v1";

/// Its version.
pub const COORD_PROTOCOL_VERSION: u32 = 1;

/// How many bytes can be staged at once.
pub const MAX_STAGED_PAYLOAD_BYTES: usize = 524288;

/// How long an id that a driver chooses can be, in characters.
pub const MAX_ID_CHARS: usize = 128;

/// How many events are read where no limit is given.
pub const DEFAULT_EVENT_LIMIT: u32 = 64;

/// How many events are read at most.
pub const MAX_EVENT_LIMIT: u32 = 256;

/// What every cursor begins with, before it is encoded.
pub const CURSOR_DOMAIN: &'static str = "akson-coord-events-v1:";

/// An id that a driver chooses: not empty, bounded, without control characters and
/// white space.
pub open spec fn is_id(s: Seq<char>) -> bool {
    &&& 1 <= s.len() <= MAX_ID_CHARS
    &&& forall|i: int|
        0 <= i < s.len() ==> !text::is_control_char(#[trigger] s[i]) && !text::is_white_space(s[i])
}

/// Whether a text is an id.
pub fn valid_id(id: &str) -> (r: bool)
    ensures
        r == is_id(id@),
{
    let v = chars_of(id);
    if v.len() == 0 || v.len() > MAX_ID_CHARS {
        return false;
    }
    let mut i: usize = 0;
    while i < v.len()
        invariant
            v@ == id@,
            i <= v@.len(),
            forall|j: int|
                0 <= j < i ==> !text::is_control_char(#[trigger] v@[j]) && !text::is_white_space(v@[j]),
        decreases v@.len() - i,
    {
        if control_char(v[i]) || white_space(v[i]) {
            assert(text::is_control_char(id@[i as int]) || text::is_white_space(id@[i as int]));
            return false;
        }
        i = i + 1;
    }
    true
}

/// The reference of staged content, its digest, and the digest of its payload.
#[verifier::ext_equal]
pub struct StageReferenceView {
    pub stage_ref: Seq<char>,
    pub staged_digest: Seq<char>,
    pub payload_sha256: Seq<char>,
}

/// The three texts of a reference, by their names.
pub open spec fn named(r: (String, String, String)) -> StageReferenceView {
    StageReferenceView { stage_ref: r.0@, staged_digest: r.1@, payload_sha256: r.2@ }
}

/// The SHA-256 digest of bytes in hexadecimal notation.
pub open spec fn sha256_hex(data: Seq<u8>) -> Seq<char> {
    numerals::hex_of(outside::sha256_of(data))
}

/// The members that the staged digest is taken of: the payload by its digest, the
/// recipient and the task type.
pub open spec fn staged_members(
    payload_sha256: Seq<char>,
    performer: Seq<char>,
    task_type: Seq<char>,
) -> Map<Seq<char>, Member> {
    outside::no_members().insert("payload_sha256"@, Member::Text(payload_sha256)).insert(
        "performer"@,
        Member::Text(performer),
    ).insert("task_type"@, Member::Text(task_type))
}

/// The reference of a digest: `stage-` and its first 32 characters.
pub open spec fn reference_from(
    payload_sha256: Seq<char>,
    staged_digest: Seq<char>,
) -> StageReferenceView {
    StageReferenceView {
        stage_ref: "stage-"@ + staged_digest.take(
            if staged_digest.len() < 32 {
                staged_digest.len() as int
            } else {
                32
            },
        ),
        staged_digest,
        payload_sha256,
    }
}

/// The reference of staged content: a function of the payload, the recipient and the
/// task type, and of nothing else. `None` where the content has no canonical form.
pub open spec fn reference_of(
    payload: Seq<u8>,
    performer: Seq<char>,
    task_type: Seq<char>,
) -> Option<StageReferenceView> {
    match outside::canonical_json(staged_members(sha256_hex(payload), performer, task_type)) {
        Some(canonical) => Some(reference_from(sha256_hex(payload), sha256_hex(canonical))),
        None => None,
    }
}

/// Makes the reference of a digest.
pub fn name_reference(payload_sha256: String, staged_digest: String) -> (r: (
    String,
    String,
    String,
))
    ensures
        named(r) == reference_from(payload_sha256@, staged_digest@),
{
    let v = chars_of(&staged_digest);
    let n: usize = if v.len() < 32 {
        v.len()
    } else {
        32
    };
    let head = text_of(&v, 0, n);
    assert(v@.subrange(0, n as int) =~= staged_digest@.take(n as int));
    ("stage-".to_owned().concat(&head), staged_digest, payload_sha256)
}

/// The reference of staged content, the staged digest that it follows from, and the
/// digest of the payload. The same payload for the same recipient and task type has
/// the same reference.
pub fn stage_reference(payload: &[u8], performer: &str, task_type: &str) -> (r: Result<
    (String, String, String),
    Problem,
>)
    ensures
        match r {
            Ok(reference) => reference_of(payload@, performer@, task_type@) == Some(
                named(reference),
            ),
            Err(p) => reference_of(payload@, performer@, task_type@) is None && p@
                == control::internal_problem(),
        },
        r is Ok,
        match r {
            Ok((stage_ref, staged_digest, payload_sha256)) => staged_digest@.len() == 64
                && payload_sha256@.len() == 64 && stage_ref@.len() == 38,
            Err(_) => true,
        },
{
    let digest = sha256(payload);
    let payload_sha256 = hex(&digest);
    let mut object = json_object();
    json_insert_text(&mut object, "payload_sha256", &payload_sha256);
    json_insert_text(&mut object, "performer", performer);
    json_insert_text(&mut object, "task_type", task_type);
    match json_canonical(&object) {
        Some(canonical) => {
            let staged = sha256(&canonical);
            proof {
                numerals::lemma_hex_len(digest@);
                numerals::lemma_hex_len(staged@);
                reveal_strlit("stage-");
            }
            Ok(name_reference(payload_sha256, hex(&staged)))
        },
        None => Err(Problem::internal()),
    }
}

/// The text of a cursor, before it is encoded.
pub open spec fn cursor_text(seq: int) -> Seq<char> {
    CURSOR_DOMAIN@ + numerals::decimal(seq)
}

/// The position that the text of a cursor names. Only a whole number that is not
/// negative is a position, and it is written in one way.
pub open spec fn position_in(text: Seq<char>) -> Option<i64> {
    if !text::stands_at(text, CURSOR_DOMAIN@, 0) {
        None
    } else {
        match numerals::signed_value(text.skip(CURSOR_DOMAIN@.len() as int)) {
            Some(n) => if 0 <= n <= i64::MAX && text == cursor_text(n) {
                Some(n as i64)
            } else {
                None
            },
            None => None,
        }
    }
}

/// The cursor of a position.
pub open spec fn cursor_of(seq: i64) -> Seq<char> {
    outside::base64url_of(encode_utf8(cursor_text(seq as int)))
}

/// The position that a cursor names; `None` for a text that is not a cursor of this
/// feed.
pub open spec fn cursor_position(cursor: Seq<char>) -> Option<i64> {
    match outside::base64url_value(cursor) {
        Some(bytes) => if valid_utf8(bytes) {
            match position_in(decode_utf8(bytes)) {
                Some(n) => if cursor == cursor_of(n) {
                    Some(n)
                } else {
                    None
                },
                None => None,
            }
        } else {
            None
        },
        None => None,
    }
}

/// What a caller is told of a cursor that did not come from this feed.
pub open spec fn bad_cursor() -> ProblemView {
    control::problem_of(400, "bad-cursor"@, "that cursor did not come from this feed"@)
}

proof fn lemma_cursor_text_reads_back(seq: i64)
    requires
        seq >= 0,
    ensures
        position_in(cursor_text(seq as int)) == Some(seq),
{
    numerals::lemma_decimal_reads_back(seq as int);
    let text = cursor_text(seq as int);
    let n = CURSOR_DOMAIN@.len() as int;
    assert(text.subrange(0, n) =~= CURSOR_DOMAIN@);
    assert(text.skip(n) =~= numerals::decimal(seq as int));
}

proof fn lemma_cursor_bytes(seq: i64)
    requires
        seq >= 0,
    ensures
        valid_utf8(encode_utf8(cursor_text(seq as int))),
        decode_utf8(encode_utf8(cursor_text(seq as int))) == cursor_text(seq as int),
        position_in(cursor_text(seq as int)) == Some(seq),
        encode_utf8(cursor_text(seq as int)).len() <= usize::MAX / 4,
{
    let text = cursor_text(seq as int);
    lemma_cursor_text_reads_back(seq);
    encode_utf8_decode_utf8(text);
    encode_utf8_valid_utf8(text);
    numerals::lemma_decimal_len(seq as int);
    text::lemma_encoding_len(text);
    reveal_strlit("akson-coord-events-v1:");
}

fn write_position(seq: i64) -> (r: String)
    ensures
        r@ == cursor_text(seq as int),
{
    CURSOR_DOMAIN.to_owned().concat(&decimal_i64(seq))
}

/// Encodes the position of an event as a cursor. What is encoded is decoded to the
/// same position.
pub fn encode_cursor(seq: i64) -> (r: String)
    ensures
        r@ == cursor_of(seq),
        seq >= 0 ==> cursor_position(r@) == Some(seq),
{
    let text = write_position(seq);
    let bytes = text.as_str().as_bytes();
    proof {
        if seq >= 0 {
            lemma_cursor_bytes(seq);
        }
        numerals::lemma_decimal_len(seq as int);
        text::lemma_encoding_len(text@);
        reveal_strlit("akson-coord-events-v1:");
    }
    base64url_encode(bytes)
}

/// The position that the text of a cursor names.
pub fn read_position(text: &str) -> (r: Option<i64>)
    ensures
        r == position_in(text@),
{
    let v = chars_of(text);
    let domain = chars_of(CURSOR_DOMAIN);
    if !matches_at(&v, &domain, 0) {
        return None;
    }
    let rest = text_of(&v, domain.len(), v.len());
    assert(rest@ =~= text@.skip(CURSOR_DOMAIN@.len() as int));
    match parse_i64(&rest) {
        Some(n) => if n >= 0 && same_text(&write_position(n), text) {
            Some(n)
        } else {
            None
        },
        None => None,
    }
}

/// Decodes a cursor that came from a reply. Anything else is refused: a cursor is
/// decoded exactly where it is the one that a position is encoded as.
pub fn decode_cursor(cursor: &str) -> (r: Result<i64, Problem>)
    ensures
        match r {
            Ok(seq) => seq >= 0 && cursor@ == cursor_of(seq) && cursor_position(cursor@) == Some(seq),
            Err(p) => p@ == bad_cursor() && cursor_position(cursor@) is None && forall|n: i64|
                n >= 0 ==> cursor@ != #[trigger] cursor_of(n),
        },
{
    let decoded = base64url_decode(cursor);
    let ghost bytes = text::view_bytes(decoded);
    proof {
        assert forall|n: i64| n >= 0 && cursor@ == #[trigger] cursor_of(n) implies bytes == Some(
            encode_utf8(cursor_text(n as int)),
        ) by {
            lemma_cursor_bytes(n);
        }
    }
    let position = match decoded {
        Some(bytes) => match utf8_text(bytes) {
            Some(text) => read_position(&text),
            None => None,
        },
        None => None,
    };
    proof {
        assert forall|n: i64| n >= 0 && cursor@ == #[trigger] cursor_of(n) implies position == Some(
            n,
        ) by {
            lemma_cursor_bytes(n);
        }
    }
    match position {
        Some(seq) => if same_text(&encode_cursor(seq), cursor) {
            return Ok(seq);
        },
        None => {},
    }
    Err(Problem::new(400, "bad-cursor", "that cursor did not come from this feed"))
}

} // verus!
