//! Whether an artifact that is drawn or shown at the other side is inert.
//!
//! Markup and diagrams can carry scripts, event handlers and references that are
//! fetched when they are shown. Such an artifact is refused before it is delivered.
//! Formats that are pure data pass. Where there is doubt, the artifact is refused.
use crate::outside::utf8_text;
use crate::text::{
    bytes_of, chars_of, contains_text, find_first, lower_all, matches_at, media_essence, same_text,
    text_of,
};
use crate::text;
use vstd::prelude::*;
use vstd::utf8::*;

verus! {

/// `char::from_u32` gives the character of a Unicode scalar value, and nothing for
/// any other number.
pub assume_specification[ char::from_u32 ](i: u32) -> (c: Option<char>)
    ensures
        match c {
            Some(c) => c as int == i as int && (i < 0xD800 || 0xE000 <= i <= 0x10FFFF),
            None => (0xD800 <= i <= 0xDFFF) || 0x10FFFF < i,
        },
;

/// Why an artifact is not inert.
#[derive(Debug, Clone, PartialEq, Eq)]
pub struct NotInert {
    pub media_type: String,
    pub reason: &'static str,
}

/// The media types, in lower case, that are drawn or shown as markup.
pub open spec fn is_markup(m: Seq<char>) -> bool {
    m == "image/svg+xml"@ || m == "text/html"@ || m == "application/xhtml+xml"@ || m
        == "text/markdown"@ || m == "text/x-markdown"@ || m == "text/vnd.mermaid"@ || m
        == "text/vnd.graphviz"@ || m == "text/vnd.graphviz+dot"@
}

/// Whether a media type, whatever its case and its parameters, is drawn or shown.
pub open spec fn renders(media_type: Seq<char>) -> bool {
    is_markup(text::lowered(text::essence(media_type)))
}

/// The value of one digit.
pub open spec fn digit_in(c: char, radix: int) -> Option<int> {
    if '0' as int <= c as int <= '9' as int {
        Some(c as int - '0' as int)
    } else if radix == 16 && 'a' as int <= c as int <= 'f' as int {
        Some(c as int - 'a' as int + 10)
    } else if radix == 16 && 'A' as int <= c as int <= 'F' as int {
        Some(c as int - 'A' as int + 10)
    } else {
        None
    }
}

/// The value of digits in a radix; `None` where one of them is no digit.
pub open spec fn value_in(s: Seq<char>, radix: int) -> Option<int>
    decreases s.len(),
{
    if s.len() == 0 {
        Some(0)
    } else {
        match (value_in(s.drop_last(), radix), digit_in(s.last(), radix)) {
            (Some(v), Some(d)) => Some(v * radix + d),
            _ => None,
        }
    }
}

/// A Unicode scalar value.
pub open spec fn is_scalar(v: int) -> bool {
    0 <= v <= 0xD7FF || 0xE000 <= v <= 0x10FFFF
}

/// The character that the number of a reference stands for. It is made up of digits
/// alone.
pub open spec fn numbered_char(s: Seq<char>, radix: int) -> Option<char> {
    if s.len() == 0 {
        None
    } else {
        match value_in(s, radix) {
            Some(v) => if is_scalar(v) {
                Some(v as char)
            } else {
                None
            },
            None => None,
        }
    }
}

/// The numeric character reference that a text begins with: its character, and how
/// long it is. `&#` and a decimal number, or `&#x` and a hexadecimal one, then `;`.
pub open spec fn reference(s: Seq<char>) -> Option<(char, int)> {
    if s.len() > 2 && s[0] == '&' && s[1] == '#' {
        let start: int = if s[2] == 'x' || s[2] == 'X' {
            3
        } else {
            2
        };
        let radix: int = if start == 3 {
            16
        } else {
            10
        };
        let end = start + text::first_of(s.skip(start), ';');
        if start < end < s.len() {
            match numbered_char(s.subrange(start, end), radix) {
                Some(c) => Some((c, end + 1)),
                None => None,
            }
        } else {
            None
        }
    } else {
        None
    }
}

/// A text with its numeric character references replaced by what they stand for.
pub open spec fn decoded(s: Seq<char>) -> Seq<char>
    decreases s.len(),
{
    if s.len() == 0 {
        s
    } else {
        match reference(s) {
            Some((c, n)) => if 0 < n <= s.len() {
                seq![c] + decoded(s.skip(n))
            } else {
                s
            },
            None => seq![s[0]] + decoded(s.skip(1)),
        }
    }
}

/// What is drawn or shown: the references decoded, and in lower case.
pub open spec fn shown(bytes: Seq<u8>) -> Seq<char> {
    text::lowered(decoded(decode_utf8(bytes)))
}

/// Active or embedding markup.
pub open spec fn has_active_markup(t: Seq<char>) -> bool {
    text::holds_text(t, "<script"@) || text::holds_text(t, "<iframe"@) || text::holds_text(t, "<object"@)
        || text::holds_text(t, "<embed"@) || text::holds_text(t, "<foreignobject"@) || text::holds_text(
        t,
        "<applet"@,
    ) || text::holds_text(t, "<meta http-equiv"@) || text::holds_text(t, "<!entity"@) || text::holds_text(
        t,
        "<!doctype"@,
    ) || text::holds_text(t, "<?xml-stylesheet"@)
}

/// A URI that runs a script.
pub open spec fn has_script_uri(t: Seq<char>) -> bool {
    text::holds_text(t, "javascript:"@) || text::holds_text(t, "data:text/html"@) || text::holds_text(
        t,
        "vbscript:"@,
    )
}

/// White space between the parts of a tag.
pub open spec fn is_blank(c: char) -> bool {
    c == ' ' || c == '\t' || c == '\n' || c == '\r' || c == '\x0c'
}

/// A lower-case ASCII letter.
pub open spec fn is_lower_letter(c: char) -> bool {
    'a' as int <= c as int <= 'z' as int
}

/// After these an attribute can begin.
pub open spec fn opens_attribute(c: char) -> bool {
    is_blank(c) || c == '<' || c == '/' || c == '"' || c == '\''
}

/// An inline event handler stands at `at`: `on`, letters, white space, `=`, at the
/// beginning of an attribute.
pub open spec fn handler_at(t: Seq<char>, at: int) -> bool {
    &&& text::stands_at(t, "on"@, at)
    &&& at == 0 || opens_attribute(t[at - 1])
    &&& exists|j: int, k: int| #[trigger] handler_ends(t, at, j, k)
}

/// The name of the handler at `at` ends at `j`, and its equals sign stands at `k`.
pub open spec fn handler_ends(t: Seq<char>, at: int, j: int, k: int) -> bool {
    &&& at + 2 < j <= k < t.len()
    &&& forall|x: int| at + 2 <= x < j ==> is_lower_letter(#[trigger] t[x])
    &&& forall|x: int| j <= x < k ==> is_blank(#[trigger] t[x])
    &&& t[k] == '='
}

/// An inline event handler stands somewhere.
pub open spec fn has_handler(t: Seq<char>) -> bool {
    exists|at: int| #[trigger] handler_at(t, at)
}

/// What can stand between an anchor and its target.
pub open spec fn is_lead(c: char) -> bool {
    c == '=' || c == '"' || c == '\'' || c == '(' || is_blank(c)
}

/// An absolute or protocol-relative URL begins at `m`.
pub open spec fn url_at(t: Seq<char>, m: int) -> bool {
    text::stands_at(t, "http://"@, m) || text::stands_at(t, "https://"@, m) || text::stands_at(t, "//"@, m)
}

/// The target of what ends before `after` begins at `m`, and is an outside URL.
pub open spec fn target_at(t: Seq<char>, after: int, m: int) -> bool {
    &&& after <= m <= t.len()
    &&& forall|x: int| after <= x < m ==> is_lead(#[trigger] t[x])
    &&& url_at(t, m)
}

/// An ASCII letter or digit.
pub open spec fn is_word_char(c: char) -> bool {
    'a' as int <= c as int <= 'z' as int || 'A' as int <= c as int <= 'Z' as int || '0' as int
        <= c as int <= '9' as int
}

/// The word that stands from `at` to `after` is an attribute or a function, not a
/// word of prose: it begins at a boundary, and an equals sign or a bracket follows.
pub open spec fn is_assigned(t: Seq<char>, at: int, after: int) -> bool {
    &&& at == 0 || !is_word_char(t[at - 1])
    &&& exists|k: int| #[trigger] assignment_at(t, after, k)
}

/// White space from `after` on, and then the sign at `k`.
pub open spec fn assignment_at(t: Seq<char>, after: int, k: int) -> bool {
    &&& after <= k < t.len()
    &&& forall|x: int| after <= x < k ==> is_blank(#[trigger] t[x])
    &&& t[k] == '=' || t[k] == '('
}

/// An anchor stands at `at` and leads to an outside URL.
pub open spec fn leads_out(t: Seq<char>, anchor: Seq<char>, bare: bool, at: int) -> bool {
    &&& text::stands_at(t, anchor, at)
    &&& bare ==> is_assigned(t, at, at + anchor.len())
    &&& exists|m: int| #[trigger] target_at(t, at + anchor.len(), m)
}

/// An anchor leads to an outside URL somewhere. A bare one is also a word of prose.
pub open spec fn refers_by(t: Seq<char>, anchor: Seq<char>, bare: bool) -> bool {
    exists|at: int| #[trigger] leads_out(t, anchor, bare, at)
}

/// A reference to an outside URL that is fetched when the text is shown.
pub open spec fn refers_outside(t: Seq<char>) -> bool {
    refers_by(t, "href"@, false) || refers_by(t, "srcset"@, false) || refers_by(t, "src"@, false)
        || refers_by(t, "url"@, true)
}

/// What speaks against an artifact, if anything does.
pub open spec fn objection(media_type: Seq<char>, bytes: Seq<u8>) -> Option<Seq<char>> {
    if !renders(media_type) {
        None
    } else if bytes.contains(0) || !valid_utf8(bytes) {
        Some("is not clean UTF-8 text (may hide active content)"@)
    } else {
        let t = shown(bytes);
        if has_active_markup(t) {
            Some("contains active or embedding markup"@)
        } else if has_script_uri(t) {
            Some("contains a script or html data URI"@)
        } else if has_handler(t) {
            Some("contains an inline event handler"@)
        } else if refers_outside(t) {
            Some("references an external URL"@)
        } else {
            None
        }
    }
}

fn is_renderable(media_type: &str) -> (r: bool)
    ensures
        r == renders(media_type@),
{
    let m = lower_all(&media_essence(media_type));
    let t = text_of(&m, 0, m.len());
    assert(m@.subrange(0, m@.len() as int) =~= m@);
    same_text(&t, "image/svg+xml") || same_text(&t, "text/html") || same_text(
        &t,
        "application/xhtml+xml",
    ) || same_text(&t, "text/markdown") || same_text(&t, "text/x-markdown") || same_text(
        &t,
        "text/vnd.mermaid",
    ) || same_text(&t, "text/vnd.graphviz") || same_text(&t, "text/vnd.graphviz+dot")
}

fn has_nul(bytes: &[u8]) -> (r: bool)
    ensures
        r == bytes@.contains(0),
{
    let mut i: usize = 0;
    while i < bytes.len()
        invariant
            i <= bytes@.len(),
            forall|j: int| 0 <= j < i ==> bytes@[j] != 0,
        decreases bytes@.len() - i,
    {
        if bytes[i] == 0 {
            assert(bytes@[i as int] == 0);
            return true;
        }
        i = i + 1;
    }
    false
}

fn digit_value(c: char, radix: u32) -> (d: Option<u32>)
    requires
        radix == 10 || radix == 16,
    ensures
        match d {
            Some(d) => digit_in(c, radix as int) == Some(d as int) && d < 16,
            None => digit_in(c, radix as int) is None,
        },
{
    if '0' <= c && c <= '9' {
        Some((c as u8 - '0' as u8) as u32)
    } else if radix == 16 && 'a' <= c && c <= 'f' {
        Some((c as u8 - 'a' as u8) as u32 + 10)
    } else if radix == 16 && 'A' <= c && c <= 'F' {
        Some((c as u8 - 'A' as u8) as u32 + 10)
    } else {
        None
    }
}

proof fn lemma_value_grows(s: Seq<char>, radix: int, n: int)
    requires
        0 <= n <= s.len(),
        radix == 10 || radix == 16,
    ensures
        value_in(s, radix) is Some ==> value_in(s.take(n), radix) is Some && 0 <= value_in(
            s.take(n),
            radix,
        )->0 <= value_in(s, radix)->0,
    decreases s.len(),
{
    if n == s.len() {
        assert(s.take(n) =~= s);
        if s.len() > 0 {
            lemma_value_grows(s.drop_last(), radix, n - 1);
        }
    } else {
        lemma_value_grows(s.drop_last(), radix, n);
        assert(s.drop_last().take(n) =~= s.take(n));
    }
}

/// The character that the number in `v[from..to]` stands for.
fn read_number(v: &Vec<char>, from: usize, to: usize, radix: u32) -> (r: Option<char>)
    requires
        from < to <= v@.len(),
        radix == 10 || radix == 16,
    ensures
        r == numbered_char(v@.subrange(from as int, to as int), radix as int),
{
    let ghost digits = v@.subrange(from as int, to as int);
    let mut value: u32 = 0;
    let mut i: usize = from;
    assert(digits.take(0) =~= Seq::<char>::empty());
    while i < to
        invariant
            from <= i <= to <= v@.len(),
            radix == 10 || radix == 16,
            digits == v@.subrange(from as int, to as int),
            digits.len() > 0,
            numbered_char(digits, radix as int) == (match value_in(digits, radix as int) {
                Some(w) => if is_scalar(w) {
                    Some(w as char)
                } else {
                    None
                },
                None => None,
            }),
            value_in(digits.take(i - from), radix as int) == Some(value as int),
            value <= 0x10FFFF,
        decreases to - i,
    {
        proof {
            let more = digits.take(i + 1 - from);
            assert(more.drop_last() =~= digits.take(i - from));
            assert(more.last() == v@[i as int]);
            lemma_value_grows(digits, radix as int, i + 1 - from);
        }
        let d: u32 = match digit_value(v[i], radix) {
            Some(d) => d,
            None => {
                return None;
            },
        };
        value = value * radix + d;
        if value > 0x10FFFF {
            return None;
        }
        i = i + 1;
    }
    assert(digits.take(to - from) =~= digits);
    let r = char::from_u32(value);
    proof {
        match r {
            Some(c) => {
                assert(is_scalar(c as int));
                assert(c == (c as int) as char);
            },
            None => {},
        }
    }
    r
}

/// The numeric character reference at `i`: its character, and where it ends.
fn reference_at(v: &Vec<char>, i: usize) -> (r: Option<(char, usize)>)
    requires
        i < v@.len(),
    ensures
        match r {
            Some((c, next)) => i < next <= v@.len() && reference(v@.skip(i as int)) == Some(
                (c, next - i),
            ),
            None => reference(v@.skip(i as int)) is None,
        },
{
    let ghost rest = v@.skip(i as int);
    if v[i] != '&' || v.len() - i <= 2 || v[i + 1] != '#' {
        return None;
    }
    let hexadecimal = v[i + 2] == 'x' || v[i + 2] == 'X';
    let start: usize = if hexadecimal {
        i + 3
    } else {
        i + 2
    };
    let radix: u32 = if hexadecimal {
        16
    } else {
        10
    };
    let end = find_first(v, start, ';');
    proof {
        text::lemma_first_of(v@.skip(start as int), ';');
        assert(rest.skip(start - i) =~= v@.skip(start as int));
    }
    if end == v.len() || end == start {
        return None;
    }
    assert(rest.subrange(start - i, end - i) =~= v@.subrange(start as int, end as int));
    match read_number(v, start, end, radix) {
        Some(c) => Some((c, end + 1)),
        None => None,
    }
}

/// Replaces the numeric character references of a text by what they stand for. A
/// reference that is malformed or out of range stays as it is.
fn decode_numeric_entities(v: &Vec<char>) -> (r: Vec<char>)
    ensures
        r@ == decoded(v@),
{
    let mut out: Vec<char> = Vec::new();
    let mut i: usize = 0;
    assert(v@.skip(0) =~= v@);
    assert(out@ + decoded(v@.skip(0)) =~= decoded(v@));
    while i < v.len()
        invariant
            i <= v@.len(),
            decoded(v@) == out@ + decoded(v@.skip(i as int)),
        decreases v@.len() - i,
    {
        let ghost before = out@;
        let (c, next) = match reference_at(v, i) {
            Some((c, next)) => (c, next),
            None => (v[i], i + 1),
        };
        out.push(c);
        assert(v@.skip(i as int).skip(next - i) =~= v@.skip(next as int));
        assert(decoded(v@.skip(i as int)) == seq![c] + decoded(v@.skip(next as int)));
        assert(before + (seq![c] + decoded(v@.skip(next as int))) =~= out@ + decoded(
            v@.skip(next as int),
        ));
        i = next;
    }
    assert(v@.skip(i as int) =~= Seq::<char>::empty());
    assert(out@ + Seq::<char>::empty() =~= out@);
    out
}

fn blank(c: char) -> (r: bool)
    ensures
        r == is_blank(c),
{
    c == ' ' || c == '\t' || c == '\n' || c == '\r' || c == '\x0c'
}

/// Whether an inline event handler stands at `at`.
fn handler_stands_at(v: &Vec<char>, on: &Vec<char>, at: usize) -> (r: bool)
    requires
        at <= v@.len(),
        on@ == "on"@,
    ensures
        r == handler_at(v@, at as int),
{
    proof {
        reveal_strlit("on");
    }
    if !matches_at(v, on, at) {
        return false;
    }
    if at > 0 {
        let c = v[at - 1];
        if !(blank(c) || c == '<' || c == '/' || c == '"' || c == '\'') {
            return false;
        }
    }
    let n = v.len();
    assert(at + 2 <= n);
    let mut j: usize = at + 2;
    while j < v.len() && 'a' <= v[j] && v[j] <= 'z'
        invariant
            at + 2 <= j <= v@.len(),
            forall|x: int| at + 2 <= x < j ==> is_lower_letter(#[trigger] v@[x]),
        decreases v@.len() - j,
    {
        j = j + 1;
    }
    assert(j == v@.len() || !is_lower_letter(v@[j as int]));
    let mut k: usize = j;
    while k < v.len() && blank(v[k])
        invariant
            at + 2 <= j <= k <= v@.len(),
            forall|x: int| j <= x < k ==> is_blank(#[trigger] v@[x]),
        decreases v@.len() - k,
    {
        k = k + 1;
    }
    assert(k == v@.len() || !is_blank(v@[k as int]));
    let found = j > at + 2 && k < v.len() && v[k] == '=';
    proof {
        if found {
            assert(handler_ends(v@, at as int, j as int, k as int));
        }
        if exists|a: int, b: int| #[trigger] handler_ends(v@, at as int, a, b) {
            let (a, b) = choose|a: int, b: int| #[trigger] handler_ends(v@, at as int, a, b);
            if a < j {
                assert(is_lower_letter(v@[a]));
            }
            if a > j {
                assert(is_lower_letter(v@[j as int]));
            }
            if b < k {
                assert(is_blank(v@[b]));
            }
            if b > k {
                assert(is_blank(v@[k as int]));
            }
        }
    }
    found
}

/// Whether the text carries an inline event handler.
fn has_event_handler(v: &Vec<char>) -> (r: bool)
    ensures
        r == has_handler(v@),
{
    let on = chars_of("on");
    let mut at: usize = 0;
    while at < v.len()
        invariant
            at <= v@.len(),
            on@ == "on"@,
            forall|x: int| 0 <= x < at ==> !#[trigger] handler_at(v@, x),
        decreases v@.len() - at,
    {
        if handler_stands_at(v, &on, at) {
            return true;
        }
        at = at + 1;
    }
    proof {
        reveal_strlit("on");
    }
    false
}

fn word_char(c: char) -> (r: bool)
    ensures
        r == is_word_char(c),
{
    ('a' <= c && c <= 'z') || ('A' <= c && c <= 'Z') || ('0' <= c && c <= '9')
}

/// Whether the word from `at` to `after` is an attribute or a function.
fn assigned(v: &Vec<char>, at: usize, after: usize) -> (r: bool)
    requires
        at <= after <= v@.len(),
    ensures
        r == is_assigned(v@, at as int, after as int),
{
    if at > 0 && word_char(v[at - 1]) {
        return false;
    }
    let mut k: usize = after;
    while k < v.len() && blank(v[k])
        invariant
            after <= k <= v@.len(),
            forall|x: int| after <= x < k ==> is_blank(#[trigger] v@[x]),
        decreases v@.len() - k,
    {
        k = k + 1;
    }
    assert(k == v@.len() || !is_blank(v@[k as int]));
    let found = k < v.len() && (v[k] == '=' || v[k] == '(');
    proof {
        if found {
            assert(assignment_at(v@, after as int, k as int));
        }
        if exists|b: int| #[trigger] assignment_at(v@, after as int, b) {
            let b = choose|b: int| #[trigger] assignment_at(v@, after as int, b);
            if b < k {
                assert(is_blank(v@[b]));
            }
            if b > k {
                assert(is_blank(v@[k as int]));
            }
        }
    }
    found
}

/// Whether what ends before `after` has an outside URL as its target.
fn has_outside_target(v: &Vec<char>, after: usize) -> (r: bool)
    requires
        after <= v@.len(),
    ensures
        r == exists|m: int| #[trigger] target_at(v@, after as int, m),
{
    let mut m: usize = after;
    while m < v.len() && (v[m] == '=' || v[m] == '"' || v[m] == '\'' || v[m] == '(' || blank(v[m]))
        invariant
            after <= m <= v@.len(),
            forall|x: int| after <= x < m ==> is_lead(#[trigger] v@[x]),
        decreases v@.len() - m,
    {
        m = m + 1;
    }
    assert(m == v@.len() || !is_lead(v@[m as int]));
    let found = matches_at(v, &chars_of("http://"), m) || matches_at(v, &chars_of("https://"), m)
        || matches_at(v, &chars_of("//"), m);
    proof {
        if found {
            assert(target_at(v@, after as int, m as int));
        }
        if exists|b: int| #[trigger] target_at(v@, after as int, b) {
            let b = choose|b: int| #[trigger] target_at(v@, after as int, b);
            reveal_strlit("http://");
            reveal_strlit("https://");
            reveal_strlit("//");
            if text::stands_at(v@, "http://"@, b) {
                assert(v@[b] == v@.subrange(b, b + "http://"@.len())[0]);
            } else if text::stands_at(v@, "https://"@, b) {
                assert(v@[b] == v@.subrange(b, b + "https://"@.len())[0]);
            } else {
                assert(v@[b] == v@.subrange(b, b + "//"@.len())[0]);
            }
            assert(v@[b] == 'h' || v@[b] == '/');
            if b < m {
                assert(is_lead(v@[b]));
            }
            if b > m {
                assert(is_lead(v@[m as int]));
            }
        }
    }
    found
}

fn anchor_refers(v: &Vec<char>, anchor: &str, bare: bool) -> (r: bool)
    ensures
        r == refers_by(v@, anchor@, bare),
{
    let part = chars_of(anchor);
    let mut at: usize = 0;
    loop
        invariant
            at <= v@.len(),
            part@ == anchor@,
            forall|x: int| 0 <= x < at ==> !#[trigger] leads_out(v@, anchor@, bare, x),
        decreases v@.len() - at,
    {
        if matches_at(v, &part, at) {
            let n = v.len();
            assert(at + part@.len() <= n);
            let after = at + part.len();
            if (!bare || assigned(v, at, after)) && has_outside_target(v, after) {
                assert(leads_out(v@, anchor@, bare, at as int));
                return true;
            }
        }
        assert(!leads_out(v@, anchor@, bare, at as int));
        if at == v.len() {
            return false;
        }
        at = at + 1;
    }
}

/// Whether the text refers to an outside URL that is fetched when it is shown.
fn references_external_url(v: &Vec<char>) -> (r: bool)
    ensures
        r == refers_outside(v@),
{
    anchor_refers(v, "href", false) || anchor_refers(v, "srcset", false) || anchor_refers(
        v,
        "src",
        false,
    ) || anchor_refers(v, "url", true)
}

fn active_markup(v: &Vec<char>) -> (r: bool)
    ensures
        r == has_active_markup(v@),
{
    contains_text(v, "<script") || contains_text(v, "<iframe") || contains_text(v, "<object")
        || contains_text(v, "<embed") || contains_text(v, "<foreignobject") || contains_text(
        v,
        "<applet",
    ) || contains_text(v, "<meta http-equiv") || contains_text(v, "<!entity") || contains_text(
        v,
        "<!doctype",
    ) || contains_text(v, "<?xml-stylesheet")
}

fn script_uri(v: &Vec<char>) -> (r: bool)
    ensures
        r == has_script_uri(v@),
{
    contains_text(v, "javascript:") || contains_text(v, "data:text/html") || contains_text(
        v,
        "vbscript:",
    )
}

fn rejected(media_type: &str, reason: &'static str) -> (r: Result<(), NotInert>)
    ensures
        match r {
            Ok(()) => false,
            Err(e) => e.media_type@ == media_type@ && e.reason@ == reason@,
        },
{
    Err(NotInert { media_type: media_type.to_owned(), reason })
}

/// Checks that an artifact is inert for its media type. What is drawn or shown is
/// searched for active content; everything else passes.
pub fn check_inert(media_type: &str, bytes: &[u8]) -> (r: Result<(), NotInert>)
    ensures
        match r {
            Ok(()) => objection(media_type@, bytes@) is None,
            Err(e) => e.media_type@ == media_type@ && objection(media_type@, bytes@) == Some(
                e.reason@,
            ),
        },
{
    if !is_renderable(media_type) {
        return Ok(());
    }
    if has_nul(bytes) {
        return rejected(media_type, "is not clean UTF-8 text (may hide active content)");
    }
    let text = match utf8_text(bytes_of(bytes)) {
        Some(text) => text,
        None => {
            return rejected(media_type, "is not clean UTF-8 text (may hide active content)");
        },
    };
    let t = lower_all(&decode_numeric_entities(&chars_of(&text)));
    if active_markup(&t) {
        return rejected(media_type, "contains active or embedding markup");
    }
    if script_uri(&t) {
        return rejected(media_type, "contains a script or html data URI");
    }
    if has_event_handler(&t) {
        return rejected(media_type, "contains an inline event handler");
    }
    if references_external_url(&t) {
        return rejected(media_type, "references an external URL");
    }
    Ok(())
}

/// Pure data passes, whatever it holds.
pub proof fn data_is_inert(media_type: Seq<char>, bytes: Seq<u8>)
    requires
        !renders(media_type),
    ensures
        objection(media_type, bytes) is None,
{
}

/// The case and the parameters of a media type change nothing.
pub proof fn the_spelling_of_a_media_type_does_not_matter(
    a: Seq<char>,
    b: Seq<char>,
    bytes: Seq<u8>,
)
    requires
        text::lowered(text::essence(a)) == text::lowered(text::essence(b)),
    ensures
        objection(a, bytes) == objection(b, bytes),
{
}

/// A text without an ampersand is decoded to itself.
pub proof fn plain_text_is_decoded_to_itself(s: Seq<char>)
    requires
        !s.contains('&'),
    ensures
        decoded(s) == s,
    decreases s.len(),
{
    if s.len() > 0 {
        assert(s.contains(s[0]));
        let rest = s.skip(1);
        assert(!rest.contains('&')) by {
            if rest.contains('&') {
                let i = choose|i: int| 0 <= i < rest.len() && rest[i] == '&';
                assert(s[i + 1] == '&');
            }
        }
        plain_text_is_decoded_to_itself(rest);
        assert(seq![s[0]] + rest =~= s);
    }
}

/// What is drawn or shown and is not clean text is never delivered.
pub proof fn unclean_text_is_refused(media_type: Seq<char>, bytes: Seq<u8>)
    requires
        renders(media_type),
        bytes.contains(0) || !valid_utf8(bytes),
    ensures
        objection(media_type, bytes) is Some,
{
}

/// Two characters are the same but for the case of an ASCII letter.
pub open spec fn same_letter(a: char, b: char) -> bool {
    text::lower(a) == text::lower(b)
}

/// A byte, with an ASCII letter in lower case.
pub open spec fn lower_byte(b: u8) -> u8 {
    if 0x41 <= b <= 0x5a {
        (b + 32) as u8
    } else {
        b
    }
}

/// Two artifacts are the same but for the case of their ASCII letters.
pub open spec fn same_but_case(a: Seq<u8>, b: Seq<u8>) -> bool {
    &&& a.len() == b.len()
    &&& forall|i: int| #![trigger a[i]] #![trigger b[i]] 0 <= i < a.len() ==> lower_byte(a[i]) == lower_byte(b[i])
}

/// Two texts are the same but for the case of their ASCII letters.
spec fn alike(a: Seq<char>, b: Seq<char>) -> bool {
    &&& a.len() == b.len()
    &&& forall|i: int| #![trigger a[i]] #![trigger b[i]] 0 <= i < a.len() ==> same_letter(a[i], b[i])
}

proof fn lemma_alike(a: Seq<char>, b: Seq<char>)
    ensures
        alike(a, b) <==> text::lowered(a) == text::lowered(b),
{
    if alike(a, b) {
        assert(text::lowered(a) =~= text::lowered(b));
    }
    if text::lowered(a) == text::lowered(b) {
        assert(text::lowered(a).len() == text::lowered(b).len());
        assert forall|i: int| 0 <= i < a.len() implies same_letter(#[trigger] a[i], b[i]) by {
            assert(text::lowered(a)[i] == text::lowered(b)[i]);
        }
    }
}

proof fn lemma_first_of_alike(a: Seq<char>, b: Seq<char>, c: char)
    requires
        alike(a, b),
        c == ';',
    ensures
        text::first_of(a, c) == text::first_of(b, c),
    decreases a.len(),
{
    if a.len() > 0 {
        assert(same_letter(a[0], b[0]));
        assert(alike(a.drop_first(), b.drop_first()));
        lemma_first_of_alike(a.drop_first(), b.drop_first(), c);
    }
}

proof fn lemma_value_alike(a: Seq<char>, b: Seq<char>, radix: int)
    requires
        alike(a, b),
    ensures
        value_in(a, radix) == value_in(b, radix),
    decreases a.len(),
{
    if a.len() > 0 {
        assert(same_letter(a[a.len() - 1], b[b.len() - 1]));
        assert(digit_in(a.last(), radix) == digit_in(b.last(), radix));
        assert(alike(a.drop_last(), b.drop_last()));
        lemma_value_alike(a.drop_last(), b.drop_last(), radix);
    }
}

proof fn lemma_reference_alike(a: Seq<char>, b: Seq<char>)
    requires
        alike(a, b),
    ensures
        reference(a) == reference(b),
{
    if a.len() > 2 {
        assert(same_letter(a[0], b[0]));
        assert(same_letter(a[1], b[1]));
        assert(same_letter(a[2], b[2]));
        let start: int = if a[2] == 'x' || a[2] == 'X' {
            3
        } else {
            2
        };
        assert(alike(a.skip(start), b.skip(start)));
        lemma_first_of_alike(a.skip(start), b.skip(start), ';');
        let end = start + text::first_of(a.skip(start), ';');
        if start < end < a.len() {
            assert(alike(a.subrange(start, end), b.subrange(start, end)));
            lemma_value_alike(a.subrange(start, end), b.subrange(start, end), if start == 3 {
                16
            } else {
                10
            });
        }
    }
}

proof fn lemma_decoded_alike(a: Seq<char>, b: Seq<char>)
    requires
        alike(a, b),
    ensures
        alike(decoded(a), decoded(b)),
    decreases a.len(),
{
    if a.len() > 0 {
        lemma_reference_alike(a, b);
        assert(same_letter(a[0], b[0]));
        match reference(a) {
            Some((c, n)) => {
                if 0 < n <= a.len() {
                    assert(alike(a.skip(n), b.skip(n)));
                    lemma_decoded_alike(a.skip(n), b.skip(n));
                }
            },
            None => {
                assert(alike(a.skip(1), b.skip(1)));
                lemma_decoded_alike(a.skip(1), b.skip(1));
            },
        }
    }
}

proof fn lemma_one_byte(b: u8)
    ensures
        b <= 0x7f ==> codepoint_width_1(b) == b,
{
    assert(b <= 0x7f ==> b & 0x7f == b) by (bit_vector);
}

proof fn lemma_utf8_alike(a: Seq<u8>, b: Seq<u8>)
    requires
        same_but_case(a, b),
    ensures
        valid_utf8(a) == valid_utf8(b),
        valid_utf8(a) ==> alike(decode_utf8(a), decode_utf8(b)),
    decreases a.len(),
{
    if a.len() > 0 {
        assert(lower_byte(a[0]) == lower_byte(b[0]));
        if a.len() > 1 {
            assert(lower_byte(a[1]) == lower_byte(b[1]));
        }
        if a.len() > 2 {
            assert(lower_byte(a[2]) == lower_byte(b[2]));
        }
        if a.len() > 3 {
            assert(lower_byte(a[3]) == lower_byte(b[3]));
        }
        lemma_one_byte(a[0]);
        lemma_one_byte(b[0]);
        assert(valid_first_scalar(a) == valid_first_scalar(b));
        if valid_first_scalar(a) {
            assert(length_of_first_scalar(a) == length_of_first_scalar(b));
            assert(same_letter(decode_first_scalar(a) as char, decode_first_scalar(b) as char));
            assert(same_but_case(pop_first_scalar(a), pop_first_scalar(b)));
            lemma_utf8_alike(pop_first_scalar(a), pop_first_scalar(b));
        }
    }
}

proof fn lemma_trim_front_alike(a: Seq<char>, b: Seq<char>)
    requires
        alike(a, b),
    ensures
        alike(text::trim_front(a), text::trim_front(b)),
    decreases a.len(),
{
    if a.len() > 0 {
        assert(same_letter(a[0], b[0]));
        assert(alike(a.drop_first(), b.drop_first()));
        lemma_trim_front_alike(a.drop_first(), b.drop_first());
    }
}

proof fn lemma_trim_back_alike(a: Seq<char>, b: Seq<char>)
    requires
        alike(a, b),
    ensures
        alike(text::trim_back(a), text::trim_back(b)),
    decreases a.len(),
{
    if a.len() > 0 {
        assert(same_letter(a[a.len() - 1], b[b.len() - 1]));
        assert(alike(a.drop_last(), b.drop_last()));
        lemma_trim_back_alike(a.drop_last(), b.drop_last());
    }
}

proof fn lemma_renders_alike(a: Seq<char>, b: Seq<char>)
    requires
        alike(a, b),
    ensures
        renders(a) == renders(b),
{
    lemma_first_of_alike(a, b, ';');
    text::lemma_first_of(a, ';');
    let n = text::first_of(a, ';');
    assert(alike(a.take(n), b.take(n)));
    lemma_trim_front_alike(a.take(n), b.take(n));
    lemma_trim_back_alike(text::trim_front(a.take(n)), text::trim_front(b.take(n)));
    lemma_alike(text::essence(a), text::essence(b));
}

/// The case of ASCII letters makes no difference: neither in the media type, nor in
/// the markup, nor in the digits or the `x` of a character reference.
pub proof fn case_does_not_matter(
    media_type: Seq<char>,
    respelled: Seq<char>,
    bytes: Seq<u8>,
    recased: Seq<u8>,
)
    requires
        text::lowered(media_type) == text::lowered(respelled),
        same_but_case(bytes, recased),
    ensures
        objection(media_type, bytes) == objection(respelled, recased),
{
    lemma_alike(media_type, respelled);
    lemma_renders_alike(media_type, respelled);
    lemma_utf8_alike(bytes, recased);
    assert(bytes.contains(0) == recased.contains(0)) by {
        if bytes.contains(0) {
            let i = choose|i: int| 0 <= i < bytes.len() && bytes[i] == 0;
            assert(recased[i] == 0);
        }
        if recased.contains(0) {
            let i = choose|i: int| 0 <= i < recased.len() && recased[i] == 0;
            assert(bytes[i] == 0);
        }
    }
    if valid_utf8(bytes) {
        lemma_decoded_alike(decode_utf8(bytes), decode_utf8(recased));
        lemma_alike(decoded(decode_utf8(bytes)), decoded(decode_utf8(recased)));
    }
}

} // verus!
