//! What is drawn or shown is refused where it could act or reach out, and passes where it
//! could not.
use crate::inert;
use crate::numerals;
use crate::text;
use vstd::prelude::*;
use vstd::utf8::*;

verus! {

/// These media types are drawn or shown as markup, whatever their case and their parameters, and
/// no others.
pub proof fn these_media_types_are_shown(media_type: Seq<char>)
    ensures
        inert::renders(media_type) <==> ({
            let m = text::lowered(text::essence(media_type));
            ||| m == "image/svg+xml"@
            ||| m == "text/html"@
            ||| m == "application/xhtml+xml"@
            ||| m == "text/markdown"@
            ||| m == "text/x-markdown"@
            ||| m == "text/vnd.mermaid"@
            ||| m == "text/vnd.graphviz"@
            ||| m == "text/vnd.graphviz+dot"@
        }),
{
}

/// A text is shown as it stands but for case, where it refers to no character by its number.
proof fn lemma_shown(bytes: Seq<u8>)
    requires
        !decode_utf8(bytes).contains('&'),
    ensures
        inert::shown(bytes) == text::lowered(decode_utf8(bytes)),
{
    inert::plain_text_is_decoded_to_itself(decode_utf8(bytes));
}

proof fn lemma_holds(t: Seq<char>, before: Seq<char>, part: Seq<char>, after: Seq<char>)
    requires
        t == before + part + after,
    ensures
        text::holds_text(t, part),
        text::stands_at(t, part, before.len() as int),
{
    assert(t.subrange(before.len() as int, (before.len() + part.len()) as int) =~= part);
    assert(text::stands_at(t, part, before.len() as int));
}

/// A shown artifact with active or embedding markup anywhere in it is refused, whatever is before
/// and after it and whatever its case.
pub proof fn embedding_markup_is_refused(
    media_type: Seq<char>,
    bytes: Seq<u8>,
    before: Seq<char>,
    marker: Seq<char>,
    after: Seq<char>,
)
    requires
        inert::renders(media_type),
        !decode_utf8(bytes).contains('&'),
        text::lowered(decode_utf8(bytes)) == before + marker + after,
        marker == "<script"@ || marker == "<iframe"@ || marker == "<object"@ || marker == "<embed"@
            || marker == "<foreignobject"@ || marker == "<applet"@ || marker == "<meta http-equiv"@
            || marker == "<!entity"@ || marker == "<!doctype"@ || marker == "<?xml-stylesheet"@,
    ensures
        inert::objection(media_type, bytes) is Some,
        valid_utf8(bytes) && !bytes.contains(0) ==> inert::objection(media_type, bytes) == Some(
            "contains active or embedding markup"@,
        ),
{
    lemma_shown(bytes);
    lemma_holds(inert::shown(bytes), before, marker, after);
}

/// A shown artifact with a URI that runs a script is refused.
pub proof fn script_uris_are_refused(
    media_type: Seq<char>,
    bytes: Seq<u8>,
    before: Seq<char>,
    marker: Seq<char>,
    after: Seq<char>,
)
    requires
        inert::renders(media_type),
        !decode_utf8(bytes).contains('&'),
        text::lowered(decode_utf8(bytes)) == before + marker + after,
        marker == "javascript:"@ || marker == "data:text/html"@ || marker == "vbscript:"@,
    ensures
        inert::objection(media_type, bytes) is Some,
{
    lemma_shown(bytes);
    lemma_holds(inert::shown(bytes), before, marker, after);
}

/// A shown artifact with an inline event handler is refused: `on` and a name of letters, at the
/// beginning of an attribute, then white space or none, and an equals sign.
pub proof fn event_handlers_are_refused(
    media_type: Seq<char>,
    bytes: Seq<u8>,
    before: Seq<char>,
    opening: char,
    name: Seq<char>,
    blanks: Seq<char>,
    after: Seq<char>,
)
    requires
        inert::renders(media_type),
        !decode_utf8(bytes).contains('&'),
        opening == ' ' || opening == '\t' || opening == '\n' || opening == '\r' || opening == '\x0c'
            || opening == '<' || opening == '/' || opening == '"' || opening == '\'',
        name.len() > 0,
        forall|i: int| 0 <= i < name.len() ==> 'a' as int <= (#[trigger] name[i]) as int <= 'z' as int,
        forall|i: int|
            0 <= i < blanks.len() ==> (#[trigger] blanks[i]) == ' ' || blanks[i] == '\t' || blanks[i]
                == '\n' || blanks[i] == '\r' || blanks[i] == '\x0c',
        text::lowered(decode_utf8(bytes)) == before + seq![opening] + "on"@ + name + blanks + seq!['=']
            + after,
    ensures
        inert::objection(media_type, bytes) is Some,
{
    lemma_shown(bytes);
    reveal_strlit("on");
    let t = inert::shown(bytes);
    let at = before.len() + 1;
    let j = at + 2 + name.len();
    let k = j + blanks.len();
    assert(t =~= before + seq![opening] + "on"@ + (name + blanks + seq!['='] + after));
    lemma_holds(t, before + seq![opening], "on"@, name + blanks + seq!['='] + after);
    assert(t[at - 1] == opening);
    assert forall|x: int| at + 2 <= x < j implies inert::is_lower_letter(#[trigger] t[x]) by {
        assert(t[x] == name[x - at - 2]);
    }
    assert forall|x: int| j <= x < k implies inert::is_blank(#[trigger] t[x]) by {
        assert(t[x] == blanks[x - j]);
    }
    assert(t[k as int] == '=');
    assert(inert::handler_ends(t, at as int, j as int, k as int));
    assert(inert::handler_at(t, at as int));
}

/// A shown artifact that refers to an outside URL is refused: one of the attributes that are
/// fetched, signs that lead to its value, and an absolute URL or one that only leaves the
/// protocol open.
pub proof fn outside_references_are_refused(
    media_type: Seq<char>,
    bytes: Seq<u8>,
    before: Seq<char>,
    attribute: Seq<char>,
    lead: Seq<char>,
    url: Seq<char>,
    after: Seq<char>,
)
    requires
        inert::renders(media_type),
        !decode_utf8(bytes).contains('&'),
        attribute == "href"@ || attribute == "src"@ || attribute == "srcset"@,
        forall|i: int|
            0 <= i < lead.len() ==> (#[trigger] lead[i]) == '=' || lead[i] == '"' || lead[i] == '\''
                || lead[i] == '(' || lead[i] == ' ' || lead[i] == '\t' || lead[i] == '\n' || lead[i]
                == '\r' || lead[i] == '\x0c',
        url == "http://"@ || url == "https://"@ || url == "//"@,
        text::lowered(decode_utf8(bytes)) == before + attribute + lead + url + after,
    ensures
        inert::objection(media_type, bytes) is Some,
{
    lemma_shown(bytes);
    let t = inert::shown(bytes);
    let end = (before.len() + attribute.len()) as int;
    let m = end + lead.len();
    assert(t =~= before + attribute + (lead + url + after));
    lemma_holds(t, before, attribute, lead + url + after);
    assert(t =~= (before + attribute + lead) + url + after);
    lemma_holds(t, before + attribute + lead, url, after);
    assert forall|x: int| end <= x < m implies inert::is_lead(#[trigger] t[x]) by {
        assert(t[x] == lead[x - end]);
    }
    assert(inert::target_at(t, end, m));
    assert(inert::leads_out(t, attribute, false, before.len() as int));
    assert(inert::refers_by(t, attribute, false));
}

/// So is one that reaches an outside URL by a function of a style sheet.
pub proof fn outside_style_urls_are_refused(
    media_type: Seq<char>,
    bytes: Seq<u8>,
    before: Seq<char>,
    sign: char,
    lead: Seq<char>,
    url: Seq<char>,
    after: Seq<char>,
)
    requires
        inert::renders(media_type),
        !decode_utf8(bytes).contains('&'),
        before.len() == 0 || !('a' as int <= before.last() as int <= 'z' as int) && !('A' as int
            <= before.last() as int <= 'Z' as int) && !('0' as int <= before.last() as int <= '9' as int),
        sign == '(' || sign == '=',
        forall|i: int|
            0 <= i < lead.len() ==> (#[trigger] lead[i]) == '"' || lead[i] == '\'' || lead[i] == ' ',
        url == "http://"@ || url == "https://"@ || url == "//"@,
        text::lowered(decode_utf8(bytes)) == before + "url"@ + seq![sign] + lead + url + after,
    ensures
        inert::objection(media_type, bytes) is Some,
{
    lemma_shown(bytes);
    let t = inert::shown(bytes);
    let anchor = "url"@;
    let end = (before.len() + anchor.len()) as int;
    let m = end + 1 + lead.len();
    assert(t =~= before + anchor + (seq![sign] + lead + url + after));
    lemma_holds(t, before, anchor, seq![sign] + lead + url + after);
    assert(t =~= (before + anchor + seq![sign] + lead) + url + after);
    lemma_holds(t, before + anchor + seq![sign] + lead, url, after);
    assert forall|x: int| end <= x < m implies inert::is_lead(#[trigger] t[x]) by {
        if x > end {
            assert(t[x] == lead[x - end - 1]);
        }
    }
    assert(inert::target_at(t, end, m));
    assert(t[end] == sign);
    assert(inert::assignment_at(t, end, end));
    if before.len() > 0 {
        assert(t[before.len() - 1] == before.last());
    }
    assert(inert::is_assigned(t, before.len() as int, end));
    assert(inert::leads_out(t, anchor, true, before.len() as int));
    assert(inert::refers_by(t, anchor, true));
}

proof fn lemma_not_held(t: Seq<char>, part: Seq<char>, i: int)
    requires
        0 <= i < part.len(),
        !t.contains(part[i]),
    ensures
        !text::holds_text(t, part),
{
    if text::holds_text(t, part) {
        let at = choose|at: int| text::stands_at(t, part, at);
        assert(t.subrange(at, at + part.len())[i] == t[at + i]);
        assert(t.contains(t[at + i]));
    }
}

/// Plain prose passes: a clean text without a tag, a colon, an equals sign and a slash is inert,
/// whatever its media type.
pub proof fn plain_prose_passes(media_type: Seq<char>, bytes: Seq<u8>)
    requires
        valid_utf8(bytes),
        !bytes.contains(0),
        !decode_utf8(bytes).contains('&'),
        forall|i: int|
            0 <= i < decode_utf8(bytes).len() ==> (#[trigger] decode_utf8(bytes)[i]) != '<'
                && decode_utf8(bytes)[i] != ':' && decode_utf8(bytes)[i] != '=' && decode_utf8(
                bytes,
            )[i] != '/',
    ensures
        inert::objection(media_type, bytes) is None,
{
    lemma_shown(bytes);
    let s = decode_utf8(bytes);
    let t = inert::shown(bytes);
    assert forall|c: char| c == '<' || c == ':' || c == '=' || c == '/' implies !t.contains(c) by {
        if t.contains(c) {
            let i = choose|i: int| 0 <= i < t.len() && t[i] == c;
            assert(t[i] == text::lower(s[i]));
        }
    }
    reveal_strlit("<script");
    reveal_strlit("<iframe");
    reveal_strlit("<object");
    reveal_strlit("<embed");
    reveal_strlit("<foreignobject");
    reveal_strlit("<applet");
    reveal_strlit("<meta http-equiv");
    reveal_strlit("<!entity");
    reveal_strlit("<!doctype");
    reveal_strlit("<?xml-stylesheet");
    lemma_not_held(t, "<script"@, 0);
    lemma_not_held(t, "<iframe"@, 0);
    lemma_not_held(t, "<object"@, 0);
    lemma_not_held(t, "<embed"@, 0);
    lemma_not_held(t, "<foreignobject"@, 0);
    lemma_not_held(t, "<applet"@, 0);
    lemma_not_held(t, "<meta http-equiv"@, 0);
    lemma_not_held(t, "<!entity"@, 0);
    lemma_not_held(t, "<!doctype"@, 0);
    lemma_not_held(t, "<?xml-stylesheet"@, 0);
    reveal_strlit("javascript:");
    reveal_strlit("data:text/html");
    reveal_strlit("vbscript:");
    lemma_not_held(t, "javascript:"@, 10);
    lemma_not_held(t, "data:text/html"@, 4);
    lemma_not_held(t, "vbscript:"@, 8);
    assert forall|at: int| !#[trigger] inert::handler_at(t, at) by {
        if inert::handler_at(t, at) {
            let (j, k) = choose|j: int, k: int| #[trigger] inert::handler_ends(t, at, j, k);
            assert(t.contains(t[k]));
        }
    }
    reveal_strlit("http://");
    reveal_strlit("https://");
    reveal_strlit("//");
    assert forall|m: int| !#[trigger] inert::url_at(t, m) by {
        if text::stands_at(t, "http://"@, m) {
            assert(t.subrange(m, m + 7)[5] == t[m + 5]);
            assert(t.contains(t[m + 5]));
        }
        if text::stands_at(t, "https://"@, m) {
            assert(t.subrange(m, m + 8)[6] == t[m + 6]);
            assert(t.contains(t[m + 6]));
        }
        if text::stands_at(t, "//"@, m) {
            assert(t.subrange(m, m + 2)[0] == t[m]);
            assert(t.contains(t[m]));
        }
    }
    assert forall|anchor: Seq<char>, bare: bool| !#[trigger] inert::refers_by(t, anchor, bare) by {
        if inert::refers_by(t, anchor, bare) {
            let at = choose|at: int| #[trigger] inert::leads_out(t, anchor, bare, at);
            let m = choose|m: int| #[trigger] inert::target_at(t, at + anchor.len(), m);
            assert(inert::url_at(t, m));
        }
    }
}

proof fn lemma_value_of_digits(s: Seq<char>)
    requires
        numerals::digits_value(s) is Some,
    ensures
        inert::value_in(s, 10) == Some(numerals::digits_value(s)->0 as int),
    decreases s.len(),
{
    if s.len() == 1 {
        assert(s.drop_last().len() == 0);
        assert(s.last() == s[0]);
    } else {
        lemma_value_of_digits(s.drop_last());
    }
}

/// A character that is written by its decimal number is taken for that character, wherever it
/// first stands: a text that writes `&#60;script` is one that holds `<script`.
pub proof fn a_numbered_character_is_that_character(
    before: Seq<char>,
    digits: Seq<char>,
    n: nat,
    after: Seq<char>,
)
    requires
        !before.contains('&'),
        numerals::digits_value(digits) == Some(n),
        n <= 0xD7FF || 0xE000 <= n <= 0x10FFFF,
    ensures
        inert::decoded(before + seq!['&', '#'] + digits + seq![';'] + after) == before + seq![n as char]
            + inert::decoded(after),
    decreases before.len(),
{
    let s = before + seq!['&', '#'] + digits + seq![';'] + after;
    if before.len() > 0 {
        assert(before.contains(before[0]));
        assert(s[0] == before[0]);
        assert(inert::reference(s) is None);
        let rest = before.drop_first();
        assert(!rest.contains('&')) by {
            if rest.contains('&') {
                let i = choose|i: int| 0 <= i < rest.len() && rest[i] == '&';
                assert(before[i + 1] == '&');
            }
        }
        assert(s.skip(1) =~= rest + seq!['&', '#'] + digits + seq![';'] + after);
        a_numbered_character_is_that_character(rest, digits, n, after);
        assert(seq![s[0]] + (rest + seq![n as char] + inert::decoded(after)) =~= before
            + seq![n as char] + inert::decoded(after));
    } else {
        lemma_value_of_digits(digits);
        lemma_all_digits(digits);
        assert(s[0] == '&' && s[1] == '#');
        assert(digits.len() > 0);
        assert(s[2] == digits[0]);
        assert(numerals::is_digit(digits[0]));
        let tail = s.skip(2);
        assert(tail =~= digits + seq![';'] + after);
        text::lemma_first_of(tail, ';');
        let f = text::first_of(tail, ';');
        assert(tail[digits.len() as int] == ';');
        if f < digits.len() {
            assert(tail[f] == digits[f]);
            assert(numerals::is_digit(digits[f]));
            assert(false);
        }
        assert(f == digits.len());
        let end = 2 + f;
        assert(s.subrange(2, end) =~= digits);
        assert(inert::reference(s) == Some((n as char, end + 1)));
        assert(s.skip(end + 1) =~= after);
        assert(before + seq![n as char] =~= seq![n as char]);
    }
}

/// So is one that is written by two hexadecimal digits.
pub proof fn a_hexadecimal_character_is_that_character(
    before: Seq<char>,
    x: char,
    high: int,
    low: int,
    after: Seq<char>,
)
    requires
        !before.contains('&'),
        x == 'x' || x == 'X',
        0 <= high < 16,
        0 <= low < 16,
    ensures
        inert::decoded(
            before + seq!['&', '#', x, numerals::hex_digit(high), numerals::hex_digit(low), ';'] + after,
        ) == before + seq![(16 * high + low) as char] + inert::decoded(after),
    decreases before.len(),
{
    let a = numerals::hex_digit(high);
    let b = numerals::hex_digit(low);
    let s = before + seq!['&', '#', x, a, b, ';'] + after;
    let c = (16 * high + low) as char;
    if before.len() > 0 {
        assert(before.contains(before[0]));
        assert(s[0] == before[0]);
        assert(inert::reference(s) is None);
        let rest = before.drop_first();
        assert(!rest.contains('&')) by {
            if rest.contains('&') {
                let i = choose|i: int| 0 <= i < rest.len() && rest[i] == '&';
                assert(before[i + 1] == '&');
            }
        }
        assert(s.skip(1) =~= rest + seq!['&', '#', x, a, b, ';'] + after);
        a_hexadecimal_character_is_that_character(rest, x, high, low, after);
        assert(seq![s[0]] + (rest + seq![c] + inert::decoded(after)) =~= before + seq![c]
            + inert::decoded(after));
    } else {
        assert(s[0] == '&' && s[1] == '#' && s[2] == x && s[3] == a && s[4] == b && s[5] == ';');
        let tail = s.skip(3);
        assert(tail[0] == a && tail[1] == b && tail[2] == ';');
        assert(a != ';' && b != ';');
        text::lemma_first_of(tail, ';');
        assert(text::first_of(tail, ';') == 2);
        let digits = s.subrange(3, 5);
        assert(digits =~= seq![a, b]);
        assert(digits.drop_last() =~= seq![a]);
        assert(digits.drop_last().drop_last().len() == 0);
        reveal_with_fuel(inert::value_in, 3);
        assert(inert::digit_in(a, 16) == Some(high));
        assert(inert::digit_in(b, 16) == Some(low));
        assert(inert::value_in(digits, 16) == Some(16 * high + low));
        assert(inert::reference(s) == Some((c, 6int)));
        assert(s.skip(6) =~= after);
        assert(before + seq![c] =~= seq![c]);
    }
}

proof fn lemma_all_digits(s: Seq<char>)
    requires
        numerals::digits_value(s) is Some,
    ensures
        s.len() > 0,
        forall|i: int| 0 <= i < s.len() ==> numerals::is_digit(#[trigger] s[i]),
    decreases s.len(),
{
    if s.len() > 1 {
        lemma_all_digits(s.drop_last());
        assert forall|i: int| 0 <= i < s.len() implies numerals::is_digit(#[trigger] s[i]) by {
            if i < s.len() - 1 {
                assert(s.drop_last()[i] == s[i]);
            }
        }
    }
}

} // verus!
