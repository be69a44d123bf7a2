//! How peers are named and reached: labels, endpoint hints and endpoint URLs.
use crate::control::{Problem, ProblemView};
use crate::control;
use crate::numerals::parse_u16;
use crate::numerals;
use crate::outside::{UrlParts, UrlPartsView, debug_quote, parse_url};
use crate::outside;
use crate::text::{chars_of, find_first, find_last, matches_at, same_text, text_of};
use crate::text;
use vstd::prelude::*;
use vstd::string::*;

verus! {

/// A character of a label: a lower-case ASCII letter, a digit or a hyphen.
pub open spec fn is_label_char(c: char) -> bool {
    'a' as int <= c as int <= 'z' as int || '0' as int <= c as int <= '9' as int || c == '-'
}

/// A label: 1 to 64 of its characters, no hyphen at an end and no two together.
pub open spec fn is_label(s: Seq<char>) -> bool {
    &&& 1 <= s.len() <= 64
    &&& forall|i: int| 0 <= i < s.len() ==> is_label_char(#[trigger] s[i])
    &&& s[0] != '-'
    &&& s.last() != '-'
    &&& forall|i: int| 0 < i < s.len() ==> !((#[trigger] s[i]) == '-' && s[i - 1] == '-')
}

/// Whether a text is a label. Labels are routing keys and go to a terminal.
pub fn valid_label(label: &str) -> (r: bool)
    ensures
        r == is_label(label@),
{
    let v = chars_of(label);
    if v.len() == 0 || v.len() > 64 {
        return false;
    }
    if v[0] == '-' || v[v.len() - 1] == '-' {
        return false;
    }
    let mut i: usize = 0;
    while i < v.len()
        invariant
            v@ == label@,
            i <= v@.len(),
            forall|j: int| 0 <= j < i ==> is_label_char(#[trigger] v@[j]),
            forall|j: int| 0 < j < i ==> !((#[trigger] v@[j]) == '-' && v@[j - 1] == '-'),
        decreases v@.len() - i,
    {
        let c = v[i];
        if !(('a' <= c && c <= 'z') || ('0' <= c && c <= '9') || c == '-') {
            assert(!is_label_char(label@[i as int]));
            return false;
        }
        if i > 0 && c == '-' && v[i - 1] == '-' {
            assert(label@[i as int] == '-' && label@[i - 1] == '-');
            return false;
        }
        i = i + 1;
    }
    true
}

/// A character of a host: an ASCII letter or digit, a dot, a hyphen or a colon.
pub open spec fn is_host_char(c: char) -> bool {
    'a' as int <= c as int <= 'z' as int || 'A' as int <= c as int <= 'Z' as int || '0' as int
        <= c as int <= '9' as int || c == '.' || c == '-' || c == ':'
}

/// An endpoint hint that can be dialled as it is written: a host, a colon and a port
/// that is not zero.
pub open spec fn is_hint(s: Seq<char>) -> bool {
    let at = text::last_of(s, ':');
    &&& 0 < at <= 253
    &&& forall|i: int| 0 <= i < at ==> is_host_char(#[trigger] s[i])
    &&& match numerals::unsigned_value(s.skip(at + 1)) {
        Some(port) => 0 < port <= u16::MAX,
        None => false,
    }
}

/// Whether a text is an endpoint hint.
pub fn valid_hint(hint: &str) -> (r: bool)
    ensures
        r == is_hint(hint@),
{
    let v = chars_of(hint);
    let at = match find_last(&v, ':') {
        Some(at) => at,
        None => {
            return false;
        },
    };
    if at == 0 || at > 253 {
        return false;
    }
    let mut i: usize = 0;
    while i < at
        invariant
            v@ == hint@,
            at == text::last_of(v@, ':'),
            i <= at < v@.len(),
            forall|j: int| 0 <= j < i ==> is_host_char(#[trigger] v@[j]),
        decreases at - i,
    {
        let c = v[i];
        if !(('a' <= c && c <= 'z') || ('A' <= c && c <= 'Z') || ('0' <= c && c <= '9') || c == '.'
            || c == '-' || c == ':') {
            assert(!is_host_char(hint@[i as int]));
            return false;
        }
        i = i + 1;
    }
    let mut port: Vec<char> = Vec::new();
    let mut k: usize = at + 1;
    while k < v.len()
        invariant
            at + 1 <= k <= v@.len(),
            port@ == v@.subrange(at + 1, k as int),
        decreases v@.len() - k,
    {
        port.push(v[k]);
        k = k + 1;
    }
    assert(port@ =~= hint@.skip(at + 1));
    match parse_u16(&port) {
        Some(p) => p > 0,
        None => false,
    }
}

/// The scheme that an interface URL begins with.
pub open spec fn https_prefix() -> Seq<char> {
    "https://"@
}

/// A host and a port stand on the two sides of the last colon. A colon within brackets
/// belongs to the host.
pub open spec fn has_port(s: Seq<char>) -> bool {
    let colon = text::last_of(s, ':');
    &&& 0 < colon < s.len() - 1
    &&& !s.skip(colon).contains(']')
}

/// The host and port of an interface URL, as a hint; none where it has no explicit
/// port.
pub open spec fn hint_of(url: Seq<char>) -> Option<Seq<char>> {
    if !text::stands_at(url, https_prefix(), 0) {
        None
    } else {
        let rest = url.skip(https_prefix().len() as int);
        let hint = rest.take(text::first_of(rest, '/'));
        if has_port(hint) {
            Some(hint)
        } else {
            None
        }
    }
}

fn port_follows(v: &Vec<char>) -> (r: bool)
    ensures
        r == has_port(v@),
{
    let colon = match find_last(v, ':') {
        Some(at) => at,
        None => {
            return false;
        },
    };
    if colon == 0 || colon == v.len() - 1 {
        return false;
    }
    let bracket = find_first(v, colon, ']');
    proof {
        text::lemma_first_of(v@.skip(colon as int), ']');
    }
    bracket == v.len()
}

/// The host and port that an interface URL begins with, to be handed out with the
/// token.
pub fn host_port_of(interface_url: &str) -> (r: Option<String>)
    ensures
        text::view_option(r) == hint_of(interface_url@),
{
    let v = chars_of(interface_url);
    let prefix = chars_of("https://");
    if !matches_at(&v, &prefix, 0) {
        return None;
    }
    let start = prefix.len();
    let end = find_first(&v, start, '/');
    let ghost rest = interface_url@.skip(https_prefix().len() as int);
    proof {
        text::lemma_first_of(rest, '/');
        assert(v@.subrange(start as int, end as int) =~= rest.take(text::first_of(rest, '/')));
    }
    let hint = text_of(&v, start, end);
    if port_follows(&chars_of(&hint)) {
        Some(hint)
    } else {
        None
    }
}

/// What the parts of a URL come to as an endpoint: its host, port and path. Only
/// `https` is usable. Without a port it is 443, and without a path it is `/`.
pub open spec fn endpoint_parts(url: UrlPartsView) -> Option<(Seq<char>, u16, Seq<char>)> {
    if url.scheme != "https"@ {
        None
    } else {
        match url.host {
            Some(host) => Some(
                (
                    host,
                    match url.port {
                        Some(port) => port,
                        None => 443,
                    },
                    if url.path.len() == 0 {
                        "/"@
                    } else {
                        url.path
                    },
                ),
            ),
            None => None,
        }
    }
}

/// The host, port and path of an endpoint URL.
pub open spec fn endpoint_of(text: Seq<char>) -> Option<(Seq<char>, u16, Seq<char>)> {
    match outside::url_parts(text) {
        Some(url) => endpoint_parts(url),
        None => None,
    }
}

/// Reads the parts of a URL as an endpoint.
pub fn read_endpoint(url: UrlParts) -> (r: Option<(String, u16, String)>)
    ensures
        match r {
            Some((host, port, path)) => endpoint_parts(url@) == Some((host@, port, path@)),
            None => endpoint_parts(url@) is None,
        },
{
    if !same_text(&url.scheme, "https") {
        return None;
    }
    let host = match url.host {
        Some(host) => host,
        None => {
            return None;
        },
    };
    let port: u16 = match url.port {
        Some(port) => port,
        None => 443,
    };
    let path = if url.path.as_str().is_empty() {
        "/".to_owned()
    } else {
        url.path
    };
    Some((host, port, path))
}

/// Reads an endpoint URL: its host, port and path. Only `https` is usable.
pub fn parse_endpoint(endpoint: &str) -> (r: Option<(String, u16, String)>)
    ensures
        match r {
            Some((host, port, path)) => endpoint_of(endpoint@) == Some((host@, port, path@)),
            None => endpoint_of(endpoint@) is None,
        },
{
    match parse_url(endpoint) {
        Some(url) => read_endpoint(url),
        None => None,
    }
}

/// No imported peer has this label.
pub open spec fn unknown_label_problem(label: Seq<char>) -> ProblemView {
    control::problem_of(404, "unknown-peer"@, "no imported peer is labeled "@ + outside::quoted(label))
}

/// The problem of a label that names no imported peer.
pub fn unknown_label(label: &str) -> (p: Problem)
    ensures
        p@ == unknown_label_problem(label@),
{
    let quoted = debug_quote(label);
    Problem::new(
        404,
        "unknown-peer",
        &"no imported peer is labeled ".to_owned().concat(&quoted),
    )
}

/// A hint is never empty and holds no white space and no control character, so that
/// it can be shown as it is.
pub proof fn hints_are_printable(s: Seq<char>, i: int)
    requires
        is_hint(s),
        0 <= i < text::last_of(s, ':'),
    ensures
        !text::is_white_space(s[i]),
        !text::is_control_char(s[i]),
{
    assert(is_host_char(s[i]));
}

/// Nor does a label.
pub proof fn labels_are_printable(s: Seq<char>, i: int)
    requires
        is_label(s),
        0 <= i < s.len(),
    ensures
        !text::is_white_space(s[i]),
        !text::is_control_char(s[i]),
{
    assert(is_label_char(s[i]));
}

} // verus!
