//! Posting a message to a peer: the request that is written, and the response that is
//! read. What goes over the wire in between is not here.
use crate::address::parse_endpoint;
use crate::address;
use crate::control::{Problem, ProblemView};
use crate::control;
use crate::delivery::content_digest;
use crate::delivery;
use crate::numerals::{decimal_u64, parse_u16};
use crate::numerals;
use crate::outside::utf8_text;
use crate::table::Record;
use crate::text::{chars_of, find_first, split_words, text_of};
use crate::text;
use vstd::prelude::*;
use vstd::string::*;
use vstd::utf8::*;

verus! {

/// How much of a response is read.
pub const MAX_RESPONSE_BODY: usize = 65536;

/// A request that is ready: where it goes, and its head.
#[derive(Debug, Clone, PartialEq, Eq)]
pub struct PostPlan {
    pub host: String,
    pub port: u16,
    pub head: String,
}

/// The view of [`PostPlan`].
#[verifier::ext_equal]
pub struct PostPlanView {
    pub host: Seq<char>,
    pub port: u16,
    pub head: Seq<char>,
}

impl View for PostPlan {
    type V = PostPlanView;

    open spec fn view(&self) -> PostPlanView {
        PostPlanView {
            host: self.host@,
            port: self.port,
            head: self.head@,
        }
    }
}

impl Record for PostPlan {
    fn dup(&self) -> (r: Self) {
        let r = PostPlan {
            host: self.host.clone(),
            port: self.port,
            head: self.head.clone(),
        };
        r
    }
}

/// Texts in one line, with a comma and a space between them.
pub open spec fn listed(texts: Seq<Seq<char>>) -> Seq<char>
    decreases texts.len(),
{
    if texts.len() == 0 {
        Seq::empty()
    } else if texts.len() == 1 {
        texts[0]
    } else {
        listed(texts.drop_last()) + ", "@ + texts.last()
    }
}

fn list_texts(texts: &Vec<String>) -> (r: String)
    ensures
        r@ == listed(text::views(texts@)),
{
    let ghost all = text::views(texts@);
    let mut r = String::new();
    let mut i: usize = 0;
    proof {
        assert(r@ =~= listed(all.take(0)));
    }
    while i < texts.len()
        invariant
            all == text::views(texts@),
            i <= all.len(),
            r@ == listed(all.take(i as int)),
        decreases all.len() - i,
    {
        proof {
            assert(all.take(i + 1).drop_last() =~= all.take(i as int));
            assert(all.take(i + 1).last() == texts@[i as int]@);
            assert(all[i as int] == texts@[i as int]@);
        }
        if i == 0 {
            r = texts[i].clone();
        } else {
            r = r.concat(", ").concat(&texts[i]);
        }
        i = i + 1;
    }
    assert(all.take(i as int) =~= all);
    r
}

/// The head of the request that posts a message. Every extension is activated.
pub open spec fn request_head(
    path: Seq<char>,
    digest: Seq<char>,
    extensions: Seq<Seq<char>>,
    length: nat,
) -> Seq<char> {
    "POST "@ + path + " HTTP/1.1\r\nHost: akson\r\nContent-Type: application/a2a+json\r\n"@
        + "a2a-version: 1.0\r\ncontent-digest: "@ + digest + "\r\na2a-extensions: "@ + listed(
        extensions,
    ) + "\r\nContent-Length: "@ + numerals::decimal(length as int) + "\r\nConnection: close\r\n\r\n"@
}

fn write_head(path: &str, digest: &str, extensions: &Vec<String>, length: usize) -> (r: String)
    ensures
        r@ == request_head(path@, digest@, text::views(extensions@), length as nat),
{
    let listing = list_texts(extensions);
    let size = decimal_u64(length as u64);
    "POST ".to_owned().concat(path).concat(
        " HTTP/1.1\r\nHost: akson\r\nContent-Type: application/a2a+json\r\n",
    ).concat("a2a-version: 1.0\r\ncontent-digest: ").concat(digest).concat(
        "\r\na2a-extensions: ",
    ).concat(&listing).concat("\r\nContent-Length: ").concat(&size).concat(
        "\r\nConnection: close\r\n\r\n",
    )
}

/// The request that posts a body to an endpoint whose parts are known.
pub open spec fn plan_to(
    parts: Option<(Seq<char>, u16, Seq<char>)>,
    body: Seq<u8>,
    extensions: Seq<Seq<char>>,
) -> Result<PostPlanView, ProblemView> {
    match parts {
        None => Err(
            control::problem_of(500, "bad-endpoint"@, "the peer endpoint is not a usable https URL"@),
        ),
        Some((host, port, path)) => Ok(
            PostPlanView {
                host,
                port,
                head: request_head(path, delivery::content_digest_of(body), extensions, body.len()),
            },
        ),
    }
}

/// The request that posts a body to an endpoint whose parts are known.
pub fn plan_for(
    parts: Option<(String, u16, String)>,
    body: &[u8],
    extensions: &Vec<String>,
) -> (r: Result<PostPlan, Problem>)
    ensures
        match (
            r,
            plan_to(
                match parts {
                    Some((h, p, t)) => Some((h@, p, t@)),
                    None => None,
                },
                body@,
                text::views(extensions@),
            ),
        ) {
            (Ok(x), Ok(y)) => x@ == y,
            (Err(p), Err(q)) => p@ == q,
            _ => false,
        },
{
    match parts {
        None => Err(
            Problem::new(500, "bad-endpoint", "the peer endpoint is not a usable https URL"),
        ),
        Some((host, port, path)) => {
            let digest = content_digest(body);
            Ok(PostPlan { host, port, head: write_head(&path, &digest, extensions, body.len()) })
        },
    }
}

/// The request that posts a body to an endpoint. Only an `https` URL is usable.
pub fn plan_post(endpoint_url: &str, body: &[u8], extensions: &Vec<String>) -> (r: Result<
    PostPlan,
    Problem,
>)
    ensures
        match (r, plan_to(address::endpoint_of(endpoint_url@), body@, text::views(extensions@))) {
            (Ok(x), Ok(y)) => x@ == y,
            (Err(p), Err(q)) => p@ == q,
            _ => false,
        },
{
    plan_for(parse_endpoint(endpoint_url), body, extensions)
}

/// The head of a response ends at a place: a blank line stands there.
pub open spec fn ends_head(raw: Seq<u8>, at: int) -> bool {
    0 <= at && at + 4 <= raw.len() && raw[at] == 13u8 && raw[at + 1] == 10u8 && raw[at + 2]
        == 13u8 && raw[at + 3] == 10u8
}

/// The first line of a text, without what ends it.
pub open spec fn first_line(s: Seq<char>) -> Seq<char> {
    text::without_return(s.take(text::first_of(s, '\n')))
}

/// The status that the head of a response gives: the second word of its first line.
pub open spec fn status_in(head: Seq<char>) -> Option<u16> {
    let line = text::words(first_line(head));
    if line.len() < 2 {
        None
    } else {
        status_number(line[1])
    }
}

/// The number that a status word denotes.
pub open spec fn status_number(word: Seq<char>) -> Option<u16> {
    match numerals::unsigned_value(word) {
        Some(n) => if n <= u16::MAX {
            Some(n as u16)
        } else {
            None
        },
        None => None,
    }
}

/// A response is split at the first blank line: the head before it gives the status,
/// and what stands after it is the body.
pub open spec fn response_at(raw: Seq<u8>, at: int) -> Option<(u16, Seq<u8>)> {
    if !valid_utf8(raw.take(at)) {
        None
    } else {
        match status_in(decode_utf8(raw.take(at))) {
            Some(status) => Some((status, raw.skip(at + 4))),
            None => None,
        }
    }
}

/// What the bytes of a response hold.
pub open spec fn holds_response(raw: Seq<u8>, response: Option<(u16, Seq<u8>)>) -> bool {
    if exists|at: int| ends_head(raw, at) {
        exists|at: int| #[trigger]
            ends_head(raw, at) && (forall|j: int| 0 <= j < at ==> !ends_head(raw, j)) && response
                == response_at(raw, at)
    } else {
        response is None
    }
}

fn find_head_end(raw: &[u8]) -> (r: Option<usize>)
    ensures
        match r {
            Some(at) => ends_head(raw@, at as int) && forall|j: int|
                0 <= j < at ==> !ends_head(raw@, j),
            None => forall|j: int| !ends_head(raw@, j),
        },
{
    let mut i: usize = 0;
    while raw.len() >= 4 && i <= raw.len() - 4
        invariant
            i <= raw@.len(),
            forall|j: int| 0 <= j < i ==> !ends_head(raw@, j),
        decreases raw@.len() - i,
    {
        if raw[i] == 13 && raw[i + 1] == 10 && raw[i + 2] == 13 && raw[i + 3] == 10 {
            return Some(i);
        }
        i = i + 1;
    }
    None
}

fn read_status(head: &str) -> (r: Option<u16>)
    ensures
        r == status_in(head@),
{
    let v = chars_of(head);
    let end = find_first(&v, 0, '\n');
    proof {
        assert(v@.skip(0) =~= v@);
        text::lemma_first_of(v@, '\n');
    }
    let cut: usize = if end > 0 && v[end - 1] == '\r' {
        end - 1
    } else {
        end
    };
    proof {
        let line = v@.take(end as int);
        assert(v@.subrange(0, end as int) =~= line);
        if end > 0 {
            assert(line.last() == v@[end - 1]);
            assert(line.drop_last() =~= v@.subrange(0, end - 1));
        }
    }
    let line = split_words(&text_of(&v, 0, cut));
    assert(text::views(line@).len() == line@.len());
    if line.len() < 2 {
        return None;
    }
    assert(text::views(line@)[1] == line@[1]@);
    parse_u16(&chars_of(&line[1]))
}

fn bytes_between(raw: &[u8], from: usize, to: usize) -> (r: Vec<u8>)
    requires
        from <= to <= raw@.len(),
    ensures
        r@ == raw@.subrange(from as int, to as int),
{
    let mut r: Vec<u8> = Vec::new();
    let mut i: usize = from;
    while i < to
        invariant
            from <= i <= to <= raw@.len(),
            r@ == raw@.subrange(from as int, i as int),
        decreases to - i,
    {
        r.push(raw[i]);
        i = i + 1;
        assert(r@ =~= raw@.subrange(from as int, i as int));
    }
    r
}

/// Splits a response into its status and its body.
pub fn split_response(raw: &[u8]) -> (r: Option<(u16, Vec<u8>)>)
    ensures
        holds_response(
            raw@,
            match r {
                Some((status, body)) => Some((status, body@)),
                None => None,
            },
        ),
{
    let at = match find_head_end(raw) {
        Some(at) => at,
        None => {
            return None;
        },
    };
    let length = raw.len();
    let head_bytes = bytes_between(raw, 0, at);
    let body = bytes_between(raw, at + 4, length);
    proof {
        assert(head_bytes@ =~= raw@.take(at as int));
        assert(body@ =~= raw@.skip(at + 4));
        assert(ends_head(raw@, at as int));
    }
    let head = match utf8_text(head_bytes) {
        Some(head) => head,
        None => {
            return None;
        },
    };
    match read_status(&head) {
        Some(status) => Some((status, body)),
        None => None,
    }
}

/// Whether more of a response is read, after so much of it.
pub fn reads_on(so_far: usize) -> (r: bool)
    ensures
        r == (so_far < MAX_RESPONSE_BODY),
{
    so_far < MAX_RESPONSE_BODY
}

/// No response came.
pub open spec fn no_response() -> ProblemView {
    control::problem_of(502, "peer-io"@, "the peer sent no HTTP response"@)
}

/// What came of posting: the status and the body of the response, or why there is
/// none.
pub open spec fn post_result(
    exchange: Result<Seq<u8>, Seq<char>>,
    r: Result<(u16, Seq<u8>), ProblemView>,
) -> bool {
    match exchange {
        Err(detail) => r == Err::<(u16, Seq<u8>), ProblemView>(
            ProblemView {
                detail: Some(detail),
                ..control::problem_of(502, "peer-io"@, "the request to the peer failed"@)
            },
        ),
        Ok(raw) => match r {
            Ok(response) => holds_response(raw, Some(response)),
            Err(p) => p == no_response() && holds_response(raw, None),
        },
    }
}

/// What came of posting, given the bytes that were read or why they could not be.
pub fn judge_exchange(exchange: Result<Vec<u8>, String>) -> (r: Result<(u16, Vec<u8>), Problem>)
    ensures
        post_result(
            match exchange {
                Ok(raw) => Ok(raw@),
                Err(detail) => Err(detail@),
            },
            match r {
                Ok((status, body)) => Ok((status, body@)),
                Err(p) => Err(p@),
            },
        ),
{
    match exchange {
        Err(detail) => {
            let mut p = Problem::new(502, "peer-io", "the request to the peer failed");
            p.detail = Some(detail);
            Err(p)
        },
        Ok(raw) => match split_response(&raw) {
            Some(response) => Ok(response),
            None => Err(Problem::new(502, "peer-io", "the peer sent no HTTP response")),
        },
    }
}

/// The bytes of a response hold one response at most.
pub proof fn a_response_is_split_one_way(
    raw: Seq<u8>,
    a: Option<(u16, Seq<u8>)>,
    b: Option<(u16, Seq<u8>)>,
)
    requires
        holds_response(raw, a),
        holds_response(raw, b),
    ensures
        a == b,
{
    if exists|at: int| ends_head(raw, at) {
        let i = choose|at: int| #[trigger]
            ends_head(raw, at) && (forall|j: int| 0 <= j < at ==> !ends_head(raw, j)) && a
                == response_at(raw, at);
        let k = choose|at: int| #[trigger]
            ends_head(raw, at) && (forall|j: int| 0 <= j < at ==> !ends_head(raw, j)) && b
                == response_at(raw, at);
        assert(i == k);
    }
}

} // verus!
