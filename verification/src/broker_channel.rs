//! The channel over which a confined worker asks for processor calls: one request a
//! line, one answer a line. The worker never reaches the network; what it asks for is
//! decided and made on this side.
//!
//! A line is bounded as it is read, not after: no more than the bound is ever held.
use crate::table::Record;
use crate::text::bytes_of;
use vstd::prelude::*;
use vstd::utf8::*;

verus! {

/// The longest request.
pub const MAX_REQUEST_BYTES: usize = 1048576;

/// How many requests one worker can make.
pub const MAX_REQUESTS: usize = 1024;

/// A request of a worker: the processor, and what to ask it.
#[derive(Debug, Clone, PartialEq, Eq)]
pub struct BrokerRequest {
    pub processor_id: String,
    pub request: String,
}

/// The view of [`BrokerRequest`].
#[verifier::ext_equal]
pub struct BrokerRequestView {
    pub processor_id: Seq<char>,
    pub request: Seq<char>,
}

impl View for BrokerRequest {
    type V = BrokerRequestView;

    open spec fn view(&self) -> BrokerRequestView {
        BrokerRequestView {
            processor_id: self.processor_id@,
            request: self.request@,
        }
    }
}

impl Record for BrokerRequest {
    fn dup(&self) -> (r: Self) {
        let r = BrokerRequest {
            processor_id: self.processor_id.clone(),
            request: self.request.clone(),
        };
        r
    }
}

/// What came of reading one line.
#[derive(Debug, Clone, PartialEq, Eq)]
pub enum LineRead {
    /// A whole line, without what ends it.
    Line(Vec<u8>),
    /// The input ended.
    Eof,
    /// The line is over the bound. What follows is not read.
    TooLarge,
    /// The input could not be read.
    Failed,
}

/// The view of [`LineRead`].
pub enum LineReadView {
    Line(Seq<u8>),
    Eof,
    TooLarge,
    Failed,
}

impl View for LineRead {
    type V = LineReadView;

    open spec fn view(&self) -> LineReadView {
        match self {
            LineRead::Line(bytes) => LineReadView::Line(bytes@),
            LineRead::Eof => LineReadView::Eof,
            LineRead::TooLarge => LineReadView::TooLarge,
            LineRead::Failed => LineReadView::Failed,
        }
    }
}

/// What is taken from the input at once.
#[derive(Debug, Clone, Copy, PartialEq, Eq)]
pub enum Taken {
    Byte(u8),
    End,
    Failure,
}

/// A line that is being read, and its bound.
#[derive(Debug)]
pub struct LineBuffer {
    cap: usize,
    bytes: Vec<u8>,
}

impl LineBuffer {
    /// The bound of the line.
    pub closed spec fn cap(&self) -> nat {
        self.cap as nat
    }

    /// What was read of the line.
    pub closed spec fn so_far(&self) -> Seq<u8> {
        self.bytes@
    }

    /// No more is held than the bound.
    pub open spec fn wf(&self) -> bool {
        self.so_far().len() <= self.cap()
    }

    /// A line of which nothing was read.
    pub fn new(cap: usize) -> (r: LineBuffer)
        ensures
            r.wf(),
            r.cap() == cap,
            r.so_far() == Seq::<u8>::empty(),
    {
        LineBuffer { cap, bytes: Vec::new() }
    }

    /// Goes on with what was taken from the input. A line that is done is given, and
    /// the next one begins.
    pub fn feed(&mut self, taken: Taken) -> (r: Option<LineRead>)
        requires
            old(self).wf(),
        ensures
            final(self).wf(),
            final(self).cap() == old(self).cap(),
            match taken {
                Taken::End => r == Some(LineRead::Eof) && final(self).so_far() == old(self).so_far(),
                Taken::Failure => r == Some(LineRead::Failed) && final(self).so_far() == old(
                    self,
                ).so_far(),
                Taken::Byte(b) => if b == 10 {
                    &&& r is Some
                    &&& r->Some_0@ == LineReadView::Line(old(self).so_far())
                    &&& final(self).so_far() == Seq::<u8>::empty()
                } else if old(self).so_far().len() >= old(self).cap() {
                    r == Some(LineRead::TooLarge) && final(self).so_far() == old(self).so_far()
                } else {
                    r is None && final(self).so_far() == old(self).so_far().push(b)
                },
            },
    {
        match taken {
            Taken::End => Some(LineRead::Eof),
            Taken::Failure => Some(LineRead::Failed),
            Taken::Byte(b) => {
                if b == 10 {
                    let mut line: Vec<u8> = Vec::new();
                    std::mem::swap(&mut line, &mut self.bytes);
                    assert(self.bytes@ =~= Seq::<u8>::empty());
                    Some(LineRead::Line(line))
                } else if self.bytes.len() >= self.cap {
                    Some(LineRead::TooLarge)
                } else {
                    self.bytes.push(b);
                    None
                }
            },
        }
    }
}

/// The first line end in the input; its length where there is none.
pub open spec fn line_end(input: Seq<u8>) -> int
    decreases input.len(),
{
    if input.len() == 0 || input[0] == 10 {
        0
    } else {
        1 + line_end(input.skip(1))
    }
}

/// What reading one line of the input gives, and how much of the input it takes.
pub open spec fn line_of(input: Seq<u8>, cap: nat) -> (LineReadView, int) {
    let end = line_end(input);
    if end > cap {
        (LineReadView::TooLarge, cap as int + 1)
    } else if end < input.len() {
        (LineReadView::Line(input.take(end)), end + 1)
    } else {
        (LineReadView::Eof, end)
    }
}

proof fn lemma_line_end(input: Seq<u8>)
    ensures
        0 <= line_end(input) <= input.len(),
        forall|i: int| 0 <= i < line_end(input) ==> input[i] != 10,
        line_end(input) < input.len() ==> input[line_end(input)] == 10,
    decreases input.len(),
{
    if input.len() > 0 && input[0] != 10 {
        let rest = input.skip(1);
        lemma_line_end(rest);
        assert forall|i: int| 0 <= i < line_end(input) implies input[i] != 10 by {
            if i > 0 {
                assert(input[i] == rest[i - 1]);
            }
        }
        if line_end(input) < input.len() {
            assert(rest[line_end(rest)] == input[line_end(input)]);
        }
    }
}

proof fn lemma_line_end_is(input: Seq<u8>, end: int)
    requires
        0 <= end <= input.len(),
        forall|i: int| 0 <= i < end ==> input[i] != 10,
        end < input.len() ==> input[end] == 10,
    ensures
        line_end(input) == end,
{
    lemma_line_end(input);
    if line_end(input) < end {
        assert(input[line_end(input)] != 10);
    }
}

/// Reads one line of the input from a place on, and says where the next one begins.
/// The line is over the bound as soon as one more byte comes that does not end it.
pub fn read_capped_line(input: &[u8], from: usize, cap: usize) -> (r: (LineRead, usize))
    requires
        from <= input@.len(),
    ensures
        r.0@ == line_of(input@.skip(from as int), cap as nat).0,
        r.1 == from + line_of(input@.skip(from as int), cap as nat).1,
        r.1 <= input@.len(),
{
    let ghost rest = input@.skip(from as int);
    let length = input.len();
    let mut line = LineBuffer::new(cap);
    let mut i: usize = from;
    while i < length
        invariant
            rest == input@.skip(from as int),
            length == input@.len(),
            from <= i <= length,
            line.wf(),
            line.cap() == cap,
            line.so_far() =~= rest.take(i - from),
            forall|j: int| 0 <= j < i - from ==> rest[j] != 10,
        decreases length - i,
    {
        let ghost n = i - from;
        assert(rest[n] == input@[i as int]);
        assert(rest.take(n + 1) =~= rest.take(n).push(rest[n]));
        proof {
            lemma_line_end(rest);
            if rest[n] == 10 {
                lemma_line_end_is(rest, n);
            } else if line_end(rest) <= n {
                assert(rest[line_end(rest)] == 10);
            }
        }
        match line.feed(Taken::Byte(input[i])) {
            Some(read) => {
                return (read, i + 1);
            },
            None => {},
        }
        i = i + 1;
    }
    proof {
        lemma_line_end_is(rest, rest.len() as int);
    }
    (LineRead::Eof, i)
}

/// What a line of the channel comes to.
#[derive(Debug, Clone, PartialEq, Eq)]
pub enum ChannelStep {
    /// The channel is done.
    Stop,
    /// Nothing was asked; go on.
    Skip,
    /// A request is to be read from these bytes.
    Read(Vec<u8>),
    /// The answer is an error, and the channel is done.
    Refuse(String),
}

/// The view of [`ChannelStep`].
pub enum ChannelStepView {
    Stop,
    Skip,
    Read(Seq<u8>),
    Refuse(Seq<char>),
}

impl View for ChannelStep {
    type V = ChannelStepView;

    open spec fn view(&self) -> ChannelStepView {
        match self {
            ChannelStep::Stop => ChannelStepView::Stop,
            ChannelStep::Skip => ChannelStepView::Skip,
            ChannelStep::Read(bytes) => ChannelStepView::Read(bytes@),
            ChannelStep::Refuse(error) => ChannelStepView::Refuse(error@),
        }
    }
}

/// What comes of a line, after so many lines.
pub open spec fn step_of(served: nat, read: LineReadView) -> ChannelStepView {
    if served >= MAX_REQUESTS {
        ChannelStepView::Stop
    } else {
        match read {
            LineReadView::Line(bytes) => if bytes.len() == 0 {
                ChannelStepView::Skip
            } else {
                ChannelStepView::Read(bytes)
            },
            LineReadView::TooLarge => ChannelStepView::Refuse("request too large"@),
            LineReadView::Eof => ChannelStepView::Stop,
            LineReadView::Failed => ChannelStepView::Stop,
        }
    }
}

/// Decides what comes of a line, after so many lines.
pub fn channel_step(served: usize, read: LineRead) -> (r: ChannelStep)
    ensures
        r@ == step_of(served as nat, read@),
{
    if served >= MAX_REQUESTS {
        return ChannelStep::Stop;
    }
    match read {
        LineRead::Line(bytes) => if bytes.len() == 0 {
            ChannelStep::Skip
        } else {
            ChannelStep::Read(bytes)
        },
        LineRead::TooLarge => ChannelStep::Refuse("request too large".to_owned()),
        LineRead::Eof => ChannelStep::Stop,
        LineRead::Failed => ChannelStep::Stop,
    }
}

/// What a request that was read, or could not be, comes to.
#[derive(Debug, Clone, PartialEq, Eq)]
pub enum ChannelAnswer {
    /// Make the call.
    Call { processor_id: String, request: Vec<u8> },
    /// Answer with an error, and do nothing.
    Error(String),
}

/// What is done for a request.
pub open spec fn answers_request(parsed: Option<BrokerRequest>, r: ChannelAnswer) -> bool {
    match (parsed, r) {
        (Some(req), ChannelAnswer::Call { processor_id, request }) => processor_id@
            == req.processor_id@ && request@ == encode_utf8(req.request@),
        (None, ChannelAnswer::Error(e)) => e@ == "malformed broker request"@,
        _ => false,
    }
}

/// Decides what is done for a request that was read, or could not be.
pub fn channel_answer(parsed: &Option<BrokerRequest>) -> (r: ChannelAnswer)
    ensures
        answers_request(*parsed, r),
{
    match parsed {
        Some(req) => ChannelAnswer::Call {
            processor_id: req.processor_id.clone(),
            request: bytes_of(req.request.as_str().as_bytes()),
        },
        None => ChannelAnswer::Error("malformed broker request".to_owned()),
    }
}

/// A line over the bound is refused by the bytes up to the bound: what follows them
/// makes no difference.
pub proof fn oversized_lines_are_refused_early(a: Seq<u8>, b: Seq<u8>, cap: nat)
    requires
        a.len() > cap,
        b.len() > cap,
        a.take(cap as int + 1) == b.take(cap as int + 1),
        line_of(a, cap).0 is TooLarge,
    ensures
        line_of(b, cap) == line_of(a, cap),
{
    lemma_line_end(a);
    lemma_line_end(b);
    if line_end(b) <= cap {
        let i = line_end(b);
        assert(b.take(cap as int + 1)[i] == b[i]);
        assert(a.take(cap as int + 1)[i] == a[i]);
        assert(a[i] != 10);
        assert(b[i] == 10);
    }
}

/// A short line is read as it was written, whatever follows it.
pub proof fn lines_read_back(line: Seq<u8>, rest: Seq<u8>, cap: nat)
    requires
        line.len() <= cap,
        forall|i: int| 0 <= i < line.len() ==> line[i] != 10,
    ensures
        line_of(line.push(10) + rest, cap) == (LineReadView::Line(line), line.len() as int + 1),
{
    let input = line.push(10) + rest;
    assert forall|i: int| 0 <= i < line.len() implies input[i] != 10 by {
        assert(input[i] == line[i]);
    }
    assert(input[line.len() as int] == 10);
    lemma_line_end_is(input, line.len() as int);
    assert(input.take(line.len() as int) =~= line);
}

/// What was not read as a request is never acted on.
pub proof fn only_requests_are_acted_on(parsed: Option<BrokerRequest>, r: ChannelAnswer)
    requires
        answers_request(parsed, r),
        r is Call,
    ensures
        parsed is Some,
{
}

} // verus!
